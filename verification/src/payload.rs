//! Synthetic payloads: the zero-filled byte sequence a download response
//! carries, and the process-lifetime buffer the combined speed test reads.

use vstd::prelude::*;

verus! {

/// A byte sequence of exactly the requested number of megabytes, filled
/// with zeroes; the caller has already clamped the size, so there is no
/// error path.
pub fn generate_payload(size_mb: usize) -> (p: Vec<u8>)
    requires
        size_mb <= crate::MAX_SIZE_MB,
    ensures
        p@.len() == size_mb * crate::BYTES_PER_MB,
        forall|i: int| 0 <= i < p@.len() ==> p@[i] == 0,
{
    let total: usize = size_mb * crate::BYTES_PER_MB;
    let mut p: Vec<u8> = Vec::new();
    while p.len() < total
        invariant
            p@.len() <= total,
            forall|i: int| 0 <= i < p@.len() ==> p@[i] == 0,
        decreases total - p@.len(),
    {
        p.push(0);
    }
    p
}

/// The single byte region, created once at service start, that the
/// combined speed test repeatedly "transmits". It is never written after
/// creation, so it is shared without a lock; only its length is ever read.
pub struct SharedBuffer {
    data: Vec<u8>,
}

impl SharedBuffer {
    /// The length of the region in bytes.
    pub closed spec fn spec_len(&self) -> nat {
        self.data@.len()
    }

    /// A fresh one-megabyte region of zeroes.
    pub fn new() -> (b: SharedBuffer)
        ensures
            b.spec_len() == crate::BYTES_PER_MB,
    {
        SharedBuffer { data: generate_payload(1) }
    }

    /// How many bytes one pass over the buffer moves.
    pub fn len(&self) -> (n: usize)
        ensures
            n == self.spec_len(),
    {
        self.data.len()
    }
}

} // verus!
