//! The `size` query parameter of the download endpoint: strip any "MB"
//! suffix, read the rest as an unsigned decimal number, fall back to the
//! default when the parameter is absent or unreadable, and clamp at the
//! maximum the service is willing to serve.

use vstd::prelude::*;

verus! {

/// A character is an ASCII decimal digit.
pub open spec fn is_digit(c: char) -> bool {
    48 <= c as u32 && c as u32 <= 57
}

/// The numeric value of an ASCII decimal digit.
pub open spec fn digit_val(c: char) -> int {
    c as u32 - 48
}

/// Every character of the sequence is an ASCII decimal digit.
pub open spec fn all_digits(s: Seq<char>) -> bool {
    forall|i: int| 0 <= i < s.len() ==> is_digit(#[trigger] s[i])
}

/// The value of a digit sequence read as a base-10 numeral.
pub open spec fn digits_val(s: Seq<char>) -> int
    decreases s.len(),
{
    if s.len() == 0 {
        0
    } else {
        digits_val(s.drop_last()) * 10 + digit_val(s.last())
    }
}

/// What replacing every occurrence of `"MB"` with nothing leaves behind:
/// scan left to right, dropping each non-overlapping occurrence.
pub open spec fn strip_mb(s: Seq<char>) -> Seq<char>
    decreases s.len(),
{
    if s.len() < 2 {
        s
    } else if s[0] == 'M' && s[1] == 'B' {
        strip_mb(s.skip(2))
    } else {
        seq![s[0]] + strip_mb(s.skip(1))
    }
}

/// The digit part of a numeral: everything after an optional leading plus
/// sign, which unsigned decimal parsing accepts.
pub open spec fn numeral_body(s: Seq<char>) -> Seq<char> {
    if s.len() >= 1 && s[0] == '+' {
        s.skip(1)
    } else {
        s
    }
}

/// Whether the sequence is accepted as an unsigned decimal numeral that
/// fits in `usize`: an optional leading plus sign, then at least one
/// digit, nothing else, and a value no greater than `usize::MAX`.
pub open spec fn parses_as_usize(s: Seq<char>) -> bool {
    &&& numeral_body(s).len() >= 1
    &&& all_digits(numeral_body(s))
    &&& digits_val(numeral_body(s)) <= usize::MAX
}

/// The value an accepted numeral denotes.
pub open spec fn parsed_value(s: Seq<char>) -> int {
    digits_val(numeral_body(s))
}

/// The view of an optional borrowed string.
pub open spec fn opt_str_view(q: Option<&str>) -> Option<Seq<char>> {
    match q {
        Option::None => Option::None,
        Option::Some(s) => Option::Some(s@),
    }
}

/// The download size, in megabytes, that a request settles on: the `size`
/// value with its "MB" suffixes stripped and parsed as an unsigned number,
/// the default when it is absent or unparsable, and never more than the
/// maximum.
pub open spec fn effective_size_mb(q: Option<Seq<char>>) -> int {
    match q {
        Option::None => crate::DEFAULT_SIZE_MB as int,
        Option::Some(s) => {
            let t = strip_mb(s);
            if parses_as_usize(t) {
                if parsed_value(t) <= crate::MAX_SIZE_MB as int {
                    parsed_value(t)
                } else {
                    crate::MAX_SIZE_MB as int
                }
            } else {
                crate::DEFAULT_SIZE_MB as int
            }
        },
    }
}

/// The value of a digit sequence is never negative.
proof fn lemma_digits_val_nonneg(s: Seq<char>)
    requires
        all_digits(s),
    ensures
        digits_val(s) >= 0,
    decreases s.len(),
{
    if s.len() > 0 {
        assert(all_digits(s.drop_last())) by {
            assert(forall|i: int|
                0 <= i < s.drop_last().len() ==> s.drop_last()[i] == #[trigger] s[i]);
        }
        lemma_digits_val_nonneg(s.drop_last());
    }
}

/// Extending a numeral by one digit multiplies its value by ten and adds
/// the digit.
proof fn lemma_digits_val_push(s: Seq<char>, c: char)
    ensures
        digits_val(s.push(c)) == digits_val(s) * 10 + digit_val(c),
{
    assert(s.push(c).drop_last() =~= s);
    assert(s.push(c).last() == c);
}

/// A prefix of a digit sequence never has a larger value than the whole.
proof fn lemma_digits_val_prefix_le(s: Seq<char>, k: int)
    requires
        all_digits(s),
        0 <= k <= s.len(),
    ensures
        digits_val(s.take(k)) <= digits_val(s),
    decreases s.len(),
{
    if k == s.len() {
        assert(s.take(k) =~= s);
    } else {
        assert(all_digits(s.drop_last())) by {
            assert(forall|i: int|
                0 <= i < s.drop_last().len() ==> s.drop_last()[i] == #[trigger] s[i]);
        }
        assert(s.take(k) =~= s.drop_last().take(k));
        lemma_digits_val_prefix_le(s.drop_last(), k);
        lemma_digits_val_nonneg(s.drop_last());
        assert(digit_val(s.last()) >= 0);
        assert(digits_val(s) >= digits_val(s.drop_last())) by {
            assert(digits_val(s.drop_last()) * 10 >= digits_val(s.drop_last())) by (nonlinear_arith)
                requires digits_val(s.drop_last()) >= 0;
        }
    }
}

/// Unfolding `strip_mb` one step into a suffix: a matched "MB" at the front
/// of the suffix is dropped.
proof fn lemma_strip_mb_match(s: Seq<char>, i: int)
    requires
        0 <= i,
        i + 1 < s.len(),
        s[i] == 'M',
        s[i + 1] == 'B',
    ensures
        strip_mb(s.skip(i)) == strip_mb(s.skip(i + 2)),
{
    let t = s.skip(i);
    assert(t.len() >= 2);
    assert(t[0] == 'M' && t[1] == 'B');
    assert(t.skip(2) =~= s.skip(i + 2));
}

/// Unfolding `strip_mb` one step into a suffix: an unmatched front
/// character is kept.
proof fn lemma_strip_mb_keep(s: Seq<char>, i: int)
    requires
        0 <= i < s.len(),
        !(s[i] == 'M' && i + 1 < s.len() && s[i + 1] == 'B'),
    ensures
        strip_mb(s.skip(i)) == seq![s[i]] + strip_mb(s.skip(i + 1)),
{
    let t = s.skip(i);
    assert(t[0] == s[i]);
    if t.len() == 1 {
        assert(strip_mb(t) == t);
        assert(s.skip(i + 1) =~= Seq::<char>::empty());
        assert(strip_mb(s.skip(i + 1)) == Seq::<char>::empty());
        assert(t =~= seq![s[i]] + Seq::<char>::empty());
    } else {
        assert(t[1] == s[i + 1]);
        assert(!(t[0] == 'M' && t[1] == 'B'));
        assert(t.skip(1) =~= s.skip(i + 1));
    }
}

/// Drop every "MB" occurrence from a string, left to right.
fn strip_mb_chars(s: &str) -> (r: Vec<char>)
    ensures
        r@ == strip_mb(s@),
{
    let n: usize = s.unicode_len();
    let mut r: Vec<char> = Vec::new();
    let mut i: usize = 0;
    proof {
        assert(s@.skip(0) =~= s@);
        assert(r@ + strip_mb(s@) =~= strip_mb(s@));
    }
    while i < n
        invariant
            n == s@.len(),
            i <= n,
            strip_mb(s@) == r@ + strip_mb(s@.skip(i as int)),
        decreases n - i,
    {
        let c = s.get_char(i);
        if c == 'M' && i + 1 < n && s.get_char(i + 1) == 'B' {
            proof {
                lemma_strip_mb_match(s@, i as int);
            }
            i = i + 2;
        } else {
            r.push(c);
            proof {
                lemma_strip_mb_keep(s@, i as int);
                assert(r@ + strip_mb(s@.skip(i + 1)) =~= (r@.drop_last() + (seq![c]
                    + strip_mb(s@.skip(i + 1)))));
            }
            i = i + 1;
        }
    }
    proof {
        assert(s@.skip(n as int) =~= Seq::<char>::empty());
        assert(strip_mb(s@) =~= r@);
    }
    r
}

/// Read a character sequence as an unsigned decimal number, exactly as
/// unsigned integer parsing does: an optional leading plus sign, then one
/// or more digits; anything else, or a value over `usize::MAX`, is refused.
fn parse_usize_chars(v: &Vec<char>) -> (r: Option<usize>)
    ensures
        match r {
            Option::Some(u) => parses_as_usize(v@) && u as int == parsed_value(v@),
            Option::None => !parses_as_usize(v@),
        },
{
    let n: usize = v.len();
    if n == 0 {
        return Option::None;
    }
    let start: usize = if v[0] == '+' {
        1
    } else {
        0
    };
    let ghost body = numeral_body(v@);
    proof {
        assert(body =~= v@.skip(start as int));
    }
    if start == n {
        return Option::None;
    }
    let mut val: usize = 0;
    let mut i: usize = start;
    while i < n
        invariant
            start <= i <= n,
            n == v@.len(),
            body == v@.skip(start as int),
            body == numeral_body(v@),
            all_digits(body.take(i - start)),
            val as int == digits_val(body.take(i - start)),
        decreases n - i,
    {
        let c = v[i];
        let u: u32 = c as u32;
        let ghost prefix = body.take(i - start);
        if u < 48 || u > 57 {
            proof {
                assert(body[i - start] == c);
                assert(!is_digit(c));
            }
            return Option::None;
        }
        let d: usize = (u - 48) as usize;
        proof {
            assert(body[i - start] == c);
            assert(prefix.push(c) =~= body.take(i + 1 - start));
            lemma_digits_val_push(prefix, c);
        }
        let m: usize = match val.checked_mul(10) {
            Option::Some(m) => m,
            Option::None => {
                proof {
                    assert(digits_val(body.take(i + 1 - start)) > usize::MAX) by {
                        assert(digits_val(prefix) * 10 > usize::MAX);
                        assert(digit_val(c) >= 0);
                    }
                    if all_digits(body) {
                        lemma_digits_val_prefix_le(body, i + 1 - start);
                    }
                }
                return Option::None;
            },
        };
        let nv: usize = match m.checked_add(d) {
            Option::Some(nv) => nv,
            Option::None => {
                proof {
                    assert(digits_val(body.take(i + 1 - start)) > usize::MAX);
                    if all_digits(body) {
                        lemma_digits_val_prefix_le(body, i + 1 - start);
                    }
                }
                return Option::None;
            },
        };
        proof {
            assert(forall|j: int|
                0 <= j < prefix.push(c).len() ==> is_digit(#[trigger] prefix.push(c)[j]));
        }
        val = nv;
        i = i + 1;
    }
    proof {
        assert(body.take(i - start) =~= body);
    }
    Option::Some(val)
}

/// The download size a request settles on, in megabytes: the `size` value
/// with every "MB" stripped and parsed as an unsigned number, the default
/// when it is absent or unparsable, clamped at the maximum.
pub fn parse_size_mb(size_param: Option<&str>) -> (n: usize)
    ensures
        n as int == effective_size_mb(opt_str_view(size_param)),
{
    match size_param {
        Option::None => crate::DEFAULT_SIZE_MB,
        Option::Some(s) => {
            let stripped = strip_mb_chars(s);
            match parse_usize_chars(&stripped) {
                Option::None => crate::DEFAULT_SIZE_MB,
                Option::Some(v) => {
                    if v > crate::MAX_SIZE_MB {
                        crate::MAX_SIZE_MB
                    } else {
                        v
                    }
                },
            }
        },
    }
}

/// Whatever the request said, the settled size lies between zero and the
/// maximum the service serves.
pub proof fn lemma_effective_size_in_range(q: Option<Seq<char>>)
    ensures
        0 <= effective_size_mb(q) <= crate::MAX_SIZE_MB,
{
    match q {
        Option::None => {},
        Option::Some(s) => {
            let t = strip_mb(s);
            if parses_as_usize(t) {
                lemma_digits_val_nonneg(numeral_body(t));
            }
        },
    }
}

} // verus!
