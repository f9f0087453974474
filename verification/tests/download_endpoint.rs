use speedtest::download::{download_body, download_headers};
use speedtest::BYTES_PER_MB;

#[test]
fn one_megabyte_request_gets_one_megabyte() {
    let body = download_body(Some("1MB"));
    assert_eq!(body.len(), 1_048_576);
}

#[test]
fn oversized_request_gets_the_clamped_body() {
    let body = download_body(Some("500"));
    assert_eq!(body.len(), 100 * 1_048_576);
}

#[test]
fn omitted_size_gets_the_default_body() {
    let body = download_body(None);
    assert_eq!(body.len(), 10 * 1_048_576);
}

#[test]
fn body_is_zero_filled() {
    let body = download_body(Some("2"));
    assert_eq!(body.len(), 2 * BYTES_PER_MB);
    assert!(body.iter().all(|&b| b == 0));
}

#[test]
fn repeated_requests_get_identical_lengths() {
    let first = download_body(Some("3MB"));
    let second = download_body(Some("3MB"));
    assert_eq!(first.len(), second.len());
    assert_eq!(first.len(), 3 * 1_048_576);
    let third = download_body(None);
    let fourth = download_body(None);
    assert_eq!(third.len(), fourth.len());
}

#[test]
fn responses_carry_cache_defeating_headers() {
    let headers = download_headers();
    assert_eq!(headers.len(), 4);
    assert_eq!(headers[0].0, "Content-Type");
    assert_eq!(headers[0].1, "application/octet-stream");
    assert_eq!(headers[1].0, "Cache-Control");
    assert_eq!(headers[1].1, "no-store, no-cache, must-revalidate");
    assert_eq!(headers[2].0, "Pragma");
    assert_eq!(headers[2].1, "no-cache");
    assert_eq!(headers[3].0, "Expires");
    assert_eq!(headers[3].1, "0");
}
