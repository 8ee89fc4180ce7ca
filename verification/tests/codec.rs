use zlib::{compress, uncompress};

#[test]
fn valid() {
    let d = vec![0xde, 0xad, 0xd0, 0x0d];
    let c = compress(&d);
    assert!(uncompress(&c) == Some(d));
}

#[test]
fn invalid() {
    let d = vec![0, 0, 0, 0];
    assert!(uncompress(&d).is_none());
}

#[test]
fn empty() {
    let d: Vec<u8> = vec![];
    assert!(uncompress(&d).is_none());
    let c = compress(&d);
    assert!(uncompress(&c) == Some(d));
}

#[test]
fn compressed_form_is_never_empty() {
    assert!(!compress(&[]).is_empty());
    assert!(!compress(&[7]).is_empty());
}

#[test]
fn round_trip_assorted_inputs() {
    let inputs: Vec<Vec<u8>> = vec![
        vec![0],
        vec![255],
        vec![1, 2, 3, 4, 5, 6, 7, 8, 9, 10],
        (0..=255u8).collect(),
        b"the quick brown fox jumps over the lazy dog".to_vec(),
    ];
    for d in inputs {
        let c = compress(&d);
        assert!(!c.is_empty());
        assert!(uncompress(&c) == Some(d));
    }
}

#[test]
fn invalid_inputs_of_various_lengths() {
    for n in [1usize, 2, 3, 8, 100, 5000] {
        let d = vec![0u8; n];
        assert!(uncompress(&d).is_none());
    }
    // A stream with a valid-looking header but a truncated body.
    let c = compress(&[1, 2, 3, 4, 5, 6, 7, 8]);
    assert!(uncompress(&c[..c.len() - 1]).is_none());
}

#[test]
fn growth_retry_reaches_large_payloads() {
    // Decompressed size far above the 4096-byte initial capacity, so the
    // doubling retry path must run several times.
    let mut d: Vec<u8> = Vec::new();
    for i in 0..1_048_576usize {
        d.push((i % 251) as u8);
    }
    let c = compress(&d);
    assert!(c.len() < d.len());
    assert!(uncompress(&c) == Some(d));
}

#[test]
fn payload_just_past_initial_capacity() {
    let d = vec![0x5a; 4097];
    let c = compress(&d);
    assert!(uncompress(&c) == Some(d));
}

#[test]
fn repeated_calls_agree() {
    let d = b"repeatable".to_vec();
    let c1 = compress(&d);
    let c2 = compress(&d);
    assert_eq!(c1, c2);
    let u1 = uncompress(&c1);
    let u2 = uncompress(&c1);
    assert_eq!(u1, u2);
    let bad = vec![0u8; 16];
    assert_eq!(uncompress(&bad), uncompress(&bad));
}
