use gptwrap::copy::CopyProgress;

#[test]
fn chunks_accumulate_until_end_of_input() {
    let mut p = CopyProgress::new(150_000);
    assert!(!p.record_chunk(65_536));
    assert_eq!(p.copied, 65_536);
    assert!(!p.record_chunk(65_536));
    assert_eq!(p.copied, 131_072);
    assert!(!p.record_chunk(18_928));
    assert_eq!(p.copied, 150_000);
    assert!(p.is_exact());
    // A zero-byte read is end of input.
    assert!(p.record_chunk(0));
    assert_eq!(p.copied, 150_000);
}

#[test]
fn short_input_is_not_exact() {
    let mut p = CopyProgress::new(1_000);
    assert!(!p.record_chunk(999));
    assert!(p.record_chunk(0));
    assert!(!p.is_exact());
    assert_eq!(p.expected, 1_000);
}
