use lava_operator::hash::ContentHash;

#[test]
fn digest_is_blake3() {
    assert_eq!(
        ContentHash::of(b"").hex(),
        "af1349b9f5f9a1a6a0404dea36dcc9499bcb25c9adc112b7cc9a93cae41f3262"
    );
    assert_eq!(ContentHash::of(b"abc").0, lava_outcome_chain::ContentHash::of(b"abc").0);
    assert_ne!(ContentHash::of(b"a"), ContentHash::of(b"b"));
}

#[test]
fn hex_is_that_of_the_digest_crate() {
    let mut bytes = [0u8; 32];
    for i in 0..32 {
        bytes[i] = (i * 37 + 5) as u8;
    }
    assert_eq!(ContentHash(bytes).hex(), lava_outcome_chain::ContentHash(bytes).hex());
    assert_eq!(ContentHash([0xAF; 32]).hex(), "af".repeat(32));
    assert_eq!(ContentHash([0x09; 32]).hex(), "09".repeat(32));
}

#[test]
fn genesis_is_all_zero() {
    assert_eq!(ContentHash::genesis().0, [0u8; 32]);
    assert!(ContentHash::genesis().is_genesis());
    for i in 0..32 {
        let mut bytes = [0u8; 32];
        bytes[i] = 1;
        assert!(!ContentHash(bytes).is_genesis());
    }
    assert!(!ContentHash::of(b"non-genesis").is_genesis());
}
