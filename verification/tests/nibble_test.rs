use synapse::nibble::{mask, NIBBLE_MAX};

#[test]
fn test_mask_keeps_low_four_bits() {
    for v in 0..=255u8 {
        assert_eq!(mask(v), v % 16);
        assert!(mask(v) <= NIBBLE_MAX);
    }
    assert_eq!(mask(0x0F), 15);
    assert_eq!(mask(0x10), 0);
    assert_eq!(mask(0xA7), 7);
}
