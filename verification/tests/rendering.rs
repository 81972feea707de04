use rdrand_test::{render_decimal, render_hex, WordWidth};

#[test]
fn hex_is_zero_padded_to_width() {
    assert_eq!(render_hex(0xff, 4), "00ff");
    assert_eq!(render_hex(0, 4), "0000");
    assert_eq!(render_hex(0x1abc, 4), "1abc");
    assert_eq!(render_hex(0xdead_beef, 8), "deadbeef");
    assert_eq!(render_hex(0x0123_4567_89ab_cdef, 16), "0123456789abcdef");
}

#[test]
fn hex_never_truncates_a_wide_value() {
    assert_eq!(render_hex(0x1ff, 2), "1ff");
    assert_eq!(render_hex(7, 0), "7");
    assert_eq!(render_hex(0, 0), "0");
}

#[test]
fn decimal_renders_without_leading_zeros() {
    assert_eq!(render_decimal(0), "0");
    assert_eq!(render_decimal(7), "7");
    assert_eq!(render_decimal(500), "500");
    assert_eq!(render_decimal(1234567890), "1234567890");
    assert_eq!(render_decimal(u64::MAX), "18446744073709551615");
}

#[test]
fn widths_expose_bits_and_nibbles() {
    assert_eq!(WordWidth::W16.size_bits(), 16);
    assert_eq!(WordWidth::W32.size_bits(), 32);
    assert_eq!(WordWidth::W64.size_bits(), 64);
    // One nibble renders four bits.
    for width in [WordWidth::W16, WordWidth::W32, WordWidth::W64] {
        assert_eq!(width.size_nibbles(), width.size_bits() / 4);
    }
}
