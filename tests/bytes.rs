use feo_cpu::bytes::{ByteExt, WordExt};

#[test]
fn has_bit_set() {
    let byte: u8 = 0x80;
    assert!(byte.has_bit_set(7));
    assert!(!byte.has_bit_set(0));
}

#[test]
fn set_bit() {
    let mut byte: u8 = 0xF0;
    byte.set_bit(0, true);
    byte.set_bit(1, false);
    byte.set_bit(3, true);
    byte.set_bit(7, false);
    byte.set_bit(6, true);

    assert_eq!(byte, 0b01111001);
}

#[test]
fn high_and_low() {
    assert_eq!(0xabcd_u16.lo(), 0xcd);
    assert_eq!(0xabcd_u16.hi(), 0xab);
    assert_eq!(0xff00_u16.lo(), 0x00);
    assert_eq!(0xff00_u16.hi(), 0xff);
}

#[test]
fn set_then_clear_restores_clear_bit() {
    for v in 0..=255u8 {
        for n in 0..8u8 {
            let mut b = v;
            b.set_bit(n, true);
            assert!(b.has_bit_set(n));
            b.set_bit(n, false);
            assert!(!b.has_bit_set(n));
            let mut expected = v;
            expected &= !(1u8 << n);
            assert_eq!(b, expected);
            if !v.has_bit_set(n) {
                assert_eq!(b, v);
            }
        }
    }
}

#[test]
fn split_join_is_lossless() {
    for v in [0u16, 1, 0x00ff, 0x0100, 0x1234, 0xabcd, 0xfffe, 0xffff] {
        assert_eq!(((v.hi() as u16) << 8) + v.lo() as u16, v);
    }
}
