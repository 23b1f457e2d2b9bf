use feo_cpu::cpu::{Clock, Registers};

#[test]
fn new_registers_are_zero() {
    let r = Registers::new();
    assert_eq!((r.a, r.f, r.b, r.c, r.d, r.e, r.h, r.l), (0, 0, 0, 0, 0, 0, 0, 0));
    assert_eq!((r.pc, r.sp), (0, 0));
}

#[test]
fn pair_reads_join_halves() {
    let mut r = Registers::new();
    r.b = 0x12;
    r.c = 0x34;
    r.d = 0xab;
    r.e = 0xcd;
    r.h = 0xff;
    r.l = 0x00;
    assert_eq!(r.read_bc(), 0x1234);
    assert_eq!(r.read_de(), 0xabcd);
    assert_eq!(r.read_hl(), 0xff00);
}

#[test]
fn pair_writes_split_value() {
    let mut r = Registers::new();
    r.write_bc(0xbeef);
    r.write_de(0x0102);
    r.write_hl(0x8000);
    assert_eq!((r.b, r.c), (0xbe, 0xef));
    assert_eq!((r.d, r.e), (0x01, 0x02));
    assert_eq!((r.h, r.l), (0x80, 0x00));
    assert_eq!(r.read_bc(), 0xbeef);
    assert_eq!(r.read_de(), 0x0102);
    assert_eq!(r.read_hl(), 0x8000);
    assert_eq!(r.a, 0);
    assert_eq!(r.sp, 0);
}

#[test]
fn clock_tick_and_reset() {
    let mut c = Clock::new();
    assert_eq!((c.m, c.t), (0, 0));
    c.tick(3);
    assert_eq!((c.m, c.t), (3, 12));
    c.tick(2);
    assert_eq!((c.m, c.t), (5, 20));
    c.reset();
    assert_eq!((c.m, c.t), (0, 0));
}

#[test]
fn clock_wraps() {
    let mut c = Clock::new();
    c.m = u32::MAX;
    c.t = u32::MAX - 1;
    c.tick(1);
    assert_eq!((c.m, c.t), (0, 2));
}
