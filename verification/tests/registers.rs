use sm83_regs::{Flags, Registers};

fn fresh() -> Registers {
    Registers {
        f: Flags::from_bits(0x00),
        a: 0x11,
        c: 0x22,
        b: 0x33,
        e: 0x44,
        d: 0x55,
        l: 0x66,
        h: 0x77,
        pc: 0x8899,
        sp: 0xAABB,
    }
}

#[test]
fn bc_round_trips_every_value() {
    let mut r = fresh();
    for v in 0..=0xFFFFu16 {
        r.set_bc(v);
        assert_eq!(r.bc(), v);
    }
}

#[test]
fn de_round_trips_every_value() {
    let mut r = fresh();
    for v in 0..=0xFFFFu16 {
        r.set_de(v);
        assert_eq!(r.de(), v);
    }
}

#[test]
fn hl_round_trips_every_value() {
    let mut r = fresh();
    for v in 0..=0xFFFFu16 {
        r.set_hl(v);
        assert_eq!(r.hl(), v);
    }
}

#[test]
fn af_round_trips_with_truncation() {
    let mut r = fresh();
    for v in 0..=0xFFFFu16 {
        r.set_af(v);
        assert_eq!(r.af(), v & 0xFFF0);
    }
}

#[test]
fn pairs_split_into_their_bytes() {
    let mut r = fresh();
    r.set_bc(0x1234);
    assert_eq!(r.b, 0x12);
    assert_eq!(r.c, 0x34);
    r.set_de(0x5678);
    assert_eq!(r.d, 0x56);
    assert_eq!(r.e, 0x78);
    r.set_hl(0x9ABC);
    assert_eq!(r.h, 0x9A);
    assert_eq!(r.l, 0xBC);
    r.set_af(0xDEF1);
    assert_eq!(r.a, 0xDE);
    assert_eq!(r.f.into_bits(), 0xF0);
}

#[test]
fn set_af_leaves_other_fields_unchanged() {
    let mut r = fresh();
    let before = r.clone();
    r.set_af(0x1234);
    assert_eq!(r.b, before.b);
    assert_eq!(r.c, before.c);
    assert_eq!(r.d, before.d);
    assert_eq!(r.e, before.e);
    assert_eq!(r.h, before.h);
    assert_eq!(r.l, before.l);
    assert_eq!(r.pc, before.pc);
    assert_eq!(r.sp, before.sp);
}

#[test]
fn set_bc_leaves_other_fields_unchanged() {
    let mut r = fresh();
    let before = r.clone();
    r.set_bc(0x1234);
    assert!(r.f == before.f);
    assert_eq!(r.a, before.a);
    assert_eq!(r.d, before.d);
    assert_eq!(r.e, before.e);
    assert_eq!(r.h, before.h);
    assert_eq!(r.l, before.l);
    assert_eq!(r.pc, before.pc);
    assert_eq!(r.sp, before.sp);
}

#[test]
fn set_de_leaves_other_fields_unchanged() {
    let mut r = fresh();
    let before = r.clone();
    r.set_de(0x1234);
    assert!(r.f == before.f);
    assert_eq!(r.a, before.a);
    assert_eq!(r.b, before.b);
    assert_eq!(r.c, before.c);
    assert_eq!(r.h, before.h);
    assert_eq!(r.l, before.l);
    assert_eq!(r.pc, before.pc);
    assert_eq!(r.sp, before.sp);
}

#[test]
fn set_hl_leaves_other_fields_unchanged() {
    let mut r = fresh();
    let before = r.clone();
    r.set_hl(0x1234);
    assert!(r.f == before.f);
    assert_eq!(r.a, before.a);
    assert_eq!(r.b, before.b);
    assert_eq!(r.c, before.c);
    assert_eq!(r.d, before.d);
    assert_eq!(r.e, before.e);
    assert_eq!(r.pc, before.pc);
    assert_eq!(r.sp, before.sp);
}

#[test]
fn writing_one_byte_field_leaves_the_rest_unchanged() {
    let mut r = fresh();
    let before = r.clone();
    r.a = 0xEE;
    assert!(r.f == before.f);
    assert_eq!(r.b, before.b);
    assert_eq!(r.c, before.c);
    assert_eq!(r.d, before.d);
    assert_eq!(r.e, before.e);
    assert_eq!(r.h, before.h);
    assert_eq!(r.l, before.l);
    assert_eq!(r.pc, before.pc);
    assert_eq!(r.sp, before.sp);

    let mut r = fresh();
    let before = r.clone();
    r.pc = 0x4321;
    assert!(r.f == before.f);
    assert_eq!(r.a, before.a);
    assert_eq!(r.b, before.b);
    assert_eq!(r.c, before.c);
    assert_eq!(r.d, before.d);
    assert_eq!(r.e, before.e);
    assert_eq!(r.h, before.h);
    assert_eq!(r.l, before.l);
    assert_eq!(r.sp, before.sp);
}

#[test]
fn accumulator_and_flags_scenario() {
    let mut r = fresh();
    r.a = 0x01;
    r.f = Flags::from_bits(Flags::Z | Flags::C);
    assert_eq!(r.af(), 0x0190);
    r.set_af(0x1234);
    assert_eq!(r.a, 0x12);
    assert_eq!(r.f.into_bits(), 0x30);
}

#[test]
fn pc_and_sp_are_plain_fields() {
    let mut r = fresh();
    r.pc = 0x0100;
    r.sp = 0xFFFE;
    assert_eq!(r.pc, 0x0100);
    assert_eq!(r.sp, 0xFFFE);
}
