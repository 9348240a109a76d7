use gb_core::cpu::{FlagsRegister, Registers};

fn blank_registers() -> Registers {
    Registers { a: 0, b: 0, c: 0, d: 0, e: 0, f: FlagsRegister::from(0u8), h: 0, l: 0 }
}

#[test]
fn flags_round_trip_all_combinations() {
    for bits in 0u8..16 {
        let f = FlagsRegister {
            zero: bits & 8 != 0,
            subtract: bits & 4 != 0,
            half_carry: bits & 2 != 0,
            carry: bits & 1 != 0,
        };
        let packed: u8 = u8::from(f);
        assert_eq!(packed & 0x0F, 0);
        assert_eq!(FlagsRegister::from(packed), f);
    }
}

#[test]
fn flags_bit_positions() {
    let z = FlagsRegister { zero: true, subtract: false, half_carry: false, carry: false };
    let n = FlagsRegister { zero: false, subtract: true, half_carry: false, carry: false };
    let h = FlagsRegister { zero: false, subtract: false, half_carry: true, carry: false };
    let c = FlagsRegister { zero: false, subtract: false, half_carry: false, carry: true };
    assert_eq!(u8::from(z), 0x80);
    assert_eq!(u8::from(n), 0x40);
    assert_eq!(u8::from(h), 0x20);
    assert_eq!(u8::from(c), 0x10);
}

#[test]
fn unpack_ignores_low_nibble() {
    for byte in 0u16..=255 {
        let byte = byte as u8;
        let f = FlagsRegister::from(byte);
        let packed: u8 = u8::from(f);
        assert_eq!(packed, byte & 0xF0);
        assert_eq!(packed & 0x0F, 0);
    }
}

#[test]
fn pair_round_trip_bc_de_hl() {
    for v in [0u16, 1, 0x00FF, 0x0100, 0x1234, 0xABCD, 0xFF00, 0xFFFF] {
        let mut r = blank_registers();
        r.set_bc(v);
        assert_eq!(r.get_bc(), v);
        r.set_de(v);
        assert_eq!(r.get_de(), v);
        r.set_hl(v);
        assert_eq!(r.get_hl(), v);
    }
}

#[test]
fn pair_big_endian_layout() {
    let mut r = blank_registers();
    r.set_bc(0x1234);
    assert_eq!((r.b, r.c), (0x12, 0x34));
    r.d = 0xAB;
    r.e = 0xCD;
    assert_eq!(r.get_de(), 0xABCD);
    r.set_hl(0xBEEF);
    assert_eq!((r.h, r.l), (0xBE, 0xEF));
}

#[test]
fn af_low_nibble_always_clear() {
    for v in [0u16, 0x000F, 0x12FF, 0xFFFF, 0x00F0, 0x5A5A] {
        let mut r = blank_registers();
        r.set_af(v);
        assert_eq!(r.get_af() & 0x0F, 0);
        assert_eq!(r.get_af(), v & 0xFFF0);
        assert_eq!(r.a, (v >> 8) as u8);
    }
}
