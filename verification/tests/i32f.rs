use kotei::I32F;

type Unit = I32F<0>;

// The exponent type parameter is the exponent's two's-complement pattern:
// 0xFFFF_FFF8 stands for -8, 0xFFFF_FFFC for -4.
type Frac8 = I32F<0xFFFF_FFF8>;
type Frac4 = I32F<0xFFFF_FFFC>;
type Kilo = I32F<10>;

#[test]
fn significand_round_trip() {
    for s in [0i32, 1, -1, 300, -300, 0x1234_5678, i32::MIN, i32::MAX] {
        assert_eq!(Unit::new(s).significand(), s);
        assert_eq!(Frac8::new(s).significand(), s);
        assert_eq!(Kilo::new(s).significand(), s);
    }
}

#[test]
fn bit_round_trip() {
    for b in [0u32, 1, 0x8000_0000, 0xFFFF_FFFF, 0xDEAD_BEEF] {
        assert_eq!(Unit::from_bits(b).to_bits(), b);
    }
}

#[test]
fn bits_reinterpret_two_complement() {
    assert_eq!(Unit::from_bits(0xFFFF_FFFF).significand(), -1);
    assert_eq!(Unit::from_bits(0x8000_0000).significand(), i32::MIN);
    assert_eq!(Unit::new(-1).to_bits(), 0xFFFF_FFFF);
    assert_eq!(Unit::new(i32::MIN).to_bits(), 0x8000_0000);
}

#[test]
fn be_byte_round_trip() {
    for s in [0i32, 1, -1, 300, -70000, i32::MIN, i32::MAX] {
        let x = Frac8::new(s);
        assert!(Frac8::from_be_bytes(x.to_be_bytes()) == x);
    }
}

#[test]
fn le_byte_round_trip() {
    for s in [0i32, 1, -1, 300, -70000, i32::MIN, i32::MAX] {
        let x = Frac8::new(s);
        assert!(Frac8::from_le_bytes(x.to_le_bytes()) == x);
    }
}

#[test]
fn ne_byte_round_trip() {
    for s in [0i32, 1, -1, 300, -70000, i32::MIN, i32::MAX] {
        let x = Frac8::new(s);
        assert!(Frac8::from_ne_bytes(x.to_ne_bytes()) == x);
    }
}

#[test]
fn byte_encodings_exact() {
    let x = Unit::new(0x1234_5678);
    assert_eq!(x.to_be_bytes(), [0x12, 0x34, 0x56, 0x78]);
    assert_eq!(x.to_le_bytes(), [0x78, 0x56, 0x34, 0x12]);
    let neg = Unit::new(-2);
    assert_eq!(neg.to_be_bytes(), [0xFF, 0xFF, 0xFF, 0xFE]);
    assert_eq!(neg.to_le_bytes(), [0xFE, 0xFF, 0xFF, 0xFF]);
    assert_eq!(Unit::from_be_bytes([0x01, 0x02, 0x03, 0x04]).significand(), 0x0102_0304);
    assert_eq!(Unit::from_le_bytes([0x04, 0x03, 0x02, 0x01]).significand(), 0x0102_0304);
}

#[test]
fn native_order_matches_platform() {
    let x = Unit::new(0x0102_0304);
    assert_eq!(x.to_ne_bytes(), 0x0102_0304i32.to_ne_bytes());
    assert_eq!(
        Unit::from_ne_bytes([9, 8, 7, 6]).significand(),
        i32::from_ne_bytes([9, 8, 7, 6])
    );
}

#[test]
fn cross_order_distinct() {
    let x = Unit::new(0x0102_0304);
    let be = x.to_be_bytes();
    let le = x.to_le_bytes();
    let mut reversed = le;
    reversed.reverse();
    assert_eq!(be, reversed);
    assert_ne!(be, le);
}

#[test]
fn byte_symmetric_pattern_encodes_alike() {
    // 0x0110_1001 reads the same forwards and backwards, byte for byte.
    let x = Unit::new(0x0110_1001);
    assert_eq!(x.to_be_bytes(), x.to_le_bytes());
}

#[test]
fn exponent_identity() {
    for s in [0i32, 1, -1, i32::MIN, i32::MAX] {
        assert_eq!(Unit::new(s).exponent(), 0);
        assert_eq!(Frac8::new(s).exponent(), -8);
        assert_eq!(Frac4::new(s).exponent(), -4);
        assert_eq!(Kilo::new(s).exponent(), 10);
    }
}

#[test]
fn boundary_constants() {
    assert_eq!(Frac8::min().significand(), -2147483648);
    assert_eq!(Frac8::max().significand(), 2147483647);
    assert_eq!(Frac8::BITS, 32);
}

#[test]
fn immutability_of_copies() {
    let original = Frac8::new(300);
    let copy = original;
    let _ = original.to_be_bytes();
    let _ = original.to_bits();
    let _ = original.binary_string();
    let _ = Frac8::new(-300);
    assert_eq!(copy.significand(), 300);
    assert_eq!(copy.exponent(), -8);
    assert!(copy == original);
}
