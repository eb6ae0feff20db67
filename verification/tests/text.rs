use kotei::I32F;

type Unit = I32F<0>;
type Frac8 = I32F<0xFFFF_FFF8>;
type Frac4 = I32F<0xFFFF_FFFC>;

#[test]
fn debug_rendering() {
    let x = Frac8::new(300);
    let text = x.debug_string();
    assert_eq!(text, "I32F<-8>(300)");
    assert!(text.contains("-8"));
    assert!(text.contains("300"));
    assert_ne!(text, Frac4::new(300).debug_string());
}

#[test]
fn debug_rendering_edges() {
    assert_eq!(Unit::new(0).debug_string(), "I32F<0>(0)");
    assert_eq!(Unit::new(-2147483648).debug_string(), "I32F<0>(-2147483648)");
    assert_eq!(I32F::<2147483647>::new(-1).debug_string(), "I32F<2147483647>(-1)");
    assert_eq!(I32F::<0x8000_0000>::new(7).debug_string(), "I32F<-2147483648>(7)");
}

#[test]
fn radix_rendering_all_bits_set() {
    let x = Unit::new(-1);
    assert_eq!(x.binary_string(), "1".repeat(32));
    assert_eq!(x.upper_hex_string(), "FFFFFFFF");
    assert_eq!(x.lower_hex_string(), "ffffffff");
    assert_eq!(x.octal_string(), "37777777777");
}

#[test]
fn radix_rendering_matches_u32() {
    for s in [0i32, 1, 8, 300, -300, 0x1234_5678, i32::MIN, i32::MAX] {
        let x = Unit::new(s);
        let bits = x.to_bits();
        assert_eq!(x.binary_string(), format!("{:b}", bits));
        assert_eq!(x.octal_string(), format!("{:o}", bits));
        assert_eq!(x.lower_hex_string(), format!("{:x}", bits));
        assert_eq!(x.upper_hex_string(), format!("{:X}", bits));
    }
}

#[test]
fn radix_rendering_zero() {
    let x = Unit::new(0);
    assert_eq!(x.binary_string(), "0");
    assert_eq!(x.octal_string(), "0");
    assert_eq!(x.lower_hex_string(), "0");
    assert_eq!(x.upper_hex_string(), "0");
}
