use hostbridge::abi::{AbiParam, AbiRet, AbiWord, AbiWordKind};

#[test]
fn roundtrip_i8() {
    let w = <i8 as AbiRet>::convert(-5i8).unwrap();
    assert_eq!(w, AbiWord::W32(-5));
    assert_eq!(<i8 as AbiParam>::convert(w), -5i8);
}

#[test]
fn roundtrip_i16() {
    let w = <i16 as AbiRet>::convert(-30000i16).unwrap();
    assert_eq!(w, AbiWord::W32(-30000));
    assert_eq!(<i16 as AbiParam>::convert(w), -30000i16);
}

#[test]
fn roundtrip_i32() {
    let w = <i32 as AbiRet>::convert(i32::MIN).unwrap();
    assert_eq!(<i32 as AbiParam>::convert(w), i32::MIN);
}

#[test]
fn roundtrip_u8() {
    let w = <u8 as AbiRet>::convert(0xFFu8).unwrap();
    assert_eq!(w, AbiWord::W32(0xFF));
    assert_eq!(<u8 as AbiParam>::convert(w), 0xFFu8);
}

#[test]
fn roundtrip_u16() {
    let w = <u16 as AbiRet>::convert(0xFFFFu16).unwrap();
    assert_eq!(<u16 as AbiParam>::convert(w), 0xFFFFu16);
}

#[test]
fn roundtrip_u32_reinterprets_sign() {
    let x: u32 = 0xDEAD_BEEF;
    let w = <u32 as AbiRet>::convert(x).unwrap();
    assert!(matches!(w, AbiWord::W32(v) if v < 0));
    assert_eq!(<u32 as AbiParam>::convert(w), x);
}

#[test]
fn roundtrip_i64() {
    let w = <i64 as AbiRet>::convert(i64::MIN).unwrap();
    assert_eq!(w, AbiWord::W64(i64::MIN));
    assert_eq!(<i64 as AbiParam>::convert(w), i64::MIN);
}

#[test]
fn roundtrip_u64_reinterprets_sign() {
    let x: u64 = 0xDEAD_BEEF_DEAD_BEEF;
    let w = <u64 as AbiRet>::convert(x).unwrap();
    assert!(matches!(w, AbiWord::W64(v) if v < 0));
    assert_eq!(<u64 as AbiParam>::convert(w), x);
}

#[test]
fn unit_return_occupies_no_word() {
    assert_eq!(<() as AbiRet>::convert(()), None);
    assert!(<() as AbiRet>::codegen_tys().is_empty());
}

#[test]
fn word_categories_are_fixed() {
    assert_eq!(<i8 as AbiParam>::codegen_ty(), AbiWordKind::K32);
    assert_eq!(<i16 as AbiParam>::codegen_ty(), AbiWordKind::K32);
    assert_eq!(<i32 as AbiParam>::codegen_ty(), AbiWordKind::K32);
    assert_eq!(<u8 as AbiParam>::codegen_ty(), AbiWordKind::K32);
    assert_eq!(<u16 as AbiParam>::codegen_ty(), AbiWordKind::K32);
    assert_eq!(<u32 as AbiParam>::codegen_ty(), AbiWordKind::K32);
    assert_eq!(<i64 as AbiParam>::codegen_ty(), AbiWordKind::K64);
    assert_eq!(<u64 as AbiParam>::codegen_ty(), AbiWordKind::K64);
    assert_eq!(<u32 as AbiRet>::codegen_tys(), vec![AbiWordKind::K32]);
    assert_eq!(<u64 as AbiRet>::codegen_tys(), vec![AbiWordKind::K64]);
}

#[test]
fn narrowing_truncates() {
    assert_eq!(<u8 as AbiParam>::convert(AbiWord::W32(0x1FF)), 0xFFu8);
    assert_eq!(<i8 as AbiParam>::convert(AbiWord::W32(0x180)), -128i8);
    assert_eq!(<u32 as AbiParam>::convert(AbiWord::W64(0x1_0000_0001)), 1u32);
}
