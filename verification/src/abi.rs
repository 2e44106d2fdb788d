//! The primitive ABI mapper: every native scalar type that may appear in a
//! capability signature maps to exactly one of the two machine-word
//! categories of the guest's calling convention (32-bit or 64-bit), with
//! value conversions in both directions. The mapping is closed: only the
//! types with an `AbiParam` / `AbiRet` impl can cross the boundary, so an
//! unsupported type in a signature is rejected when the embedder's code is
//! built, never at run time.

use vstd::prelude::*;

verus! {

/// The two machine-word categories the calling convention supports.
#[derive(Clone, Copy, PartialEq, Eq, Structural, Debug)]
pub enum AbiWordKind {
    K32,
    K64,
}

/// A raw machine word as it crosses the boundary: a tagged union of a
/// 32-bit and a 64-bit integer.
#[derive(Clone, Copy, PartialEq, Eq, Structural, Debug)]
pub enum AbiWord {
    W32(i32),
    W64(i64),
}

pub open spec fn word_kind(w: AbiWord) -> AbiWordKind {
    match w {
        AbiWord::W32(_) => AbiWordKind::K32,
        AbiWord::W64(_) => AbiWordKind::K64,
    }
}

/// The word category of a raw word.
pub fn kind_of_word(w: &AbiWord) -> (k: AbiWordKind)
    ensures
        k == word_kind(*w),
{
    match w {
        AbiWord::W32(_) => AbiWordKind::K32,
        AbiWord::W64(_) => AbiWordKind::K64,
    }
}

/// A native scalar type that can be received as a capability parameter:
/// it occupies one fixed word category and is decoded from a raw word by
/// standard integer narrowing/widening.
pub trait AbiParam: Sized {
    /// The one word category this type occupies.
    spec fn param_kind() -> AbiWordKind;

    /// The value decoded from a raw word (truncating when the word is
    /// wider than the native type, per standard narrowing semantics).
    spec fn from_word_spec(w: AbiWord) -> Self;

    /// The word category, as a run-time value for signature construction.
    fn codegen_ty() -> (k: AbiWordKind)
        ensures
            k == Self::param_kind(),
    ;

    /// Decodes a raw word of this type's category into a native value.
    fn convert(w: AbiWord) -> (r: Self)
        requires
            word_kind(w) == Self::param_kind(),
        ensures
            r == Self::from_word_spec(w),
    ;
}

/// A native type that can be returned from a capability: either a scalar
/// occupying one word category, or `()` occupying none.
pub trait AbiRet: Sized {
    /// The word category of the returned word, or `None` for no result.
    spec fn ret_kind() -> Option<AbiWordKind>;

    /// The raw word encoding of a native value, or `None` for no result.
    spec fn to_word_spec(self) -> Option<AbiWord>;

    /// The result word categories, as a run-time value for signature
    /// construction (empty or a single category).
    fn codegen_tys() -> (ks: Vec<AbiWordKind>)
        ensures
            match Self::ret_kind() {
                Some(k) => ks@ =~= seq![k],
                None => ks@ =~= Seq::<AbiWordKind>::empty(),
            },
    ;

    /// Encodes a native value as a raw word of this type's category.
    fn convert(self) -> (r: Option<AbiWord>)
        ensures
            r == self.to_word_spec(),
            match r {
                Some(w) => Self::ret_kind() == Some(word_kind(w)),
                None => Self::ret_kind() is None,
            },
    ;
}

impl AbiRet for () {
    open spec fn ret_kind() -> Option<AbiWordKind> {
        None
    }

    open spec fn to_word_spec(self) -> Option<AbiWord> {
        None
    }

    fn codegen_tys() -> (ks: Vec<AbiWordKind>) {
        Vec::new()
    }

    fn convert(self) -> (r: Option<AbiWord>) {
        None
    }
}

impl AbiParam for i8 {
    open spec fn param_kind() -> AbiWordKind {
        AbiWordKind::K32
    }

    open spec fn from_word_spec(w: AbiWord) -> i8 {
        match w {
            AbiWord::W32(x) => x as i8,
            AbiWord::W64(x) => x as i8,
        }
    }

    fn codegen_ty() -> (k: AbiWordKind) {
        AbiWordKind::K32
    }

    fn convert(w: AbiWord) -> (r: i8) {
        match w {
            AbiWord::W32(x) => #[verifier::truncate] (x as i8),
            AbiWord::W64(x) => #[verifier::truncate] (x as i8),
        }
    }
}

impl AbiRet for i8 {
    open spec fn ret_kind() -> Option<AbiWordKind> {
        Some(AbiWordKind::K32)
    }

    open spec fn to_word_spec(self) -> Option<AbiWord> {
        Some(AbiWord::W32(self as i32))
    }

    fn codegen_tys() -> (ks: Vec<AbiWordKind>) {
        vec![AbiWordKind::K32]
    }

    fn convert(self) -> (r: Option<AbiWord>) {
        Some(AbiWord::W32(self as i32))
    }
}

impl AbiParam for i16 {
    open spec fn param_kind() -> AbiWordKind {
        AbiWordKind::K32
    }

    open spec fn from_word_spec(w: AbiWord) -> i16 {
        match w {
            AbiWord::W32(x) => x as i16,
            AbiWord::W64(x) => x as i16,
        }
    }

    fn codegen_ty() -> (k: AbiWordKind) {
        AbiWordKind::K32
    }

    fn convert(w: AbiWord) -> (r: i16) {
        match w {
            AbiWord::W32(x) => #[verifier::truncate] (x as i16),
            AbiWord::W64(x) => #[verifier::truncate] (x as i16),
        }
    }
}

impl AbiRet for i16 {
    open spec fn ret_kind() -> Option<AbiWordKind> {
        Some(AbiWordKind::K32)
    }

    open spec fn to_word_spec(self) -> Option<AbiWord> {
        Some(AbiWord::W32(self as i32))
    }

    fn codegen_tys() -> (ks: Vec<AbiWordKind>) {
        vec![AbiWordKind::K32]
    }

    fn convert(self) -> (r: Option<AbiWord>) {
        Some(AbiWord::W32(self as i32))
    }
}

impl AbiParam for i32 {
    open spec fn param_kind() -> AbiWordKind {
        AbiWordKind::K32
    }

    open spec fn from_word_spec(w: AbiWord) -> i32 {
        match w {
            AbiWord::W32(x) => x,
            AbiWord::W64(x) => x as i32,
        }
    }

    fn codegen_ty() -> (k: AbiWordKind) {
        AbiWordKind::K32
    }

    fn convert(w: AbiWord) -> (r: i32) {
        match w {
            AbiWord::W32(x) => x,
            AbiWord::W64(x) => #[verifier::truncate] (x as i32),
        }
    }
}

impl AbiRet for i32 {
    open spec fn ret_kind() -> Option<AbiWordKind> {
        Some(AbiWordKind::K32)
    }

    open spec fn to_word_spec(self) -> Option<AbiWord> {
        Some(AbiWord::W32(self))
    }

    fn codegen_tys() -> (ks: Vec<AbiWordKind>) {
        vec![AbiWordKind::K32]
    }

    fn convert(self) -> (r: Option<AbiWord>) {
        Some(AbiWord::W32(self))
    }
}

impl AbiParam for u8 {
    open spec fn param_kind() -> AbiWordKind {
        AbiWordKind::K32
    }

    open spec fn from_word_spec(w: AbiWord) -> u8 {
        match w {
            AbiWord::W32(x) => x as u8,
            AbiWord::W64(x) => x as u8,
        }
    }

    fn codegen_ty() -> (k: AbiWordKind) {
        AbiWordKind::K32
    }

    fn convert(w: AbiWord) -> (r: u8) {
        match w {
            AbiWord::W32(x) => #[verifier::truncate] (x as u8),
            AbiWord::W64(x) => #[verifier::truncate] (x as u8),
        }
    }
}

impl AbiRet for u8 {
    open spec fn ret_kind() -> Option<AbiWordKind> {
        Some(AbiWordKind::K32)
    }

    open spec fn to_word_spec(self) -> Option<AbiWord> {
        Some(AbiWord::W32(self as i32))
    }

    fn codegen_tys() -> (ks: Vec<AbiWordKind>) {
        vec![AbiWordKind::K32]
    }

    fn convert(self) -> (r: Option<AbiWord>) {
        Some(AbiWord::W32(self as i32))
    }
}

impl AbiParam for u16 {
    open spec fn param_kind() -> AbiWordKind {
        AbiWordKind::K32
    }

    open spec fn from_word_spec(w: AbiWord) -> u16 {
        match w {
            AbiWord::W32(x) => x as u16,
            AbiWord::W64(x) => x as u16,
        }
    }

    fn codegen_ty() -> (k: AbiWordKind) {
        AbiWordKind::K32
    }

    fn convert(w: AbiWord) -> (r: u16) {
        match w {
            AbiWord::W32(x) => #[verifier::truncate] (x as u16),
            AbiWord::W64(x) => #[verifier::truncate] (x as u16),
        }
    }
}

impl AbiRet for u16 {
    open spec fn ret_kind() -> Option<AbiWordKind> {
        Some(AbiWordKind::K32)
    }

    open spec fn to_word_spec(self) -> Option<AbiWord> {
        Some(AbiWord::W32(self as i32))
    }

    fn codegen_tys() -> (ks: Vec<AbiWordKind>) {
        vec![AbiWordKind::K32]
    }

    fn convert(self) -> (r: Option<AbiWord>) {
        Some(AbiWord::W32(self as i32))
    }
}

impl AbiParam for u32 {
    open spec fn param_kind() -> AbiWordKind {
        AbiWordKind::K32
    }

    open spec fn from_word_spec(w: AbiWord) -> u32 {
        match w {
            AbiWord::W32(x) => x as u32,
            AbiWord::W64(x) => x as u32,
        }
    }

    fn codegen_ty() -> (k: AbiWordKind) {
        AbiWordKind::K32
    }

    fn convert(w: AbiWord) -> (r: u32) {
        match w {
            AbiWord::W32(x) => #[verifier::truncate] (x as u32),
            AbiWord::W64(x) => #[verifier::truncate] (x as u32),
        }
    }
}

impl AbiRet for u32 {
    open spec fn ret_kind() -> Option<AbiWordKind> {
        Some(AbiWordKind::K32)
    }

    open spec fn to_word_spec(self) -> Option<AbiWord> {
        Some(AbiWord::W32(self as i32))
    }

    fn codegen_tys() -> (ks: Vec<AbiWordKind>) {
        vec![AbiWordKind::K32]
    }

    fn convert(self) -> (r: Option<AbiWord>) {
        Some(AbiWord::W32(#[verifier::truncate] (self as i32)))
    }
}

impl AbiParam for i64 {
    open spec fn param_kind() -> AbiWordKind {
        AbiWordKind::K64
    }

    open spec fn from_word_spec(w: AbiWord) -> i64 {
        match w {
            AbiWord::W32(x) => x as i64,
            AbiWord::W64(x) => x,
        }
    }

    fn codegen_ty() -> (k: AbiWordKind) {
        AbiWordKind::K64
    }

    fn convert(w: AbiWord) -> (r: i64) {
        match w {
            AbiWord::W32(x) => x as i64,
            AbiWord::W64(x) => x,
        }
    }
}

impl AbiRet for i64 {
    open spec fn ret_kind() -> Option<AbiWordKind> {
        Some(AbiWordKind::K64)
    }

    open spec fn to_word_spec(self) -> Option<AbiWord> {
        Some(AbiWord::W64(self))
    }

    fn codegen_tys() -> (ks: Vec<AbiWordKind>) {
        vec![AbiWordKind::K64]
    }

    fn convert(self) -> (r: Option<AbiWord>) {
        Some(AbiWord::W64(self))
    }
}

impl AbiParam for u64 {
    open spec fn param_kind() -> AbiWordKind {
        AbiWordKind::K64
    }

    open spec fn from_word_spec(w: AbiWord) -> u64 {
        match w {
            AbiWord::W32(x) => x as u64,
            AbiWord::W64(x) => x as u64,
        }
    }

    fn codegen_ty() -> (k: AbiWordKind) {
        AbiWordKind::K64
    }

    fn convert(w: AbiWord) -> (r: u64) {
        match w {
            AbiWord::W32(x) => #[verifier::truncate] (x as u64),
            AbiWord::W64(x) => #[verifier::truncate] (x as u64),
        }
    }
}

impl AbiRet for u64 {
    open spec fn ret_kind() -> Option<AbiWordKind> {
        Some(AbiWordKind::K64)
    }

    open spec fn to_word_spec(self) -> Option<AbiWord> {
        Some(AbiWord::W64(self as i64))
    }

    fn codegen_tys() -> (ks: Vec<AbiWordKind>) {
        vec![AbiWordKind::K64]
    }

    fn convert(self) -> (r: Option<AbiWord>) {
        Some(AbiWord::W64(#[verifier::truncate] (self as i64)))
    }
}

/// Round trip through the boundary is the identity: encoding an `i8` as a
/// raw word and decoding it back yields the value unchanged.
pub proof fn lemma_abi_roundtrip_i8(x: i8)
    ensures
        <i8 as AbiRet>::to_word_spec(x) matches Some(w) && <i8 as AbiParam>::from_word_spec(w)
            == x,
{
}

/// Round trip through the boundary is the identity for `i16`.
pub proof fn lemma_abi_roundtrip_i16(x: i16)
    ensures
        <i16 as AbiRet>::to_word_spec(x) matches Some(w) && <i16 as AbiParam>::from_word_spec(w)
            == x,
{
}

/// Round trip through the boundary is the identity for `i32`.
pub proof fn lemma_abi_roundtrip_i32(x: i32)
    ensures
        <i32 as AbiRet>::to_word_spec(x) matches Some(w) && <i32 as AbiParam>::from_word_spec(w)
            == x,
{
}

/// Round trip through the boundary is the identity for `u8`.
pub proof fn lemma_abi_roundtrip_u8(x: u8)
    ensures
        <u8 as AbiRet>::to_word_spec(x) matches Some(w) && <u8 as AbiParam>::from_word_spec(w)
            == x,
{
}

/// Round trip through the boundary is the identity for `u16`.
pub proof fn lemma_abi_roundtrip_u16(x: u16)
    ensures
        <u16 as AbiRet>::to_word_spec(x) matches Some(w) && <u16 as AbiParam>::from_word_spec(w)
            == x,
{
}

/// Round trip through the boundary is the identity for every `u32`: the
/// sign of the 32-bit word is reinterpreted, not lost.
pub proof fn lemma_abi_roundtrip_u32(x: u32)
    ensures
        <u32 as AbiRet>::to_word_spec(x) matches Some(w) && <u32 as AbiParam>::from_word_spec(w)
            == x,
{
    assert(((x as i32) as u32) == x) by (bit_vector);
}

/// Round trip through the boundary is the identity for `i64`.
pub proof fn lemma_abi_roundtrip_i64(x: i64)
    ensures
        <i64 as AbiRet>::to_word_spec(x) matches Some(w) && <i64 as AbiParam>::from_word_spec(w)
            == x,
{
}

/// Round trip through the boundary is the identity for every `u64`: the
/// sign of the 64-bit word is reinterpreted, not lost.
pub proof fn lemma_abi_roundtrip_u64(x: u64)
    ensures
        <u64 as AbiRet>::to_word_spec(x) matches Some(w) && <u64 as AbiParam>::from_word_spec(w)
            == x,
{
    assert(((x as i64) as u64) == x) by (bit_vector);
}

} // verus!
