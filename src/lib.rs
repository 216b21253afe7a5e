//! Decomposition and classification of Hangeul characters, computed from
//! code point arithmetic alone, with no Unicode database.
//!
//! A composed syllable's code point is
//! `SYLLABLE_FIRST + (lead * 21 + medial) * 28 + tail`, where `tail == 0`
//! means that the syllable has no final consonant. The components are given
//! back as compatibility jamo, the standalone letters of U+3131..=U+3163.
use vstd::prelude::*;
use vstd::string::StrSliceExecFns;
use vstd::utf8::char_u32_cast;

verus! {

/// First code point of the composed syllable block.
pub const SYLLABLE_FIRST: u32 = 0xAC00;

/// Last code point of the composed syllable block (19 * 21 * 28 syllables).
pub const SYLLABLE_LAST: u32 = 0xD7A3;

/// Number of medial vowels.
pub const MEDIAL_COUNT: u32 = 21;

/// Number of trailing positions, the empty one included.
pub const TRAILING_COUNT: u32 = 28;

/// The compatibility jamo block is addressed as offsets from this code point.
pub const JAMO_BASE: u32 = 0x3130;

/// First compatibility consonant, ㄱ.
pub const JAEUM_FIRST: u32 = 0x3131;

/// Last compatibility consonant, ㅎ.
pub const JAEUM_LAST: u32 = 0x314E;

/// First compatibility vowel, ㅏ.
pub const MOEUM_FIRST: u32 = 0x314F;

/// Last compatibility vowel, ㅣ.
pub const JAMO_LAST: u32 = 0x3163;

/// Why a syllable could not be decomposed.
#[derive(Debug, Clone, Copy, PartialEq, Eq, Structural)]
pub enum HangeulError {
    /// The character is not a composed Hangeul syllable.
    NotSyllable,
    /// The syllable has no final consonant.
    NoJongSeong,
}

/// The message that describes an error.
pub open spec fn error_message(e: HangeulError) -> Seq<char> {
    match e {
        HangeulError::NotSyllable => "HangeulError: Not correct Hangeul syllable"@,
        HangeulError::NoJongSeong => "HangeulError: The syllable has no jongseong"@,
    }
}

impl HangeulError {
    /// A short description of the error.
    pub fn description(&self) -> (r: &'static str)
        ensures
            r@ == error_message(*self),
    {
        match *self {
            HangeulError::NotSyllable => {
                let r = "HangeulError: Not correct Hangeul syllable";
                proof {
                    reveal_strlit("HangeulError: Not correct Hangeul syllable");
                }
                r
            },
            HangeulError::NoJongSeong => {
                let r = "HangeulError: The syllable has no jongseong";
                proof {
                    reveal_strlit("HangeulError: The syllable has no jongseong");
                }
                r
            },
        }
    }
}

/// Which consonants can begin a syllable, indexed by `code - JAEUM_FIRST`.
pub const IS_CHOSEONG: [bool; 30] = [
    true,  // ㄱ
    true,  // ㄲ
    false, // ㄳ
    true,  // ㄴ
    false, // ㄵ
    false, // ㄶ
    true,  // ㄷ
    true,  // ㄸ
    true,  // ㄹ
    false, // ㄺ
    false, // ㄻ
    false, // ㄼ
    false, // ㄽ
    false, // ㄾ
    false, // ㄿ
    false, // ㅀ
    true,  // ㅁ
    true,  // ㅂ
    true,  // ㅃ
    false, // ㅄ
    true,  // ㅅ
    true,  // ㅆ
    true,  // ㅇ
    true,  // ㅈ
    true,  // ㅉ
    true,  // ㅊ
    true,  // ㅋ
    true,  // ㅌ
    true,  // ㅍ
    true,  // ㅎ
];

/// Which consonants can end a syllable, indexed by `code - JAEUM_FIRST`.
pub const IS_JONGSEONG: [bool; 30] = [
    true,  // ㄱ
    true,  // ㄲ
    true,  // ㄳ
    true,  // ㄴ
    true,  // ㄵ
    true,  // ㄶ
    true,  // ㄷ
    false, // ㄸ
    true,  // ㄹ
    true,  // ㄺ
    true,  // ㄻ
    true,  // ㄼ
    true,  // ㄽ
    true,  // ㄾ
    true,  // ㄿ
    true,  // ㅀ
    true,  // ㅁ
    true,  // ㅂ
    false, // ㅃ
    true,  // ㅄ
    true,  // ㅅ
    true,  // ㅆ
    true,  // ㅇ
    true,  // ㅈ
    false, // ㅉ
    true,  // ㅊ
    true,  // ㅋ
    true,  // ㅌ
    true,  // ㅍ
    true,  // ㅎ
];

/// Leading consonant ordinal to its offset from `JAMO_BASE`.
pub const CHOSEONG_TABLE: [u32; 19] = [
    0x01, // ㄱ
    0x02, // ㄲ
    0x04, // ㄴ
    0x07, // ㄷ
    0x08, // ㄸ
    0x09, // ㄹ
    0x11, // ㅁ
    0x12, // ㅂ
    0x13, // ㅃ
    0x15, // ㅅ
    0x16, // ㅆ
    0x17, // ㅇ
    0x18, // ㅈ
    0x19, // ㅉ
    0x1A, // ㅊ
    0x1B, // ㅋ
    0x1C, // ㅌ
    0x1D, // ㅍ
    0x1E, // ㅎ
];

/// Trailing consonant ordinal, counted from 1, less one, to its offset from
/// `JAMO_BASE`.
pub const JONGSEONG_TABLE: [u32; 27] = [
    0x01, // ㄱ
    0x02, // ㄲ
    0x03, // ㄳ
    0x04, // ㄴ
    0x05, // ㄵ
    0x06, // ㄶ
    0x07, // ㄷ
    0x09, // ㄹ
    0x0A, // ㄺ
    0x0B, // ㄻ
    0x0C, // ㄼ
    0x0D, // ㄽ
    0x0E, // ㄾ
    0x0F, // ㄿ
    0x10, // ㅀ
    0x11, // ㅁ
    0x12, // ㅂ
    0x14, // ㅄ
    0x15, // ㅅ
    0x16, // ㅆ
    0x17, // ㅇ
    0x18, // ㅈ
    0x1A, // ㅊ
    0x1B, // ㅋ
    0x1C, // ㅌ
    0x1D, // ㅍ
    0x1E, // ㅎ
];

/// A code point of the composed syllable block.
pub open spec fn is_syllable_code(code: int) -> bool {
    SYLLABLE_FIRST <= code <= SYLLABLE_LAST
}

/// A compatibility jamo code point, consonant or vowel.
pub open spec fn is_jamo_code(code: int) -> bool {
    JAEUM_FIRST <= code <= JAMO_LAST
}

/// A compatibility consonant code point.
pub open spec fn is_jaeum_code(code: int) -> bool {
    JAEUM_FIRST <= code <= JAEUM_LAST
}

/// A compatibility vowel code point.
pub open spec fn is_moeum_code(code: int) -> bool {
    MOEUM_FIRST <= code <= JAMO_LAST
}

/// A consonant that can begin a syllable.
pub open spec fn is_choseong_code(code: int) -> bool {
    is_jaeum_code(code) && IS_CHOSEONG@[code - JAEUM_FIRST]
}

/// A consonant that can end a syllable.
pub open spec fn is_jongseong_code(code: int) -> bool {
    is_jaeum_code(code) && IS_JONGSEONG@[code - JAEUM_FIRST]
}

/// Position of a syllable in its block.
pub open spec fn syllable_offset(c: char) -> int {
    c as int - SYLLABLE_FIRST
}

/// Leading consonant ordinal of a syllable, in `0..19`.
pub open spec fn choseong_index(c: char) -> int {
    syllable_offset(c) / (MEDIAL_COUNT * TRAILING_COUNT) as int
}

/// Medial vowel ordinal of a syllable, in `0..21`.
pub open spec fn jungseong_index(c: char) -> int {
    (syllable_offset(c) % (MEDIAL_COUNT * TRAILING_COUNT) as int) / TRAILING_COUNT as int
}

/// Trailing consonant ordinal of a syllable, in `0..28`; 0 when it has none.
pub open spec fn jongseong_index(c: char) -> int {
    syllable_offset(c) % TRAILING_COUNT as int
}

/// The leading consonant of `c` as compatibility jamo.
pub open spec fn choseong_of(c: char) -> Result<char, HangeulError> {
    if is_syllable_code(c as int) {
        Ok((JAMO_BASE + CHOSEONG_TABLE@[choseong_index(c)]) as char)
    } else {
        Err(HangeulError::NotSyllable)
    }
}

/// The medial vowel of `c` as compatibility jamo.
pub open spec fn jungseong_of(c: char) -> Result<char, HangeulError> {
    if is_syllable_code(c as int) {
        Ok((MOEUM_FIRST + jungseong_index(c)) as char)
    } else {
        Err(HangeulError::NotSyllable)
    }
}

/// The trailing consonant of `c` as compatibility jamo.
pub open spec fn jongseong_of(c: char) -> Result<char, HangeulError> {
    if !is_syllable_code(c as int) {
        Err(HangeulError::NotSyllable)
    } else if jongseong_index(c) == 0 {
        Err(HangeulError::NoJongSeong)
    } else {
        Ok((JAMO_BASE + JONGSEONG_TABLE@[jongseong_index(c) - 1]) as char)
    }
}

/// Whether the syllable `c` has a trailing consonant.
pub open spec fn has_jongseong_of(c: char) -> Result<bool, HangeulError> {
    if is_syllable_code(c as int) {
        Ok(jongseong_index(c) != 0)
    } else {
        Err(HangeulError::NotSyllable)
    }
}

/// Relies on `std::char::from_u32`: `Some` exactly for a Unicode scalar value,
/// holding the char with that value.
#[verifier::external_body]
fn char_from_u32(code: u32) -> (r: Option<char>)
    ensures
        r is Some <==> (code < 0xD800 || (0xE000 <= code && code <= 0x10FFFF)),
        r matches Some(ch) ==> ch as u32 == code,
{
    std::char::from_u32(code)
}

/// The compatibility jamo at `offset` from `JAMO_BASE`.
fn jamo_char(offset: u32) -> (r: char)
    requires
        1 <= offset <= JAMO_LAST - JAMO_BASE,
    ensures
        r == (JAMO_BASE + offset) as char,
        r as u32 == JAMO_BASE + offset,
{
    let r = char_from_u32(JAMO_BASE + offset).unwrap();
    proof {
        char_u32_cast(r, (JAMO_BASE + offset) as u32);
    }
    r
}

fn _is_syllable(code: u32) -> (r: bool)
    ensures
        r == is_syllable_code(code as int),
{
    code >= SYLLABLE_FIRST && code <= SYLLABLE_LAST
}

/// Check if the character is a composed Hangeul syllable.
pub fn is_syllable(c: char) -> (r: bool)
    ensures
        r == is_syllable_code(c as int),
{
    let code = c as u32;
    _is_syllable(code)
}

fn syllable_to_u32(c: char) -> (r: Result<u32, HangeulError>)
    ensures
        r == (if is_syllable_code(c as int) {
            Ok::<u32, HangeulError>(c as u32)
        } else {
            Err(HangeulError::NotSyllable)
        }),
{
    let code = c as u32;
    if _is_syllable(code) {
        Ok(code)
    } else {
        Err(HangeulError::NotSyllable)
    }
}

/// Get the leading consonant (choseong) of the syllable as compatibility jamo.
pub fn get_choseong(c: char) -> (r: Result<char, HangeulError>)
    ensures
        r == choseong_of(c),
{
    let code = match syllable_to_u32(c) {
        Ok(code) => code,
        Err(e) => return Err(e),
    };
    let x = (code - SYLLABLE_FIRST) / (MEDIAL_COUNT * TRAILING_COUNT);
    Ok(jamo_char(CHOSEONG_TABLE[x as usize]))
}

/// Get the medial vowel (jungseong) of the syllable as compatibility jamo.
pub fn get_jungseong(c: char) -> (r: Result<char, HangeulError>)
    ensures
        r == jungseong_of(c),
{
    let code = match syllable_to_u32(c) {
        Ok(code) => code,
        Err(e) => return Err(e),
    };
    let x = ((code - SYLLABLE_FIRST) % (MEDIAL_COUNT * TRAILING_COUNT)) / TRAILING_COUNT;
    Ok(jamo_char(MOEUM_FIRST - JAMO_BASE + x))
}

/// Get the trailing consonant (jongseong) of the syllable as compatibility
/// jamo.
pub fn get_jongseong(c: char) -> (r: Result<char, HangeulError>)
    ensures
        r == jongseong_of(c),
{
    let code = match syllable_to_u32(c) {
        Ok(code) => code,
        Err(e) => return Err(e),
    };
    let x = (code - SYLLABLE_FIRST) % TRAILING_COUNT;
    if x != 0 {
        Ok(jamo_char(JONGSEONG_TABLE[(x - 1) as usize]))
    } else {
        Err(HangeulError::NoJongSeong)
    }
}

/// Check if the syllable has a trailing consonant (jongseong).
pub fn has_jongseong(c: char) -> (r: Result<bool, HangeulError>)
    ensures
        r == has_jongseong_of(c),
{
    let code = match syllable_to_u32(c) {
        Ok(code) => code,
        Err(e) => return Err(e),
    };
    Ok((code - SYLLABLE_FIRST) % TRAILING_COUNT != 0)
}

/// Whether the last character of `s` is a syllable with a trailing consonant.
pub open spec fn ends_with_jongseong_of(s: Seq<char>) -> Result<bool, HangeulError> {
    if s.len() == 0 {
        Err(HangeulError::NotSyllable)
    } else {
        has_jongseong_of(s.last())
    }
}

/// Check if the last syllable of the string has a trailing consonant
/// (jongseong). An empty string is no syllable.
pub fn ends_with_jongseong(s: &str) -> (r: Result<bool, HangeulError>)
    ensures
        r == ends_with_jongseong_of(s@),
{
    let n = s.unicode_len();
    if n == 0 {
        return Err(HangeulError::NotSyllable);
    }
    has_jongseong(s.get_char(n - 1))
}

/// Check if the character is compatibility jamo, a consonant or a vowel.
pub fn is_jamo(c: char) -> (r: bool)
    ensures
        r == is_jamo_code(c as int),
{
    let code = c as u32;
    code >= JAEUM_FIRST && code <= JAMO_LAST
}

fn _is_jaeum(code: u32) -> (r: bool)
    ensures
        r == is_jaeum_code(code as int),
{
    code >= JAEUM_FIRST && code <= JAEUM_LAST
}

/// Check if the character is a compatibility consonant (jaeum).
pub fn is_jaeum(c: char) -> (r: bool)
    ensures
        r == is_jaeum_code(c as int),
{
    let code = c as u32;
    _is_jaeum(code)
}

/// Check if the character is a compatibility consonant that can begin a
/// syllable (choseong).
pub fn is_choseong(c: char) -> (r: bool)
    ensures
        r == is_choseong_code(c as int),
{
    let code = c as u32;
    _is_jaeum(code) && IS_CHOSEONG[(code - JAEUM_FIRST) as usize]
}

/// Check if the character is a compatibility consonant that can end a
/// syllable (jongseong).
pub fn is_jongseong(c: char) -> (r: bool)
    ensures
        r == is_jongseong_code(c as int),
{
    let code = c as u32;
    _is_jaeum(code) && IS_JONGSEONG[(code - JAEUM_FIRST) as usize]
}

/// Number of codes `k` in `lo..lo + n` for which `p(k)` holds.
pub open spec fn count_codes(lo: int, n: nat, p: spec_fn(int) -> bool) -> nat
    decreases n,
{
    if n == 0 {
        0
    } else {
        count_codes(lo, (n - 1) as nat, p) + if p(lo + n - 1) {
            1nat
        } else {
            0nat
        }
    }
}

/// Every syllable decomposes: its leading consonant is a consonant that can
/// begin a syllable, its medial is a vowel, and it has a trailing consonant,
/// one that can end a syllable, exactly when `has_jongseong` says so.
pub proof fn lemma_syllable_decomposes(c: char)
    requires
        is_syllable_code(c as int),
    ensures
        choseong_of(c) matches Ok(j) && is_jaeum_code(j as int) && is_choseong_code(j as int),
        jungseong_of(c) matches Ok(j) && is_moeum_code(j as int),
        jongseong_of(c) is Ok <==> has_jongseong_of(c) == Ok::<bool, HangeulError>(true),
        jongseong_of(c) matches Ok(j) ==> is_jaeum_code(j as int) && is_jongseong_code(j as int),
{
}

/// A character outside the syllable block is refused by every decomposition.
pub proof fn lemma_non_syllable_refused(c: char)
    requires
        !is_syllable_code(c as int),
    ensures
        choseong_of(c) == Err::<char, HangeulError>(HangeulError::NotSyllable),
        jungseong_of(c) == Err::<char, HangeulError>(HangeulError::NotSyllable),
        jongseong_of(c) == Err::<char, HangeulError>(HangeulError::NotSyllable),
        has_jongseong_of(c) == Err::<bool, HangeulError>(HangeulError::NotSyllable),
        ends_with_jongseong_of(seq![c]) == Err::<bool, HangeulError>(HangeulError::NotSyllable),
{
}

/// The ordinals of every syllable index within the tables and ranges.
pub proof fn lemma_ordinals_in_bounds(c: char)
    requires
        is_syllable_code(c as int),
    ensures
        0 <= choseong_index(c) < CHOSEONG_TABLE@.len(),
        0 <= jungseong_index(c) < MEDIAL_COUNT,
        0 <= jongseong_index(c) < TRAILING_COUNT,
        jongseong_index(c) != 0 ==> 0 <= jongseong_index(c) - 1 < JONGSEONG_TABLE@.len(),
{
}

/// Of the 30 compatibility consonants, 19 can begin a syllable and 27 can
/// end one.
pub proof fn lemma_capable_counts()
    ensures
        count_codes(JAEUM_FIRST as int, 30, |k: int| is_choseong_code(k)) == 19,
        count_codes(JAEUM_FIRST as int, 30, |k: int| is_jongseong_code(k)) == 27,
{
    reveal_with_fuel(count_codes, 31);
}

/// The consonants that can begin a syllable are exactly the leading
/// components that syllables decompose into, and likewise for those that
/// can end one.
pub proof fn lemma_capable_are_components(k: int)
    ensures
        is_choseong_code(k) <==> exists|i: int|
            0 <= i < CHOSEONG_TABLE@.len() && k == JAMO_BASE + #[trigger] CHOSEONG_TABLE@[i],
        is_jongseong_code(k) <==> exists|i: int|
            0 <= i < JONGSEONG_TABLE@.len() && k == JAMO_BASE + #[trigger] JONGSEONG_TABLE@[i],
{
    if is_choseong_code(k) {
        let o = k - JAMO_BASE;
        let i: int = if o <= 2 { o - 1 } else if o == 4 { 2 } else if o <= 9 { o - 4 } else if o <= 19 { o - 11 } else { o - 12 };
        assert(CHOSEONG_TABLE@[i] == o);
    }
    if is_jongseong_code(k) {
        let o = k - JAMO_BASE;
        let i: int = if o <= 7 { o - 1 } else if o <= 19 { o - 2 } else if o <= 24 { o - 3 } else { o - 4 };
        assert(JONGSEONG_TABLE@[i] == o);
    }
}

} // verus!
