//! Classification of Unicode scalar values as East Asian or not.
//!
//! The class is decided by membership in a fixed table of inclusive
//! code-point ranges covering CJK ideographs (base block plus the
//! extensions), radicals, kana, Hangul, fullwidth forms and CJK
//! punctuation. The table is authoritative: scripts it omits (for
//! example Bopomofo) are deliberately not East Asian here.

use vstd::prelude::*;

verus! {

/// True when `c` lies in one of the East Asian code-point ranges:
/// CJK ideographs and radicals, kana, Hangul, fullwidth/halfwidth
/// forms, or CJK punctuation. Each range is inclusive on both ends.
pub open spec fn spec_is_east_asian(c: char) -> bool {
    let u = c as u32;
    ||| 0x1100 <= u <= 0x11FF  // Hangul jamo
    ||| 0x2E80 <= u <= 0x2EFF  // CJK radicals supplement
    ||| 0x2F00 <= u <= 0x2FDF  // Kangxi radicals
    ||| 0x2FF0 <= u <= 0x2FFF  // ideographic description characters
    ||| 0x3000 <= u <= 0x303F  // CJK symbols and punctuation
    ||| 0x3040 <= u <= 0x309F  // hiragana
    ||| 0x30A0 <= u <= 0x30FF  // katakana
    ||| 0x3400 <= u <= 0x4DBF  // CJK unified ideographs extension A
    ||| 0x4E00 <= u <= 0x9FFF  // CJK unified ideographs
    ||| 0xAC00 <= u <= 0xD7AF  // Hangul syllables
    ||| 0xFF00 <= u <= 0xFFEF  // fullwidth and halfwidth forms
    ||| 0x20000 <= u <= 0x2A6DF  // CJK unified ideographs extension B
    ||| 0x2A700 <= u <= 0x2B73F  // CJK unified ideographs extension C
    ||| 0x2B740 <= u <= 0x2B81F  // CJK unified ideographs extension D
    ||| 0x2B820 <= u <= 0x2CEAF  // CJK unified ideographs extension E
    ||| 0x2CEB0 <= u <= 0x2EBEF  // CJK unified ideographs extension F
    ||| 0x2F800 <= u <= 0x2FA1F  // CJK compatibility ideographs supplement
    ||| 0x30000 <= u <= 0x3134F  // CJK unified ideographs extension G
    ||| 0x31350 <= u <= 0x323AF  // CJK unified ideographs extension H
}

/// Decides whether `c` is an East Asian character (Chinese, Japanese,
/// Korean, fullwidth forms or CJK punctuation) by ordered range
/// comparisons on its code point.
pub fn is_east_asian_char(c: char) -> (r: bool)
    ensures
        r == spec_is_east_asian(c),
{
    let u: u32 = c as u32;
    (0x1100 <= u && u <= 0x11FF)
        || (0x2E80 <= u && u <= 0x2EFF)
        || (0x2F00 <= u && u <= 0x2FDF)
        || (0x2FF0 <= u && u <= 0x2FFF)
        || (0x3000 <= u && u <= 0x303F)
        || (0x3040 <= u && u <= 0x309F)
        || (0x30A0 <= u && u <= 0x30FF)
        || (0x3400 <= u && u <= 0x4DBF)
        || (0x4E00 <= u && u <= 0x9FFF)
        || (0xAC00 <= u && u <= 0xD7AF)
        || (0xFF00 <= u && u <= 0xFFEF)
        || (0x20000 <= u && u <= 0x2A6DF)
        || (0x2A700 <= u && u <= 0x2B73F)
        || (0x2B740 <= u && u <= 0x2B81F)
        || (0x2B820 <= u && u <= 0x2CEAF)
        || (0x2CEB0 <= u && u <= 0x2EBEF)
        || (0x2F800 <= u && u <= 0x2FA1F)
        || (0x30000 <= u && u <= 0x3134F)
        || (0x31350 <= u && u <= 0x323AF)
}

} // verus!
