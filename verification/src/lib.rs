//! A fast heuristic estimate of how many language-model tokens a text
//! would consume.
//!
//! Each Unicode scalar value is classified as East Asian (CJK ideographs,
//! kana, Hangul, fullwidth forms, CJK punctuation) or not. East Asian
//! characters count 3.5 character units, all others 1 unit, and three
//! units make one token, rounded half-up. All arithmetic is integral:
//! the weights are scaled by two (7 and 2), and six scaled units make a
//! token.

pub mod count;
pub mod east_asian;
pub mod laws;

pub use count::count_tokens;
pub use east_asian::is_east_asian_char;
