use token_estimate::count_tokens;

#[test]
fn test_empty_string() {
    assert_eq!(count_tokens(""), 0);
}

#[test]
fn test_chinese_only() {
    assert_eq!(count_tokens("你"), 1);
    assert_eq!(count_tokens("你好"), 2);
    assert_eq!(count_tokens("你好世"), 4);
}

#[test]
fn test_ascii_only() {
    assert_eq!(count_tokens("abc"), 1);
    assert_eq!(count_tokens("abcdef"), 2);
    assert_eq!(count_tokens("abcdefghi"), 3);
}

#[test]
fn test_mixed() {
    assert_eq!(count_tokens("你好abc"), 3);
    assert_eq!(count_tokens("a你"), 2);
}

#[test]
fn test_rounding() {
    assert_eq!(count_tokens("a"), 0);
    assert_eq!(count_tokens("ab"), 1);
    assert_eq!(count_tokens("abc"), 1);
    assert_eq!(count_tokens("abcd"), 1);
    assert_eq!(count_tokens("abcde"), 2);
    assert_eq!(count_tokens("abcdef"), 2);
}

#[test]
fn test_japanese() {
    assert_eq!(count_tokens("あ"), 1);
    assert_eq!(count_tokens("アイ"), 2);
}

#[test]
fn test_korean() {
    assert_eq!(count_tokens("안"), 1);
    assert_eq!(count_tokens("안녕"), 2);
}

#[test]
fn test_fullwidth() {
    assert_eq!(count_tokens("Ａ"), 1);
    assert_eq!(count_tokens("ＡＢ"), 2);
}

#[test]
fn test_cjk_punctuation() {
    assert_eq!(count_tokens("。"), 1);
    assert_eq!(count_tokens("。、"), 2);
}

// The estimate is zero exactly for the empty string and for a single
// non-East-Asian character.
#[test]
fn test_zero_exactly_for_tiny_input() {
    assert_eq!(count_tokens(""), 0);
    assert_eq!(count_tokens("z"), 0);
    assert_eq!(count_tokens(" "), 0);
    assert_ne!(count_tokens("你"), 0);
    assert_ne!(count_tokens("ab"), 0);
}

// Appending a character never decreases the estimate.
#[test]
fn test_monotonic_prefixes() {
    let text = "a你b好c";
    let mut previous: u64 = 0;
    let mut end: usize = 0;
    while end <= text.len() {
        if text.is_char_boundary(end) {
            let tokens = count_tokens(&text[..end]);
            assert!(tokens >= previous);
            previous = tokens;
        }
        end += 1;
    }
    assert_eq!(previous, count_tokens(text));
    assert_eq!(previous, 3);
}

// East-Asian-only input of length n yields (7 n + 3) / 6 tokens.
#[test]
fn test_east_asian_formula() {
    assert_eq!(count_tokens("你"), (7 + 3) / 6);
    assert_eq!(count_tokens("你好"), (14 + 3) / 6);
    assert_eq!(count_tokens("你好世"), (21 + 3) / 6);
    assert_eq!(count_tokens("你好世界"), (28 + 3) / 6);
    // One character from each of kana, Hangul, fullwidth and
    // punctuation alongside an ideograph.
    assert_eq!(count_tokens("あア안Ａ。"), (35 + 3) / 6);
}

// Input without East Asian characters of length n yields (2 n + 3) / 6
// tokens; an emoji is not East Asian and counts like any other
// character.
#[test]
fn test_other_formula() {
    assert_eq!(count_tokens("1234567"), (14 + 3) / 6);
    assert_eq!(count_tokens("abcdefghij"), (20 + 3) / 6);
    assert_eq!(count_tokens("😀"), (2 + 3) / 6);
    assert_eq!(count_tokens("😀😀"), (4 + 3) / 6);
}

// The estimate depends only on which characters occur, not on their
// order.
#[test]
fn test_order_independent() {
    let expected = count_tokens("你好abc");
    assert_eq!(count_tokens("a你b好c"), expected);
    assert_eq!(count_tokens("abc你好"), expected);
    assert_eq!(count_tokens("好你cba"), expected);
    assert_eq!(count_tokens("a你"), count_tokens("你a"));
}

// Characters outside the basic multilingual plane are counted as
// single scalar values, and the CJK extension blocks up there are East
// Asian.
#[test]
fn test_supplementary_plane() {
    assert_eq!(count_tokens("\u{20000}"), 1);
    assert_eq!(count_tokens("\u{20000}\u{2A700}"), 2);
    assert_eq!(count_tokens("\u{30000}a"), 2);
    // Outside every East Asian range: weight 2, like ASCII.
    assert_eq!(count_tokens("\u{1F600}\u{1F600}\u{1F600}"), 1);
}
