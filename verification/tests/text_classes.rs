use pptx2html_core::text_metrics::{
    classify_script_category, glyph_em_width_hundredths, is_breaking_whitespace, is_cluster_joiner, is_complex_script_char,
    is_east_asian_char, is_east_asian_nonstarter_punctuation, is_emoji_char, is_soft_hyphen, is_unicode_whitespace_char,
    is_visible_wrap_break, segment_by_script, ScriptCategory,
};

#[test]
fn whitespace_matches_std() {
    for c in (0u32..0x3100).filter_map(char::from_u32) {
        assert_eq!(is_unicode_whitespace_char(c), c.is_whitespace(), "{:?}", c);
    }
    assert!(!is_breaking_whitespace('\u{00A0}'));
    assert!(is_breaking_whitespace(' '));
    assert!(is_breaking_whitespace('\u{3000}'));
}

#[test]
fn break_characters() {
    assert!(is_soft_hyphen('\u{00AD}'));
    assert!(!is_soft_hyphen('-'));
    assert!(is_visible_wrap_break('/'));
    assert!(!is_visible_wrap_break('\\'));
    assert!(is_east_asian_nonstarter_punctuation('、'));
    assert!(is_east_asian_nonstarter_punctuation('）'));
    assert!(!is_east_asian_nonstarter_punctuation('（'));
}

#[test]
fn character_classes() {
    assert!(is_emoji_char('😀') && is_emoji_char('☀'));
    assert!(!is_emoji_char('A'));
    assert!(is_east_asian_char('漢') && is_east_asian_char('한') && is_east_asian_char('カ') && is_east_asian_char('Ａ'));
    assert!(!is_east_asian_char('a'));
    assert!(is_complex_script_char('ש') && is_complex_script_char('ع') && is_complex_script_char('क') && is_complex_script_char('ก'));
    assert!(!is_complex_script_char('é'));
    assert!(is_cluster_joiner('\u{200D}') && is_cluster_joiner('\u{0301}') && is_cluster_joiner('\u{093C}'));
    assert!(!is_cluster_joiner('a'));
}

#[test]
fn glyph_widths() {
    assert_eq!(glyph_em_width_hundredths('漢'), 100);
    assert_eq!(glyph_em_width_hundredths('ع'), 75);
    assert_eq!(glyph_em_width_hundredths('\u{00A0}'), 33);
    assert_eq!(glyph_em_width_hundredths('\u{00AD}'), 0);
    assert_eq!(glyph_em_width_hundredths('W'), 62);
    assert_eq!(glyph_em_width_hundredths('7'), 62);
    assert_eq!(glyph_em_width_hundredths('w'), 56);
    assert_eq!(glyph_em_width_hundredths('/'), 35);
    assert_eq!(glyph_em_width_hundredths(' '), 0);
    assert_eq!(glyph_em_width_hundredths('é'), 60);
}

#[test]
fn script_category_priorities() {
    assert_eq!(classify_script_category(""), ScriptCategory::LatinLike);
    assert_eq!(classify_script_category("hello"), ScriptCategory::LatinLike);
    assert_eq!(classify_script_category("hi 漢字"), ScriptCategory::EastAsian);
    assert_eq!(classify_script_category("漢字 😀"), ScriptCategory::Emoji);
    assert_eq!(classify_script_category("😀 שלום"), ScriptCategory::Complex);
}

#[test]
fn segmentation_edge_cases() {
    assert!(segment_by_script("").is_empty());
    let ws = segment_by_script("  \u{200D} ");
    assert_eq!(ws.len(), 1);
    assert_eq!(ws[0].category, ScriptCategory::LatinLike);
    assert_eq!(ws[0].text, "  \u{200D} ");
    let lead = segment_by_script("  漢a");
    assert_eq!(lead.len(), 2);
    assert_eq!(lead[0].text, "  漢");
    assert_eq!(lead[0].category, ScriptCategory::EastAsian);
    assert_eq!(lead[1].text, "a");
}

#[test]
fn segmentation_is_lossless_and_alternating() {
    let samples = ["Hello مرحبا world", "A👩‍💻B", "漢字かなabc123 شكرا 😀😀 x", "e\u{0301}t\u{00E9}", "a 漢 b 漢"];
    for s in samples {
        let segs = segment_by_script(s);
        let joined: String = segs.iter().map(|x| x.text.as_str()).collect();
        assert_eq!(joined, s);
        assert!(segs.iter().all(|x| !x.text.is_empty()));
        for w in segs.windows(2) {
            assert_ne!(w[0].category, w[1].category);
        }
    }
}
