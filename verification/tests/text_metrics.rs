use pptx2html_core::text_metrics::{classify_script_category, segment_by_script, ScriptCategory};

#[test]
fn classify_script_category_detects_complex_script_text() {
    assert_eq!(
        classify_script_category("مرحبا بالعالم"),
        ScriptCategory::Complex
    );
}

#[test]
fn classify_script_category_detects_indic_text_as_complex() {
    assert_eq!(
        classify_script_category("नमस्ते दुनिया"),
        ScriptCategory::Complex
    );
}

#[test]
fn classify_script_category_detects_emoji_text() {
    assert_eq!(classify_script_category("👩‍💻"), ScriptCategory::Emoji);
}

#[test]
fn segment_by_script_splits_latin_and_complex_runs() {
    let segments = segment_by_script("Hello مرحبا world");
    assert_eq!(segments.len(), 3);
    assert_eq!(segments[0].category, ScriptCategory::LatinLike);
    assert_eq!(segments[1].category, ScriptCategory::Complex);
    assert_eq!(segments[2].category, ScriptCategory::LatinLike);
}

#[test]
fn segment_by_script_splits_latin_and_indic_runs() {
    let segments = segment_by_script("Hello नमस्ते world");
    assert_eq!(segments.len(), 3);
    assert_eq!(segments[0].category, ScriptCategory::LatinLike);
    assert_eq!(segments[1].category, ScriptCategory::Complex);
    assert_eq!(segments[2].category, ScriptCategory::LatinLike);
}

#[test]
fn segment_by_script_keeps_emoji_zwj_cluster_together() {
    let segments = segment_by_script("Hello 👩‍💻 world");
    assert_eq!(segments.len(), 3);
    assert_eq!(segments[0].text, "Hello ");
    assert!(segments[1].text.starts_with("👩‍💻"));
    assert!(segments[2].text.ends_with("world"));
}

#[test]
fn segment_by_script_keeps_combining_mark_with_base_character() {
    let segments = segment_by_script("Hello क़ world");
    let complex_segment = segments
        .iter()
        .find(|segment| segment.category == ScriptCategory::Complex)
        .expect("complex segment");
    assert!(complex_segment.text.starts_with("क़"));
}

#[test]
fn segment_by_script_splits_latin_and_emoji_runs() {
    let segments = segment_by_script("A👩‍💻B");
    assert_eq!(segments.len(), 3);
    assert_eq!(segments[0].category, ScriptCategory::LatinLike);
    assert_eq!(segments[1].category, ScriptCategory::Emoji);
    assert_eq!(segments[1].text, "👩‍💻");
    assert_eq!(segments[2].category, ScriptCategory::LatinLike);
}
