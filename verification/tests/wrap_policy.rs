use pptx2html_core::model::text::{FontStyle, ParagraphDefRPr, TextParagraph, TextRun, TextStyle};
use pptx2html_core::text_metrics::{classify_wrap_policy, TextWrapPolicy};

const EMU_PER_PX: i64 = 9525;

fn run(text: &str, font_size: Option<i32>) -> TextRun {
    TextRun {
        text: text.into(),
        style: TextStyle { font_size, ..Default::default() },
        font: FontStyle::default(),
        hyperlink: None,
        is_break: false,
    }
}

fn para(runs: Vec<TextRun>) -> Vec<TextParagraph> {
    vec![TextParagraph { runs, ..Default::default() }]
}

#[test]
fn classify_wrap_policy_keeps_regular_sentence_normal() {
    let paragraphs = para(vec![run("This sentence should wrap at spaces without emergency breaks", Some(1800))]);
    assert_eq!(classify_wrap_policy(&paragraphs, &[None], 220 * EMU_PER_PX, None), TextWrapPolicy::Normal);
}

#[test]
fn classify_wrap_policy_marks_long_unbreakable_token_as_emergency() {
    let paragraphs = para(vec![run("SupercalifragilisticexpialidociousWithoutSpaces", Some(1800))]);
    assert_eq!(classify_wrap_policy(&paragraphs, &[None], 120 * EMU_PER_PX, None), TextWrapPolicy::Emergency);
}

#[test]
fn classify_wrap_policy_marks_split_mixed_font_token_as_emergency() {
    let paragraphs = para(vec![run("overflow", Some(1800)), run("detector", Some(1800))]);
    assert_eq!(classify_wrap_policy(&paragraphs, &[None], 160 * EMU_PER_PX, None), TextWrapPolicy::Emergency);
}

#[test]
fn classify_wrap_policy_uses_paragraph_default_font_size() {
    let paragraphs = vec![TextParagraph {
        runs: vec![run("overflow", None), run("detector", None)],
        def_rpr: Some(ParagraphDefRPr { font_size: Some(2800), ..Default::default() }),
        ..Default::default()
    }];
    assert_eq!(
        classify_wrap_policy(&paragraphs, &[None], 180 * EMU_PER_PX, Some(70000)),
        TextWrapPolicy::Emergency
    );
}

#[test]
fn classify_wrap_policy_uses_inherited_run_default_font_size() {
    let paragraphs = para(vec![run("overflow", None), run("detector", None)]);
    assert_eq!(
        classify_wrap_policy(&paragraphs, &[Some(2800)], 180 * EMU_PER_PX, Some(70000)),
        TextWrapPolicy::Emergency
    );
}

#[test]
fn classify_wrap_policy_treats_nbsp_as_non_breaking() {
    let paragraphs = para(vec![run("Alpha\u{00A0}Beta\u{00A0}Gamma", Some(1800))]);
    assert_eq!(classify_wrap_policy(&paragraphs, &[None], 100 * EMU_PER_PX, None), TextWrapPolicy::Emergency);
}

#[test]
fn classify_wrap_policy_treats_soft_hyphen_as_break_opportunity() {
    let paragraphs = para(vec![run("Alpha\u{00AD}Beta\u{00AD}Gamma", Some(1800))]);
    assert_eq!(classify_wrap_policy(&paragraphs, &[None], 100 * EMU_PER_PX, None), TextWrapPolicy::Normal);
}

#[test]
fn classify_wrap_policy_keeps_fullwidth_sentence_normal() {
    let paragraphs = para(vec![run("ＡＢＣＤＥＦＧＨＩＪ", Some(1800))]);
    assert_eq!(
        classify_wrap_policy(&paragraphs, &[None], 90 * EMU_PER_PX, Some(70000)),
        TextWrapPolicy::Normal
    );
}

#[test]
fn classify_wrap_policy_marks_cjk_nonstarter_punctuation_cluster_as_emergency() {
    let paragraphs = para(vec![run("漢、漢", Some(1800))]);
    assert_eq!(classify_wrap_policy(&paragraphs, &[None], 30 * EMU_PER_PX, None), TextWrapPolicy::Emergency);
}

#[test]
fn classify_wrap_policy_treats_slash_as_break_opportunity() {
    let paragraphs = para(vec![run("Alpha/Beta/Gamma", Some(1800))]);
    assert_eq!(classify_wrap_policy(&paragraphs, &[None], 80 * EMU_PER_PX, None), TextWrapPolicy::Normal);
}

#[test]
fn classify_wrap_policy_keeps_cjk_sentence_normal() {
    let paragraphs = para(vec![run("자동줄바꿈이가능한한글문장은긴토큰처럼취급되면안됩니다", Some(1800))]);
    assert_eq!(
        classify_wrap_policy(&paragraphs, &[None], 90 * EMU_PER_PX, Some(70000)),
        TextWrapPolicy::Normal
    );
}

#[test]
fn wrap_estimate_is_exact_at_the_boundary() {
    // Ten lower-case letters at 18pt: 10 * 0.56em * 24px = 134.4px.
    let paragraphs = para(vec![run("abcdefghij", Some(1800))]);
    let exact = 1344 * EMU_PER_PX / 10;
    assert_eq!(classify_wrap_policy(&paragraphs, &[None], exact, None), TextWrapPolicy::Normal);
    assert_eq!(classify_wrap_policy(&paragraphs, &[None], exact - 1, None), TextWrapPolicy::Emergency);
    // Line breaks end spans; an available width below one pixel counts as one pixel.
    let broken = para(vec![
        run("a", Some(1800)),
        TextRun { is_break: true, ..Default::default() },
        run("b", Some(1800)),
    ]);
    assert_eq!(classify_wrap_policy(&broken, &[None], 14 * EMU_PER_PX, None), TextWrapPolicy::Normal);
    assert_eq!(classify_wrap_policy(&para(vec![]), &[], 0, None), TextWrapPolicy::Normal);
}

#[test]
fn wider_boxes_never_need_emergency_wrapping() {
    let paragraphs = para(vec![run("SupercalifragilisticexpialidociousWithoutSpaces", Some(1800))]);
    let mut seen_normal = false;
    for px in (20..2000).step_by(20) {
        let policy = classify_wrap_policy(&paragraphs, &[None], px * EMU_PER_PX, None);
        if seen_normal {
            assert_eq!(policy, TextWrapPolicy::Normal);
        }
        seen_normal |= policy == TextWrapPolicy::Normal;
    }
    assert!(seen_normal);
}
