use pptx2html_core::model::shape::{PlaceholderInfo, PlaceholderType, Shape};
use pptx2html_core::resolver::placeholder::{find_matching_placeholder, text_style_source, TextStyleSource};

fn make_shape_with_ph(ph_type: Option<PlaceholderType>, idx: Option<u32>) -> Shape {
    Shape {
        placeholder: Some(PlaceholderInfo { ph_type, idx }),
        ..Default::default()
    }
}

fn make_shape_no_ph() -> Shape {
    Shape::default()
}

#[test]
fn match_both_type_and_idx() {
    let candidates = vec![
        make_shape_with_ph(Some(PlaceholderType::Title), Some(0)),
        make_shape_with_ph(Some(PlaceholderType::Body), Some(1)),
    ];
    let ph = PlaceholderInfo {
        ph_type: Some(PlaceholderType::Body),
        idx: Some(1),
    };
    let result = find_matching_placeholder(&ph, &candidates);
    assert!(result.is_some());
    let matched = result.unwrap();
    let mp = matched.placeholder.as_ref().unwrap();
    assert!(matches!(mp.ph_type, Some(PlaceholderType::Body)));
    assert_eq!(mp.idx, Some(1));
}

#[test]
fn match_type_only_when_idx_differs() {
    let candidates = vec![
        make_shape_with_ph(Some(PlaceholderType::Title), Some(0)),
        make_shape_with_ph(Some(PlaceholderType::Body), Some(5)),
    ];
    let ph = PlaceholderInfo {
        ph_type: Some(PlaceholderType::Body),
        idx: Some(99),
    };
    let result = find_matching_placeholder(&ph, &candidates);
    assert!(result.is_some());
    let mp = result.unwrap().placeholder.as_ref().unwrap();
    assert!(matches!(mp.ph_type, Some(PlaceholderType::Body)));
}

#[test]
fn match_idx_only_when_type_is_none() {
    let candidates = vec![
        make_shape_with_ph(Some(PlaceholderType::Title), Some(0)),
        make_shape_with_ph(Some(PlaceholderType::Body), Some(3)),
    ];
    let ph = PlaceholderInfo {
        ph_type: None,
        idx: Some(3),
    };
    let result = find_matching_placeholder(&ph, &candidates);
    assert!(result.is_some());
    assert_eq!(result.unwrap().placeholder.as_ref().unwrap().idx, Some(3));
}

#[test]
fn no_match_returns_none() {
    let candidates = vec![make_shape_with_ph(Some(PlaceholderType::Title), Some(0))];
    let ph = PlaceholderInfo {
        ph_type: Some(PlaceholderType::Body),
        idx: Some(99),
    };
    assert!(find_matching_placeholder(&ph, &candidates).is_none());
}

#[test]
fn skip_shapes_without_placeholder() {
    let candidates = vec![make_shape_no_ph()];
    let ph = PlaceholderInfo {
        ph_type: Some(PlaceholderType::Title),
        idx: Some(0),
    };
    assert!(find_matching_placeholder(&ph, &candidates).is_none());
}

#[test]
fn priority_1_over_priority_2() {
    let candidates = vec![
        make_shape_with_ph(Some(PlaceholderType::Body), Some(10)),
        make_shape_with_ph(Some(PlaceholderType::Body), Some(1)),
    ];
    let ph = PlaceholderInfo {
        ph_type: Some(PlaceholderType::Body),
        idx: Some(1),
    };
    let result = find_matching_placeholder(&ph, &candidates).unwrap();
    assert_eq!(result.placeholder.as_ref().unwrap().idx, Some(1));
}

#[test]
fn text_style_source_title() {
    assert_eq!(
        text_style_source(Some(&PlaceholderType::Title)),
        TextStyleSource::TitleStyle
    );
    assert_eq!(
        text_style_source(Some(&PlaceholderType::CtrTitle)),
        TextStyleSource::TitleStyle
    );
}

#[test]
fn text_style_source_body() {
    assert_eq!(
        text_style_source(Some(&PlaceholderType::Body)),
        TextStyleSource::BodyStyle
    );
    assert_eq!(
        text_style_source(Some(&PlaceholderType::SubTitle)),
        TextStyleSource::BodyStyle
    );
    assert_eq!(
        text_style_source(Some(&PlaceholderType::Obj)),
        TextStyleSource::BodyStyle
    );
}

#[test]
fn text_style_source_other() {
    assert_eq!(
        text_style_source(Some(&PlaceholderType::Dt)),
        TextStyleSource::OtherStyle
    );
    assert_eq!(text_style_source(None), TextStyleSource::OtherStyle);
}
