use pptx2html_core::model::color::{ClrMap, Color, ColorKind, ColorScheme};
use pptx2html_core::model::fill::{Border, BorderStyle, Fill, SolidFill};
use pptx2html_core::model::hierarchy::{FmtScheme, FontRef, FontScheme, StyleRef};
use pptx2html_core::resolver::style_ref::{resolve_fill_ref, resolve_font_ref, resolve_ln_ref};

/// EMU per point.
const EMU_PER_PT: f64 = 12700.0;

fn test_scheme() -> ColorScheme {
    ColorScheme {
        dk1: "000000".to_string(),
        lt1: "FFFFFF".to_string(),
        accent1: "4472C4".to_string(),
        ..Default::default()
    }
}

fn test_fmt_scheme() -> FmtScheme {
    FmtScheme {
        fill_style_lst: vec![
            Fill::Solid(SolidFill {
                color: Color::none(),
            }),
            Fill::Solid(SolidFill {
                color: Color::rgb("AABBCC"),
            }),
            Fill::Solid(SolidFill {
                color: Color::none(),
            }),
        ],
        ln_style_lst: vec![
            Border {
                width: 9525,
                color: Color::none(),
                style: BorderStyle::Solid,
                ..Default::default()
            },
            Border {
                width: 19050,
                color: Color::none(),
                style: BorderStyle::Solid,
                ..Default::default()
            },
        ],
        bg_fill_style_lst: vec![Fill::Solid(SolidFill {
            color: Color::none(),
        })],
    }
}

#[test]
fn fill_ref_idx_zero_returns_none() {
    let sr = StyleRef {
        idx: 0,
        color: Color::theme("accent1"),
    };
    assert!(resolve_fill_ref(&sr, &test_fmt_scheme(), &test_scheme(), &ClrMap::default()).is_none());
}

#[test]
fn fill_ref_idx_1_replaces_placeholder_color() {
    let sr = StyleRef {
        idx: 1,
        color: Color::theme("accent1"),
    };
    let fill = resolve_fill_ref(&sr, &test_fmt_scheme(), &test_scheme(), &ClrMap::default()).unwrap();
    match fill {
        Fill::Solid(sf) => {
            assert!(matches!(sf.color.kind, ColorKind::Theme(ref n) if n == "accent1"));
        }
        other => panic!("Expected SolidFill, got {other:?}"),
    }
}

#[test]
fn fill_ref_idx_2_keeps_existing_color() {
    let sr = StyleRef {
        idx: 2,
        color: Color::theme("accent1"),
    };
    let fill = resolve_fill_ref(&sr, &test_fmt_scheme(), &test_scheme(), &ClrMap::default()).unwrap();
    match fill {
        Fill::Solid(sf) => {
            assert!(matches!(sf.color.kind, ColorKind::Rgb(ref v) if v == "AABBCC"));
        }
        other => panic!("Expected SolidFill, got {other:?}"),
    }
}

#[test]
fn fill_ref_bg_idx_1001() {
    let sr = StyleRef {
        idx: 1001,
        color: Color::theme("accent1"),
    };
    let fill = resolve_fill_ref(&sr, &test_fmt_scheme(), &test_scheme(), &ClrMap::default()).unwrap();
    match fill {
        Fill::Solid(sf) => {
            assert!(matches!(sf.color.kind, ColorKind::Theme(ref n) if n == "accent1"));
        }
        other => panic!("Expected SolidFill, got {other:?}"),
    }
}

#[test]
fn fill_ref_out_of_range_returns_none() {
    let sr = StyleRef {
        idx: 99,
        color: Color::theme("accent1"),
    };
    assert!(resolve_fill_ref(&sr, &test_fmt_scheme(), &test_scheme(), &ClrMap::default()).is_none());
}

#[test]
fn ln_ref_idx_zero_returns_none() {
    let sr = StyleRef {
        idx: 0,
        color: Color::theme("accent1"),
    };
    assert!(resolve_ln_ref(&sr, &test_fmt_scheme(), &test_scheme(), &ClrMap::default()).is_none());
}

#[test]
fn ln_ref_idx_1_overrides_color() {
    let sr = StyleRef {
        idx: 1,
        color: Color::theme("accent1"),
    };
    let border = resolve_ln_ref(&sr, &test_fmt_scheme(), &test_scheme(), &ClrMap::default()).unwrap();
    assert!((border.width as f64 / EMU_PER_PT - 0.75).abs() < 0.01);
    assert!(matches!(border.color.kind, ColorKind::Theme(ref n) if n == "accent1"));
    assert!(matches!(border.style, BorderStyle::Solid));
}

#[test]
fn ln_ref_idx_2() {
    let sr = StyleRef {
        idx: 2,
        color: Color::rgb("FF0000"),
    };
    let border = resolve_ln_ref(&sr, &test_fmt_scheme(), &test_scheme(), &ClrMap::default()).unwrap();
    assert!((border.width as f64 / EMU_PER_PT - 1.5).abs() < 0.01);
    assert!(matches!(border.color.kind, ColorKind::Rgb(ref v) if v == "FF0000"));
}

#[test]
fn font_ref_major() {
    let fr = FontRef {
        idx: "major".to_string(),
        color: Color::theme("dk1"),
    };
    let fs = FontScheme {
        major_latin: "Calibri Light".to_string(),
        minor_latin: "Calibri".to_string(),
        ..Default::default()
    };
    let result = resolve_font_ref(&fr, &fs, &test_scheme(), &ClrMap::default()).unwrap();
    assert_eq!(result.0, "Calibri Light");
    assert!(result.1.is_some());
}

#[test]
fn font_ref_minor() {
    let fr = FontRef {
        idx: "minor".to_string(),
        color: Color::none(),
    };
    let fs = FontScheme {
        major_latin: "Calibri Light".to_string(),
        minor_latin: "Calibri".to_string(),
        ..Default::default()
    };
    let result = resolve_font_ref(&fr, &fs, &test_scheme(), &ClrMap::default()).unwrap();
    assert_eq!(result.0, "Calibri");
    assert!(result.1.is_none());
}

#[test]
fn font_ref_unknown_idx_returns_none() {
    let fr = FontRef {
        idx: "unknown".to_string(),
        color: Color::none(),
    };
    let fs = FontScheme::default();
    assert!(resolve_font_ref(&fr, &fs, &test_scheme(), &ClrMap::default()).is_none());
}
