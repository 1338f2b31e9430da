//! The style sheet shared by every rendered presentation.
use vstd::prelude::*;

use crate::renderer::fill_css::HtmlRenderer;
use crate::renderer::html::{escape_html, spec_escape_html};
use crate::strings::{fmt_fixed, push_fixed, push_str};

verus! {

/// The global style sheet for slides of the given size (EMU), written in pixels with
/// one decimal.
pub open spec fn spec_global_css(slide_w: int, slide_h: int) -> Seq<char> {
    "* { margin: 0; padding: 0; box-sizing: border-box; }\nbody { background: #f0f0f0; font-family: 'Calibri', 'Malgun Gothic', sans-serif; }\n.pptx-container { display: flex; flex-direction: column; align-items: center; gap: 20px; padding: 20px; }\n.slide-shell {\n  position: relative;\n  flex: 0 0 auto;\n  overflow: hidden;\n}\n.slide {\n  position: relative;\n  width: "@ + fmt_fixed(slide_w, 9525, 1) + "px;\n  height: "@ + fmt_fixed(
        slide_h,
        9525,
        1,
    ) + "px;\n  background: #fff;\n  overflow: hidden;\n  box-shadow: 0 2px 8px rgba(0,0,0,0.15);\n}\n.shape {\n  position: absolute;\n  overflow: visible;\n}\n.text-body {\n  width: 100%;\n  height: 100%;\n  display: flex;\n  flex-direction: column;\n  overflow-wrap: break-word;\n  word-wrap: break-word;\n}\n.text-body.v-top { justify-content: flex-start; }\n.text-body.v-middle { justify-content: center; }\n.text-body.v-bottom { justify-content: flex-end; }\n.text-body.h-center { align-items: center; }\n.paragraph { margin: 0; }\n.run { white-space: pre-wrap; word-break: normal; overflow-wrap: normal; }\n.text-body.emergency-wrap .run { word-break: break-word; overflow-wrap: anywhere; }\n.text-body.nowrap .run { white-space: inherit; word-break: normal; overflow-wrap: normal; }\nimg.shape-image { width: 100%; height: 100%; object-fit: cover; display: block; }\n.shape-svg { position: absolute; top: 0; left: 0; width: 100%; height: 100%; }\n.shape-svg + .text-body { position: relative; z-index: 1; }\n.chart-placeholder { display: flex; align-items: center; justify-content: center; width: 100%; height: 100%; background: #f8f8f8; border: 1px dashed #ccc; color: #888; font-size: 14px; }\n.chart-direct { width: 100%; height: 100%; display: flex; flex-direction: column; justify-content: stretch; gap: 8px; color: #333; }\n.chart-series-label { font-size: 12px; font-weight: 600; color: #555; }\n.chart-plot-area { display: flex; flex: 1 1 auto; align-items: stretch; gap: 8px; min-height: 0; }\n.chart-plot-main { display: flex; flex: 1 1 auto; flex-direction: column; min-width: 0; min-height: 0; }\n.chart-svg { width: 100%; height: 100%; }\n.chart-axis-labels { display: flex; justify-content: space-between; font-size: 11px; color: #666; gap: 8px; }\n.chart-axis-title { font-size: 11px; color: #666; }\n.chart-axis-title-y { writing-mode: vertical-rl; transform: rotate(180deg); display: flex; align-items: center; justify-content: center; min-width: 18px; text-align: center; }\n.chart-axis-title-x { text-align: center; padding-top: 2px; }\n.chart-data-label { font-size: 10px; fill: #444; text-anchor: middle; dominant-baseline: middle; }\n.chart-legend { display: flex; flex-wrap: wrap; gap: 10px; font-size: 11px; color: #555; }\n.chart-legend-item { display: inline-flex; align-items: center; gap: 4px; }\n.chart-legend-swatch { width: 10px; height: 10px; border-radius: 2px; display: inline-block; }\n.chart-bar { fill: #4472C4; }\n.chart-bar-horizontal { fill: #4472C4; }\n.chart-bar-stacked { fill: #4472C4; }\n.chart-line { fill: none; stroke-width: 2; }\n.chart-area { stroke: none; opacity: 0.35; }\n.chart-point { stroke: none; }\n.chart-pie-slice { stroke: #fff; stroke-width: 1; }\n.unresolved-element { display: flex; align-items: center; justify-content: center; width: 100%; height: 100%; background: #f8f8f8; border: 1px dashed #ccc; color: #888; font-size: 14px; }\n"@
}

impl HtmlRenderer {
    /// The global style sheet: page layout, slide frame of the given size (EMU), shape,
    /// text-body, run, image, SVG, chart and placeholder classes.
    pub fn global_css(slide_w: i64, slide_h: i64) -> (r: String)
        ensures
            r@ == spec_global_css(slide_w as int, slide_h as int),
    {
        let mut css = String::new();
        push_str(&mut css, "* { margin: 0; padding: 0; box-sizing: border-box; }\nbody { background: #f0f0f0; font-family: 'Calibri', 'Malgun Gothic', sans-serif; }\n.pptx-container { display: flex; flex-direction: column; align-items: center; gap: 20px; padding: 20px; }\n.slide-shell {\n  position: relative;\n  flex: 0 0 auto;\n  overflow: hidden;\n}\n.slide {\n  position: relative;\n  width: ");
        push_fixed(&mut css, slide_w as i128, 9525, 1);
        push_str(&mut css, "px;\n  height: ");
        push_fixed(&mut css, slide_h as i128, 9525, 1);
        push_str(&mut css, "px;\n  background: #fff;\n  overflow: hidden;\n  box-shadow: 0 2px 8px rgba(0,0,0,0.15);\n}\n.shape {\n  position: absolute;\n  overflow: visible;\n}\n.text-body {\n  width: 100%;\n  height: 100%;\n  display: flex;\n  flex-direction: column;\n  overflow-wrap: break-word;\n  word-wrap: break-word;\n}\n.text-body.v-top { justify-content: flex-start; }\n.text-body.v-middle { justify-content: center; }\n.text-body.v-bottom { justify-content: flex-end; }\n.text-body.h-center { align-items: center; }\n.paragraph { margin: 0; }\n.run { white-space: pre-wrap; word-break: normal; overflow-wrap: normal; }\n.text-body.emergency-wrap .run { word-break: break-word; overflow-wrap: anywhere; }\n.text-body.nowrap .run { white-space: inherit; word-break: normal; overflow-wrap: normal; }\nimg.shape-image { width: 100%; height: 100%; object-fit: cover; display: block; }\n.shape-svg { position: absolute; top: 0; left: 0; width: 100%; height: 100%; }\n.shape-svg + .text-body { position: relative; z-index: 1; }\n.chart-placeholder { display: flex; align-items: center; justify-content: center; width: 100%; height: 100%; background: #f8f8f8; border: 1px dashed #ccc; color: #888; font-size: 14px; }\n.chart-direct { width: 100%; height: 100%; display: flex; flex-direction: column; justify-content: stretch; gap: 8px; color: #333; }\n.chart-series-label { font-size: 12px; font-weight: 600; color: #555; }\n.chart-plot-area { display: flex; flex: 1 1 auto; align-items: stretch; gap: 8px; min-height: 0; }\n.chart-plot-main { display: flex; flex: 1 1 auto; flex-direction: column; min-width: 0; min-height: 0; }\n.chart-svg { width: 100%; height: 100%; }\n.chart-axis-labels { display: flex; justify-content: space-between; font-size: 11px; color: #666; gap: 8px; }\n.chart-axis-title { font-size: 11px; color: #666; }\n.chart-axis-title-y { writing-mode: vertical-rl; transform: rotate(180deg); display: flex; align-items: center; justify-content: center; min-width: 18px; text-align: center; }\n.chart-axis-title-x { text-align: center; padding-top: 2px; }\n.chart-data-label { font-size: 10px; fill: #444; text-anchor: middle; dominant-baseline: middle; }\n.chart-legend { display: flex; flex-wrap: wrap; gap: 10px; font-size: 11px; color: #555; }\n.chart-legend-item { display: inline-flex; align-items: center; gap: 4px; }\n.chart-legend-swatch { width: 10px; height: 10px; border-radius: 2px; display: inline-block; }\n.chart-bar { fill: #4472C4; }\n.chart-bar-horizontal { fill: #4472C4; }\n.chart-bar-stacked { fill: #4472C4; }\n.chart-line { fill: none; stroke-width: 2; }\n.chart-area { stroke: none; opacity: 0.35; }\n.chart-point { stroke: none; }\n.chart-pie-slice { stroke: #fff; stroke-width: 1; }\n.unresolved-element { display: flex; align-items: center; justify-content: center; width: 100%; height: 100%; background: #f8f8f8; border: 1px dashed #ccc; color: #888; font-size: 14px; }\n");
        proof {
            assert(css@ =~= spec_global_css(slide_w as int, slide_h as int));
        }
        css
    }
}

/// The head of the HTML document up to the slide container: doctype, metadata, the
/// title (escaped; `Presentation` without one), the global style sheet for the slide
/// size (EMU), and the opening of the body and of the slide container.
pub open spec fn spec_document_head(title: Option<Seq<char>>, slide_w: int, slide_h: int) -> Seq<char> {
    "<!DOCTYPE html>\n<html lang=\"ko\">\n<head>\n<meta charset=\"UTF-8\">\n<meta name=\"viewport\" content=\"width=device-width, initial-scale=1.0\">\n<meta name=\"generator\" content=\"pptx2html-turbo\">\n"@
        + match title {
        Some(t) => "<title>"@ + spec_escape_html(t) + "</title>\n"@,
        None => "<title>Presentation</title>\n"@,
    } + "<style>\n"@ + spec_global_css(slide_w, slide_h)
        + "</style>\n</head>\n<body>\n<div class=\"pptx-container\">\n"@
}

impl HtmlRenderer {
    /// Write the head of the HTML document (see `spec_document_head`).
    pub fn begin_document(title: Option<&str>, slide_w: i64, slide_h: i64, html: &mut String)
        ensures
            final(html)@ == old(html)@ + spec_document_head(
                match title {
                    Some(t) => Some(t@),
                    None => None,
                },
                slide_w as int,
                slide_h as int,
            ),
    {
        push_str(
            html,
            "<!DOCTYPE html>\n<html lang=\"ko\">\n<head>\n<meta charset=\"UTF-8\">\n<meta name=\"viewport\" content=\"width=device-width, initial-scale=1.0\">\n<meta name=\"generator\" content=\"pptx2html-turbo\">\n",
        );
        match title {
            Some(t) => {
                push_str(html, "<title>");
                push_str(html, escape_html(t).as_str());
                push_str(html, "</title>\n");
            },
            None => push_str(html, "<title>Presentation</title>\n"),
        }
        push_str(html, "<style>\n");
        push_str(html, Self::global_css(slide_w, slide_h).as_str());
        push_str(html, "</style>\n</head>\n<body>\n<div class=\"pptx-container\">\n");
        proof {
            assert(html@ =~= old(html)@ + spec_document_head(
                match title {
                    Some(t) => Some(t@),
                    None => None,
                },
                slide_w as int,
                slide_h as int,
            ));
        }
    }
}

} // verus!
