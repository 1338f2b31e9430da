//! Where a rendered property came from.
use vstd::prelude::*;

verus! {

/// The level of the inheritance cascade that supplied a property.
#[derive(Debug, Clone, Copy, PartialEq, Eq, Structural)]
pub enum ProvenanceSource {
    Slide,
    SlideListStyle,
    LayoutPlaceholder,
    MasterPlaceholder,
    LayoutBackground,
    MasterBackground,
    LayoutListStyle,
    MasterListStyle,
    MasterTextStyles,
    DefaultTextStyle,
    StyleRef,
    HardcodedDefault,
}

/// What a provenance record describes.
#[derive(Debug, Clone, Copy, PartialEq, Eq, Structural)]
pub enum ProvenanceSubject {
    SlideBackground,
    Shape,
}

/// Provenance of the fill, border, text and background of one rendered element.
#[derive(Debug, Clone, PartialEq, Eq)]
pub struct RenderedProvenanceEntry {
    pub slide_index: usize,
    pub subject: ProvenanceSubject,
    pub shape_name: Option<String>,
    pub fill_source: Option<ProvenanceSource>,
    pub border_source: Option<ProvenanceSource>,
    pub text_source: Option<ProvenanceSource>,
    pub background_source: Option<ProvenanceSource>,
}

/// A provenance record as plain values.
pub struct ProvenanceRecord {
    pub slide_index: nat,
    pub subject: ProvenanceSubject,
    pub shape_name: Option<Seq<char>>,
    pub fill_source: Option<ProvenanceSource>,
    pub border_source: Option<ProvenanceSource>,
    pub text_source: Option<ProvenanceSource>,
    pub background_source: Option<ProvenanceSource>,
}

impl View for RenderedProvenanceEntry {
    type V = ProvenanceRecord;

    open spec fn view(&self) -> ProvenanceRecord {
        ProvenanceRecord {
            slide_index: self.slide_index as nat,
            subject: self.subject,
            shape_name: match self.shape_name {
                Some(n) => Some(n@),
                None => None,
            },
            fill_source: self.fill_source,
            border_source: self.border_source,
            text_source: self.text_source,
            background_source: self.background_source,
        }
    }
}

/// The provenance records of a list, as plain values.
pub open spec fn provenance_view(s: Seq<RenderedProvenanceEntry>) -> Seq<ProvenanceRecord> {
    s.map_values(|e: RenderedProvenanceEntry| e@)
}

} // verus!
