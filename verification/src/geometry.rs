//! Preset geometry facts and the SVG output of custom geometry.
use vstd::prelude::*;

use crate::model::shape::PathFill;
use crate::strings::str_equal;

verus! {

/// SVG paths of a custom geometry.
pub struct CustomGeomSvg {
    pub paths: Vec<CustomGeomPathSvg>,
}

/// One SVG path of a custom geometry: its `d` attribute, its fill mode and whether it is
/// stroked.
pub struct CustomGeomPathSvg {
    pub d: String,
    pub fill: PathFill,
    pub stroke: bool,
}

/// Preset shapes with an inner cut-out (donut, frame, noSmoking, blockArc, bracePair,
/// bracketPair, bevel, funnel).
pub open spec fn spec_needs_evenodd_fill(name: Seq<char>) -> bool {
    ||| name == "donut"@
    ||| name == "frame"@
    ||| name == "noSmoking"@
    ||| name == "blockArc"@
    ||| name == "bracePair"@
    ||| name == "bracketPair"@
    ||| name == "bevel"@
    ||| name == "funnel"@
}

/// Returns true if this preset shape needs `fill-rule="evenodd"` to render its holes:
/// its inner sub-path winds opposite to the outer one to cut out the hole.
pub fn needs_evenodd_fill(name: &str) -> (r: bool)
    ensures
        r == spec_needs_evenodd_fill(name@),
{
    str_equal(name, "donut") || str_equal(name, "frame") || str_equal(name, "noSmoking")
        || str_equal(name, "blockArc") || str_equal(name, "bracePair") || str_equal(
        name,
        "bracketPair",
    ) || str_equal(name, "bevel") || str_equal(name, "funnel")
}

} // verus!
