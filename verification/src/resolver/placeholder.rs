//! Placeholder matching between slide, layout and master.
//!
//! OOXML placeholders are matched by (type, idx). A slide placeholder inherits from the
//! layout or master placeholder it matches.
use vstd::prelude::*;

use crate::model::shape::{PlaceholderInfo, PlaceholderType, Shape};

verus! {

/// Which list of the master's text styles applies to a placeholder.
#[derive(Debug, Clone, Copy, PartialEq, Eq, Structural)]
pub enum TextStyleSource {
    TitleStyle,
    BodyStyle,
    OtherStyle,
}

/// Both placeholders have a type and the types agree.
pub open spec fn type_eq(ph: PlaceholderInfo, cand: PlaceholderInfo) -> bool {
    ph.ph_type is Some && cand.ph_type is Some && ph.ph_type == cand.ph_type
}

/// Both placeholders have an index and the indices agree.
pub open spec fn idx_eq(ph: PlaceholderInfo, cand: PlaceholderInfo) -> bool {
    ph.idx is Some && cand.idx is Some && ph.idx == cand.idx
}

/// The shape is a placeholder that agrees with `ph` in type and index.
pub open spec fn full_match(ph: PlaceholderInfo, s: Shape) -> bool {
    s.placeholder matches Some(c) && type_eq(ph, c) && idx_eq(ph, c)
}

/// The shape is a placeholder that agrees with `ph` in type.
pub open spec fn type_match(ph: PlaceholderInfo, s: Shape) -> bool {
    s.placeholder matches Some(c) && type_eq(ph, c)
}

/// `ph` has no type and the shape is a placeholder with the same index.
pub open spec fn idx_match(ph: PlaceholderInfo, s: Shape) -> bool {
    s.placeholder matches Some(c) && idx_eq(ph, c) && ph.ph_type is None
}

/// Match of rank `rank`: 0 type and index, 1 type only, 2 index only (untyped `ph`).
pub open spec fn match_of_rank(ph: PlaceholderInfo, rank: int, s: Shape) -> bool {
    if rank == 0 {
        full_match(ph, s)
    } else if rank == 1 {
        type_match(ph, s)
    } else {
        idx_match(ph, s)
    }
}

/// Index of the first shape of `s` that matches `ph` with rank `rank`.
pub open spec fn first_where(s: Seq<Shape>, ph: PlaceholderInfo, rank: int) -> Option<int>
    decreases s.len(),
{
    if s.len() == 0 {
        None
    } else if match_of_rank(ph, rank, s[0]) {
        Some(0)
    } else {
        match first_where(s.drop_first(), ph, rank) {
            Some(i) => Some(i + 1),
            None => None,
        }
    }
}

/// The candidate a placeholder inherits from: the first that matches in type and index;
/// else the first that matches in type; else (for an untyped placeholder) the first that
/// matches in index.
pub open spec fn spec_matching_placeholder(ph: PlaceholderInfo, s: Seq<Shape>) -> Option<int> {
    match first_where(s, ph, 0) {
        Some(i) => Some(i),
        None => match first_where(s, ph, 1) {
            Some(i) => Some(i),
            None => first_where(s, ph, 2),
        },
    }
}

proof fn lemma_first_where_skip(s: Seq<Shape>, ph: PlaceholderInfo, f: int, i: int)
    requires
        0 <= i < s.len(),
    ensures
        first_where(s.skip(i), ph, f) == if match_of_rank(ph, f, s[i]) {
            Some(0int)
        } else {
            match first_where(s.skip(i + 1), ph, f) {
                Some(j) => Some(j + 1),
                None => None,
            }
        },
{
    assert(s.skip(i).drop_first() == s.skip(i + 1));
    assert(s.skip(i)[0] == s[i]);
}

proof fn lemma_first_where_bounds(s: Seq<Shape>, ph: PlaceholderInfo, f: int)
    ensures
        first_where(s, ph, f) matches Some(i) ==> 0 <= i < s.len() && match_of_rank(ph, f, s[i]),
    decreases s.len(),
{
    if s.len() > 0 && !match_of_rank(ph, f, s[0]) {
        lemma_first_where_bounds(s.drop_first(), ph, f);
    }
}

/// The first index at or after `i` that satisfies `f`, relative to the whole sequence.
spec fn first_from(s: Seq<Shape>, ph: PlaceholderInfo, f: int, i: int) -> Option<int> {
    match first_where(s.skip(i), ph, f) {
        Some(j) => Some(j + i),
        None => None,
    }
}

/// Find the layout or master placeholder that a placeholder inherits from.
///
/// Priority: both type and idx match; else type matches (first such); else, when the
/// placeholder has no type, idx matches (first such).
pub fn find_matching_placeholder<'a>(ph: &PlaceholderInfo, candidates: &'a [Shape]) -> (r: Option<
    &'a Shape,
>)
    ensures
        match spec_matching_placeholder(*ph, candidates@) {
            Some(i) => 0 <= i < candidates@.len() && r == Some(&candidates@[i]),
            None => r is None,
        },
{
    let ghost s = candidates@;
    let ghost p = *ph;
    let mut type_found: Option<usize> = None;
    let mut idx_found: Option<usize> = None;
    let mut i: usize = 0;
    proof {
        assert(s.skip(0) == s);
    }
    while i < candidates.len()
        invariant
            s == candidates@,
            p == *ph,
            i <= s.len(),
            first_where(s, p, 0) == first_from(s, p, 0, i as int),
            match type_found {
                Some(t) => first_where(s, p, 1) == Some(t as int),
                None => first_where(s, p, 1) == first_from(s, p, 1, i as int),
            },
            match idx_found {
                Some(t) => first_where(s, p, 2) == Some(t as int),
                None => first_where(s, p, 2) == first_from(s, p, 2, i as int),
            },
        decreases s.len() - i,
    {
        let shape = &candidates[i];
        proof {
            lemma_first_where_skip(s, p, 0, i as int);
            lemma_first_where_skip(s, p, 1, i as int);
            lemma_first_where_skip(s, p, 2, i as int);
        }
        match &shape.placeholder {
            None => {},
            Some(cand_ph) => {
                let types_agree = match (&ph.ph_type, &cand_ph.ph_type) {
                    (Some(a), Some(b)) => ph_type_eq(a, b),
                    _ => false,
                };
                let idx_agree = match (ph.idx, cand_ph.idx) {
                    (Some(a), Some(b)) => a == b,
                    _ => false,
                };
                if types_agree && idx_agree {
                    proof {
                        assert(match_of_rank(p, 0, s[i as int]));
                        lemma_first_where_bounds(s, p, 0);
                    }
                    return Some(shape);
                }
                if types_agree && type_found.is_none() {
                    type_found = Some(i);
                }
                if idx_agree && ph.ph_type.is_none() && idx_found.is_none() {
                    idx_found = Some(i);
                }
            },
        }
        i = i + 1;
    }
    proof {
        assert(s.skip(i as int).len() == 0);
        lemma_first_where_bounds(s, p, 1);
        lemma_first_where_bounds(s, p, 2);
    }
    match type_found {
        Some(t) => Some(&candidates[t]),
        None => match idx_found {
            Some(t) => Some(&candidates[t]),
            None => None,
        },
    }
}

/// The list of the master's text styles for a placeholder type.
pub open spec fn spec_text_style_source(ph_type: Option<PlaceholderType>) -> TextStyleSource {
    match ph_type {
        Some(PlaceholderType::Title) | Some(PlaceholderType::CtrTitle) => TextStyleSource::TitleStyle,
        Some(PlaceholderType::Body) | Some(PlaceholderType::SubTitle) | Some(PlaceholderType::Obj) => TextStyleSource::BodyStyle,
        _ => TextStyleSource::OtherStyle,
    }
}

/// Titles use the title style; body, subtitle and object placeholders the body style;
/// everything else the other style.
pub fn text_style_source(ph_type: Option<&PlaceholderType>) -> (r: TextStyleSource)
    ensures
        r == spec_text_style_source(match ph_type {
            Some(t) => Some(*t),
            None => None,
        }),
{
    match ph_type {
        Some(PlaceholderType::Title) | Some(PlaceholderType::CtrTitle) => TextStyleSource::TitleStyle,
        Some(PlaceholderType::Body) | Some(PlaceholderType::SubTitle) | Some(PlaceholderType::Obj) => TextStyleSource::BodyStyle,
        _ => TextStyleSource::OtherStyle,
    }
}

/// Two placeholder types are the same kind.
fn ph_type_eq(a: &PlaceholderType, b: &PlaceholderType) -> (r: bool)
    ensures
        r == (*a == *b),
{
    *a == *b
}


proof fn lemma_first_where_exists(s: Seq<Shape>, ph: PlaceholderInfo, rank: int, k: int)
    requires
        0 <= k < s.len(),
        match_of_rank(ph, rank, s[k]),
    ensures
        first_where(s, ph, rank) is Some,
    decreases s.len(),
{
    if !match_of_rank(ph, rank, s[0]) {
        assert(s.drop_first()[k - 1] == s[k]);
        lemma_first_where_exists(s.drop_first(), ph, rank, k - 1);
    }
}

/// A candidate that matches in both type and index always wins over one that matches in
/// type only, wherever it stands; and whatever is matched is a placeholder that agrees
/// with `ph` in type or (for an untyped `ph`) in index.
pub proof fn full_match_has_priority(ph: PlaceholderInfo, candidates: Seq<Shape>, k: int)
    ensures
        (0 <= k < candidates.len() && full_match(ph, candidates[k])) ==> (spec_matching_placeholder(
            ph,
            candidates,
        ) matches Some(i) && full_match(ph, candidates[i])),
        spec_matching_placeholder(ph, candidates) matches Some(i) ==> (0 <= i < candidates.len()
            && candidates[i].placeholder is Some && (type_match(ph, candidates[i]) || idx_match(
            ph,
            candidates[i],
        ))),
{
    lemma_first_where_bounds(candidates, ph, 0);
    lemma_first_where_bounds(candidates, ph, 1);
    lemma_first_where_bounds(candidates, ph, 2);
    if 0 <= k < candidates.len() && full_match(ph, candidates[k]) {
        assert(match_of_rank(ph, 0, candidates[k]));
        lemma_first_where_exists(candidates, ph, 0, k);
    }
}

} // verus!
