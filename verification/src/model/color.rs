//! Colors as written in the document, the theme's color scheme and the color map.
use vstd::prelude::*;

use crate::strings::str_equal;

verus! {

/// How a color is given: not at all, as an sRGB hex string, or by a theme slot name
/// (`accent1`, `tx1`, `phClr`, ...).
#[derive(Debug, Clone, PartialEq, Eq, Default)]
pub enum ColorKind {
    #[default]
    Unset,
    Rgb(String),
    Theme(String),
}

/// A color reference of the document model.
#[derive(Debug, Clone, PartialEq, Eq, Default)]
pub struct Color {
    pub kind: ColorKind,
}

/// A color reduced to an sRGB hex string (without `#`).
#[derive(Debug, Clone, PartialEq, Eq)]
pub struct ResolvedColor {
    pub hex: String,
}

/// The twelve slots of a theme color scheme, each an sRGB hex string.
#[derive(Debug, Clone, PartialEq, Eq, Default)]
pub struct ColorScheme {
    pub dk1: String,
    pub lt1: String,
    pub dk2: String,
    pub lt2: String,
    pub accent1: String,
    pub accent2: String,
    pub accent3: String,
    pub accent4: String,
    pub accent5: String,
    pub accent6: String,
    pub hlink: String,
    pub fol_hlink: String,
}

/// The color map of a master (or an override): logical names such as `tx1` to scheme
/// slots such as `dk1`. Entries are kept in insertion order; `set` keeps every key once
/// (see `clr_map_keys_unique`).
#[derive(Debug, Clone, PartialEq, Eq, Default)]
pub struct ClrMap {
    pub entries: Vec<(String, String)>,
}

/// The abstract entries of a color map.
pub open spec fn clr_map_view(m: ClrMap) -> Seq<(Seq<char>, Seq<char>)> {
    m.entries@.map_values(|e: (String, String)| (e.0@, e.1@))
}

/// No key occurs twice among the entries of a color map.
pub open spec fn clr_map_keys_unique(m: ClrMap) -> bool {
    forall|i: int, j: int|
        0 <= i < j < clr_map_view(m).len() ==> #[trigger] clr_map_view(m)[i].0 != #[trigger] clr_map_view(
            m,
        )[j].0
}

/// The value of the first entry with key `k`.
pub open spec fn lookup(s: Seq<(Seq<char>, Seq<char>)>, k: Seq<char>) -> Option<Seq<char>>
    decreases s.len(),
{
    if s.len() == 0 {
        None
    } else if s[0].0 == k {
        Some(s[0].1)
    } else {
        lookup(s.drop_first(), k)
    }
}

/// The index of the first entry with key `k`.
pub open spec fn key_index(s: Seq<(Seq<char>, Seq<char>)>, k: Seq<char>) -> Option<int>
    decreases s.len(),
{
    if s.len() == 0 {
        None
    } else if s[0].0 == k {
        Some(0)
    } else {
        match key_index(s.drop_first(), k) {
            Some(i) => Some(i + 1),
            None => None,
        }
    }
}

proof fn lemma_key_index_none(s: Seq<(Seq<char>, Seq<char>)>, k: Seq<char>)
    requires
        key_index(s, k) is None,
    ensures
        forall|i: int| 0 <= i < s.len() ==> #[trigger] s[i].0 != k,
    decreases s.len(),
{
    if s.len() > 0 {
        lemma_key_index_none(s.drop_first(), k);
        assert forall|i: int| 0 <= i < s.len() implies #[trigger] s[i].0 != k by {
            if i > 0 {
                assert(s[i] == s.drop_first()[i - 1]);
            }
        }
    }
}

proof fn lemma_lookup_skip(s: Seq<(Seq<char>, Seq<char>)>, k: Seq<char>, i: int)
    requires
        0 <= i < s.len(),
        s[i].0 != k,
    ensures
        lookup(s.skip(i), k) == lookup(s.skip(i + 1), k),
        key_index(s.skip(i), k) == (match key_index(s.skip(i + 1), k) {
            Some(j) => Some(j + 1),
            None => None,
        }),
{
    assert(s.skip(i).drop_first() == s.skip(i + 1));
}

proof fn lemma_key_index_bounds(s: Seq<(Seq<char>, Seq<char>)>, k: Seq<char>)
    ensures
        key_index(s, k) matches Some(i) ==> 0 <= i < s.len() && s[i].0 == k && lookup(s, k)
            == Some(s[i].1),
        key_index(s, k) is None ==> lookup(s, k) is None,
    decreases s.len(),
{
    if s.len() > 0 && s[0].0 != k {
        lemma_key_index_bounds(s.drop_first(), k);
    }
}

/// Updating the entry that `lookup` finds for `k` changes what `k` reads and nothing else.
proof fn lemma_lookup_update(
    s: Seq<(Seq<char>, Seq<char>)>,
    k: Seq<char>,
    v: Seq<char>,
    k2: Seq<char>,
)
    requires
        key_index(s, k) is Some,
    ensures
        lookup(s.update(key_index(s, k).unwrap(), (k, v)), k2) == if k2 == k {
            Some(v)
        } else {
            lookup(s, k2)
        },
    decreases s.len(),
{
    let i = key_index(s, k).unwrap();
    let t = s.update(i, (k, v));
    if s[0].0 == k {
        assert(i == 0);
        assert(t.drop_first() == s.drop_first());
    } else {
        let j = key_index(s.drop_first(), k).unwrap();
        assert(i == j + 1);
        lemma_key_index_bounds(s.drop_first(), k);
        lemma_lookup_update(s.drop_first(), k, v, k2);
        assert(t.drop_first() =~= s.drop_first().update(j, (k, v)));
        assert(t[0] == s[0]);
    }
}

/// Appending an entry for a key that is absent makes it readable and changes nothing else.
proof fn lemma_lookup_push(
    s: Seq<(Seq<char>, Seq<char>)>,
    k: Seq<char>,
    v: Seq<char>,
    k2: Seq<char>,
)
    requires
        key_index(s, k) is None,
    ensures
        lookup(s.push((k, v)), k2) == if k2 == k {
            Some(v)
        } else {
            lookup(s, k2)
        },
        lookup(s, k) is None,
    decreases s.len(),
{
    lemma_key_index_bounds(s, k);
    if s.len() == 0 {
        assert(s.push((k, v))[0] == (k, v));
        assert(s.push((k, v)).drop_first().len() == 0);
    } else {
        assert(s.push((k, v)).drop_first() == s.drop_first().push((k, v)));
        assert(s.push((k, v))[0] == s[0]);
        if s[0].0 != k {
            lemma_lookup_push(s.drop_first(), k, v, k2);
        }
    }
}

/// The value behind an optional reference.
pub open spec fn opt_deref<T>(o: Option<&T>) -> Option<T> {
    match o {
        Some(x) => Some(*x),
        None => None,
    }
}

/// The hex string a scheme holds for a slot name, if the name is a slot.
pub open spec fn scheme_slot(cs: ColorScheme, name: Seq<char>) -> Option<Seq<char>> {
    if name == "dk1"@ {
        Some(cs.dk1@)
    } else if name == "lt1"@ {
        Some(cs.lt1@)
    } else if name == "dk2"@ {
        Some(cs.dk2@)
    } else if name == "lt2"@ {
        Some(cs.lt2@)
    } else if name == "accent1"@ {
        Some(cs.accent1@)
    } else if name == "accent2"@ {
        Some(cs.accent2@)
    } else if name == "accent3"@ {
        Some(cs.accent3@)
    } else if name == "accent4"@ {
        Some(cs.accent4@)
    } else if name == "accent5"@ {
        Some(cs.accent5@)
    } else if name == "accent6"@ {
        Some(cs.accent6@)
    } else if name == "hlink"@ {
        Some(cs.hlink@)
    } else if name == "folHlink"@ {
        Some(cs.fol_hlink@)
    } else {
        None
    }
}

/// What a color resolves to: an RGB color to its hex; a theme color to the scheme slot
/// that the color map names for it (or the slot of its own name when the map has no
/// entry), provided a scheme is at hand and the slot holds a non-empty value.
pub open spec fn spec_resolve(c: Color, scheme: Option<ColorScheme>, map: Option<ClrMap>) -> Option<
    Seq<char>,
> {
    match c.kind {
        ColorKind::Unset => None,
        ColorKind::Rgb(h) => Some(h@),
        ColorKind::Theme(name) => match scheme {
            None => None,
            Some(cs) => {
                let slot = match map {
                    Some(m) => match lookup(clr_map_view(m), name@) {
                        Some(v) => v,
                        None => name@,
                    },
                    None => name@,
                };
                match scheme_slot(cs, slot) {
                    Some(h) => if h.len() > 0 {
                        Some(h)
                    } else {
                        None
                    },
                    None => None,
                }
            },
        },
    }
}

impl Color {
    pub fn none() -> (c: Color)
        ensures
            c.kind == ColorKind::Unset,
    {
        Color { kind: ColorKind::Unset }
    }

    pub fn rgb(hex: &str) -> (c: Color)
        ensures
            c.kind matches ColorKind::Rgb(s) && s@ == hex@,
    {
        Color { kind: ColorKind::Rgb(hex.to_string()) }
    }

    pub fn theme(name: &str) -> (c: Color)
        ensures
            c.kind matches ColorKind::Theme(s) && s@ == name@,
    {
        Color { kind: ColorKind::Theme(name.to_string()) }
    }

    pub fn is_none(&self) -> (r: bool)
        ensures
            r == (self.kind is Unset),
    {
        match self.kind {
            ColorKind::Unset => true,
            _ => false,
        }
    }

    /// An identical copy.
    pub fn copied(&self) -> (r: Color)
        ensures
            r == *self,
    {
        match &self.kind {
            ColorKind::Unset => Color { kind: ColorKind::Unset },
            ColorKind::Rgb(s) => Color { kind: ColorKind::Rgb(s.clone()) },
            ColorKind::Theme(s) => Color { kind: ColorKind::Theme(s.clone()) },
        }
    }

    /// Resolve against a color scheme and color map (see `spec_resolve`).
    pub fn resolve(&self, scheme: Option<&ColorScheme>, clr_map: Option<&ClrMap>) -> (r: Option<
        ResolvedColor,
    >)
        ensures
            match spec_resolve(*self, opt_deref(scheme), opt_deref(clr_map)) {
                Some(h) => r matches Some(rc) && rc.hex@ == h,
                None => r is None,
            },
    {
        match &self.kind {
            ColorKind::Unset => None,
            ColorKind::Rgb(h) => Some(ResolvedColor { hex: h.clone() }),
            ColorKind::Theme(name) => {
                match scheme {
                    None => None,
                    Some(cs) => {
                        let mapped: Option<&String> = match clr_map {
                            Some(m) => m.get(name.as_str()),
                            None => None,
                        };
                        let slot: &str = match mapped {
                            Some(v) => v.as_str(),
                            None => name.as_str(),
                        };
                        match cs.get(slot) {
                            Some(h) => {
                                if h.as_str().is_empty() {
                                    None
                                } else {
                                    Some(ResolvedColor { hex: h.clone() })
                                }
                            },
                            None => None,
                        }
                    },
                }
            },
        }
    }
}

impl ResolvedColor {
    /// CSS text of the color: `#` and the hex digits.
    pub fn to_css(&self) -> (r: String)
        ensures
            r@ == seq!['#'] + self.hex@,
    {
        let mut s = String::new();
        crate::strings::push_char(&mut s, '#');
        crate::strings::push_str(&mut s, self.hex.as_str());
        s
    }
}

impl ColorScheme {
    /// The value of a slot by its name (`dk1`, `accent3`, `folHlink`, ...).
    pub fn get(&self, name: &str) -> (r: Option<&String>)
        ensures
            match scheme_slot(*self, name@) {
                Some(h) => r matches Some(x) && x@ == h,
                None => r is None,
            },
    {
        if str_equal(name, "dk1") {
            Some(&self.dk1)
        } else if str_equal(name, "lt1") {
            Some(&self.lt1)
        } else if str_equal(name, "dk2") {
            Some(&self.dk2)
        } else if str_equal(name, "lt2") {
            Some(&self.lt2)
        } else if str_equal(name, "accent1") {
            Some(&self.accent1)
        } else if str_equal(name, "accent2") {
            Some(&self.accent2)
        } else if str_equal(name, "accent3") {
            Some(&self.accent3)
        } else if str_equal(name, "accent4") {
            Some(&self.accent4)
        } else if str_equal(name, "accent5") {
            Some(&self.accent5)
        } else if str_equal(name, "accent6") {
            Some(&self.accent6)
        } else if str_equal(name, "hlink") {
            Some(&self.hlink)
        } else if str_equal(name, "folHlink") {
            Some(&self.fol_hlink)
        } else {
            None
        }
    }
}

impl ClrMap {
    pub fn is_empty(&self) -> (r: bool)
        ensures
            r == (self.entries@.len() == 0),
    {
        self.entries.len() == 0
    }

    /// The value stored for `key`.
    pub fn get(&self, key: &str) -> (r: Option<&String>)
        ensures
            match lookup(clr_map_view(*self), key@) {
                Some(v) => r matches Some(x) && x@ == v,
                None => r is None,
            },
    {
        let ghost s = clr_map_view(*self);
        let mut i: usize = 0;
        proof {
            assert(s.skip(0) == s);
        }
        while i < self.entries.len()
            invariant
                s == clr_map_view(*self),
                i <= self.entries@.len(),
                lookup(s, key@) == lookup(s.skip(i as int), key@),
            decreases self.entries@.len() - i,
        {
            if str_equal(self.entries[i].0.as_str(), key) {
                proof {
                    assert(s.skip(i as int)[0] == s[i as int]);
                }
                return Some(&self.entries[i].1);
            }
            proof {
                lemma_lookup_skip(s, key@, i as int);
            }
            i = i + 1;
        }
        None
    }

    /// Stores `value` for `key`, replacing an earlier value of that key.
    pub fn set(&mut self, key: &str, value: &str)
        ensures
            forall|k: Seq<char>|
                lookup(clr_map_view(*final(self)), k) == if k == key@ {
                    Some(value@)
                } else {
                    lookup(clr_map_view(*old(self)), k)
                },
            clr_map_keys_unique(*old(self)) ==> clr_map_keys_unique(*final(self)),
    {
        let ghost s = clr_map_view(*self);
        let mut i: usize = 0;
        proof {
            assert(s.skip(0) == s);
        }
        while i < self.entries.len()
            invariant
                s == clr_map_view(*self),
                *self == *old(self),
                i <= self.entries@.len(),
                key_index(s, key@) == match key_index(s.skip(i as int), key@) {
                    Some(j) => Some(j + i),
                    None => None,
                },
            decreases self.entries@.len() - i,
        {
            if str_equal(self.entries[i].0.as_str(), key) {
                proof {
                    assert(s.skip(i as int)[0] == s[i as int]);
                    assert(key_index(s, key@) == Some(i as int));
                }
                self.entries.set(i, (key.to_string(), value.to_string()));
                proof {
                    assert(clr_map_view(*self) =~= s.update(i as int, (key@, value@)));
                    assert forall|k: Seq<char>|
                        lookup(clr_map_view(*self), k) == if k == key@ {
                            Some(value@)
                        } else {
                            lookup(s, k)
                        } by {
                        lemma_lookup_update(s, key@, value@, k);
                    }
                    assert forall|a: int| 0 <= a < s.len() implies #[trigger] clr_map_view(*self)[a].0
                        == s[a].0 by {}
                }
                return;
            }
            proof {
                lemma_lookup_skip(s, key@, i as int);
            }
            i = i + 1;
        }
        proof {
            assert(s.skip(i as int).len() == 0);
            assert(key_index(s, key@) is None);
        }
        self.entries.push((key.to_string(), value.to_string()));
        proof {
            assert(clr_map_view(*self) =~= s.push((key@, value@)));
            assert forall|k: Seq<char>|
                lookup(clr_map_view(*self), k) == if k == key@ {
                    Some(value@)
                } else {
                    lookup(s, k)
                } by {
                lemma_lookup_push(s, key@, value@, k);
            }
            lemma_key_index_none(s, key@);
            let t = clr_map_view(*self);
            assert forall|a: int| 0 <= a < s.len() implies #[trigger] t[a] == s[a] by {}
        }
    }
}

} // verus!
