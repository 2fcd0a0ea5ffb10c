//! The window record — one matched application window — and the fixed
//! title rule that decides which windows of a listing are matched.

use crate::text::{
    contains_seq, has_prefix, str_contains, str_has_prefix, str_strip_prefix_all,
    strip_prefix_all,
};
use vstd::prelude::*;

verus! {

/// One matched window: an opaque backend handle and the display title with
/// the matching prefix stripped.
///
/// Handles live in the numeric space of the backend instance that produced
/// them (raw protocol ids, tool-assigned ids, hashed addresses).  They are
/// meaningful only for equality, and only among handles from the same
/// backend instance.
#[derive(Clone, Debug)]
pub struct EveWindow {
    pub id: u32,
    pub title: String,
}

impl EveWindow {
    pub fn new(id: u32, title: String) -> (w: EveWindow)
        ensures
            w.id == id,
            w.title == title,
    {
        EveWindow { id, title }
    }
}

/// Window records compare by handle alone: two enumerations of the same
/// backend may carry the same window under a retitled name.
impl PartialEq for EveWindow {
    fn eq(&self, other: &Self) -> bool {
        self.id == other.id
    }
}

impl vstd::std_specs::cmp::PartialEqSpecImpl for EveWindow {
    open spec fn obeys_eq_spec() -> bool {
        true
    }

    open spec fn eq_spec(&self, other: &Self) -> bool {
        self.id == other.id
    }
}

/// The fixed title prefix that marks a window as one of ours.
pub open spec fn spec_title_prefix() -> Seq<char> {
    "EVE - "@
}

/// The fixed substring that excludes a window despite the prefix.
pub open spec fn spec_excluded_marker() -> Seq<char> {
    "Launcher"@
}

/// A raw title is matched when it carries the prefix and does not hold the
/// excluded marker anywhere.
pub open spec fn title_matches(t: Seq<char>) -> bool {
    has_prefix(t, spec_title_prefix()) && !contains_seq(t, spec_excluded_marker())
}

/// The display title of a matched window: the raw title with every leading
/// copy of the prefix removed.
pub open spec fn stripped_title(t: Seq<char>) -> Seq<char> {
    strip_prefix_all(t, spec_title_prefix())
}

/// The title prefix as text.
pub fn title_prefix() -> (r: &'static str)
    ensures
        r@ == spec_title_prefix(),
{
    "EVE - "
}

/// The excluding substring as text.
pub fn excluded_marker() -> (r: &'static str)
    ensures
        r@ == spec_excluded_marker(),
{
    "Launcher"
}

/// Whether a raw window title is matched by the fixed title rule.
pub fn eve_title_matches(t: &str) -> (r: bool)
    ensures
        r == title_matches(t@),
{
    str_has_prefix(t, title_prefix()) && !str_contains(t, excluded_marker())
}

/// Strip the title prefix from a matched raw title.
pub fn strip_eve_title(t: &str) -> (r: String)
    ensures
        r@ == stripped_title(t@),
{
    str_strip_prefix_all(t, title_prefix())
}

/// The id/title pairs of a window list, for contracts over listings.
pub open spec fn win_views(ws: Seq<EveWindow>) -> Seq<(u32, Seq<char>)> {
    ws.map(|i: int, w: EveWindow| (w.id, w.title@))
}

} // verus!
