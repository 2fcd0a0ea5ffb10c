//! The persisted index mirror: the cycling engine's current index written
//! out as a plain decimal value so that a cooperating reader process can
//! refresh its display without asking a backend.
//!
//! The reader must treat a missing, stale, or unparsable value as "no
//! update": the parser returns `None` for anything but a well-formed
//! decimal numeral, and never fails.  File traffic itself is left to the
//! front end; this module fixes the format.

use crate::numeral::{
    dec_chars, is_dec_digit, lemma_dec_chars_digits, lemma_dec_chars_value, parse_dec_spec,
    parse_dec_usize, render_dec_usize,
};
use crate::text::{is_trim_char, trim_back, trim_front, trim_spec, trim_text};
use vstd::prelude::*;

verus! {

/// What the mirror reader makes of stored text: the index, or `None` for
/// anything that is not, after trimming, a well-formed decimal numeral
/// within range.
pub open spec fn parse_mirror_spec(s: Seq<char>) -> Option<int> {
    parse_dec_spec(trim_spec(s), usize::MAX as int)
}

/// What the mirror writer stores for an index.
pub open spec fn render_mirror_spec(i: int) -> Seq<char> {
    dec_chars(i)
}

/// Read an index back from the mirror's stored text.  Surrounding blanks
/// are ignored; anything else that is not a plain decimal numeral whose
/// value fits the index type yields `None`.
pub fn parse_index_mirror(s: &str) -> (r: Option<usize>)
    ensures
        r is Some <==> parse_mirror_spec(s@) is Some,
        r matches Some(v) ==> parse_mirror_spec(s@) == Some(v as int),
{
    let core = trim_text(s);
    parse_dec_usize(core.as_str())
}

/// Write an index as the mirror's stored text: its plain decimal numeral.
pub fn render_index_mirror(i: usize) -> (r: String)
    ensures
        r@ == render_mirror_spec(i as int),
{
    render_dec_usize(i)
}

/// Law: the mirror reader accepts exactly what the mirror writer stores —
/// rendering an index and parsing it back yields that index, for every
/// index the engine can hold.
pub proof fn lemma_mirror_round_trip(i: usize)
    ensures
        parse_mirror_spec(render_mirror_spec(i as int)) == Some(i as int),
{
    let s = dec_chars(i as int);
    lemma_dec_chars_digits(i as int);
    lemma_dec_chars_value(i as int);
    assert(is_dec_digit(s[0]));
    assert(!is_trim_char(s[0]));
    assert(trim_front(s) == s);
    assert(is_dec_digit(s.last()));
    assert(!is_trim_char(s.last()));
    assert(trim_back(s) == s);
}

} // verus!
