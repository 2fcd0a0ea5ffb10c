//! The native-protocol backend's pure logic.
//!
//! The front end keeps one open connection to the windowing server and
//! performs the round trips: reading the root window's client list,
//! reading title properties, broadcasting synthetic client messages, and
//! setting input focus.  What is verified here is everything between the
//! round trips: how a title is resolved from the two name properties,
//! how the client list is filtered into the window model, how a title is
//! looked up, what an active-window property value means, and the exact
//! payloads of the synthetic events.

use crate::text::str_eq;
use crate::window::{
    eve_title_matches, strip_eve_title, stripped_title, title_matches, win_views, EveWindow,
};
use vstd::prelude::*;
use vstd::utf8::{decode_utf8, valid_utf8};

verus! {

/// Relies on String::from_utf8: it succeeds exactly on valid UTF-8 and
/// yields its decoding.
#[verifier::external_body]
fn string_from_utf8(bytes: Vec<u8>) -> (r: Option<String>)
    ensures
        r is Some <==> valid_utf8(bytes@),
        r matches Some(s) ==> s@ == decode_utf8(bytes@),
{
    String::from_utf8(bytes).ok()
}

/// What the lossy UTF-8 reading of a byte sequence yields: a function of
/// the bytes alone, named because spelling out the replacement-character
/// rule here would restate the decoder.
pub uninterp spec fn spec_utf8_lossy(bytes: Seq<u8>) -> Seq<char>;

/// Relies on String::from_utf8_lossy: the result depends on the bytes
/// alone, and valid UTF-8 comes back decoded, with nothing replaced.
#[verifier::external_body]
fn string_from_utf8_lossy(bytes: &[u8]) -> (r: String)
    ensures
        r@ == spec_utf8_lossy(bytes@),
        valid_utf8(bytes@) ==> r@ == decode_utf8(bytes@),
{
    String::from_utf8_lossy(bytes).into_owned()
}

/// The title the two name properties resolve to: a non-empty UTF-8 name
/// property that decodes is preferred; a non-empty legacy name property
/// is read lossily as the fallback; with neither the title is empty (and
/// the window can then match no title rule).
pub open spec fn spec_resolve_title(net: Option<Seq<u8>>, legacy: Option<Seq<u8>>) -> Seq<char> {
    if net matches Some(b) && b.len() > 0 && valid_utf8(b) {
        decode_utf8(net->0)
    } else if legacy matches Some(b) && b.len() > 0 {
        spec_utf8_lossy(legacy->0)
    } else {
        Seq::<char>::empty()
    }
}

/// Resolve a window's title from its UTF-8 name property and its legacy
/// name property, in that order of preference.
pub fn resolve_title(net: Option<Vec<u8>>, legacy: Option<Vec<u8>>) -> (r: String)
    ensures
        r@ == spec_resolve_title(
            match net {
                Some(b) => Some(b@),
                None => None,
            },
            match legacy {
                Some(b) => Some(b@),
                None => None,
            },
        ),
{
    if let Some(b) = net {
        if b.len() > 0 {
            match string_from_utf8(b) {
                Some(s) => {
                    return s;
                },
                None => {},
            }
        }
    }
    if let Some(b) = legacy {
        if b.len() > 0 {
            return string_from_utf8_lossy(b.as_slice());
        }
    }
    let r = String::new();
    assert(r@ =~= Seq::<char>::empty());
    r
}

/// The matched windows among the id/title entries from `i` on.
pub open spec fn client_windows_from(entries: Seq<(u32, Seq<char>)>, i: int) -> Seq<
    (u32, Seq<char>),
>
    decreases entries.len() - i,
{
    if i < 0 || i >= entries.len() {
        seq![]
    } else {
        (if title_matches(entries[i].1) {
            seq![(entries[i].0, stripped_title(entries[i].1))]
        } else {
            seq![]
        }) + client_windows_from(entries, i + 1)
    }
}

/// The id/title pairs of a resolved client list, for contracts.
pub open spec fn id_title_views(es: Seq<(u32, String)>) -> Seq<(u32, Seq<char>)> {
    es.map(|i: int, e: (u32, String)| (e.0, e.1@))
}

/// The matched windows of the client list, with titles already resolved:
/// those the fixed title rule matches, under their stripped titles, in
/// client-list order.
pub fn filter_client_windows(entries: &Vec<(u32, String)>) -> (r: Vec<EveWindow>)
    ensures
        win_views(r@) == client_windows_from(id_title_views(entries@), 0),
{
    let n = entries.len();
    let ghost ev = id_title_views(entries@);
    let mut out: Vec<EveWindow> = Vec::new();
    let mut i: usize = 0;
    while i < n
        invariant
            i <= n,
            n == ev.len(),
            ev == id_title_views(entries@),
            win_views(out@) + client_windows_from(ev, i as int) == client_windows_from(ev, 0),
        decreases n - i,
    {
        if eve_title_matches(entries[i].1.as_str()) {
            out.push(EveWindow::new(entries[i].0, strip_eve_title(entries[i].1.as_str())));
        }
        proof {
            assert(win_views(out@) + client_windows_from(ev, i + 1) =~= client_windows_from(
                ev,
                0,
            ));
        }
        i += 1;
    }
    proof {
        assert(client_windows_from(ev, n as int) =~= Seq::<(u32, Seq<char>)>::empty());
        assert(win_views(out@) =~= win_views(out@) + client_windows_from(ev, n as int));
    }
    out
}

/// The id of the first entry from `i` on whose raw title equals `t`.
pub open spec fn entry_titled_from(entries: Seq<(u32, Seq<char>)>, t: Seq<char>, i: int) -> Option<
    u32,
>
    decreases entries.len() - i,
{
    if i < 0 || i >= entries.len() {
        None
    } else if entries[i].1 == t {
        Some(entries[i].0)
    } else {
        entry_titled_from(entries, t, i + 1)
    }
}

/// The id of the first client whose resolved raw title equals `title`;
/// absence is a meaningful answer, not an error.
pub fn find_id_by_title(entries: &Vec<(u32, String)>, title: &str) -> (r: Option<u32>)
    ensures
        r == entry_titled_from(id_title_views(entries@), title@, 0),
{
    let n = entries.len();
    let ghost ev = id_title_views(entries@);
    let mut i: usize = 0;
    while i < n
        invariant
            i <= n,
            n == ev.len(),
            ev == id_title_views(entries@),
            entry_titled_from(ev, title@, 0) == entry_titled_from(ev, title@, i as int),
        decreases n - i,
    {
        if str_eq(entries[i].1.as_str(), title) {
            return Some(entries[i].0);
        }
        i += 1;
    }
    None
}

/// What an active-window property value means: its first word is the
/// focused window's id, and an empty property reads as the zero id
/// rather than as an error.
pub fn active_from_property(values: &Vec<u32>) -> (r: u32)
    ensures
        r == (if values@.len() > 0 {
            values@[0]
        } else {
            0u32
        }),
{
    if values.len() > 0 {
        values[0]
    } else {
        0
    }
}

/// The data words of the synthetic activation message: source indicator
/// `2` ("pager or tool"), the current-time sentinel, and the previously
/// focused window as auxiliary data.
pub fn activate_event_data(previous_active: u32) -> (r: [u32; 5])
    ensures
        r@ == seq![2u32, 0u32, previous_active, 0u32, 0u32],
{
    let r: [u32; 5] = [2, 0, previous_active, 0, 0];
    proof {
        assert(r@ =~= seq![2u32, 0u32, previous_active, 0u32, 0u32]);
    }
    r
}

/// The data words of the synthetic state-change message that minimizes a
/// window: the iconic state code, then nothing.
pub fn minimize_event_data() -> (r: [u32; 5])
    ensures
        r@ == seq![3u32, 0u32, 0u32, 0u32, 0u32],
{
    let r: [u32; 5] = [3, 0, 0, 0, 0];
    proof {
        assert(r@ =~= seq![3u32, 0u32, 0u32, 0u32, 0u32]);
    }
    r
}

} // verus!
