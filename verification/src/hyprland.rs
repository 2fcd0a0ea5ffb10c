//! The flat-list backend variant.
//!
//! Its control utility answers the listing query with a JSON array of
//! client objects.  A client's handle is its hexadecimal address field,
//! narrowed into the unsigned handle type — a best-effort mapping that
//! does not guarantee global uniqueness.  Activation, the minimize and
//! restore equivalents (moves to and from a special workspace), and
//! geometry are separate commands addressed by that address.

use crate::backend::{BackendError, DisplayConfig, stack_geometry};
use crate::json::{parse_json, spec_as_arr, spec_get, spec_json_doc, Json};
use crate::numeral::{dec_chars, hex_chars, lemma_hex_chars_value, parse_hex_spec, parse_hex_u32,
    render_dec_u64, render_hex_u32};
use crate::text::{has_prefix, str_eq, str_has_prefix};
use crate::window::{
    eve_title_matches, strip_eve_title, stripped_title, title_matches, win_views, EveWindow,
};
use vstd::prelude::*;

verus! {

/// The handle a hexadecimal address field maps to: the value of the
/// digits after the `0x` mark when they fit the handle type, and `0` for
/// any other shape — a sentinel, kept rather than rejected.
pub open spec fn spec_address_id(a: Seq<char>) -> u32 {
    if has_prefix(a, "0x"@) {
        match parse_hex_spec(a.subrange("0x"@.len() as int, a.len() as int), u32::MAX as int) {
            Some(v) => v as u32,
            None => 0,
        }
    } else {
        0
    }
}

/// Narrow an address field into the handle type.
pub fn address_id(addr: &str) -> (r: u32)
    ensures
        r == spec_address_id(addr@),
{
    proof {
        reveal_strlit("0x");
    }
    if str_has_prefix(addr, "0x") {
        let len = addr.unicode_len();
        let rest = addr.substring_char(2, len);
        match parse_hex_u32(rest) {
            Some(v) => v,
            None => 0,
        }
    } else {
        0
    }
}

/// The window a client object yields: present when the client's title
/// passes the fixed title rule and it carries an address.
pub open spec fn client_window(v: Json) -> Option<(u32, Seq<char>)> {
    match spec_get(v, "title"@) {
        Some(Json::Str(t)) => if title_matches(t@) {
            match spec_get(v, "address"@) {
                Some(Json::Str(a)) => Some((spec_address_id(a@), stripped_title(t@))),
                _ => None,
            }
        } else {
            None
        },
        _ => None,
    }
}

/// The matched windows among the clients from `i` on, in listing order.
pub open spec fn client_windows_from(items: Seq<Json>, i: int) -> Seq<(u32, Seq<char>)>
    decreases items.len() - i,
{
    if i < 0 || i >= items.len() {
        seq![]
    } else {
        (match client_window(items[i]) {
            Some(w) => seq![w],
            None => seq![],
        }) + client_windows_from(items, i + 1)
    }
}

/// The handle of the first client from `i` on whose raw title equals `t`
/// and that carries an address.
pub open spec fn client_titled_from(items: Seq<Json>, t: Seq<char>, i: int) -> Option<u32>
    decreases items.len() - i,
{
    if i < 0 || i >= items.len() {
        None
    } else {
        let hit = match spec_get(items[i], "title"@) {
            Some(Json::Str(w)) => w@ == t,
            _ => false,
        };
        if hit {
            match spec_get(items[i], "address"@) {
                Some(Json::Str(a)) => Some(spec_address_id(a@)),
                _ => client_titled_from(items, t, i + 1),
            }
        } else {
            client_titled_from(items, t, i + 1)
        }
    }
}

/// The handle the active-window reply names: the address field of the
/// reply object.
pub open spec fn active_client_id(doc: Json) -> Option<u32> {
    match spec_get(doc, "address"@) {
        Some(Json::Str(a)) => Some(spec_address_id(a@)),
        _ => None,
    }
}

fn client_window_exec(v: &Json) -> (r: Option<EveWindow>)
    ensures
        r is Some <==> client_window(*v) is Some,
        r matches Some(w) ==> client_window(*v) == Some((w.id, w.title@)),
{
    match v.get("title") {
        Some(tv) => match tv.as_str() {
            Some(t) => {
                if eve_title_matches(t.as_str()) {
                    match v.get("address") {
                        Some(av) => match av.as_str() {
                            Some(a) => Some(
                                EveWindow::new(address_id(a.as_str()), strip_eve_title(t.as_str())),
                            ),
                            None => None,
                        },
                        None => None,
                    }
                } else {
                    None
                }
            },
            None => None,
        },
        None => None,
    }
}

/// The flat-list backend: the pure protocol of one compositor control
/// utility that lists clients as a JSON array and is driven by dispatch
/// commands addressed by hexadecimal window address.  The front end
/// spawns the utility; everything here is the translation between its
/// documents and the window model.
pub struct HyprlandManager;

impl HyprlandManager {
    /// The availability probe the front end runs at construction.
    pub fn probe_command() -> (r: Vec<String>)
        ensures
            r@.len() == 2,
            r@[0]@ == "hyprctl"@,
            r@[1]@ == "version"@,
    {
        let mut cmd: Vec<String> = Vec::new();
        cmd.push(String::from_str("hyprctl"));
        cmd.push(String::from_str("version"));
        cmd
    }

    /// The listing query whose reply `get_eve_windows` parses.
    pub fn list_command() -> (r: Vec<String>)
        ensures
            r@.len() == 3,
            r@[0]@ == "hyprctl"@,
            r@[1]@ == "clients"@,
            r@[2]@ == "-j"@,
    {
        let mut cmd: Vec<String> = Vec::new();
        cmd.push(String::from_str("hyprctl"));
        cmd.push(String::from_str("clients"));
        cmd.push(String::from_str("-j"));
        cmd
    }

    /// The query whose reply `get_active_window` parses.
    pub fn active_command() -> (r: Vec<String>)
        ensures
            r@.len() == 3,
            r@[0]@ == "hyprctl"@,
            r@[1]@ == "activewindow"@,
            r@[2]@ == "-j"@,
    {
        let mut cmd: Vec<String> = Vec::new();
        cmd.push(String::from_str("hyprctl"));
        cmd.push(String::from_str("activewindow"));
        cmd.push(String::from_str("-j"));
        cmd
    }

    /// The matched windows of a listing reply.  A reply that is not a
    /// JSON array of clients is malformed.
    pub fn get_eve_windows(reply: &[u8]) -> (r: Result<Vec<EveWindow>, BackendError>)
        ensures
            ({
                match spec_json_doc(reply@) {
                    Some(doc) => match spec_as_arr(doc) {
                        Some(items) => r matches Ok(ws) && win_views(ws@) == client_windows_from(
                            items,
                            0,
                        ),
                        None => r == Err::<Vec<EveWindow>, BackendError>(
                            BackendError::MalformedReply,
                        ),
                    },
                    None => r == Err::<Vec<EveWindow>, BackendError>(
                        BackendError::MalformedReply,
                    ),
                }
            }),
    {
        let doc = match parse_json(reply) {
            Some(doc) => doc,
            None => {
                return Err(BackendError::MalformedReply);
            },
        };
        let items = match doc.as_arr() {
            Some(items) => items,
            None => {
                return Err(BackendError::MalformedReply);
            },
        };
        let n = items.len();
        let mut out: Vec<EveWindow> = Vec::new();
        let mut i: usize = 0;
        while i < n
            invariant
                i <= n,
                n == items@.len(),
                win_views(out@) + client_windows_from(items@, i as int) == client_windows_from(
                    items@,
                    0,
                ),
            decreases n - i,
        {
            match client_window_exec(&items[i]) {
                Some(w) => out.push(w),
                None => {},
            }
            proof {
                assert(win_views(out@) + client_windows_from(items@, i + 1)
                    =~= client_windows_from(items@, 0));
            }
            i += 1;
        }
        proof {
            assert(client_windows_from(items@, n as int) =~= Seq::<(u32, Seq<char>)>::empty());
            assert(win_views(out@) =~= win_views(out@) + client_windows_from(items@, n as int));
        }
        Ok(out)
    }

    /// The focused window of an active-window reply: its address,
    /// narrowed.  A reply object without an address means no window is
    /// active; a reply that is no JSON document at all is malformed.
    pub fn get_active_window(reply: &[u8]) -> (r: Result<u32, BackendError>)
        ensures
            spec_json_doc(reply@) is None ==> r == Err::<u32, BackendError>(
                BackendError::MalformedReply,
            ),
            spec_json_doc(reply@) matches Some(doc) ==> r == (
            match active_client_id(doc) {
                Some(id) => Ok::<u32, BackendError>(id),
                None => Err::<u32, BackendError>(BackendError::NoActiveWindow),
            }),
    {
        match parse_json(reply) {
            Some(doc) => match doc.get("address") {
                Some(av) => match av.as_str() {
                    Some(a) => Ok(address_id(a.as_str())),
                    None => Err(BackendError::NoActiveWindow),
                },
                None => Err(BackendError::NoActiveWindow),
            },
            None => Err(BackendError::MalformedReply),
        }
    }

    /// The handle of the first client of a listing reply whose raw title
    /// equals `title`; absence is a meaningful answer, not an error.
    pub fn find_window_by_title(reply: &[u8], title: &str) -> (r: Result<
        Option<u32>,
        BackendError,
    >)
        ensures
            ({
                match spec_json_doc(reply@) {
                    Some(doc) => match spec_as_arr(doc) {
                        Some(items) => r == Ok::<Option<u32>, BackendError>(
                            client_titled_from(items, title@, 0),
                        ),
                        None => r == Err::<Option<u32>, BackendError>(
                            BackendError::MalformedReply,
                        ),
                    },
                    None => r == Err::<Option<u32>, BackendError>(BackendError::MalformedReply),
                }
            }),
    {
        let doc = match parse_json(reply) {
            Some(doc) => doc,
            None => {
                return Err(BackendError::MalformedReply);
            },
        };
        let items = match doc.as_arr() {
            Some(items) => items,
            None => {
                return Err(BackendError::MalformedReply);
            },
        };
        let n = items.len();
        let mut i: usize = 0;
        while i < n
            invariant
                i <= n,
                n == items@.len(),
                spec_json_doc(reply@) == Some(doc),
                spec_as_arr(doc) == Some(items@),
                client_titled_from(items@, title@, 0) == client_titled_from(
                    items@,
                    title@,
                    i as int,
                ),
            decreases n - i,
        {
            let hit = match items[i].get("title") {
                Some(tv) => match tv.as_str() {
                    Some(t) => str_eq(t.as_str(), title),
                    None => false,
                },
                None => false,
            };
            if hit {
                match items[i].get("address") {
                    Some(av) => match av.as_str() {
                        Some(a) => {
                            return Ok(Some(address_id(a.as_str())));
                        },
                        None => {},
                    },
                    None => {},
                }
            }
            i += 1;
        }
        Ok(None)
    }

    /// A window's address as command text: the `0x` mark and the minimal
    /// lowercase hexadecimal digits.
    pub fn address_text(id: u32) -> (r: String)
        ensures
            r@ == spec_address_text(id),
    {
        String::from_str("0x").concat(render_hex_u32(id).as_str())
    }

    /// The dispatch that gives a window input focus.
    pub fn activate_command(id: u32) -> (r: Vec<String>)
        ensures
            r@.len() == 4,
            r@[0]@ == "hyprctl"@,
            r@[1]@ == "dispatch"@,
            r@[2]@ == "focuswindow"@,
            r@[3]@ == "address:"@ + spec_address_text(id),
    {
        let mut cmd: Vec<String> = Vec::new();
        cmd.push(String::from_str("hyprctl"));
        cmd.push(String::from_str("dispatch"));
        cmd.push(String::from_str("focuswindow"));
        cmd.push(String::from_str("address:").concat(Self::address_text(id).as_str()));
        cmd
    }

    /// The minimize equivalent: the window moves, silently, to the
    /// special workspace.
    pub fn minimize_command(id: u32) -> (r: Vec<String>)
        ensures
            r@.len() == 4,
            r@[0]@ == "hyprctl"@,
            r@[1]@ == "dispatch"@,
            r@[2]@ == "movetoworkspacesilent"@,
            r@[3]@ == "special,address:"@ + spec_address_text(id),
    {
        let mut cmd: Vec<String> = Vec::new();
        cmd.push(String::from_str("hyprctl"));
        cmd.push(String::from_str("dispatch"));
        cmd.push(String::from_str("movetoworkspacesilent"));
        cmd.push(String::from_str("special,address:").concat(Self::address_text(id).as_str()));
        cmd
    }

    /// The restore equivalent: the window moves back to the current
    /// workspace.
    pub fn restore_command(id: u32) -> (r: Vec<String>)
        ensures
            r@.len() == 4,
            r@[0]@ == "hyprctl"@,
            r@[1]@ == "dispatch"@,
            r@[2]@ == "movetoworkspace"@,
            r@[3]@ == "e+0,address:"@ + spec_address_text(id),
    {
        let mut cmd: Vec<String> = Vec::new();
        cmd.push(String::from_str("hyprctl"));
        cmd.push(String::from_str("dispatch"));
        cmd.push(String::from_str("movetoworkspace"));
        cmd.push(String::from_str("e+0,address:").concat(Self::address_text(id).as_str()));
        cmd
    }

    /// The three positioning dispatches of one window: floating mode
    /// toggled, then an exact move, then an exact resize.  Each is the
    /// final argument after `hyprctl dispatch <verb>`.
    pub fn stack_commands_for(id: u32, cfg: &DisplayConfig) -> (r: (String, String, String))
        requires
            cfg.wf(),
        ensures
            r.0@ == "address:"@ + spec_address_text(id),
            r.1@ == spec_exact_arg(
                (cfg.display_width - cfg.eve_width) as int / 2,
                0,
                id,
            ),
            r.2@ == spec_exact_arg(
                cfg.eve_width as int,
                (cfg.display_height - cfg.panel_height) as int,
                id,
            ),
    {
        let (x, y, w, h) = stack_geometry(cfg);
        let toggle = String::from_str("address:").concat(Self::address_text(id).as_str());
        let move_arg = exact_arg(x, y, id);
        let resize_arg = exact_arg(w, h, id);
        (toggle, move_arg, resize_arg)
    }
}

/// A window's address as command text.
pub open spec fn spec_address_text(id: u32) -> Seq<char> {
    "0x"@ + hex_chars(id as int)
}

/// The `exact A B,address:0x…` argument of a positioning dispatch.
pub open spec fn spec_exact_arg(a: int, b: int, id: u32) -> Seq<char> {
    "exact "@ + dec_chars(a) + " "@ + dec_chars(b) + ",address:"@ + spec_address_text(id)
}

/// Law: the address text the commands write reads back as the same
/// handle — a window addressed through a command is the window the
/// listing parser would hand back for that address field.
pub proof fn lemma_address_round_trip(id: u32)
    ensures
        spec_address_id(spec_address_text(id)) == id,
{
    reveal_strlit("0x");
    let digits = hex_chars(id as int);
    let a = spec_address_text(id);
    lemma_hex_chars_value(id as int);
    assert(a.subrange(0, "0x"@.len() as int) =~= "0x"@);
    assert(a.subrange("0x"@.len() as int, a.len() as int) =~= digits);
}

fn exact_arg(a: u32, b: u32, id: u32) -> (r: String)
    ensures
        r@ == spec_exact_arg(a as int, b as int, id),
{
    String::from_str("exact ")
        .concat(render_dec_u64(a as u64).as_str())
        .concat(" ")
        .concat(render_dec_u64(b as u64).as_str())
        .concat(",address:")
        .concat(HyprlandManager::address_text(id).as_str())
}

} // verus!
