//! The line-oriented backend variant.
//!
//! Its control utility lists windows as plain text, one window per line:
//! a hexadecimal-or-decimal id token, two bookkeeping tokens, then the
//! title tokens.  Activation prefers a title-based focus command through
//! a second utility and falls back to an id-based one; the minimize and
//! restore equivalents are id-based commands, since the protocol offers
//! no native iconify; geometry is a single move-and-resize command.

use crate::backend::{BackendError, DisplayConfig, stack_geometry};
use crate::numeral::{
    dec_chars, hex_chars_fixed, lemma_hex_chars_fixed_value, parse_dec_spec, parse_dec_u32,
    parse_hex_spec, parse_hex_u32, render_dec_u64, render_hex_fixed_u32,
};
use crate::text::{
    has_prefix, join_blank_from, join_blanks, lines_from, split_blanks, split_lines,
    str_has_prefix, str_eq, tokens_from, trim_spec, trim_text,
};
use crate::window::{
    eve_title_matches, strip_eve_title, stripped_title, title_matches, win_views, EveWindow,
};
use vstd::prelude::*;

verus! {

/// The handle an id token maps to: the value of its digits — hexadecimal
/// after a `0x` mark, decimal otherwise — when they fit the handle type,
/// and `0`, the sentinel for an unusable id, for any other shape.
pub open spec fn spec_window_id_text(t: Seq<char>) -> u32 {
    if has_prefix(t, "0x"@) {
        match parse_hex_spec(t.subrange("0x"@.len() as int, t.len() as int), u32::MAX as int) {
            Some(v) => v as u32,
            None => 0,
        }
    } else {
        match parse_dec_spec(t, u32::MAX as int) {
            Some(v) => v as u32,
            None => 0,
        }
    }
}

/// Narrow an id token into the handle type.
pub fn window_id_text(t: &str) -> (r: u32)
    ensures
        r == spec_window_id_text(t@),
{
    proof {
        reveal_strlit("0x");
    }
    if str_has_prefix(t, "0x") {
        let len = t.unicode_len();
        match parse_hex_u32(t.substring_char(2, len)) {
            Some(v) => v,
            None => 0,
        }
    } else {
        match parse_dec_u32(t) {
            Some(v) => v,
            None => 0,
        }
    }
}

/// The id/title entry one listing line yields: the first token and the
/// remaining title tokens joined with single blanks — present only when
/// the line has the id, the two bookkeeping tokens, and a title.
pub open spec fn line_entry(l: Seq<char>) -> Option<(Seq<char>, Seq<char>)> {
    let toks = tokens_from(l, 0);
    if toks.len() >= 4 {
        Some((toks[0], join_blank_from(toks, 3)))
    } else {
        None
    }
}

/// The entries of the listing lines from `i` on, in listing order.
pub open spec fn listing_entries_from(lines: Seq<Seq<char>>, i: int) -> Seq<(Seq<char>, Seq<char>)>
    decreases lines.len() - i,
{
    if i < 0 || i >= lines.len() {
        seq![]
    } else {
        (match line_entry(lines[i]) {
            Some(e) => seq![e],
            None => seq![],
        }) + listing_entries_from(lines, i + 1)
    }
}

/// The id/title entries of a whole listing reply.
pub open spec fn listing_entries(s: Seq<char>) -> Seq<(Seq<char>, Seq<char>)> {
    listing_entries_from(lines_from(s, 0), 0)
}

/// The matched windows among the entries from `i` on: those whose title
/// passes the fixed title rule and whose id token yields a usable
/// handle.
pub open spec fn kwin_windows_from(entries: Seq<(Seq<char>, Seq<char>)>, i: int) -> Seq<
    (u32, Seq<char>),
>
    decreases entries.len() - i,
{
    if i < 0 || i >= entries.len() {
        seq![]
    } else {
        (if title_matches(entries[i].1) && spec_window_id_text(entries[i].0) != 0 {
            seq![(spec_window_id_text(entries[i].0), stripped_title(entries[i].1))]
        } else {
            seq![]
        }) + kwin_windows_from(entries, i + 1)
    }
}

/// The handle of the first entry from `i` on whose title equals `t` and
/// whose id token yields a usable handle.
pub open spec fn entry_titled_from(
    entries: Seq<(Seq<char>, Seq<char>)>,
    t: Seq<char>,
    i: int,
) -> Option<u32>
    decreases entries.len() - i,
{
    if i < 0 || i >= entries.len() {
        None
    } else if entries[i].1 == t && spec_window_id_text(entries[i].0) != 0 {
        Some(spec_window_id_text(entries[i].0))
    } else {
        entry_titled_from(entries, t, i + 1)
    }
}

/// The title on the first listing line from `i` on that starts with the
/// id text `hexid` and carries enough tokens.
pub open spec fn title_by_id_from(lines: Seq<Seq<char>>, hexid: Seq<char>, i: int) -> Option<
    Seq<char>,
>
    decreases lines.len() - i,
{
    if i < 0 || i >= lines.len() {
        None
    } else {
        let toks = tokens_from(lines[i], 0);
        if has_prefix(lines[i], hexid) && toks.len() >= 4 {
            Some(join_blank_from(toks, 3))
        } else {
            title_by_id_from(lines, hexid, i + 1)
        }
    }
}

/// The id/title pairs of an entry list, for contracts over listings.
pub open spec fn entry_views(es: Seq<(String, String)>) -> Seq<(Seq<char>, Seq<char>)> {
    es.map(|i: int, e: (String, String)| (e.0@, e.1@))
}

/// A window's id as the listing writes it: the `0x` mark and exactly
/// eight lowercase hexadecimal digits.
pub open spec fn spec_hex_id_text(id: u32) -> Seq<char> {
    "0x"@ + hex_chars_fixed(id as int, 8)
}

/// The line-oriented backend: the pure protocol of the control utilities
/// that list windows as text lines and are driven by id- or title-based
/// commands.  The front end spawns the utilities; everything here is the
/// translation between their text and the window model.
pub struct KWinManager;

impl KWinManager {
    /// The availability probe the front end runs at construction.
    pub fn probe_command() -> (r: Vec<String>)
        ensures
            r@.len() == 2,
            r@[0]@ == "wmctrl"@,
            r@[1]@ == "-m"@,
    {
        let mut cmd: Vec<String> = Vec::new();
        cmd.push(String::from_str("wmctrl"));
        cmd.push(String::from_str("-m"));
        cmd
    }

    /// The listing query whose reply the entry readers parse.
    pub fn list_command() -> (r: Vec<String>)
        ensures
            r@.len() == 2,
            r@[0]@ == "wmctrl"@,
            r@[1]@ == "-l"@,
    {
        let mut cmd: Vec<String> = Vec::new();
        cmd.push(String::from_str("wmctrl"));
        cmd.push(String::from_str("-l"));
        cmd
    }

    /// The query whose reply `get_active_window` parses.
    pub fn active_query_command() -> (r: Vec<String>)
        ensures
            r@.len() == 2,
            r@[0]@ == "xdotool"@,
            r@[1]@ == "getactivewindow"@,
    {
        let mut cmd: Vec<String> = Vec::new();
        cmd.push(String::from_str("xdotool"));
        cmd.push(String::from_str("getactivewindow"));
        cmd
    }

    /// A window's id as command text.
    pub fn hex_id_text(id: u32) -> (r: String)
        ensures
            r@ == spec_hex_id_text(id),
    {
        String::from_str("0x").concat(render_hex_fixed_u32(id, 8).as_str())
    }

    /// All id/title entries of a listing reply, in listing order.
    pub fn get_all_windows(listing: &str) -> (r: Vec<(String, String)>)
        ensures
            entry_views(r@) == listing_entries(listing@),
    {
        let lines = split_lines(listing);
        let n = lines.len();
        let ghost lv = lines.deep_view();
        let mut out: Vec<(String, String)> = Vec::new();
        let mut i: usize = 0;
        while i < n
            invariant
                i <= n,
                n == lv.len(),
                lv == lines.deep_view(),
                entry_views(out@) + listing_entries_from(lv, i as int) == listing_entries_from(
                    lv,
                    0,
                ),
            decreases n - i,
        {
            let toks = split_blanks(lines[i].as_str());
            if toks.len() >= 4 {
                let id_text = toks[0].clone();
                let title = join_blanks(&toks, 3);
                out.push((id_text, title));
            }
            proof {
                assert(entry_views(out@) + listing_entries_from(lv, i + 1)
                    =~= listing_entries_from(lv, 0));
            }
            i += 1;
        }
        proof {
            assert(listing_entries_from(lv, n as int) =~= Seq::<(Seq<char>, Seq<char>)>::empty());
            assert(entry_views(out@) =~= entry_views(out@) + listing_entries_from(lv, n as int));
        }
        out
    }

    /// The matched windows of a listing reply.
    pub fn get_eve_windows(listing: &str) -> (r: Vec<EveWindow>)
        ensures
            win_views(r@) == kwin_windows_from(listing_entries(listing@), 0),
    {
        let entries = Self::get_all_windows(listing);
        let n = entries.len();
        let ghost ev = entry_views(entries@);
        let mut out: Vec<EveWindow> = Vec::new();
        let mut i: usize = 0;
        while i < n
            invariant
                i <= n,
                n == ev.len(),
                ev == entry_views(entries@),
                win_views(out@) + kwin_windows_from(ev, i as int) == kwin_windows_from(ev, 0),
            decreases n - i,
        {
            if eve_title_matches(entries[i].1.as_str()) {
                let id = window_id_text(entries[i].0.as_str());
                if id != 0 {
                    out.push(EveWindow::new(id, strip_eve_title(entries[i].1.as_str())));
                }
            }
            proof {
                assert(win_views(out@) + kwin_windows_from(ev, i + 1) =~= kwin_windows_from(
                    ev,
                    0,
                ));
            }
            i += 1;
        }
        proof {
            assert(kwin_windows_from(ev, n as int) =~= Seq::<(u32, Seq<char>)>::empty());
            assert(win_views(out@) =~= win_views(out@) + kwin_windows_from(ev, n as int));
        }
        out
    }

    /// The title on the first listing line that starts with the id text
    /// `hex_id`, if any.
    pub fn get_window_title_by_id(listing: &str, hex_id: &str) -> (r: Option<String>)
        ensures
            r is Some <==> title_by_id_from(lines_from(listing@, 0), hex_id@, 0) is Some,
            r matches Some(t) ==> title_by_id_from(lines_from(listing@, 0), hex_id@, 0) == Some(
                t@,
            ),
    {
        let lines = split_lines(listing);
        let n = lines.len();
        let ghost lv = lines.deep_view();
        let mut i: usize = 0;
        while i < n
            invariant
                i <= n,
                n == lv.len(),
                lv == lines.deep_view(),
                lv == lines_from(listing@, 0),
                title_by_id_from(lv, hex_id@, 0) == title_by_id_from(lv, hex_id@, i as int),
            decreases n - i,
        {
            if str_has_prefix(lines[i].as_str(), hex_id) {
                let toks = split_blanks(lines[i].as_str());
                if toks.len() >= 4 {
                    return Some(join_blanks(&toks, 3));
                }
            }
            i += 1;
        }
        None
    }

    /// How a window is activated: when the listing resolves the id to a
    /// title, a title-based focus command is preferred; the id-based
    /// command is the fallback the front end uses when the first is
    /// unavailable or reports failure.
    pub fn activate_commands(listing: &str, window_id: u32) -> (r: (
        Option<Vec<String>>,
        Vec<String>,
    ))
        ensures
            r.0 is Some <==> title_by_id_from(lines_from(listing@, 0), spec_hex_id_text(window_id), 0)
                is Some,
            r.0 matches Some(cmd) ==> {
                &&& cmd@.len() == 5
                &&& cmd@[0]@ == "kdotool"@
                &&& cmd@[1]@ == "search"@
                &&& cmd@[2]@ == "--name"@
                &&& Some(cmd@[3]@) == title_by_id_from(
                    lines_from(listing@, 0),
                    spec_hex_id_text(window_id),
                    0,
                )
                &&& cmd@[4]@ == "windowactivate"@
            },
            r.1@.len() == 4,
            r.1@[0]@ == "wmctrl"@,
            r.1@[1]@ == "-i"@,
            r.1@[2]@ == "-a"@,
            r.1@[3]@ == spec_hex_id_text(window_id),
    {
        let hex_id = Self::hex_id_text(window_id);
        let primary: Option<Vec<String>> = match Self::get_window_title_by_id(
            listing,
            hex_id.as_str(),
        ) {
            Some(title) => {
                let mut cmd: Vec<String> = Vec::new();
                cmd.push(String::from_str("kdotool"));
                cmd.push(String::from_str("search"));
                cmd.push(String::from_str("--name"));
                cmd.push(title);
                cmd.push(String::from_str("windowactivate"));
                Some(cmd)
            },
            None => None,
        };
        let mut fallback: Vec<String> = Vec::new();
        fallback.push(String::from_str("wmctrl"));
        fallback.push(String::from_str("-i"));
        fallback.push(String::from_str("-a"));
        fallback.push(hex_id);
        (primary, fallback)
    }

    /// The focused window named by the active-window reply: its decimal
    /// id, surrounding blanks ignored.
    pub fn get_active_window(reply: &str) -> (r: Result<u32, BackendError>)
        ensures
            r is Ok <==> parse_dec_spec(trim_spec(reply@), u32::MAX as int) is Some,
            r matches Ok(id) ==> parse_dec_spec(trim_spec(reply@), u32::MAX as int) == Some(
                id as int,
            ),
            r matches Err(e) ==> e == BackendError::MalformedReply,
    {
        let core = trim_text(reply);
        match parse_dec_u32(core.as_str()) {
            Some(id) => Ok(id),
            None => Err(BackendError::MalformedReply),
        }
    }

    /// The handle of the first listing entry whose title equals `title`;
    /// absence is a meaningful answer, not an error.
    pub fn find_window_by_title(listing: &str, title: &str) -> (r: Option<u32>)
        ensures
            r == entry_titled_from(listing_entries(listing@), title@, 0),
    {
        let entries = Self::get_all_windows(listing);
        let n = entries.len();
        let ghost ev = entry_views(entries@);
        let mut i: usize = 0;
        while i < n
            invariant
                i <= n,
                n == ev.len(),
                ev == entry_views(entries@),
                ev == listing_entries(listing@),
                entry_titled_from(ev, title@, 0) == entry_titled_from(ev, title@, i as int),
            decreases n - i,
        {
            if str_eq(entries[i].1.as_str(), title) {
                let id = window_id_text(entries[i].0.as_str());
                if id != 0 {
                    return Some(id);
                }
            }
            i += 1;
        }
        None
    }

    /// The id-based minimize command.
    pub fn minimize_command(id: u32) -> (r: Vec<String>)
        ensures
            r@.len() == 3,
            r@[0]@ == "xdotool"@,
            r@[1]@ == "windowminimize"@,
            r@[2]@ == spec_hex_id_text(id),
    {
        let mut cmd: Vec<String> = Vec::new();
        cmd.push(String::from_str("xdotool"));
        cmd.push(String::from_str("windowminimize"));
        cmd.push(Self::hex_id_text(id));
        cmd
    }

    /// The restore command: the id-based activate, which also unhides a
    /// minimized window.
    pub fn restore_command(id: u32) -> (r: Vec<String>)
        ensures
            r@.len() == 4,
            r@[0]@ == "wmctrl"@,
            r@[1]@ == "-i"@,
            r@[2]@ == "-a"@,
            r@[3]@ == spec_hex_id_text(id),
    {
        let mut cmd: Vec<String> = Vec::new();
        cmd.push(String::from_str("wmctrl"));
        cmd.push(String::from_str("-i"));
        cmd.push(String::from_str("-a"));
        cmd.push(Self::hex_id_text(id));
        cmd
    }

    /// The single move-and-resize command that stacks one window into
    /// the configured rectangle.
    pub fn stack_command_for(id: u32, cfg: &DisplayConfig) -> (r: Vec<String>)
        requires
            cfg.wf(),
        ensures
            r@.len() == 6,
            r@[0]@ == "wmctrl"@,
            r@[1]@ == "-i"@,
            r@[2]@ == "-r"@,
            r@[3]@ == spec_hex_id_text(id),
            r@[4]@ == "-e"@,
            r@[5]@ == spec_geometry_arg(
                (cfg.display_width - cfg.eve_width) as int / 2,
                0,
                cfg.eve_width as int,
                (cfg.display_height - cfg.panel_height) as int,
            ),
    {
        let (x, y, w, h) = stack_geometry(cfg);
        let mut cmd: Vec<String> = Vec::new();
        cmd.push(String::from_str("wmctrl"));
        cmd.push(String::from_str("-i"));
        cmd.push(String::from_str("-r"));
        cmd.push(Self::hex_id_text(id));
        cmd.push(String::from_str("-e"));
        cmd.push(
            String::from_str("0,")
                .concat(render_dec_u64(x as u64).as_str())
                .concat(",")
                .concat(render_dec_u64(y as u64).as_str())
                .concat(",")
                .concat(render_dec_u64(w as u64).as_str())
                .concat(",")
                .concat(render_dec_u64(h as u64).as_str()),
        );
        cmd
    }
}

/// Law: the padded id text the commands write reads back as the same
/// handle — a window addressed through a command is the window the
/// listing parser would hand back for that id token.
pub proof fn lemma_hex_id_round_trip(id: u32)
    ensures
        spec_window_id_text(spec_hex_id_text(id)) == id,
{
    reveal_strlit("0x");
    let digits = hex_chars_fixed(id as int, 8);
    let t = spec_hex_id_text(id);
    lemma_pow16_eight();
    lemma_hex_chars_fixed_value(id as int, 8);
    assert(t.subrange(0, "0x"@.len() as int) =~= "0x"@);
    assert(t.subrange("0x"@.len() as int, t.len() as int) =~= digits);
}

proof fn lemma_pow16_eight()
    ensures
        crate::numeral::pow16(8) == 0x1_0000_0000,
{
    reveal_with_fuel(crate::numeral::pow16, 9);
}

/// The `0,x,y,w,h` geometry argument of the move-and-resize command: the
/// gravity mark and the rectangle.
pub open spec fn spec_geometry_arg(x: int, y: int, w: int, h: int) -> Seq<char> {
    "0,"@ + dec_chars(x) + ","@ + dec_chars(y) + ","@ + dec_chars(w) + ","@ + dec_chars(h)
}

} // verus!