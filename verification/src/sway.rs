//! The tree-query backend variant.
//!
//! Its control utility answers a listing query with one JSON document: a
//! nested container tree.  A node of the tree counts as a window when its
//! type marks it as a (possibly floating) container and it carries an
//! application identifier or window-properties field.  Windows are
//! discovered by a preorder descent over the child and floating-child
//! arrays; everything else — focus, the minimize and restore equivalents,
//! geometry — is a single-shot command addressed by the node's numeric
//! id.

use crate::backend::{BackendError, DisplayConfig, stack_geometry};
use crate::json::{
    lemma_get_arr_decreases, parse_json, spec_as_arr, spec_as_str, spec_get, spec_json_doc, Json,
};
use crate::numeral::{dec_chars, render_dec_u64};
use crate::text::str_eq;
use crate::window::{
    eve_title_matches, strip_eve_title, stripped_title, title_matches, win_views, EveWindow,
};
use vstd::prelude::*;

verus! {

/// Whether a tree node stands for one application window: its type is a
/// container or floating container, and it carries a non-null `app_id`
/// or, failing that key entirely, a non-null `window_properties`.
pub open spec fn is_window_node(v: Json) -> bool {
    &&& (match spec_get(v, "type"@) {
        Some(t) => spec_as_str(t) == Some("con"@) || spec_as_str(t) == Some("floating_con"@),
        None => false,
    })
    &&& (match spec_get(v, "app_id"@) {
        Some(a) => !(a is Null),
        None => match spec_get(v, "window_properties"@) {
            Some(w) => !(w is Null),
            None => false,
        },
    })
}

/// What a window node carries: its title, its numeric id narrowed to the
/// handle type, and whether it holds focus.  A field of the wrong shape
/// counts as absent.
#[derive(Clone, Debug)]
pub struct SwayWindowNode {
    pub name: Option<String>,
    pub id: Option<u32>,
    pub focused: bool,
}

/// The record a window node yields.
pub open spec fn node_info(v: Json) -> SwayWindowNode {
    SwayWindowNode {
        name: match spec_get(v, "name"@) {
            Some(Json::Str(s)) => Some(s),
            _ => None,
        },
        id: match spec_get(v, "id"@) {
            Some(Json::Num(Some(u))) => Some(u as u32),
            _ => None,
        },
        focused: spec_get(v, "focused"@) == Some(Json::Bool(true)),
    }
}

/// The window nodes of the subtree rooted at `v`, in discovery order:
/// the node itself first, then the subtrees under `nodes`, then those
/// under `floating_nodes`.
pub open spec fn tree_nodes(v: Json) -> Seq<SwayWindowNode>
    decreases v, 1int,
    via tree_nodes_decreases
{
    (if is_window_node(v) {
        seq![node_info(v)]
    } else {
        seq![]
    }) + (match spec_get(v, "nodes"@) {
        Some(kids) => match spec_as_arr(kids) {
            Some(items) => arr_nodes(items, 0),
            None => seq![],
        },
        None => seq![],
    }) + (match spec_get(v, "floating_nodes"@) {
        Some(kids) => match spec_as_arr(kids) {
            Some(items) => arr_nodes(items, 0),
            None => seq![],
        },
        None => seq![],
    })
}

/// The window nodes of the subtrees rooted at `items[i..]`.
pub open spec fn arr_nodes(items: Seq<Json>, i: int) -> Seq<SwayWindowNode>
    decreases items, items.len() - i,
{
    if i < 0 || i >= items.len() {
        seq![]
    } else {
        tree_nodes(items[i]) + arr_nodes(items, i + 1)
    }
}

#[via_fn]
proof fn tree_nodes_decreases(v: Json) {
    if spec_get(v, "nodes"@) matches Some(kids) && spec_as_arr(kids) is Some {
        lemma_get_arr_decreases(v, "nodes"@);
    }
    if spec_get(v, "floating_nodes"@) matches Some(kids) && spec_as_arr(kids) is Some {
        lemma_get_arr_decreases(v, "floating_nodes"@);
    }
}

/// Whether this node is a window node, by the fixed type/marker rule.
fn is_window_node_exec(v: &Json) -> (r: bool)
    ensures
        r == is_window_node(*v),
{
    let type_ok = match v.get("type") {
        Some(t) => match t.as_str() {
            Some(s) => str_eq(s.as_str(), "con") || str_eq(s.as_str(), "floating_con"),
            None => false,
        },
        None => false,
    };
    if !type_ok {
        return false;
    }
    match v.get("app_id") {
        Some(a) => !a.is_null(),
        None => match v.get("window_properties") {
            Some(w) => !w.is_null(),
            None => false,
        },
    }
}

/// Read one window node's record.
fn node_info_exec(v: &Json) -> (r: SwayWindowNode)
    ensures
        r == node_info(*v),
{
    let name: Option<String> = match v.get("name") {
        Some(nv) => match nv.as_str() {
            Some(s) => Some(s.clone()),
            None => None,
        },
        None => None,
    };
    let id: Option<u32> = match v.get("id") {
        Some(iv) => match iv.as_u64() {
            Some(u) => Some(#[verifier::truncate] (u as u32)),
            None => None,
        },
        None => None,
    };
    let focused: bool = match v.get("focused") {
        Some(fv) => match fv.as_bool() {
            Some(b) => b,
            None => false,
        },
        None => false,
    };
    SwayWindowNode { name, id, focused }
}

/// Append the window-node records of the subtree at `v` to `out`, in
/// discovery order.
fn collect_tree(v: &Json, out: &mut Vec<SwayWindowNode>)
    ensures
        final(out)@ == old(out)@ + tree_nodes(*v),
    decreases *v, 1int,
{
    if is_window_node_exec(v) {
        out.push(node_info_exec(v));
    }
    let ghost mid1 = out@;
    if let Some(kids) = v.get("nodes") {
        if let Some(items) = kids.as_arr() {
            proof {
                lemma_get_arr_decreases(*v, "nodes"@);
            }
            collect_arr(v, items, out);
        }
    }
    let ghost mid2 = out@;
    if let Some(kids) = v.get("floating_nodes") {
        if let Some(items) = kids.as_arr() {
            proof {
                lemma_get_arr_decreases(*v, "floating_nodes"@);
            }
            collect_arr(v, items, out);
        }
    }
    proof {
        assert(out@ =~= old(out)@ + tree_nodes(*v));
    }
}

/// Append the window-node records of the subtrees at `items` to `out`.
fn collect_arr(parent: &Json, items: &Vec<Json>, out: &mut Vec<SwayWindowNode>)
    requires
        decreases_to!(*parent => items@),
    ensures
        final(out)@ == old(out)@ + arr_nodes(items@, 0),
    decreases *parent, 0int,
{
    let n = items.len();
    let mut i: usize = 0;
    while i < n
        invariant
            i <= n,
            n == items@.len(),
            decreases_to!(*parent => items@),
            out@ + arr_nodes(items@, i as int) == old(out)@ + arr_nodes(items@, 0),
        decreases n - i,
    {
        proof {
            assert(decreases_to!(items@ => items@[i as int]));
        }
        collect_tree(&items[i], out);
        proof {
            assert(out@ + arr_nodes(items@, i + 1) =~= old(out)@ + arr_nodes(items@, 0));
        }
        i += 1;
    }
    proof {
        assert(arr_nodes(items@, n as int) =~= Seq::<SwayWindowNode>::empty());
        assert(out@ =~= out@ + arr_nodes(items@, n as int));
    }
}

/// The window-node records of a whole listing document, in discovery
/// order.
pub fn window_nodes_of_tree(doc: &Json) -> (r: Vec<SwayWindowNode>)
    ensures
        r@ == tree_nodes(*doc),
{
    let mut out: Vec<SwayWindowNode> = Vec::new();
    collect_tree(doc, &mut out);
    proof {
        assert(out@ =~= tree_nodes(*doc));
    }
    out
}

/// The matched windows among the window nodes from `i` on: those whose
/// title passes the fixed title rule and that carry an id, as id/display
/// title pairs in node order.
pub open spec fn eve_windows_from(nodes: Seq<SwayWindowNode>, i: int) -> Seq<(u32, Seq<char>)>
    decreases nodes.len() - i,
{
    if i < 0 || i >= nodes.len() {
        seq![]
    } else {
        (match (nodes[i].name, nodes[i].id) {
            (Some(t), Some(id)) => if title_matches(t@) {
                seq![(id, stripped_title(t@))]
            } else {
                seq![]
            },
            _ => seq![],
        }) + eve_windows_from(nodes, i + 1)
    }
}

/// The id of the first window node from `i` on that holds focus and
/// carries an id.
pub open spec fn first_focused_from(nodes: Seq<SwayWindowNode>, i: int) -> Option<u32>
    decreases nodes.len() - i,
{
    if i < 0 || i >= nodes.len() {
        None
    } else if nodes[i].focused && nodes[i].id is Some {
        nodes[i].id
    } else {
        first_focused_from(nodes, i + 1)
    }
}

/// The id of the first window node from `i` on whose raw title equals
/// `t` and that carries an id.
pub open spec fn first_titled_from(nodes: Seq<SwayWindowNode>, t: Seq<char>, i: int) -> Option<
    u32,
>
    decreases nodes.len() - i,
{
    if i < 0 || i >= nodes.len() {
        None
    } else if (nodes[i].name matches Some(n) && n@ == t) && nodes[i].id is Some {
        nodes[i].id
    } else {
        first_titled_from(nodes, t, i + 1)
    }
}

/// The matched windows of a node list, as window records.
pub fn eve_windows_of_nodes(nodes: &Vec<SwayWindowNode>) -> (r: Vec<EveWindow>)
    ensures
        win_views(r@) == eve_windows_from(nodes@, 0),
{
    let n = nodes.len();
    let mut out: Vec<EveWindow> = Vec::new();
    let mut i: usize = 0;
    while i < n
        invariant
            i <= n,
            n == nodes@.len(),
            win_views(out@) + eve_windows_from(nodes@, i as int) == eve_windows_from(nodes@, 0),
        decreases n - i,
    {
        match &nodes[i].name {
            Some(t) => {
                if eve_title_matches(t.as_str()) {
                    match nodes[i].id {
                        Some(id) => {
                            let w = EveWindow::new(id, strip_eve_title(t.as_str()));
                            out.push(w);
                        },
                        None => {},
                    }
                }
            },
            None => {},
        }
        proof {
            assert(win_views(out@) + eve_windows_from(nodes@, i + 1) =~= eve_windows_from(
                nodes@,
                0,
            ));
        }
        i += 1;
    }
    proof {
        assert(eve_windows_from(nodes@, n as int) =~= Seq::<(u32, Seq<char>)>::empty());
        assert(win_views(out@) =~= win_views(out@) + eve_windows_from(nodes@, n as int));
    }
    out
}

/// The id of the first focused window node of a node list, if any.
pub fn focused_of_nodes(nodes: &Vec<SwayWindowNode>) -> (r: Option<u32>)
    ensures
        r == first_focused_from(nodes@, 0),
{
    let n = nodes.len();
    let mut i: usize = 0;
    while i < n
        invariant
            i <= n,
            n == nodes@.len(),
            first_focused_from(nodes@, 0) == first_focused_from(nodes@, i as int),
        decreases n - i,
    {
        if nodes[i].focused {
            match nodes[i].id {
                Some(id) => {
                    return Some(id);
                },
                None => {},
            }
        }
        i += 1;
    }
    None
}

/// The id of the first window node of a node list whose raw title equals
/// `title`, if any.
pub fn titled_of_nodes(nodes: &Vec<SwayWindowNode>, title: &str) -> (r: Option<u32>)
    ensures
        r == first_titled_from(nodes@, title@, 0),
{
    let n = nodes.len();
    let mut i: usize = 0;
    while i < n
        invariant
            i <= n,
            n == nodes@.len(),
            first_titled_from(nodes@, title@, 0) == first_titled_from(nodes@, title@, i as int),
        decreases n - i,
    {
        let name_hit = match &nodes[i].name {
            Some(t) => str_eq(t.as_str(), title),
            None => false,
        };
        if name_hit {
            match nodes[i].id {
                Some(id) => {
                    return Some(id);
                },
                None => {},
            }
        }
        i += 1;
    }
    None
}

/// The text of a single-shot command addressed by container id: the
/// `[con_id=N]` selector followed by the verb.
pub open spec fn spec_con_command(id: u32, verb: Seq<char>) -> Seq<char> {
    "[con_id="@ + dec_chars(id as int) + verb
}

fn con_command(id: u32, verb: &str) -> (r: String)
    ensures
        r@ == spec_con_command(id, verb@),
{
    String::from_str("[con_id=").concat(render_dec_u64(id as u64).as_str()).concat(verb)
}

/// The tree-query backend: the pure protocol of one compositor control
/// utility that lists windows as a container tree and is driven by
/// single-shot commands.  The front end spawns the utility; everything
/// here is the translation between its documents and the window model.
pub struct SwayManager;

impl SwayManager {
    /// The availability probe the front end runs at construction.
    pub fn probe_command() -> (r: Vec<String>)
        ensures
            r@.len() == 2,
            r@[0]@ == "swaymsg"@,
            r@[1]@ == "--version"@,
    {
        let mut cmd: Vec<String> = Vec::new();
        cmd.push(String::from_str("swaymsg"));
        cmd.push(String::from_str("--version"));
        cmd
    }

    /// The listing query whose reply `get_eve_windows` and the other
    /// readers parse.
    pub fn list_command() -> (r: Vec<String>)
        ensures
            r@.len() == 3,
            r@[0]@ == "swaymsg"@,
            r@[1]@ == "-t"@,
            r@[2]@ == "get_tree"@,
    {
        let mut cmd: Vec<String> = Vec::new();
        cmd.push(String::from_str("swaymsg"));
        cmd.push(String::from_str("-t"));
        cmd.push(String::from_str("get_tree"));
        cmd
    }

    /// The matched windows of a listing reply: parse the container tree,
    /// discover its window nodes, and keep those the title rule matches.
    pub fn get_eve_windows(reply: &[u8]) -> (r: Result<Vec<EveWindow>, BackendError>)
        ensures
            r is Err <==> spec_json_doc(reply@) is None,
            r matches Err(e) ==> e == BackendError::MalformedReply,
            spec_json_doc(reply@) matches Some(doc) ==> r matches Ok(ws) && win_views(ws@)
                == eve_windows_from(tree_nodes(doc), 0),
    {
        match parse_json(reply) {
            Some(doc) => {
                let nodes = window_nodes_of_tree(&doc);
                Ok(eve_windows_of_nodes(&nodes))
            },
            None => Err(BackendError::MalformedReply),
        }
    }

    /// The focused window of a listing reply: the first window node that
    /// holds focus and carries an id.  A reply in which none does means
    /// no window of ours is focused.
    pub fn get_active_window(reply: &[u8]) -> (r: Result<u32, BackendError>)
        ensures
            spec_json_doc(reply@) is None ==> r == Err::<u32, BackendError>(
                BackendError::MalformedReply,
            ),
            spec_json_doc(reply@) matches Some(doc) ==> r == (
            match first_focused_from(tree_nodes(doc), 0) {
                Some(id) => Ok::<u32, BackendError>(id),
                None => Err::<u32, BackendError>(BackendError::NoActiveWindow),
            }),
    {
        match parse_json(reply) {
            Some(doc) => {
                let nodes = window_nodes_of_tree(&doc);
                match focused_of_nodes(&nodes) {
                    Some(id) => Ok(id),
                    None => Err(BackendError::NoActiveWindow),
                }
            },
            None => Err(BackendError::MalformedReply),
        }
    }

    /// The id of the first window of a listing reply whose raw title
    /// equals `title`; absence is a meaningful answer, not an error.
    pub fn find_window_by_title(reply: &[u8], title: &str) -> (r: Result<
        Option<u32>,
        BackendError,
    >)
        ensures
            spec_json_doc(reply@) is None ==> r == Err::<Option<u32>, BackendError>(
                BackendError::MalformedReply,
            ),
            spec_json_doc(reply@) matches Some(doc) ==> r == Ok::<Option<u32>, BackendError>(
                first_titled_from(tree_nodes(doc), title@, 0),
            ),
    {
        match parse_json(reply) {
            Some(doc) => {
                let nodes = window_nodes_of_tree(&doc);
                Ok(titled_of_nodes(&nodes, title))
            },
            None => Err(BackendError::MalformedReply),
        }
    }

    /// The command that gives a window input focus.
    pub fn activate_command(id: u32) -> (r: String)
        ensures
            r@ == spec_con_command(id, "] focus"@),
    {
        con_command(id, "] focus")
    }

    /// The minimize equivalent: the window moves to the scratchpad, off
    /// the visible set.
    pub fn minimize_command(id: u32) -> (r: String)
        ensures
            r@ == spec_con_command(id, "] move scratchpad"@),
    {
        con_command(id, "] move scratchpad")
    }

    /// The restore equivalent: the window comes back from the
    /// scratchpad.
    pub fn restore_command(id: u32) -> (r: String)
        ensures
            r@ == spec_con_command(id, "] scratchpad show"@),
    {
        con_command(id, "] scratchpad show")
    }

    /// The three positioning commands of one window: floating mode on,
    /// then move, then resize.
    pub fn stack_commands_for(id: u32, cfg: &DisplayConfig) -> (r: (String, String, String))
        requires
            cfg.wf(),
        ensures
            r.0@ == spec_con_command(id, "] floating enable"@),
            r.1@ == spec_move_command(
                id,
                (cfg.display_width - cfg.eve_width) as int / 2,
                0,
            ),
            r.2@ == spec_resize_command(
                id,
                cfg.eve_width as int,
                (cfg.display_height - cfg.panel_height) as int,
            ),
    {
        let (x, y, w, h) = stack_geometry(cfg);
        let floating = con_command(id, "] floating enable");
        let move_cmd = con_command(id, "] move position ")
            .concat(render_dec_u64(x as u64).as_str())
            .concat(" ")
            .concat(render_dec_u64(y as u64).as_str());
        let resize = con_command(id, "] resize set ")
            .concat(render_dec_u64(w as u64).as_str())
            .concat(" ")
            .concat(render_dec_u64(h as u64).as_str());
        (floating, move_cmd, resize)
    }
}

/// The positioning command that moves a window to `x`, `y`.
pub open spec fn spec_move_command(id: u32, x: int, y: int) -> Seq<char> {
    spec_con_command(id, "] move position "@) + dec_chars(x) + " "@ + dec_chars(y)
}

/// The positioning command that resizes a window to `w` by `h`.
pub open spec fn spec_resize_command(id: u32, w: int, h: int) -> Seq<char> {
    spec_con_command(id, "] resize set "@) + dec_chars(w) + " "@ + dec_chars(h)
}

} // verus!
