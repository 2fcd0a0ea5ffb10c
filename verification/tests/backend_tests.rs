use nicotine::backend::{BackendError, DisplayConfig};
use nicotine::hyprland::HyprlandManager;
use nicotine::json::Json;
use nicotine::kwin::KWinManager;
use nicotine::sway::SwayManager;
use nicotine::x11;

fn test_config() -> DisplayConfig {
    DisplayConfig {
        display_width: 1920,
        display_height: 1080,
        eve_width: 800,
        panel_height: 40,
    }
}

#[test]
fn kwin_listing_parses_ids_and_joined_titles() {
    let listing = "0x06e00008  0 host EVE - Character One\n\
                   0x06e00009  0 host EVE - Launcher thing\n\
                   12345  0 host EVE - Decimal Id\n\
                   0x0  0 host EVE - Zero Id\n\
                   short line\n\
                   0x06e0000a  0 host Unrelated Window\n";
    let windows = KWinManager::get_eve_windows(listing);
    assert_eq!(windows.len(), 2);
    assert_eq!(windows[0].id, 0x06e00008);
    assert_eq!(windows[0].title, "Character One");
    assert_eq!(windows[1].id, 12345);
    assert_eq!(windows[1].title, "Decimal Id");
}

#[test]
fn kwin_listing_collapses_blank_runs_in_titles() {
    let listing = "0x1  0 host EVE -    Widely   Spaced\n";
    let windows = KWinManager::get_eve_windows(listing);
    assert_eq!(windows.len(), 1);
    assert_eq!(windows[0].title, "Widely Spaced");
}

#[test]
fn kwin_get_all_windows_keeps_unmatched_titles() {
    let listing = "0x1 0 host Some Window\n0x2 0 host EVE - Kept\n";
    let entries = KWinManager::get_all_windows(listing);
    assert_eq!(entries.len(), 2);
    assert_eq!(entries[0].0, "0x1");
    assert_eq!(entries[0].1, "Some Window");
}

#[test]
fn kwin_title_lookup_by_hex_id() {
    let listing = "0x00000001 0 host First Window\n0x00000002 0 host Second Window\n";
    let title = KWinManager::get_window_title_by_id(listing, "0x00000002");
    assert_eq!(title, Some("Second Window".to_string()));
    assert_eq!(KWinManager::get_window_title_by_id(listing, "0x00000003"), None);
}

#[test]
fn kwin_activate_prefers_title_and_falls_back_to_id() {
    let listing = "0x0000002a 0 host The Window\n";
    let (primary, fallback) = KWinManager::activate_commands(listing, 42);
    let primary = primary.expect("the title resolves, so the title-based command exists");
    assert_eq!(primary, vec!["kdotool", "search", "--name", "The Window", "windowactivate"]);
    assert_eq!(fallback, vec!["wmctrl", "-i", "-a", "0x0000002a"]);

    let (primary, fallback) = KWinManager::activate_commands("", 42);
    assert!(primary.is_none());
    assert_eq!(fallback, vec!["wmctrl", "-i", "-a", "0x0000002a"]);
}

#[test]
fn kwin_active_window_parses_decimal_reply() {
    assert_eq!(KWinManager::get_active_window("  77\n"), Ok(77));
    assert_eq!(
        KWinManager::get_active_window("not a number"),
        Err(BackendError::MalformedReply)
    );
}

#[test]
fn kwin_find_window_by_title_matches_exactly() {
    let listing = "0x1 0 host EVE - Alpha\n0x2 0 host Beta\n";
    assert_eq!(KWinManager::find_window_by_title(listing, "Beta"), Some(2));
    assert_eq!(KWinManager::find_window_by_title(listing, "EVE - Alpha"), Some(1));
    assert_eq!(KWinManager::find_window_by_title(listing, "Alpha"), None);
}

#[test]
fn kwin_commands_carry_padded_hex_ids() {
    assert_eq!(
        KWinManager::minimize_command(0x6e00008),
        vec!["xdotool", "windowminimize", "0x06e00008"]
    );
    assert_eq!(
        KWinManager::restore_command(0x6e00008),
        vec!["wmctrl", "-i", "-a", "0x06e00008"]
    );
    assert_eq!(
        KWinManager::stack_command_for(0x6e00008, &test_config()),
        vec!["wmctrl", "-i", "-r", "0x06e00008", "-e", "0,560,0,800,1040"]
    );
}

#[test]
fn sway_tree_reply_yields_windows_in_discovery_order() {
    let reply = br#"{
        "type": "root",
        "nodes": [
            {
                "type": "con",
                "app_id": "steam_app",
                "name": "EVE - First",
                "id": 11,
                "nodes": [],
                "floating_nodes": []
            },
            {
                "type": "con",
                "window_properties": {"class": "x"},
                "name": "EVE - Second",
                "id": 12
            },
            {
                "type": "con",
                "app_id": "other",
                "name": "Not ours",
                "id": 13
            }
        ],
        "floating_nodes": [
            {
                "type": "floating_con",
                "app_id": "steam_app",
                "name": "EVE - Floating",
                "id": 14
            }
        ]
    }"#;
    let windows = SwayManager::get_eve_windows(reply).unwrap();
    let pairs: Vec<(u32, String)> = windows.iter().map(|w| (w.id, w.title.clone())).collect();
    assert_eq!(
        pairs,
        vec![
            (11, "First".to_string()),
            (12, "Second".to_string()),
            (14, "Floating".to_string()),
        ]
    );
}

#[test]
fn sway_node_with_null_app_id_key_is_not_a_window() {
    let reply = br#"{
        "type": "con",
        "app_id": null,
        "window_properties": {"class": "x"},
        "name": "EVE - Hidden",
        "id": 5
    }"#;
    let windows = SwayManager::get_eve_windows(reply).unwrap();
    assert!(windows.is_empty());
}

#[test]
fn sway_malformed_reply_is_an_error() {
    assert_eq!(
        SwayManager::get_eve_windows(b"{not json"),
        Err(BackendError::MalformedReply)
    );
}

#[test]
fn sway_active_window_is_first_focused_node() {
    let reply = br#"{
        "type": "root",
        "nodes": [
            {"type": "con", "app_id": "a", "name": "One", "id": 1, "focused": false},
            {"type": "con", "app_id": "b", "name": "Two", "id": 2, "focused": true}
        ]
    }"#;
    assert_eq!(SwayManager::get_active_window(reply), Ok(2));

    let unfocused = br#"{"type": "con", "app_id": "a", "name": "One", "id": 1}"#;
    assert_eq!(
        SwayManager::get_active_window(unfocused),
        Err(BackendError::NoActiveWindow)
    );
}

#[test]
fn sway_find_window_by_title_uses_raw_titles() {
    let reply = br#"{
        "type": "root",
        "nodes": [
            {"type": "con", "app_id": "a", "name": "EVE - Alpha", "id": 21},
            {"type": "con", "app_id": "b", "name": "Beta", "id": 22}
        ]
    }"#;
    assert_eq!(SwayManager::find_window_by_title(reply, "Beta"), Ok(Some(22)));
    assert_eq!(SwayManager::find_window_by_title(reply, "Alpha"), Ok(None));
}

#[test]
fn sway_windows_from_built_tree() {
    let node = Json::Obj(vec![
        ("type".to_string(), Json::Str("con".to_string())),
        ("app_id".to_string(), Json::Str("steam".to_string())),
        ("name".to_string(), Json::Str("EVE - Built".to_string())),
        ("id".to_string(), Json::Num(Some(9))),
    ]);
    let root = Json::Obj(vec![
        ("type".to_string(), Json::Str("root".to_string())),
        ("nodes".to_string(), Json::Arr(vec![node])),
    ]);
    let nodes = nicotine::sway::window_nodes_of_tree(&root);
    let windows = nicotine::sway::eve_windows_of_nodes(&nodes);
    assert_eq!(windows.len(), 1);
    assert_eq!(windows[0].id, 9);
    assert_eq!(windows[0].title, "Built");
}

#[test]
fn sway_commands_address_the_container() {
    assert_eq!(SwayManager::activate_command(7), "[con_id=7] focus");
    assert_eq!(SwayManager::minimize_command(7), "[con_id=7] move scratchpad");
    assert_eq!(SwayManager::restore_command(7), "[con_id=7] scratchpad show");
    let (floating, move_cmd, resize) = SwayManager::stack_commands_for(7, &test_config());
    assert_eq!(floating, "[con_id=7] floating enable");
    assert_eq!(move_cmd, "[con_id=7] move position 560 0");
    assert_eq!(resize, "[con_id=7] resize set 800 1040");
}

#[test]
fn hyprland_clients_reply_yields_windows() {
    let reply = br#"[
        {"title": "EVE - One", "address": "0x1a2b"},
        {"title": "EVE - Launcher", "address": "0x9"},
        {"title": "Other", "address": "0x5"},
        {"title": "EVE - NoAddress"},
        {"title": "EVE - BadAddress", "address": "zzz"}
    ]"#;
    let windows = HyprlandManager::get_eve_windows(reply).unwrap();
    let pairs: Vec<(u32, String)> = windows.iter().map(|w| (w.id, w.title.clone())).collect();
    assert_eq!(
        pairs,
        vec![(0x1a2b, "One".to_string()), (0, "BadAddress".to_string())]
    );
}

#[test]
fn hyprland_non_array_listing_is_malformed() {
    assert_eq!(
        HyprlandManager::get_eve_windows(br#"{"title": "EVE - One"}"#),
        Err(BackendError::MalformedReply)
    );
    assert_eq!(
        HyprlandManager::get_eve_windows(b"garbage"),
        Err(BackendError::MalformedReply)
    );
}

#[test]
fn hyprland_active_window_reads_the_address() {
    assert_eq!(HyprlandManager::get_active_window(br#"{"address": "0x2b"}"#), Ok(0x2b));
    assert_eq!(
        HyprlandManager::get_active_window(br#"{}"#),
        Err(BackendError::NoActiveWindow)
    );
    assert_eq!(
        HyprlandManager::get_active_window(b"nope"),
        Err(BackendError::MalformedReply)
    );
}

#[test]
fn hyprland_find_window_by_title_uses_raw_titles() {
    let reply = br#"[
        {"title": "EVE - Alpha", "address": "0x10"},
        {"title": "Beta", "address": "0x20"}
    ]"#;
    assert_eq!(HyprlandManager::find_window_by_title(reply, "Beta"), Ok(Some(0x20)));
    assert_eq!(HyprlandManager::find_window_by_title(reply, "Gamma"), Ok(None));
}

#[test]
fn hyprland_commands_address_by_hex() {
    assert_eq!(
        HyprlandManager::activate_command(0x12ab),
        vec!["hyprctl", "dispatch", "focuswindow", "address:0x12ab"]
    );
    assert_eq!(
        HyprlandManager::minimize_command(0x12ab),
        vec!["hyprctl", "dispatch", "movetoworkspacesilent", "special,address:0x12ab"]
    );
    assert_eq!(
        HyprlandManager::restore_command(0x12ab),
        vec!["hyprctl", "dispatch", "movetoworkspace", "e+0,address:0x12ab"]
    );
    let (toggle, move_arg, resize_arg) =
        HyprlandManager::stack_commands_for(0x12ab, &test_config());
    assert_eq!(toggle, "address:0x12ab");
    assert_eq!(move_arg, "exact 560 0,address:0x12ab");
    assert_eq!(resize_arg, "exact 800 1040,address:0x12ab");
}

#[test]
fn enumerating_no_matches_is_empty_not_an_error() {
    assert!(KWinManager::get_eve_windows("").is_empty());
    assert_eq!(SwayManager::get_eve_windows(b"{}"), Ok(vec![]));
    assert_eq!(HyprlandManager::get_eve_windows(b"[]"), Ok(vec![]));
    assert!(x11::filter_client_windows(&Vec::new()).is_empty());
}

#[test]
fn x11_title_resolution_prefers_utf8_name() {
    let title = x11::resolve_title(Some(b"EVE - Utf8".to_vec()), Some(b"EVE - Legacy".to_vec()));
    assert_eq!(title, "EVE - Utf8");

    let invalid = vec![0xff, 0xfe, 0xfd];
    let title = x11::resolve_title(Some(invalid), Some(b"EVE - Legacy".to_vec()));
    assert_eq!(title, "EVE - Legacy");

    let title = x11::resolve_title(Some(Vec::new()), Some(b"EVE - Legacy".to_vec()));
    assert_eq!(title, "EVE - Legacy");

    let title = x11::resolve_title(None, None);
    assert_eq!(title, "");
}

#[test]
fn x11_filter_keeps_matched_clients_in_order() {
    let entries = vec![
        (1u32, "EVE - Alpha".to_string()),
        (2u32, "EVE - Launcher".to_string()),
        (3u32, "Terminal".to_string()),
        (4u32, "EVE - Beta".to_string()),
    ];
    let windows = x11::filter_client_windows(&entries);
    let pairs: Vec<(u32, String)> = windows.iter().map(|w| (w.id, w.title.clone())).collect();
    assert_eq!(pairs, vec![(1, "Alpha".to_string()), (4, "Beta".to_string())]);
}

#[test]
fn x11_find_id_by_title_matches_raw_titles() {
    let entries = vec![
        (1u32, "EVE - Alpha".to_string()),
        (2u32, "Beta".to_string()),
    ];
    assert_eq!(x11::find_id_by_title(&entries, "Beta"), Some(2));
    assert_eq!(x11::find_id_by_title(&entries, "EVE - Alpha"), Some(1));
    assert_eq!(x11::find_id_by_title(&entries, "Alpha"), None);
}

#[test]
fn x11_active_window_property_reads_first_value() {
    assert_eq!(x11::active_from_property(&vec![42, 7]), 42);
    assert_eq!(x11::active_from_property(&Vec::new()), 0);
}

#[test]
fn x11_event_payloads_are_fixed() {
    assert_eq!(x11::activate_event_data(77), [2, 0, 77, 0, 0]);
    assert_eq!(x11::minimize_event_data(), [3, 0, 0, 0, 0]);
}
