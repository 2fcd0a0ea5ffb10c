use nicotine::engine::{BackendAction, CycleState, SwitchError, SwitchPlan};
use nicotine::window::EveWindow;

fn create_test_window(id: u32, title: &str) -> EveWindow {
    EveWindow { id, title: title.to_string() }
}

fn activated(plan: &SwitchPlan) -> Vec<u32> {
    plan.actions
        .iter()
        .filter_map(|a| match a {
            BackendAction::Activate(id) => Some(*id),
            _ => None,
        })
        .collect()
}

#[test]
fn test_new_cycle_state_is_empty() {
    let state = CycleState::new();
    assert_eq!(state.get_current_index(), 0);
    assert_eq!(state.get_windows().len(), 0);
}

#[test]
fn test_update_windows() {
    let mut state = CycleState::new();
    let windows = vec![
        create_test_window(1, "EVE - Character 1"),
        create_test_window(2, "EVE - Character 2"),
        create_test_window(3, "EVE - Character 3"),
    ];

    state.update_windows(windows);
    assert_eq!(state.get_windows().len(), 3);
    assert_eq!(state.get_current_index(), 0);
}

#[test]
fn test_update_windows_clamps_index() {
    let mut state = CycleState::new();

    let windows = vec![
        create_test_window(1, "EVE - Character 1"),
        create_test_window(2, "EVE - Character 2"),
        create_test_window(3, "EVE - Character 3"),
        create_test_window(4, "EVE - Character 4"),
        create_test_window(5, "EVE - Character 5"),
    ];
    state.update_windows(windows);
    state.current_index = 4;

    let windows = vec![
        create_test_window(1, "EVE - Character 1"),
        create_test_window(2, "EVE - Character 2"),
    ];
    state.update_windows(windows);

    assert_eq!(state.get_current_index(), 0);
}

#[test]
fn test_sync_with_active_updates_index() {
    let mut state = CycleState::new();
    let windows = vec![
        create_test_window(100, "EVE - Character 1"),
        create_test_window(200, "EVE - Character 2"),
        create_test_window(300, "EVE - Character 3"),
    ];
    state.update_windows(windows);

    state.sync_with_active(300);
    assert_eq!(state.get_current_index(), 2);

    state.sync_with_active(100);
    assert_eq!(state.get_current_index(), 0);
}

#[test]
fn test_sync_with_active_nonexistent_window() {
    let mut state = CycleState::new();
    let windows = vec![
        create_test_window(100, "EVE - Character 1"),
        create_test_window(200, "EVE - Character 2"),
    ];
    state.update_windows(windows);
    state.current_index = 1;

    state.sync_with_active(999);
    assert_eq!(state.get_current_index(), 1);
}

#[test]
fn test_get_windows_returns_slice() {
    let mut state = CycleState::new();
    let windows = vec![
        create_test_window(1, "EVE - Character 1"),
        create_test_window(2, "EVE - Character 2"),
    ];
    state.update_windows(windows);

    let returned_windows = state.get_windows();
    assert_eq!(returned_windows.len(), 2);
    assert_eq!(returned_windows[0].id, 1);
    assert_eq!(returned_windows[1].id, 2);
}

#[test]
fn test_empty_windows_stays_at_zero() {
    let mut state = CycleState::new();

    state.update_windows(vec![]);

    assert_eq!(state.get_current_index(), 0);
    assert_eq!(state.get_windows().len(), 0);
}

#[test]
fn test_single_window_behavior() {
    let mut state = CycleState::new();
    let windows = vec![create_test_window(1, "EVE - Single Client")];
    state.update_windows(windows);

    assert_eq!(state.get_current_index(), 0);

    state.sync_with_active(1);
    assert_eq!(state.get_current_index(), 0);
}

#[test]
fn test_update_windows_preserves_valid_index() {
    let mut state = CycleState::new();

    let windows = vec![
        create_test_window(1, "EVE - Character 1"),
        create_test_window(2, "EVE - Character 2"),
        create_test_window(3, "EVE - Character 3"),
        create_test_window(4, "EVE - Character 4"),
        create_test_window(5, "EVE - Character 5"),
    ];
    state.update_windows(windows);
    state.current_index = 2;

    let windows = vec![
        create_test_window(1, "EVE - Character 1"),
        create_test_window(2, "EVE - Character 2"),
        create_test_window(3, "EVE - Character 3"),
        create_test_window(4, "EVE - Character 4"),
    ];
    state.update_windows(windows);

    assert_eq!(state.get_current_index(), 2);
}

#[test]
fn test_switch_to_by_index_no_character_order() {
    let mut state = CycleState::new();
    let windows = vec![
        create_test_window(100, "Alpha"),
        create_test_window(200, "Beta"),
        create_test_window(300, "Gamma"),
    ];
    state.update_windows(windows);

    let plan = state.switch_to(2, false, None).unwrap();
    assert_eq!(state.get_current_index(), 1);
    assert_eq!(activated(&plan), vec![200]);
}

#[test]
fn test_switch_to_with_character_order() {
    let mut state = CycleState::new();
    let windows = vec![
        create_test_window(100, "Gamma"),
        create_test_window(200, "Alpha"),
        create_test_window(300, "Beta"),
    ];
    state.update_windows(windows);

    let char_order = vec!["Alpha".to_string(), "Beta".to_string(), "Gamma".to_string()];

    let plan = state.switch_to(1, false, Some(&char_order)).unwrap();
    assert_eq!(state.get_current_index(), 1);
    assert_eq!(activated(&plan), vec![200]);
}

#[test]
fn test_switch_to_same_window_does_nothing() {
    let mut state = CycleState::new();
    let windows = vec![
        create_test_window(100, "Alpha"),
        create_test_window(200, "Beta"),
    ];
    state.update_windows(windows);
    state.current_index = 0;

    let plan = state.switch_to(1, false, None).unwrap();

    assert!(activated(&plan).is_empty());
}

#[test]
fn test_switch_to_out_of_range() {
    let mut state = CycleState::new();
    let windows = vec![
        create_test_window(100, "Alpha"),
        create_test_window(200, "Beta"),
    ];
    state.update_windows(windows);

    let result = state.switch_to(5, false, None);
    assert!(result.is_err());
}

#[test]
fn test_switch_to_character_not_logged_in() {
    let mut state = CycleState::new();
    let windows = vec![
        create_test_window(100, "Alpha"),
        create_test_window(200, "Beta"),
    ];
    state.update_windows(windows);

    let char_order = vec!["Alpha".to_string(), "Beta".to_string(), "Gamma".to_string()];

    let result = state.switch_to(3, false, Some(&char_order));
    assert!(result.is_err());
}

#[test]
fn test_switch_to_zero_does_nothing() {
    let mut state = CycleState::new();
    let windows = vec![create_test_window(100, "Alpha")];
    state.update_windows(windows);

    let plan = state.switch_to(0, false, None).unwrap();
    assert!(activated(&plan).is_empty());
}

#[test]
fn test_switch_to_empty_windows_does_nothing() {
    let mut state = CycleState::new();

    let plan = state.switch_to(1, false, None).unwrap();
    assert!(activated(&plan).is_empty());
}

#[test]
fn cycle_forward_then_backward_restores_index() {
    let mut state = CycleState::new();
    state.update_windows(vec![
        create_test_window(1, "EVE - A"),
        create_test_window(2, "EVE - B"),
        create_test_window(3, "EVE - C"),
    ]);
    state.current_index = 1;

    state.cycle_forward(false);
    state.cycle_backward(false);
    assert_eq!(state.get_current_index(), 1);

    for _ in 0..3 {
        state.cycle_forward(false);
    }
    assert_eq!(state.get_current_index(), 1);
}

#[test]
fn cycle_with_single_window_keeps_index_zero() {
    let mut state = CycleState::new();
    state.update_windows(vec![create_test_window(1, "EVE - Solo")]);

    let plan = state.cycle_forward(false);
    assert_eq!(state.get_current_index(), 0);
    assert_eq!(activated(&plan), vec![1]);

    let plan = state.cycle_backward(false);
    assert_eq!(state.get_current_index(), 0);
    assert_eq!(activated(&plan), vec![1]);
}

#[test]
fn cycle_scenario_three_windows() {
    let mut state = CycleState::new();
    state.update_windows(vec![
        create_test_window(1, "A"),
        create_test_window(2, "B"),
        create_test_window(3, "C"),
    ]);

    let plan = state.cycle_forward(false);
    assert_eq!(state.get_current_index(), 1);
    assert_eq!(activated(&plan), vec![2]);

    let mut state = CycleState::new();
    state.update_windows(vec![
        create_test_window(1, "A"),
        create_test_window(2, "B"),
        create_test_window(3, "C"),
    ]);

    let plan = state.cycle_backward(false);
    assert_eq!(state.get_current_index(), 2);
    assert_eq!(activated(&plan), vec![3]);
}

#[test]
fn switch_scenario_character_order_resolution() {
    let mut state = CycleState::new();
    state.update_windows(vec![
        create_test_window(100, "Gamma"),
        create_test_window(200, "Alpha"),
        create_test_window(300, "Beta"),
    ]);

    let order = vec!["Alpha".to_string(), "Beta".to_string(), "Gamma".to_string()];
    let plan = state.switch_to(1, false, Some(&order)).unwrap();

    assert_eq!(state.get_current_index(), 1);
    assert_eq!(activated(&plan), vec![200]);
    assert_eq!(plan.persist, Some(1));
}

#[test]
fn switch_out_of_range_reports_and_leaves_state() {
    let mut state = CycleState::new();
    state.update_windows(vec![
        create_test_window(100, "Alpha"),
        create_test_window(200, "Beta"),
    ]);
    state.current_index = 1;

    let result = state.switch_to(5, false, None);
    match result {
        Err(SwitchError::OutOfRange { target, available }) => {
            assert_eq!(target, 5);
            assert_eq!(available, 2);
        }
        other => panic!("expected an out-of-range failure, got {:?}", other),
    }
    assert_eq!(state.get_current_index(), 1);
}

#[test]
fn switch_character_not_found_names_the_character() {
    let mut state = CycleState::new();
    state.update_windows(vec![
        create_test_window(100, "Alpha"),
        create_test_window(200, "Beta"),
    ]);

    let order = vec!["Alpha".to_string(), "Beta".to_string(), "Gamma".to_string()];
    let result = state.switch_to(3, false, Some(&order));
    match result {
        Err(SwitchError::CharacterNotFound { name }) => assert_eq!(name, "Gamma"),
        other => panic!("expected a not-found failure, got {:?}", other),
    }
    assert_eq!(state.get_current_index(), 0);
}

#[test]
fn minimize_on_switch_orders_restore_activate_minimize() {
    let mut state = CycleState::new();
    state.update_windows(vec![
        create_test_window(1, "EVE - A"),
        create_test_window(2, "EVE - B"),
    ]);

    let plan = state.cycle_forward(true);
    assert_eq!(
        plan.actions,
        vec![
            BackendAction::Restore(2),
            BackendAction::Activate(2),
            BackendAction::Minimize(1),
        ]
    );
    assert_eq!(plan.persist, Some(1));
}

#[test]
fn minimize_on_switch_single_window_skips_minimize() {
    let mut state = CycleState::new();
    state.update_windows(vec![create_test_window(1, "EVE - Solo")]);

    let plan = state.cycle_forward(true);
    assert_eq!(
        plan.actions,
        vec![BackendAction::Restore(1), BackendAction::Activate(1)]
    );
}

#[test]
fn switch_with_minimize_plans_full_sequence() {
    let mut state = CycleState::new();
    state.update_windows(vec![
        create_test_window(10, "Alpha"),
        create_test_window(20, "Beta"),
        create_test_window(30, "Gamma"),
    ]);

    let plan = state.switch_to(3, true, None).unwrap();
    assert_eq!(
        plan.actions,
        vec![
            BackendAction::Restore(30),
            BackendAction::Activate(30),
            BackendAction::Minimize(10),
        ]
    );
    assert_eq!(state.get_current_index(), 2);
}

#[test]
fn update_from_empty_always_selects_the_first() {
    let mut state = CycleState::new();
    state.set_current_index(2);
    assert_eq!(state.get_current_index(), 2);

    state.update_windows(vec![
        create_test_window(1, "EVE - A"),
        create_test_window(2, "EVE - B"),
        create_test_window(3, "EVE - C"),
        create_test_window(4, "EVE - D"),
        create_test_window(5, "EVE - E"),
    ]);
    assert_eq!(state.get_current_index(), 0);
}

#[test]
fn update_to_empty_leaves_no_windows() {
    let mut state = CycleState::new();
    state.update_windows(vec![
        create_test_window(1, "EVE - A"),
        create_test_window(2, "EVE - B"),
    ]);
    state.current_index = 1;

    state.update_windows(vec![]);
    assert_eq!(state.get_windows().len(), 0);

    state.update_windows(vec![
        create_test_window(3, "EVE - C"),
        create_test_window(4, "EVE - D"),
    ]);
    assert_eq!(state.get_current_index(), 0);
}

#[test]
fn set_current_index_rejects_out_of_range() {
    let mut state = CycleState::new();
    state.update_windows(vec![
        create_test_window(1, "EVE - A"),
        create_test_window(2, "EVE - B"),
    ]);

    state.set_current_index(1);
    assert_eq!(state.get_current_index(), 1);

    state.set_current_index(7);
    assert_eq!(state.get_current_index(), 1);
}
