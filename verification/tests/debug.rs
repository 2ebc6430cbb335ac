use fos_client::debug::{ui_debug_state_overlay, DebugBranch, StateSnapshot};

fn nothing() -> StateSnapshot {
    StateSnapshot {
        app_scope: None,
        menu_context: None,
        mp_setup: None,
        sp_setup: None,
        host_new_game_screen: None,
        host_saved_game_screen: None,
        join_game_screen: None,
        new_game_screen: None,
        saved_game_screen: None,
        session_type: None,
        session_state: None,
        client_status: None,
        sp_status: None,
        server_visibility: None,
    }
}

fn everything() -> StateSnapshot {
    StateSnapshot {
        app_scope: Some("Menu".to_string()),
        menu_context: Some("Multiplayer".to_string()),
        mp_setup: Some("HostNew".to_string()),
        sp_setup: Some("Load".to_string()),
        host_new_game_screen: Some("ConfigServer".to_string()),
        host_saved_game_screen: Some("Overview".to_string()),
        join_game_screen: Some("Browse".to_string()),
        new_game_screen: Some("ConfigWorld".to_string()),
        saved_game_screen: Some("SelectSave".to_string()),
        session_type: Some("Client".to_string()),
        session_state: Some("Active".to_string()),
        client_status: Some("Running".to_string()),
        sp_status: Some("Stopped".to_string()),
        server_visibility: Some("Public".to_string()),
    }
}

fn lines(lines: &[&str]) -> Vec<String> {
    lines.iter().map(|l| l.to_string()).collect()
}

fn branch(branch: &Option<DebugBranch>) -> Option<(String, Vec<String>)> {
    branch.as_ref().map(|b| (b.heading.clone(), b.screens.clone()))
}

#[test]
fn overlay_of_no_states_shows_the_marker_only() {
    let overlay = ui_debug_state_overlay(&nothing());
    assert_eq!(overlay.global_scope, "None");
    assert_eq!(overlay.menu, None);
    assert!(overlay.multiplayer.is_none());
    assert!(overlay.singleplayer.is_none());
    assert!(overlay.session.is_empty());
    assert!(overlay.logic.is_empty());
}

#[test]
fn overlay_of_all_states_shows_every_line() {
    let overlay = ui_debug_state_overlay(&everything());
    assert_eq!(overlay.global_scope, "Menu");
    assert_eq!(overlay.menu.as_deref(), Some("Main: Multiplayer"));
    assert_eq!(
        branch(&overlay.multiplayer),
        Some((
            "Multiplayer: HostNew".to_string(),
            lines(&["HostNew: ConfigServer", "HostSaved: Overview", "Join: Browse"])
        ))
    );
    assert_eq!(
        branch(&overlay.singleplayer),
        Some((
            "Singleplayer: Load".to_string(),
            lines(&["NewGame: ConfigWorld", "SavedGame: SelectSave"])
        ))
    );
    assert_eq!(overlay.session, lines(&["Type: Client", "State: Active"]));
    assert_eq!(
        overlay.logic,
        lines(&[
            "Client Status: Running",
            "Singleplayer Status: Stopped",
            "Server Visibility: Public"
        ])
    );
}

#[test]
fn screens_are_hidden_while_their_branch_is_absent() {
    let mut snapshot = everything();
    snapshot.mp_setup = None;
    snapshot.sp_setup = None;
    let overlay = ui_debug_state_overlay(&snapshot);
    assert_eq!(overlay.menu.as_deref(), Some("Main: Multiplayer"));
    assert!(overlay.multiplayer.is_none());
    assert!(overlay.singleplayer.is_none());
}

#[test]
fn multiplayer_branch_alone() {
    let mut snapshot = nothing();
    snapshot.mp_setup = Some("Join".to_string());
    snapshot.join_game_screen = Some("Browse".to_string());
    snapshot.new_game_screen = Some("ConfigWorld".to_string());
    let overlay = ui_debug_state_overlay(&snapshot);
    assert_eq!(overlay.menu, None);
    assert_eq!(
        branch(&overlay.multiplayer),
        Some(("Multiplayer: Join".to_string(), lines(&["Join: Browse"])))
    );
    assert!(overlay.singleplayer.is_none());
}

#[test]
fn singleplayer_branch_alone() {
    let mut snapshot = nothing();
    snapshot.sp_setup = Some("New".to_string());
    snapshot.saved_game_screen = Some("SelectSave".to_string());
    snapshot.host_new_game_screen = Some("ConfigServer".to_string());
    let overlay = ui_debug_state_overlay(&snapshot);
    assert!(overlay.multiplayer.is_none());
    assert_eq!(
        branch(&overlay.singleplayer),
        Some(("Singleplayer: New".to_string(), lines(&["SavedGame: SelectSave"])))
    );
}

#[test]
fn branch_without_screens_has_its_heading_only() {
    let mut snapshot = nothing();
    snapshot.mp_setup = Some("Idle".to_string());
    let overlay = ui_debug_state_overlay(&snapshot);
    assert_eq!(branch(&overlay.multiplayer), Some(("Multiplayer: Idle".to_string(), vec![])));
}

#[test]
fn absent_states_leave_their_lines_out() {
    let mut snapshot = nothing();
    snapshot.session_state = Some("Setup".to_string());
    snapshot.sp_status = Some("Running".to_string());
    let overlay = ui_debug_state_overlay(&snapshot);
    assert_eq!(overlay.global_scope, "None");
    assert_eq!(overlay.menu, None);
    assert_eq!(overlay.session, lines(&["State: Setup"]));
    assert_eq!(overlay.logic, lines(&["Singleplayer Status: Running"]));
}

#[test]
fn overlay_leaves_the_snapshot_alone() {
    let snapshot = everything();
    let _ = ui_debug_state_overlay(&snapshot);
    assert_eq!(snapshot.app_scope.as_deref(), Some("Menu"));
    assert_eq!(snapshot.server_visibility.as_deref(), Some("Public"));
}

#[test]
fn an_empty_value_still_has_its_line() {
    let mut snapshot = nothing();
    snapshot.app_scope = Some(String::new());
    snapshot.menu_context = Some(String::new());
    snapshot.session_type = Some(String::new());
    let overlay = ui_debug_state_overlay(&snapshot);
    assert_eq!(overlay.global_scope, "");
    assert_eq!(overlay.menu.as_deref(), Some("Main: "));
    assert_eq!(overlay.session, lines(&["Type: "]));
}
