use vpn_deployer::wizard::App;
use vpn_deployer::wizard::AppState;
use vpn_deployer::progress::DeployProgress;
use vpn_deployer::progress::DeploymentMessage;
use vpn_deployer::progress::ServerInfo;

fn type_str(app: &mut App, s: &str) {
    for c in s.chars() {
        app.handle_char(c);
    }
}

#[test]
fn starts_on_welcome() {
    let app = App::new();
    assert!(matches!(app.state, AppState::Welcome));
    assert!(!app.should_quit);
    assert!(!app.deployment_active);
}

#[test]
fn enter_on_welcome_opens_credential_entry() {
    let mut app = App::new();
    let cmd = app.handle_enter();
    assert!(cmd.is_none());
    match &app.state {
        AppState::Auth { token, cursor } => {
            assert!(token.is_empty());
            assert_eq!(*cursor, 0);
        }
        other => panic!("expected credential entry, got {:?}", state_name(other)),
    }
}

fn state_name(s: &AppState) -> &'static str {
    match s {
        AppState::Welcome => "Welcome",
        AppState::Auth { .. } => "Auth",
        AppState::RegionSelect { .. } => "RegionSelect",
        AppState::TailscaleAuth { .. } => "TailscaleAuth",
        AppState::Loading { .. } => "Loading",
        AppState::Deploy { .. } => "Deploy",
        AppState::Complete { .. } => "Complete",
        AppState::Error { .. } => "Error",
    }
}

#[test]
fn characters_insert_at_cursor_and_advance_it() {
    let mut app = App::new();
    app.handle_enter();
    type_str(&mut app, "abc");
    match &app.state {
        AppState::Auth { token, cursor } => {
            assert_eq!(token.iter().collect::<String>(), "abc");
            assert_eq!(*cursor, 3);
        }
        _ => panic!("expected credential entry"),
    }
}

#[test]
fn backspace_removes_before_cursor_and_stops_at_zero() {
    let mut app = App::new();
    app.handle_enter();
    type_str(&mut app, "ab");
    app.handle_backspace();
    match &app.state {
        AppState::Auth { token, cursor } => {
            assert_eq!(token.iter().collect::<String>(), "a");
            assert_eq!(*cursor, 1);
        }
        _ => panic!("expected credential entry"),
    }
    app.handle_backspace();
    app.handle_backspace();
    app.handle_backspace();
    match &app.state {
        AppState::Auth { token, cursor } => {
            assert!(token.is_empty());
            assert_eq!(*cursor, 0);
        }
        _ => panic!("expected credential entry"),
    }
}

#[test]
fn empty_credential_confirm_is_a_noop() {
    let mut app = App::new();
    app.handle_enter();
    let cmd = app.handle_enter();
    assert!(cmd.is_none());
    assert!(matches!(app.state, AppState::Auth { .. }));
    assert!(!app.deployment_active);
}

#[test]
fn empty_join_key_confirm_is_a_noop() {
    let mut app = App::new();
    app.handle_enter();
    type_str(&mut app, "tok_abc123");
    app.handle_enter();
    app.handle_enter();
    let cmd = app.handle_enter();
    assert!(cmd.is_none());
    assert!(matches!(app.state, AppState::TailscaleAuth { .. }));
    assert!(!app.deployment_active);
}

#[test]
fn region_selection_clamps_to_catalog() {
    let mut app = App::new();
    app.handle_enter();
    type_str(&mut app, "tok");
    app.handle_enter();
    assert!(matches!(app.state, AppState::RegionSelect { selected_index: 0 }));
    app.handle_up();
    assert!(matches!(app.state, AppState::RegionSelect { selected_index: 0 }));
    for _ in 0..10 {
        app.handle_down();
    }
    assert!(matches!(app.state, AppState::RegionSelect { selected_index: 4 }));
    app.handle_up();
    assert!(matches!(app.state, AppState::RegionSelect { selected_index: 3 }));
    app.handle_char('j');
    assert!(matches!(app.state, AppState::RegionSelect { selected_index: 4 }));
    app.handle_char('k');
    assert!(matches!(app.state, AppState::RegionSelect { selected_index: 3 }));
    app.handle_char('w');
    assert!(matches!(app.state, AppState::RegionSelect { selected_index: 2 }));
    app.handle_char('s');
    assert!(matches!(app.state, AppState::RegionSelect { selected_index: 3 }));
    app.handle_char('x');
    assert!(matches!(app.state, AppState::RegionSelect { selected_index: 3 }));
}

#[test]
fn tab_keys_change_nothing() {
    let mut app = App::new();
    app.handle_enter();
    type_str(&mut app, "tok");
    app.handle_tab();
    app.handle_back_tab();
    match &app.state {
        AppState::Auth { token, cursor } => {
            assert_eq!(token.iter().collect::<String>(), "tok");
            assert_eq!(*cursor, 3);
        }
        _ => panic!("expected credential entry"),
    }
}

#[test]
fn final_confirm_captures_all_inputs() {
    let mut app = App::new();
    app.handle_enter();
    type_str(&mut app, "tok_abc123");
    app.handle_enter();
    app.handle_down();
    app.handle_enter();
    type_str(&mut app, "tskey-abc");
    let cmd = app.handle_enter().expect("the final confirm launches the deployment");
    assert_eq!(cmd.api_token.iter().collect::<String>(), "tok_abc123");
    assert_eq!(cmd.auth_key.iter().collect::<String>(), "tskey-abc");
    let region = cmd.region.expect("a region was selected");
    assert_eq!(region.slug, "sfo3");
    assert!(matches!(app.state, AppState::Loading { .. }));
    assert!(app.deployment_active);
}

#[test]
fn tick_folds_messages_and_tears_down_after_terminal() {
    let mut app = App::new();
    app.handle_enter();
    type_str(&mut app, "tok");
    app.handle_enter();
    app.handle_enter();
    type_str(&mut app, "key");
    app.handle_enter();

    app.tick(Some(DeploymentMessage::Progress { step: 2, status: "Creating server...".to_string() }));
    match &app.state {
        AppState::Deploy { progress: DeployProgress { current_step, total_steps, status } } => {
            assert_eq!(*current_step, 2);
            assert_eq!(*total_steps, 6);
            assert_eq!(status, "Creating server...");
        }
        _ => panic!("expected deploy progress"),
    }

    app.tick(None);
    assert!(matches!(app.state, AppState::Deploy { .. }));

    app.tick(Some(DeploymentMessage::Complete {
        server_info: ServerInfo {
            name: "vpn".to_string(),
            ip: "203.0.113.5".to_string(),
            cost: "$4/month".to_string(),
        },
    }));
    assert!(!app.deployment_active);
    match &app.state {
        AppState::Complete { server_info } => {
            assert_eq!(server_info.ip, "203.0.113.5");
        }
        _ => panic!("expected completion"),
    }

    // nothing is processed once the channel is torn down
    app.tick(Some(DeploymentMessage::Error { message: "late".to_string() }));
    assert!(matches!(app.state, AppState::Complete { .. }));
}

#[test]
fn confirm_on_complete_requests_quit() {
    let mut app = App::new();
    app.state = AppState::Complete {
        server_info: ServerInfo {
            name: "n".to_string(),
            ip: "i".to_string(),
            cost: "c".to_string(),
        },
    };
    let cmd = app.handle_enter();
    assert!(cmd.is_none());
    assert!(app.should_quit);
}

#[test]
fn confirm_on_error_returns_to_welcome() {
    let mut app = App::new();
    app.state = AppState::Error { message: "boom".to_string() };
    let cmd = app.handle_enter();
    assert!(cmd.is_none());
    assert!(matches!(app.state, AppState::Welcome));
}

#[test]
fn characters_are_ignored_without_a_text_buffer() {
    let mut app = App::new();
    app.handle_char('x');
    assert!(matches!(app.state, AppState::Welcome));
    app.handle_backspace();
    assert!(matches!(app.state, AppState::Welcome));
}

#[test]
fn tick_is_a_noop_without_a_running_deployment() {
    let mut app = App::new();
    app.tick(Some(DeploymentMessage::Progress { step: 3, status: "late".to_string() }));
    assert!(matches!(app.state, AppState::Welcome));
}

#[test]
fn confirm_on_error_discards_every_captured_input() {
    let mut app = App::new();
    app.handle_enter();
    type_str(&mut app, "tok_abc123");
    app.handle_enter();
    app.handle_enter();
    type_str(&mut app, "tskey-abc");
    app.handle_enter();
    assert!(app.api_token.is_some());
    assert!(app.tailscale_auth_key.is_some());
    assert!(app.selected_region.is_some());

    app.tick(Some(DeploymentMessage::Error { message: "boom".to_string() }));
    assert!(matches!(app.state, AppState::Error { .. }));

    // the only exit from the failure screen is a full restart
    app.handle_enter();
    assert!(matches!(app.state, AppState::Welcome));
    assert!(app.api_token.is_none());
    assert!(app.tailscale_auth_key.is_none());
    assert!(app.selected_region.is_none());
}

#[test]
fn quit_is_honoured_only_outside_a_deployment() {
    let mut app = App::new();
    assert!(app.may_quit());
    app.handle_enter();
    assert!(!app.may_quit());
    type_str(&mut app, "tok");
    app.handle_enter();
    assert!(!app.may_quit());
    app.handle_enter();
    assert!(!app.may_quit());
    type_str(&mut app, "key");
    app.handle_enter();
    assert!(!app.may_quit());
    app.tick(Some(DeploymentMessage::Error { message: "boom".to_string() }));
    assert!(app.may_quit());
    app.state = AppState::Complete {
        server_info: ServerInfo {
            name: "n".to_string(),
            ip: "i".to_string(),
            cost: "c".to_string(),
        },
    };
    assert!(app.may_quit());
}
