use vpn_deployer::models::Droplet;
use vpn_deployer::models::NetworkV4;
use vpn_deployer::models::Networks;
use vpn_deployer::models::Region;
use vpn_deployer::models::RegionOption;
use vpn_deployer::orchestrator::ProviderScript;
use vpn_deployer::orchestrator::run_to_completion;
use vpn_deployer::poll::FetchOutcome;
use vpn_deployer::progress::DeploymentMessage;
use vpn_deployer::progress::ProgressChannel;
use vpn_deployer::wizard::App;
use vpn_deployer::wizard::AppState;

fn chars(s: &str) -> Vec<char> {
    s.chars().collect()
}

fn droplet(name: &str, status: &str, nets: Vec<NetworkV4>) -> Droplet {
    Droplet {
        id: 7,
        name: name.to_string(),
        status: status.to_string(),
        networks: Networks { v4: nets },
        region: Region { name: "New York".to_string(), slug: "nyc1".to_string() },
    }
}

fn public(ip: &str) -> NetworkV4 {
    NetworkV4 {
        ip_address: ip.to_string(),
        netmask: "255.255.255.0".to_string(),
        network_type: "public".to_string(),
    }
}

fn not_ready() -> FetchOutcome {
    FetchOutcome::Fetched { droplet: droplet("vpn", "new", vec![]) }
}

fn ready(name: &str, ip: &str) -> FetchOutcome {
    FetchOutcome::Fetched { droplet: droplet(name, "active", vec![public(ip)]) }
}

fn nyc1() -> Option<RegionOption> {
    let mut regions = RegionOption::available_regions();
    Some(regions.remove(0))
}

/// Drives a wizard that already confirmed its join key through every
/// message of the trace, one tick per message, as the interactive loop
/// does.
fn wizard_after(messages: Vec<DeploymentMessage>) -> App {
    let mut app = App::new();
    app.handle_enter();
    for c in "tok_abc123".chars() {
        app.handle_char(c);
    }
    app.handle_enter();
    app.handle_enter();
    for c in "tskey-abc".chars() {
        app.handle_char(c);
    }
    let cmd = app.handle_enter();
    assert!(cmd.is_some());

    let mut channel = ProgressChannel::new();
    for m in messages {
        channel.send(m);
    }
    channel.close();
    loop {
        let m = channel.try_recv();
        let done = m.is_none();
        app.tick(m);
        if done {
            break;
        }
    }
    app
}

#[test]
fn successful_deployment_reaches_complete() {
    // the instance reports ready with its address on poll attempt 3
    let script = ProviderScript {
        validate_ok: true,
        create_result: Ok(droplet("generated", "new", vec![])),
        fetch_outcomes: vec![
            not_ready(),
            not_ready(),
            ready("tailscale-vpn-1a2b3c4d", "203.0.113.5"),
            ready("tailscale-vpn-1a2b3c4d", "203.0.113.5"),
        ],
    };
    let outcome = run_to_completion(chars("tskey-abc"), nyc1(), script);
    assert_eq!(outcome.create_calls, 1);
    assert_eq!(outcome.fetch_calls, 4);
    // two sleeps before readiness, the bootstrap wait, no sleep before the re-fetch
    assert_eq!(outcome.elapsed_secs, 10 + 70);

    let last = outcome.messages.last().expect("a terminal message ends the trace");
    match last {
        DeploymentMessage::Complete { server_info } => {
            assert_eq!(server_info.name, "tailscale-vpn-1a2b3c4d");
            assert_eq!(server_info.ip, "203.0.113.5");
            assert_eq!(server_info.cost, "$4/month");
        }
        _ => panic!("expected completion"),
    }

    let app = wizard_after(outcome.messages);
    match &app.state {
        AppState::Complete { server_info } => {
            assert_eq!(server_info.ip, "203.0.113.5");
            assert_eq!(server_info.cost, "$4/month");
        }
        _ => panic!("the wizard must reach Complete"),
    }
    assert!(!app.deployment_active);
}

#[test]
fn progress_steps_never_decrease() {
    let script = ProviderScript {
        validate_ok: true,
        create_result: Ok(droplet("generated", "new", vec![])),
        fetch_outcomes: vec![ready("vpn", "203.0.113.5"), ready("vpn", "203.0.113.5")],
    };
    let outcome = run_to_completion(chars("tskey-abc"), None, script);
    let mut last_step = 0usize;
    for (i, m) in outcome.messages.iter().enumerate() {
        match m {
            DeploymentMessage::Progress { step, .. } => {
                assert!(*step >= last_step);
                last_step = *step;
                assert!(i < outcome.messages.len() - 1);
            }
            DeploymentMessage::Complete { .. } => assert_eq!(i, outcome.messages.len() - 1),
            DeploymentMessage::Error { .. } => panic!("this run must not fail"),
        }
    }
    assert_eq!(last_step, 5);
}

#[test]
fn rejected_credentials_fail_before_any_creation() {
    let script = ProviderScript {
        validate_ok: false,
        create_result: Ok(droplet("never", "new", vec![])),
        fetch_outcomes: vec![],
    };
    let outcome = run_to_completion(chars("tskey-abc"), nyc1(), script);
    assert_eq!(outcome.create_calls, 0);
    assert_eq!(outcome.fetch_calls, 0);
    assert_eq!(outcome.elapsed_secs, 0);
    assert_eq!(outcome.messages.len(), 2);
    match &outcome.messages[1] {
        DeploymentMessage::Error { message } => {
            assert_eq!(message, "Invalid credentials: Invalid token or insufficient permissions");
        }
        _ => panic!("expected the credential error"),
    }

    let app = wizard_after(outcome.messages);
    match &app.state {
        AppState::Error { message } => assert!(message.starts_with("Invalid credentials")),
        _ => panic!("the wizard must reach the failure screen"),
    }
}

#[test]
fn rejected_creation_carries_the_provider_words() {
    let script = ProviderScript {
        validate_ok: true,
        create_result: Err("quota exceeded".to_string()),
        fetch_outcomes: vec![],
    };
    let outcome = run_to_completion(chars("tskey-abc"), nyc1(), script);
    assert_eq!(outcome.create_calls, 1);
    assert_eq!(outcome.fetch_calls, 0);
    assert_eq!(outcome.messages.len(), 3);
    match &outcome.messages[2] {
        DeploymentMessage::Error { message } => {
            assert_eq!(message, "Failed to create server: quota exceeded");
        }
        _ => panic!("expected the creation error"),
    }
}

#[test]
fn never_ready_times_out_without_completion() {
    let script = ProviderScript {
        validate_ok: true,
        create_result: Ok(droplet("generated", "new", vec![])),
        fetch_outcomes: vec![],
    };
    let outcome = run_to_completion(chars("tskey-abc"), nyc1(), script);
    assert_eq!(outcome.fetch_calls, 60);
    assert_eq!(outcome.elapsed_secs, 59 * 5);
    match outcome.messages.last().expect("a terminal message") {
        DeploymentMessage::Error { message } => {
            assert_eq!(message, "Timeout waiting for droplet to be ready");
        }
        _ => panic!("expected the timeout error"),
    }
    for m in &outcome.messages {
        assert!(!matches!(m, DeploymentMessage::Complete { .. }));
    }

    let app = wizard_after(outcome.messages);
    match &app.state {
        AppState::Error { message } => assert!(message.contains("Timeout")),
        _ => panic!("the wizard must reach the failure screen"),
    }
}

#[test]
fn ready_without_public_address_is_terminal() {
    let script = ProviderScript {
        validate_ok: true,
        create_result: Ok(droplet("generated", "new", vec![])),
        fetch_outcomes: vec![
            FetchOutcome::Fetched { droplet: droplet("vpn", "active", vec![]) },
        ],
    };
    let outcome = run_to_completion(chars("tskey-abc"), nyc1(), script);
    assert_eq!(outcome.fetch_calls, 1);
    match outcome.messages.last().expect("a terminal message") {
        DeploymentMessage::Error { message } => assert_eq!(message, "No public IP found"),
        _ => panic!("expected the missing-address error"),
    }
}

#[test]
fn timeout_during_the_final_refetch_is_terminal() {
    let mut fetches = vec![ready("vpn", "203.0.113.5")];
    for _ in 0..60 {
        fetches.push(not_ready());
    }
    let script = ProviderScript {
        validate_ok: true,
        create_result: Ok(droplet("generated", "new", vec![])),
        fetch_outcomes: fetches,
    };
    let outcome = run_to_completion(chars("tskey-abc"), nyc1(), script);
    assert_eq!(outcome.fetch_calls, 1 + 60);
    match outcome.messages.last().expect("a terminal message") {
        DeploymentMessage::Error { message } => {
            assert_eq!(message, "Timeout waiting for droplet to be ready");
        }
        _ => panic!("expected the timeout error"),
    }
}

#[test]
fn the_trace_lists_every_pipeline_step_in_order() {
    let script = ProviderScript {
        validate_ok: true,
        create_result: Ok(droplet("generated", "new", vec![])),
        fetch_outcomes: vec![ready("vpn", "203.0.113.5"), ready("vpn", "203.0.113.5")],
    };
    let outcome = run_to_completion(chars("tskey-abc"), None, script);
    let texts: Vec<String> = outcome
        .messages
        .iter()
        .map(|m| match m {
            DeploymentMessage::Progress { step, status } => format!("{} {}", step, status),
            DeploymentMessage::Complete { .. } => "complete".to_string(),
            DeploymentMessage::Error { message } => format!("error {}", message),
        })
        .collect();
    let expected = vec![
        "1 Validating credentials...",
        "2 Creating server...",
        "3 Waiting for server to be ready...",
        "4 Installing and configuring Tailscale...",
        "4 Downloading and installing Tailscale...",
        "4 Configuring IP forwarding...",
        "4 Starting Tailscale daemon...",
        "4 Connecting to your Tailnet...",
        "4 Enabling SSH access...",
        "4 Configuring as exit node...",
        "4 Finalizing setup...",
        "4 Tailscale setup completed successfully!",
        "5 Finalizing server setup...",
        "complete",
    ];
    assert_eq!(texts, expected);
}
