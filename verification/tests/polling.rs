use vpn_deployer::models::Droplet;
use vpn_deployer::models::NetworkV4;
use vpn_deployer::models::Networks;
use vpn_deployer::models::Region;
use vpn_deployer::poll::FetchOutcome;
use vpn_deployer::poll::PollResult;
use vpn_deployer::poll::poll_until_ready;

fn droplet(status: &str, nets: Vec<NetworkV4>) -> Droplet {
    Droplet {
        id: 42,
        name: "tailscale-vpn-test".to_string(),
        status: status.to_string(),
        networks: Networks { v4: nets },
        region: Region { name: "New York".to_string(), slug: "nyc1".to_string() },
    }
}

fn public(ip: &str) -> NetworkV4 {
    NetworkV4 {
        ip_address: ip.to_string(),
        netmask: "255.255.255.0".to_string(),
        network_type: "public".to_string(),
    }
}

fn private(ip: &str) -> NetworkV4 {
    NetworkV4 {
        ip_address: ip.to_string(),
        netmask: "255.255.255.0".to_string(),
        network_type: "private".to_string(),
    }
}

fn not_ready() -> FetchOutcome {
    FetchOutcome::Fetched { droplet: droplet("new", vec![]) }
}

fn ready(ip: &str) -> FetchOutcome {
    FetchOutcome::Fetched { droplet: droplet("active", vec![private("10.0.0.2"), public(ip)]) }
}

#[test]
fn ready_on_third_attempt_takes_two_sleeps() {
    let outcomes = vec![not_ready(), not_ready(), ready("203.0.113.5")];
    match poll_until_ready(&outcomes, 0, 60, 5) {
        PollResult::Ready { info, attempts, elapsed_secs } => {
            assert_eq!(info.ip, "203.0.113.5");
            assert_eq!(info.name, "tailscale-vpn-test");
            assert_eq!(attempts, 3);
            assert_eq!(elapsed_secs, 10);
            assert!(elapsed_secs <= attempts * 5);
        }
        _ => panic!("expected readiness"),
    }
}

#[test]
fn ready_on_attempt_sixty_still_succeeds() {
    let mut outcomes: Vec<FetchOutcome> = Vec::new();
    for _ in 0..59 {
        outcomes.push(not_ready());
    }
    outcomes.push(ready("198.51.100.7"));
    match poll_until_ready(&outcomes, 0, 60, 5) {
        PollResult::Ready { attempts, elapsed_secs, .. } => {
            assert_eq!(attempts, 60);
            assert_eq!(elapsed_secs, 295);
        }
        _ => panic!("the boundary attempt must still succeed"),
    }
}

#[test]
fn ready_only_on_attempt_sixty_one_times_out() {
    let mut outcomes: Vec<FetchOutcome> = Vec::new();
    for _ in 0..60 {
        outcomes.push(not_ready());
    }
    outcomes.push(ready("198.51.100.7"));
    match poll_until_ready(&outcomes, 0, 60, 5) {
        PollResult::TimedOut { attempts, elapsed_secs } => {
            assert_eq!(attempts, 60);
            assert_eq!(elapsed_secs, 295);
        }
        _ => panic!("the budget is exactly sixty attempts"),
    }
}

#[test]
fn missing_fetches_time_out() {
    let outcomes: Vec<FetchOutcome> = Vec::new();
    match poll_until_ready(&outcomes, 0, 60, 5) {
        PollResult::TimedOut { attempts, .. } => assert_eq!(attempts, 60),
        _ => panic!("expected a timeout"),
    }
}

#[test]
fn failed_fetches_are_transient() {
    let outcomes = vec![FetchOutcome::FetchFailed, FetchOutcome::FetchFailed, ready("203.0.113.9")];
    match poll_until_ready(&outcomes, 0, 60, 5) {
        PollResult::Ready { info, attempts, .. } => {
            assert_eq!(info.ip, "203.0.113.9");
            assert_eq!(attempts, 3);
        }
        _ => panic!("failed fetches must not abort the poll"),
    }
}

#[test]
fn active_without_public_address_fails_at_once() {
    let outcomes = vec![
        not_ready(),
        FetchOutcome::Fetched { droplet: droplet("active", vec![private("10.0.0.2")]) },
    ];
    match poll_until_ready(&outcomes, 0, 60, 5) {
        PollResult::NoPublicIp { attempts, elapsed_secs } => {
            assert_eq!(attempts, 2);
            assert_eq!(elapsed_secs, 5);
        }
        _ => panic!("a ready instance without a public address is terminal"),
    }
}

#[test]
fn first_public_address_wins() {
    let d = droplet("active", vec![private("10.0.0.2"), public("203.0.113.1"), public("203.0.113.2")]);
    let outcomes = vec![FetchOutcome::Fetched { droplet: d }];
    match poll_until_ready(&outcomes, 0, 60, 5) {
        PollResult::Ready { info, .. } => assert_eq!(info.ip, "203.0.113.1"),
        _ => panic!("expected readiness"),
    }
}

#[test]
fn poll_can_start_mid_sequence() {
    let outcomes = vec![ready("203.0.113.1"), not_ready(), ready("203.0.113.2")];
    match poll_until_ready(&outcomes, 1, 60, 5) {
        PollResult::Ready { info, attempts, .. } => {
            assert_eq!(info.ip, "203.0.113.2");
            assert_eq!(attempts, 2);
        }
        _ => panic!("expected readiness"),
    }
}
