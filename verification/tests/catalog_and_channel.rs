use vpn_deployer::models::DropletRequest;
use vpn_deployer::models::RegionOption;
use vpn_deployer::progress::DeploymentMessage;
use vpn_deployer::progress::ProgressChannel;

#[test]
fn the_catalog_lists_five_regions() {
    let regions = RegionOption::available_regions();
    let slugs: Vec<&str> = regions.iter().map(|r| r.slug.as_str()).collect();
    assert_eq!(slugs, vec!["nyc1", "sfo3", "ams3", "sgp1", "syd1"]);
    let names: Vec<&str> = regions.iter().map(|r| r.name.as_str()).collect();
    assert_eq!(names, vec!["New York", "San Francisco", "Amsterdam", "Singapore", "Sydney"]);
    assert_eq!(regions[2].description, "AMS - Netherlands");
}

#[test]
fn default_request_carries_the_fixed_defaults() {
    let r = DropletRequest::default();
    assert_eq!(r.region, "nyc1");
    assert_eq!(r.size, "s-1vcpu-512mb-10gb");
    assert_eq!(r.image, "ubuntu-24-04-x64");
    assert!(r.ssh_keys.is_empty());
    assert!(r.monitoring);
    assert_eq!(r.tags, vec!["tailscale-vpn".to_string()]);
    assert!(r.name.starts_with("tailscale-vpn-"));
    assert_eq!(r.name.chars().count(), "tailscale-vpn-".len() + 8);
}

#[test]
fn generated_names_differ_between_requests() {
    let a = DropletRequest::default();
    let b = DropletRequest::default();
    // a clash of two consecutive random 8-character suffixes is practically
    // impossible, and a provider rejects duplicate names
    assert_ne!(a.name, b.name);
}

#[test]
fn request_for_region_overrides_only_the_region() {
    let r = DropletRequest::for_region(&"sgp1".to_string());
    assert_eq!(r.region, "sgp1");
    assert_eq!(r.size, "s-1vcpu-512mb-10gb");
}

#[test]
fn the_channel_is_ordered_and_non_blocking() {
    let mut c = ProgressChannel::new();
    assert!(c.try_recv().is_none());
    c.send(DeploymentMessage::Progress { step: 1, status: "a".to_string() });
    c.send(DeploymentMessage::Progress { step: 2, status: "b".to_string() });
    c.send(DeploymentMessage::Error { message: "x".to_string() });
    c.close();
    match c.try_recv() {
        Some(DeploymentMessage::Progress { step, status }) => {
            assert_eq!(step, 1);
            assert_eq!(status, "a");
        }
        _ => panic!("messages come out in emission order"),
    }
    match c.try_recv() {
        Some(DeploymentMessage::Progress { step, .. }) => assert_eq!(step, 2),
        _ => panic!("no message may be dropped"),
    }
    assert!(matches!(c.try_recv(), Some(DeploymentMessage::Error { .. })));
    assert!(c.try_recv().is_none());
}

#[test]
fn the_name_takes_the_first_eight_characters_of_the_drawn_text() {
    let r = DropletRequest::request_from_uuid("936da01f-9abd-4d9d-80c7-02af85c822a8", &"ams3".to_string());
    assert_eq!(r.name, "tailscale-vpn-936da01f");
    assert_eq!(r.region, "ams3");
    assert_eq!(r.size, "s-1vcpu-512mb-10gb");
}
