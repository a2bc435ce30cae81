use teaops_agentd::config::{DaemonConfig, EnvValues};

fn empty() -> EnvValues {
    EnvValues {
        agent_bin: None,
        runtime_dir: None,
        heartbeat_timeout_secs: None,
        supervise_interval_secs: None,
        restart_backoff_secs: None,
        agent_repo: None,
        download_url: None,
    }
}

#[test]
fn config_defaults() {
    let c = DaemonConfig::from_values(empty());
    assert_eq!(c.agent_bin, "./teaops-agent");
    assert_eq!(c.runtime_dir, ".");
    assert_eq!(c.heartbeat_timeout_secs, 15);
    assert_eq!(c.supervise_interval_secs, 3);
    assert_eq!(c.restart_backoff_secs, 2);
    assert_eq!(c.agent_repo, "simonsmithmd/Teaops-agent");
    assert_eq!(c.download_url, "");
}

#[test]
fn config_values_taken() {
    let mut e = empty();
    e.agent_bin = Some("/opt/teaops/teaops-agent".to_string());
    e.runtime_dir = Some("/run/teaops".to_string());
    e.heartbeat_timeout_secs = Some("30".to_string());
    e.supervise_interval_secs = Some("+5".to_string());
    e.restart_backoff_secs = Some("0".to_string());
    e.agent_repo = Some("me/agent".to_string());
    e.download_url = Some("https://dl.example".to_string());
    let c = DaemonConfig::from_values(e);
    assert_eq!(c.agent_bin, "/opt/teaops/teaops-agent");
    assert_eq!(c.runtime_dir, "/run/teaops");
    assert_eq!(c.heartbeat_timeout_secs, 30);
    assert_eq!(c.supervise_interval_secs, 5);
    assert_eq!(c.restart_backoff_secs, 0);
    assert_eq!(c.agent_repo, "me/agent");
    assert_eq!(c.download_url, "https://dl.example");
}

#[test]
fn config_unparsable_numbers_fall_back() {
    let mut e = empty();
    e.heartbeat_timeout_secs = Some("fifteen".to_string());
    e.supervise_interval_secs = Some(" 3".to_string());
    e.restart_backoff_secs = Some("-1".to_string());
    let c = DaemonConfig::from_values(e);
    assert_eq!(c.heartbeat_timeout_secs, 15);
    assert_eq!(c.supervise_interval_secs, 3);
    assert_eq!(c.restart_backoff_secs, 2);
}
