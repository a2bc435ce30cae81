use teaops_agentd::procfile::{
    agent_is_alive, agent_is_alive_at, heartbeat_file_contents, heartbeat_fresh, heartbeat_fresh_at,
    join_path, now_secs, pid_probe_target, unix_secs_or_zero, parse_heartbeat_file, parse_pid_file, pid_file_contents, RolePaths,
};

#[test]
fn role_paths_in_runtime_dir() {
    let p = RolePaths::new("/run/teaops", "agent");
    assert_eq!(p.pid, "/run/teaops/teaops-agent.pid");
    assert_eq!(p.heartbeat, "/run/teaops/teaops-agent.heartbeat");
    assert_eq!(p.lock, "/run/teaops/teaops-agent.lock");
}

#[test]
fn role_paths_like_path_join() {
    for dir in ["/run/", ".", "", "/", "a/b"] {
        let p = RolePaths::new(dir, "agentd");
        let expected = std::path::Path::new(dir).join("teaops-agentd.pid");
        assert_eq!(p.pid, expected.to_str().unwrap(), "dir {:?}", dir);
    }
}

#[test]
fn join_path_absolute_name_replaces() {
    assert_eq!(join_path("/run", "/etc/x"), "/etc/x");
    assert_eq!(join_path("/run", "x"), "/run/x");
}

#[test]
fn pid_file_written_and_read_back() {
    let s = pid_file_contents(4242);
    assert_eq!(s, "4242");
    assert_eq!(parse_pid_file(&s), Some(4242));
    assert_eq!(parse_pid_file(" 17\n"), Some(17));
    assert_eq!(parse_pid_file("4294967296"), None);
    assert_eq!(parse_pid_file("abc"), None);
    assert_eq!(parse_pid_file(""), None);
}

#[test]
fn heartbeat_file_written_and_read_back() {
    let s = heartbeat_file_contents(1725029869);
    assert_eq!(s, "1725029869");
    assert_eq!(parse_heartbeat_file(&s), Some(1725029869));
    assert_eq!(parse_heartbeat_file("12\r\n"), Some(12));
    assert_eq!(parse_heartbeat_file("1.5"), None);
}

#[test]
fn heartbeat_freshness_at() {
    assert!(heartbeat_fresh_at(Some(100), 110, 10));
    assert!(!heartbeat_fresh_at(Some(100), 111, 10));
    // a heartbeat from the future is fresh
    assert!(heartbeat_fresh_at(Some(200), 100, 0));
    assert!(!heartbeat_fresh_at(None, 100, 1000));
}

#[test]
fn heartbeat_freshness_now() {
    let now = now_secs();
    assert!(now > 1_600_000_000);
    assert!(heartbeat_fresh(Some(now), 15));
    assert!(!heartbeat_fresh(Some(0), 15));
    assert!(!heartbeat_fresh(None, 15));
    assert!(heartbeat_fresh(Some(0), u64::MAX));
}

#[test]
fn agent_liveness() {
    assert!(agent_is_alive_at(true, None, 100, 15));
    assert!(agent_is_alive_at(false, Some(90), 100, 15));
    assert!(!agent_is_alive_at(false, Some(80), 100, 15));
    assert!(!agent_is_alive_at(false, None, 100, 15));
    assert!(agent_is_alive(true, None, 15));
    assert!(!agent_is_alive(false, None, 15));
    assert!(agent_is_alive(false, Some(now_secs()), 15));
}

#[test]
fn unix_secs_from_reading() {
    assert_eq!(unix_secs_or_zero(Some(1725029869)), 1725029869);
    assert_eq!(unix_secs_or_zero(None), 0);
}

#[test]
fn pid_probe_targets() {
    assert_eq!(pid_probe_target(0), None);
    assert_eq!(pid_probe_target(1), Some(1));
    assert_eq!(pid_probe_target(4242), Some(4242));
    assert_eq!(pid_probe_target(2147483647), Some(i32::MAX));
    assert_eq!(pid_probe_target(2147483648), None);
    assert_eq!(pid_probe_target(u32::MAX), None);
}

#[test]
fn role_paths_distinct_across_roles() {
    let a = RolePaths::new("/run", "agent");
    let d = RolePaths::new("/run", "agentd");
    let all = [&a.pid, &a.heartbeat, &a.lock, &d.pid, &d.heartbeat, &d.lock];
    for i in 0..all.len() {
        for j in 0..all.len() {
            assert_eq!(i == j, all[i] == all[j]);
        }
    }
    assert_eq!(std::path::Path::new(&a.lock).parent(), Some(std::path::Path::new("/run")));
}
