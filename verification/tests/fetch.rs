use teaops_agentd::fetch::{
    asset_name, asset_url, check_download, check_github_asset, download_service_url, github_asset_url,
    plan_install, releases_feed_url, temp_file_name, Acquire, AcquireAction, AcquireError, AcquireEvent,
    AcquirePhase, FetchError, InstallError,
};

#[test]
fn github_urls() {
    assert_eq!(releases_feed_url("me/agent"), "https://github.com/me/agent/releases.atom");
    assert_eq!(asset_name("1.0.10"), "teaops-agent-linux-x86_64-v1.0.10");
    assert_eq!(
        asset_url("me/agent", "1.0.10"),
        "https://github.com/me/agent/releases/download/v1.0.10/teaops-agent-linux-x86_64-v1.0.10"
    );
}

#[test]
fn asset_url_from_feed() {
    let r = github_asset_url("me/agent", "x/v1.0.3 y v1.0.10 z v1.0.2");
    assert_eq!(
        r.unwrap(),
        "https://github.com/me/agent/releases/download/v1.0.10/teaops-agent-linux-x86_64-v1.0.10"
    );
    assert!(matches!(github_asset_url("me/agent", "<feed/>"), Err(FetchError::NoVersionInFeed)));
}

#[test]
fn download_service_endpoint() {
    assert_eq!(download_service_url("https://dl.example"), "https://dl.example/download/agent/latest");
}

#[test]
fn empty_downloads_refused() {
    assert!(matches!(check_github_asset(Vec::new()), Err(FetchError::EmptyAsset)));
    assert_eq!(check_github_asset(vec![1, 2]).unwrap(), vec![1, 2]);
    assert!(matches!(check_download(Vec::new()), Err(FetchError::EmptyDownload)));
    assert_eq!(check_download(vec![7]).unwrap(), vec![7]);
}

#[test]
fn staging_file_names() {
    assert_eq!(temp_file_name(Some("teaops-agent")), ".teaops-agent.dl");
    assert_eq!(temp_file_name(None), ".bin.dl");
}

#[test]
fn install_plans() {
    assert!(matches!(plan_install(0, Some("/opt"), Some("a")), Err(InstallError::EmptyBinary)));
    assert!(matches!(plan_install(0, None, None), Err(InstallError::EmptyBinary)));
    assert!(matches!(plan_install(3, None, Some("a")), Err(InstallError::NoParentDir)));
    let p = plan_install(3, Some("/opt/teaops"), Some("teaops-agent")).unwrap();
    assert_eq!(p.dir, "/opt/teaops");
    assert_eq!(p.temp_path, "/opt/teaops/.teaops-agent.dl");
    let q = plan_install(3, Some(""), Some("teaops-agent")).unwrap();
    assert_eq!(q.temp_path, ".teaops-agent.dl");
}

#[test]
fn acquire_keeps_present_binary() {
    let mut a = Acquire::new();
    assert!(matches!(a.step(AcquireEvent::Checked(true)), AcquireAction::Ready));
    assert_eq!(a.phase, AcquirePhase::Finished);
}

#[test]
fn acquire_github_first() {
    let mut a = Acquire::new();
    assert!(matches!(a.step(AcquireEvent::Checked(false)), AcquireAction::FetchGitHub));
    assert!(matches!(a.step(AcquireEvent::GitHubFetched(Ok(()))), AcquireAction::Install));
    assert!(matches!(a.step(AcquireEvent::Installed(Ok(()))), AcquireAction::Ready));
}

#[test]
fn acquire_falls_back_to_download_service() {
    let mut a = Acquire::new();
    a.step(AcquireEvent::Checked(false));
    let act = a.step(AcquireEvent::GitHubFetched(Err(FetchError::NoVersionInFeed)));
    assert!(matches!(act, AcquireAction::FetchDownloadService));
    assert!(matches!(a.step(AcquireEvent::DownloadServiceFetched(Ok(()))), AcquireAction::Install));
    let act = a.step(AcquireEvent::Installed(Err(InstallError::Io("disk full".to_string()))));
    assert!(matches!(act, AcquireAction::Fail(AcquireError::Install(InstallError::Io(ref m))) if m == "disk full"));
}

#[test]
fn acquire_fails_when_both_sources_fail() {
    let mut a = Acquire::new();
    a.step(AcquireEvent::Checked(false));
    a.step(AcquireEvent::GitHubFetched(Err(FetchError::EmptyAsset)));
    let act = a.step(AcquireEvent::DownloadServiceFetched(Err(FetchError::EmptyDownload)));
    assert!(matches!(act, AcquireAction::Fail(AcquireError::Fetch(FetchError::EmptyDownload))));
    assert_eq!(a.phase, AcquirePhase::Finished);
    assert!(matches!(a.step(AcquireEvent::Checked(false)), AcquireAction::Ignore));
}

#[test]
fn acquire_ignores_out_of_order_events() {
    let mut a = Acquire::new();
    assert!(matches!(a.step(AcquireEvent::Installed(Ok(()))), AcquireAction::Ignore));
    assert_eq!(a.phase, AcquirePhase::Checking);
}
