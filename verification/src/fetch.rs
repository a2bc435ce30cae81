//! Acquiring the agent binary, GitHub first: where to download it from,
//! which downloads are acceptable, where it is staged before install, and the
//! order in which the sources are tried.
use vstd::prelude::*;
use crate::version::{Separator, split, candidate, candidate_text, is_best_at, highest_version};
use crate::procfile::{spec_join, join_path};

verus! {

/// Why a download of the agent binary failed.
#[derive(Debug)]
pub enum FetchError {
    /// The request itself failed (connection, HTTP status, body); the text says how.
    Transport(String),
    /// The releases feed names no `v`-prefixed version.
    NoVersionInFeed,
    /// The GitHub release asset was empty.
    EmptyAsset,
    /// The download service returned an empty body.
    EmptyDownload,
}

/// Why installing a downloaded binary failed.
#[derive(Debug)]
pub enum InstallError {
    /// There were no bytes to install.
    EmptyBinary,
    /// The target path has no parent directory.
    NoParentDir,
    /// Writing, marking executable or renaming failed; the text says how.
    Io(String),
}

pub open spec fn github_prefix() -> Seq<char> {
    "https://github.com/"@
}

/// The Atom feed of a repository's releases.
pub open spec fn spec_feed_url(repo: Seq<char>) -> Seq<char> {
    github_prefix() + repo + "/releases.atom"@
}

/// The name of the Linux x86-64 release asset of `version`.
pub open spec fn spec_asset_name(version: Seq<char>) -> Seq<char> {
    "teaops-agent-linux-x86_64-v"@ + version
}

/// Where the release asset of `version` is downloaded from.
pub open spec fn spec_asset_url(repo: Seq<char>, version: Seq<char>) -> Seq<char> {
    github_prefix() + repo + "/releases/download/v"@ + version + "/"@ + spec_asset_name(version)
}

/// The download service's endpoint for the latest agent binary.
pub open spec fn spec_download_service_url(base: Seq<char>) -> Seq<char> {
    base + "/download/agent/latest"@
}

/// The name of the staging file next to the target: `.{file name}.dl`, with
/// `bin` standing in for a missing or non-unicode file name.
pub open spec fn spec_temp_name(file_name: Option<Seq<char>>) -> Seq<char> {
    "."@ + match file_name {
        Some(n) => n,
        None => "bin"@,
    } + ".dl"@
}

pub fn releases_feed_url(repo: &str) -> (u: String)
    ensures
        u@ == spec_feed_url(repo@),
{
    let mut u = "https://github.com/".to_string();
    u.append(repo);
    u.append("/releases.atom");
    u
}

pub fn asset_name(version: &str) -> (n: String)
    ensures
        n@ == spec_asset_name(version@),
{
    let mut n = "teaops-agent-linux-x86_64-v".to_string();
    n.append(version);
    n
}

pub fn asset_url(repo: &str, version: &str) -> (u: String)
    ensures
        u@ == spec_asset_url(repo@, version@),
{
    let name = asset_name(version);
    let mut u = "https://github.com/".to_string();
    u.append(repo);
    u.append("/releases/download/v");
    u.append(version);
    u.append("/");
    u.append(name.as_str());
    u
}

pub fn download_service_url(base: &str) -> (u: String)
    ensures
        u@ == spec_download_service_url(base@),
{
    let mut u = base.to_string();
    u.append("/download/agent/latest");
    u
}

/// The asset URL of the highest version that the releases feed `feed`
/// names; `NoVersionInFeed` when it names none.
pub fn github_asset_url(repo: &str, feed: &str) -> (r: Result<String, FetchError>)
    ensures
        r matches Err(e) ==> e is NoVersionInFeed,
        r is Err <==> (forall|i: int|
            0 <= i < split(feed@, Separator::NonToken).len() ==> (#[trigger] candidate(
                split(feed@, Separator::NonToken)[i],
            )) is None),
        r matches Ok(u) ==> exists|i: int|
            is_best_at(split(feed@, Separator::NonToken), i) && u@ == spec_asset_url(
                repo@,
                #[trigger] candidate_text(split(feed@, Separator::NonToken)[i]),
            ),
{
    match highest_version(feed) {
        Some(version) => {
            let u = asset_url(repo, version.as_str());
            proof {
                let ts = split(feed@, Separator::NonToken);
                let i = choose|i: int|
                    is_best_at(ts, i) && (#[trigger] candidate(ts[i])) == Some(
                        (crate::version::candidate_key(ts[i]), version@),
                    );
                assert(candidate_text(ts[i]) == version@);
            }
            Ok(u)
        },
        None => Err(FetchError::NoVersionInFeed),
    }
}

/// Accepts a downloaded GitHub asset unless it is empty.
pub fn check_github_asset(bytes: Vec<u8>) -> (r: Result<Vec<u8>, FetchError>)
    ensures
        bytes@.len() == 0 ==> (r matches Err(e) && e is EmptyAsset),
        bytes@.len() > 0 ==> (r matches Ok(b) && b@ == bytes@),
{
    if bytes.len() == 0 {
        Err(FetchError::EmptyAsset)
    } else {
        Ok(bytes)
    }
}

/// Accepts a body from the download service unless it is empty.
pub fn check_download(bytes: Vec<u8>) -> (r: Result<Vec<u8>, FetchError>)
    ensures
        bytes@.len() == 0 ==> (r matches Err(e) && e is EmptyDownload),
        bytes@.len() > 0 ==> (r matches Ok(b) && b@ == bytes@),
{
    if bytes.len() == 0 {
        Err(FetchError::EmptyDownload)
    } else {
        Ok(bytes)
    }
}

pub fn temp_file_name(file_name: Option<&str>) -> (n: String)
    ensures
        n@ == spec_temp_name(
            match file_name {
                Some(f) => Some(f@),
                None => None,
            },
        ),
{
    let mut n = ".".to_string();
    match file_name {
        Some(f) => n.append(f),
        None => n.append("bin"),
    }
    n.append(".dl");
    n
}

/// Where an install writes: the target's directory (created first) and the
/// staging file in it, which is renamed onto the target at the end.
pub struct InstallPlan {
    pub dir: String,
    pub temp_path: String,
}

/// Plans installing `byte_len` bytes at a target whose parent directory is
/// `parent` and whose file name is `file_name` (`None` where the target has
/// none, or one that is not unicode). Refuses an empty binary first, then a
/// target without a parent.
pub fn plan_install(byte_len: usize, parent: Option<&str>, file_name: Option<&str>) -> (r: Result<
    InstallPlan,
    InstallError,
>)
    ensures
        byte_len == 0 ==> (r matches Err(e) && e is EmptyBinary),
        byte_len > 0 && parent is None ==> (r matches Err(e) && e is NoParentDir),
        byte_len > 0 && parent is Some ==> (r matches Ok(p) && p.dir@ == parent->0@
            && p.temp_path@ == spec_join(
            parent->0@,
            spec_temp_name(
                match file_name {
                    Some(f) => Some(f@),
                    None => None,
                },
            ),
        )),
{
    if byte_len == 0 {
        return Err(InstallError::EmptyBinary);
    }
    match parent {
        None => Err(InstallError::NoParentDir),
        Some(dir) => {
            let name = temp_file_name(file_name);
            let temp_path = join_path(dir, name.as_str());
            Ok(InstallPlan { dir: dir.to_string(), temp_path })
        },
    }
}

/// Where acquiring the binary stands.
#[derive(Debug, Clone, Copy, PartialEq, Eq)]
pub enum AcquirePhase {
    /// Checking whether the binary is already in place.
    Checking,
    /// Downloading the latest release from GitHub.
    FromGitHub,
    /// Downloading from the download service after GitHub failed.
    FromDownloadService,
    /// Installing the downloaded bytes.
    Installing,
    /// Done, one way or the other.
    Finished,
}

/// What the caller reports back after doing the last action.
#[derive(Debug)]
pub enum AcquireEvent {
    /// The binary exists (`true`) or not.
    Checked(bool),
    /// The GitHub download ended.
    GitHubFetched(Result<(), FetchError>),
    /// The download-service download ended.
    DownloadServiceFetched(Result<(), FetchError>),
    /// Installing the downloaded bytes ended.
    Installed(Result<(), InstallError>),
}

/// Why acquiring the binary failed.
#[derive(Debug)]
pub enum AcquireError {
    Fetch(FetchError),
    Install(InstallError),
}

/// What the caller does next.
#[derive(Debug)]
pub enum AcquireAction {
    /// Download from GitHub.
    FetchGitHub,
    /// Download from the download service.
    FetchDownloadService,
    /// Install the bytes of the download that just succeeded.
    Install,
    /// The binary is in place.
    Ready,
    /// Acquiring failed.
    Fail(AcquireError),
    /// The event does not belong to this phase; nothing changes.
    Ignore,
}

/// The acquisition step: from a phase and the outcome of the last action to
/// the next phase and action. GitHub is tried first; the download service
/// only after GitHub failed; the binary is installed only after a download
/// succeeded; a binary already in place is kept as it is.
pub open spec fn acquire_step(phase: AcquirePhase, event: AcquireEvent) -> (AcquirePhase, AcquireAction) {
    match (phase, event) {
        (AcquirePhase::Checking, AcquireEvent::Checked(true)) => (AcquirePhase::Finished, AcquireAction::Ready),
        (AcquirePhase::Checking, AcquireEvent::Checked(false)) => (AcquirePhase::FromGitHub, AcquireAction::FetchGitHub),
        (AcquirePhase::FromGitHub, AcquireEvent::GitHubFetched(Ok(()))) => (AcquirePhase::Installing, AcquireAction::Install),
        (AcquirePhase::FromGitHub, AcquireEvent::GitHubFetched(Err(_))) => (
            AcquirePhase::FromDownloadService,
            AcquireAction::FetchDownloadService,
        ),
        (AcquirePhase::FromDownloadService, AcquireEvent::DownloadServiceFetched(Ok(()))) => (
            AcquirePhase::Installing,
            AcquireAction::Install,
        ),
        (AcquirePhase::FromDownloadService, AcquireEvent::DownloadServiceFetched(Err(e))) => (
            AcquirePhase::Finished,
            AcquireAction::Fail(AcquireError::Fetch(e)),
        ),
        (AcquirePhase::Installing, AcquireEvent::Installed(Ok(()))) => (AcquirePhase::Finished, AcquireAction::Ready),
        (AcquirePhase::Installing, AcquireEvent::Installed(Err(e))) => (
            AcquirePhase::Finished,
            AcquireAction::Fail(AcquireError::Install(e)),
        ),
        _ => (phase, AcquireAction::Ignore),
    }
}

/// Ensures the agent binary exists, fetching it if missing: a small
/// machine that the caller drives, starting in `Checking`.
pub struct Acquire {
    pub phase: AcquirePhase,
}

impl Acquire {
    /// A new acquisition; the caller first checks whether the binary exists.
    pub fn new() -> (a: Acquire)
        ensures
            a.phase == AcquirePhase::Checking,
    {
        Acquire { phase: AcquirePhase::Checking }
    }

    /// Takes the outcome of the last action and gives the next one.
    pub fn step(&mut self, event: AcquireEvent) -> (act: AcquireAction)
        ensures
            (final(self).phase, act) == acquire_step(old(self).phase, event),
    {
        let phase = self.phase;
        let (next, act) = match (phase, event) {
            (AcquirePhase::Checking, AcquireEvent::Checked(true)) => (AcquirePhase::Finished, AcquireAction::Ready),
            (AcquirePhase::Checking, AcquireEvent::Checked(false)) => (AcquirePhase::FromGitHub, AcquireAction::FetchGitHub),
            (AcquirePhase::FromGitHub, AcquireEvent::GitHubFetched(Ok(()))) => (AcquirePhase::Installing, AcquireAction::Install),
            (AcquirePhase::FromGitHub, AcquireEvent::GitHubFetched(Err(_))) => (
                AcquirePhase::FromDownloadService,
                AcquireAction::FetchDownloadService,
            ),
            (AcquirePhase::FromDownloadService, AcquireEvent::DownloadServiceFetched(Ok(()))) => (
                AcquirePhase::Installing,
                AcquireAction::Install,
            ),
            (AcquirePhase::FromDownloadService, AcquireEvent::DownloadServiceFetched(Err(e))) => (
                AcquirePhase::Finished,
                AcquireAction::Fail(AcquireError::Fetch(e)),
            ),
            (AcquirePhase::Installing, AcquireEvent::Installed(Ok(()))) => (AcquirePhase::Finished, AcquireAction::Ready),
            (AcquirePhase::Installing, AcquireEvent::Installed(Err(e))) => (
                AcquirePhase::Finished,
                AcquireAction::Fail(AcquireError::Install(e)),
            ),
            _ => (phase, AcquireAction::Ignore),
        };
        self.phase = next;
        act
    }
}

/// The outcomes that performing an acquisition action can report.
pub open spec fn acquire_produces(a: AcquireAction, ev: AcquireEvent) -> bool {
    match a {
        AcquireAction::FetchGitHub => ev is GitHubFetched,
        AcquireAction::FetchDownloadService => ev is DownloadServiceFetched,
        AcquireAction::Install => ev is Installed,
        _ => false,
    }
}

/// Whatever the check for the binary reports is taken up.
pub proof fn lemma_check_outcome_handled(ev: AcquireEvent)
    requires
        ev is Checked,
    ensures
        !(acquire_step(AcquirePhase::Checking, ev).1 is Ignore),
{
}

/// Every outcome of an ordered download or install is taken up by the next
/// step: acquisition never stalls on a result it asked for.
pub proof fn lemma_acquire_outcomes_handled(phase: AcquirePhase, ev: AcquireEvent, ev2: AcquireEvent)
    requires
        acquire_produces(acquire_step(phase, ev).1, ev2),
    ensures
        !(acquire_step(acquire_step(phase, ev).0, ev2).1 is Ignore),
{
}

/// Any GitHub failure, whatever its kind, leads to the download service.
pub proof fn lemma_github_failure_falls_back(e: FetchError)
    ensures
        acquire_step(AcquirePhase::FromGitHub, AcquireEvent::GitHubFetched(Err(e))) == (
            AcquirePhase::FromDownloadService,
            AcquireAction::FetchDownloadService,
        ),
{
}

/// A missing binary is looked for on GitHub first; the download service's
/// bytes are installed when it succeeds, its error is the failure when it
/// fails; a successful install makes the binary ready.
pub proof fn lemma_acquire_path(e: FetchError)
    ensures
        acquire_step(AcquirePhase::Checking, AcquireEvent::Checked(false)) == (
            AcquirePhase::FromGitHub,
            AcquireAction::FetchGitHub,
        ),
        acquire_step(AcquirePhase::FromDownloadService, AcquireEvent::DownloadServiceFetched(Ok(())))
            == (AcquirePhase::Installing, AcquireAction::Install),
        acquire_step(AcquirePhase::FromDownloadService, AcquireEvent::DownloadServiceFetched(Err(e)))
            == (AcquirePhase::Finished, AcquireAction::Fail(AcquireError::Fetch(e))),
        acquire_step(AcquirePhase::Installing, AcquireEvent::Installed(Ok(()))) == (
            AcquirePhase::Finished,
            AcquireAction::Ready,
        ),
{
}

/// The binary is reported ready only when it was already in place or has
/// just been installed.
pub proof fn lemma_ready_only_when_in_place(phase: AcquirePhase, ev: AcquireEvent)
    ensures
        acquire_step(phase, ev).1 is Ready ==> (phase == AcquirePhase::Checking && ev
            == AcquireEvent::Checked(true)) || (phase == AcquirePhase::Installing
            && ev matches AcquireEvent::Installed(Ok(_))),
{
}

/// A binary that is already in place is neither downloaded nor installed.
pub proof fn lemma_present_binary_kept()
    ensures
        acquire_step(AcquirePhase::Checking, AcquireEvent::Checked(true)) == (
            AcquirePhase::Finished,
            AcquireAction::Ready,
        ),
{
}

/// The download service is consulted only right after GitHub failed.
pub proof fn lemma_fallback_only_after_github_failed(phase: AcquirePhase, event: AcquireEvent)
    ensures
        acquire_step(phase, event).1 is FetchDownloadService ==> phase == AcquirePhase::FromGitHub
            && event matches AcquireEvent::GitHubFetched(Err(_)),
{
}

/// A successful GitHub download is installed; the download service is not asked.
pub proof fn lemma_github_success_installed()
    ensures
        acquire_step(AcquirePhase::FromGitHub, AcquireEvent::GitHubFetched(Ok(()))) == (
            AcquirePhase::Installing,
            AcquireAction::Install,
        ),
{
}

/// Bytes are installed only right after a download succeeded.
pub proof fn lemma_install_only_after_download(phase: AcquirePhase, event: AcquireEvent)
    ensures
        acquire_step(phase, event).1 is Install ==> (event matches AcquireEvent::GitHubFetched(Ok(_))
            || event matches AcquireEvent::DownloadServiceFetched(Ok(_))),
{
}

/// Acquisition fails only when the download service failed after GitHub did,
/// or when installing failed; the failure carries that error.
pub proof fn lemma_failure_causes(phase: AcquirePhase, event: AcquireEvent)
    ensures
        acquire_step(phase, event).1 matches AcquireAction::Fail(err) ==> match err {
            AcquireError::Fetch(e) => phase == AcquirePhase::FromDownloadService && event
                == AcquireEvent::DownloadServiceFetched(Err(e)),
            AcquireError::Install(e) => phase == AcquirePhase::Installing && event
                == AcquireEvent::Installed(Err(e)),
        },
{
}

/// Once finished, acquisition stays finished and does nothing more.
pub proof fn lemma_finished_absorbing(event: AcquireEvent)
    ensures
        acquire_step(AcquirePhase::Finished, event) == (AcquirePhase::Finished, AcquireAction::Ignore),
{
}

} // verus!
