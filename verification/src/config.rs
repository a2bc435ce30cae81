//! Supervisor configuration, built from the raw values of its environment
//! variables with a default for each one that is missing or does not parse.
use vstd::prelude::*;
use crate::text::{parse_u64, parse_u64_spec};

verus! {

/// The raw values of the supervisor's environment variables, `None` where a
/// variable is unset (or not valid unicode):
/// `TEAOPS_AGENT_BIN`, `TEAOPS_RUNTIME_DIR`, `TEAOPS_HEARTBEAT_TIMEOUT_SECS`,
/// `TEAOPS_SUPERVISE_INTERVAL_SECS`, `TEAOPS_RESTART_BACKOFF_SECS`,
/// `TEAOPS_AGENT_REPO`, `TEAOPS_DOWNLOAD_URL`.
pub struct EnvValues {
    pub agent_bin: Option<String>,
    pub runtime_dir: Option<String>,
    pub heartbeat_timeout_secs: Option<String>,
    pub supervise_interval_secs: Option<String>,
    pub restart_backoff_secs: Option<String>,
    pub agent_repo: Option<String>,
    pub download_url: Option<String>,
}

/// Supervisor configuration loaded from the environment.
pub struct DaemonConfig {
    /// Path to the teaops-agent binary to supervise.
    pub agent_bin: String,
    /// Shared runtime directory for pid/heartbeat/lock files.
    pub runtime_dir: String,
    /// Seconds without a heartbeat before a peer is considered dead.
    pub heartbeat_timeout_secs: u64,
    /// How often the supervisor checks the agent (seconds).
    pub supervise_interval_secs: u64,
    /// Minimum delay between agent restarts (seconds).
    pub restart_backoff_secs: u64,
    /// GitHub repository (`owner/name`) whose releases carry the agent binary.
    pub agent_repo: String,
    /// Base URL of the download service used when GitHub fails.
    pub download_url: String,
}

/// A text value, or `default` when it is missing.
pub open spec fn text_or(v: Option<String>, default: Seq<char>) -> Seq<char> {
    match v {
        Some(s) => s@,
        None => default,
    }
}

/// A number value, or `default` when it is missing or does not parse as a `u64`.
pub open spec fn number_or(v: Option<String>, default: u64) -> u64 {
    match v {
        Some(s) => match parse_u64_spec(s@) {
            Some(n) => n,
            None => default,
        },
        None => default,
    }
}

fn text_value(v: Option<String>, default: &str) -> (r: String)
    ensures
        r@ == text_or(v, default@),
{
    match v {
        Some(s) => s,
        None => default.to_string(),
    }
}

fn number_value(v: &Option<String>, default: u64) -> (r: u64)
    ensures
        r == number_or(*v, default),
{
    match v {
        Some(s) => match parse_u64(s.as_str()) {
            Some(n) => n,
            None => default,
        },
        None => default,
    }
}

impl DaemonConfig {
    /// The configuration that the given environment values describe.
    /// Defaults: `./teaops-agent`, `.`, 15 s, 3 s, 2 s,
    /// `simonsmithmd/Teaops-agent`, and an empty download-service URL.
    pub fn from_values(env: EnvValues) -> (c: DaemonConfig)
        ensures
            c.agent_bin@ == text_or(env.agent_bin, "./teaops-agent"@),
            c.runtime_dir@ == text_or(env.runtime_dir, "."@),
            c.heartbeat_timeout_secs == number_or(env.heartbeat_timeout_secs, 15),
            c.supervise_interval_secs == number_or(env.supervise_interval_secs, 3),
            c.restart_backoff_secs == number_or(env.restart_backoff_secs, 2),
            c.agent_repo@ == text_or(env.agent_repo, "simonsmithmd/Teaops-agent"@),
            c.download_url@ == text_or(env.download_url, ""@),
    {
        let heartbeat_timeout_secs = number_value(&env.heartbeat_timeout_secs, 15);
        let supervise_interval_secs = number_value(&env.supervise_interval_secs, 3);
        let restart_backoff_secs = number_value(&env.restart_backoff_secs, 2);
        DaemonConfig {
            agent_bin: text_value(env.agent_bin, "./teaops-agent"),
            runtime_dir: text_value(env.runtime_dir, "."),
            heartbeat_timeout_secs,
            supervise_interval_secs,
            restart_backoff_secs,
            agent_repo: text_value(env.agent_repo, "simonsmithmd/Teaops-agent"),
            download_url: text_value(env.download_url, ""),
        }
    }
}

} // verus!
