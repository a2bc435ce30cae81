//! Process coordination between the supervisor and the agent: the pid,
//! heartbeat and lock file of each role, what those files hold, and the
//! liveness decisions drawn from them.
use vstd::prelude::*;
use crate::text::{
    decimal, trim, parse_u32_spec, parse_u64_spec, decimal_string, chars_of, trim_chars,
    parse_u64_chars, parse_unsigned_chars, lemma_parse_decimal,
};

verus! {

/// `PathBuf::push` on Unix: an absolute `name` replaces `dir`; otherwise a
/// `/` goes between them unless `dir` is empty or already ends with one.
pub open spec fn spec_join(dir: Seq<char>, name: Seq<char>) -> Seq<char> {
    if name.len() > 0 && name[0] == '/' {
        name
    } else if dir.len() == 0 || dir.last() == '/' {
        dir + name
    } else {
        dir + seq!['/'] + name
    }
}

/// The file name `teaops-{role}.{ext}`.
pub open spec fn role_file_name(role: Seq<char>, ext: Seq<char>) -> Seq<char> {
    "teaops-"@ + role + "."@ + ext
}

/// Paths for one role ("agent" or "agentd") within a runtime directory.
pub struct RolePaths {
    pub pid: String,
    pub heartbeat: String,
    pub lock: String,
}

/// `dir.join(name)` for paths held as text.
pub fn join_path(dir: &str, name: &str) -> (p: String)
    ensures
        p@ == spec_join(dir@, name@),
{
    let d = chars_of(dir);
    let nm = chars_of(name);
    if nm.len() > 0 && nm[0] == '/' {
        return name.to_string();
    }
    let mut p = dir.to_string();
    if d.len() > 0 && d[d.len() - 1] != '/' {
        p.append("/");
        proof {
            reveal_strlit("/");
        }
    }
    p.append(name);
    proof {
        assert(d@.last() == dir@.last());
    }
    p
}

/// `teaops-{role}.{ext}`.
fn role_file(role: &str, ext: &str) -> (s: String)
    ensures
        s@ == role_file_name(role@, ext@),
{
    let mut s = "teaops-".to_string();
    s.append(role);
    s.append(".");
    s.append(ext);
    s
}

impl RolePaths {
    /// The pid, heartbeat and lock files of `role` inside `runtime_dir`:
    /// `teaops-{role}.pid`, `.heartbeat` and `.lock`.
    pub fn new(runtime_dir: &str, role: &str) -> (r: RolePaths)
        ensures
            r.pid@ == spec_join(runtime_dir@, role_file_name(role@, "pid"@)),
            r.heartbeat@ == spec_join(runtime_dir@, role_file_name(role@, "heartbeat"@)),
            r.lock@ == spec_join(runtime_dir@, role_file_name(role@, "lock"@)),
    {
        let pid_name = role_file(role, "pid");
        let heartbeat_name = role_file(role, "heartbeat");
        let lock_name = role_file(role, "lock");
        RolePaths {
            pid: join_path(runtime_dir, pid_name.as_str()),
            heartbeat: join_path(runtime_dir, heartbeat_name.as_str()),
            lock: join_path(runtime_dir, lock_name.as_str()),
        }
    }
}

/// A single path component: nonempty and without `/`.
pub open spec fn is_component(n: Seq<char>) -> bool {
    n.len() > 0 && forall|i: int| 0 <= i < n.len() ==> n[i] != '/'
}

/// The extensions of a role's files.
pub open spec fn is_role_ext(e: Seq<char>) -> bool {
    e == "pid"@ || e == "heartbeat"@ || e == "lock"@
}

/// Joining one directory with two relative names gives equal paths only for
/// equal names.
proof fn lemma_join_injective(d: Seq<char>, n1: Seq<char>, n2: Seq<char>)
    requires
        n1.len() > 0 && n1[0] != '/',
        n2.len() > 0 && n2[0] != '/',
        spec_join(d, n1) == spec_join(d, n2),
    ensures
        n1 == n2,
{
    let p = if d.len() == 0 || d.last() == '/' {
        d
    } else {
        d + seq!['/']
    };
    assert(spec_join(d, n1) == p + n1);
    assert(spec_join(d, n2) == p + n2);
    assert(n1 =~= (p + n1).subrange(p.len() as int, (p + n1).len() as int));
    assert(n2 =~= (p + n2).subrange(p.len() as int, (p + n2).len() as int));
}

proof fn lemma_role_file_name_shape(role: Seq<char>, ext: Seq<char>)
    requires
        is_role_ext(ext),
    ensures
        role_file_name(role, ext).len() == 8 + role.len() + ext.len(),
        role_file_name(role, ext)[0] == 't',
        role_file_name(role, ext).last() == ext.last(),
        role_file_name(role, ext).subrange(7, 7 + role.len() as int) == role,
        ext.len() > 0,
{
    reveal_strlit("teaops-");
    reveal_strlit(".");
    reveal_strlit("pid");
    reveal_strlit("heartbeat");
    reveal_strlit("lock");
    let n = role_file_name(role, ext);
    assert(n =~= "teaops-"@ + role + "."@ + ext);
    assert(n.subrange(7, 7 + role.len() as int) =~= role);
}

/// Different roles, or different files of one role, never share a path in
/// the runtime directory: a role's pid, heartbeat and lock files are
/// pairwise distinct, and no file of one role is a file of another.
pub proof fn lemma_role_paths_distinct(
    dir: Seq<char>,
    r1: Seq<char>,
    e1: Seq<char>,
    r2: Seq<char>,
    e2: Seq<char>,
)
    requires
        is_role_ext(e1),
        is_role_ext(e2),
        r1 != r2 || e1 != e2,
    ensures
        spec_join(dir, role_file_name(r1, e1)) != spec_join(dir, role_file_name(r2, e2)),
{
    let n1 = role_file_name(r1, e1);
    let n2 = role_file_name(r2, e2);
    lemma_role_file_name_shape(r1, e1);
    lemma_role_file_name_shape(r2, e2);
    if spec_join(dir, n1) == spec_join(dir, n2) {
        lemma_join_injective(dir, n1, n2);
        reveal_strlit("pid");
        reveal_strlit("heartbeat");
        reveal_strlit("lock");
        if e1 != e2 {
            assert(n1.last() == n2.last());
            assert(false);
        } else {
            assert(r1.len() == r2.len());
            assert(r1 == n1.subrange(7, 7 + r1.len() as int));
            assert(r2 == n2.subrange(7, 7 + r2.len() as int));
        }
    }
}

/// Each file of a role whose name holds no `/` is a single component right
/// inside the runtime directory: its path is the directory joined with one
/// component (the text form of `parent() == Some(dir)`).
pub proof fn lemma_role_path_in_dir(dir: Seq<char>, role: Seq<char>, ext: Seq<char>)
    requires
        is_role_ext(ext),
        forall|i: int| 0 <= i < role.len() ==> role[i] != '/',
    ensures
        is_component(role_file_name(role, ext)),
{
    reveal_strlit("teaops-");
    reveal_strlit(".");
    reveal_strlit("pid");
    reveal_strlit("heartbeat");
    reveal_strlit("lock");
    let n = role_file_name(role, ext);
    assert(n =~= "teaops-"@ + role + "."@ + ext);
    assert forall|i: int| 0 <= i < n.len() implies n[i] != '/' by {
        if i >= 7 && i < 7 + role.len() {
            assert(n[i] == role[i - 7]);
        }
    }
}

/// What a pid file holds: the process id in decimal, with no newline.
pub fn pid_file_contents(pid: u32) -> (s: String)
    ensures
        s@ == decimal(pid as nat),
{
    decimal_string(pid as u64)
}

/// What a heartbeat file holds: the unix time in seconds, in decimal.
pub fn heartbeat_file_contents(unix_secs: u64) -> (s: String)
    ensures
        s@ == decimal(unix_secs as nat),
{
    decimal_string(unix_secs)
}

/// The pid that a pid file's contents name, if they parse
/// (`s.trim().parse::<u32>().ok()`).
pub fn parse_pid_file(contents: &str) -> (r: Option<u32>)
    ensures
        r == parse_u32_spec(trim(contents@)),
{
    let c = chars_of(contents);
    let t = trim_chars(c.as_slice());
    match parse_unsigned_chars(t.as_slice(), u32::MAX as u64) {
        Some(n) => Some(n as u32),
        None => None,
    }
}

/// The timestamp that a heartbeat file's contents name, if they parse
/// (`s.trim().parse::<u64>().ok()`).
pub fn parse_heartbeat_file(contents: &str) -> (r: Option<u64>)
    ensures
        r == parse_u64_spec(trim(contents@)),
{
    let c = chars_of(contents);
    let t = trim_chars(c.as_slice());
    parse_u64_chars(t.as_slice())
}

/// Reading back a pid file gives the pid that was written.
pub proof fn lemma_pid_file_roundtrip(pid: u32)
    ensures
        parse_u32_spec(trim(decimal(pid as nat))) == Some(pid),
{
    lemma_parse_decimal(pid as nat, u32::MAX as nat);
}

/// Reading back a heartbeat file gives the timestamp that was written.
pub proof fn lemma_heartbeat_file_roundtrip(unix_secs: u64)
    ensures
        parse_u64_spec(trim(decimal(unix_secs as nat))) == Some(unix_secs),
{
    lemma_parse_decimal(unix_secs as nat, u64::MAX as nat);
}

#[verifier::external_type_specification]
#[verifier::external_body]
pub struct ExSystemTime(std::time::SystemTime);

/// `SystemTime::now()`: the clock's current reading; nothing is known of it.
#[verifier::external_body]
fn system_time_now() -> std::time::SystemTime {
    std::time::SystemTime::now()
}

/// `SystemTime::duration_since(UNIX_EPOCH)`: the time elapsed since the
/// epoch, `None` where the time lies before it. What it returns depends on
/// the clock reading it is given, of which nothing is known, so nothing is
/// stated of it.
#[verifier::external_body]
fn duration_since_epoch(t: &std::time::SystemTime) -> Option<std::time::Duration> {
    match t.duration_since(std::time::UNIX_EPOCH) {
        Ok(d) => Some(d),
        Err(_) => None,
    }
}

/// `Duration::as_secs`: the whole seconds of a duration. The duration is
/// opaque here, so nothing is stated of the result.
#[verifier::external_body]
fn whole_secs(d: &std::time::Duration) -> u64 {
    d.as_secs()
}

/// The unix time in seconds from a clock reading's whole seconds since the
/// epoch, 0 when the reading lies before the epoch.
pub fn unix_secs_or_zero(since_epoch: Option<u64>) -> (r: u64)
    ensures
        r == match since_epoch {
            Some(s) => s,
            None => 0,
        },
{
    match since_epoch {
        Some(s) => s,
        None => 0,
    }
}

/// Current unix time in seconds; 0 when the clock reads before the epoch.
/// The value is the clock's reading, of which nothing is known, so no
/// clause states it; `unix_secs_or_zero` states what is made of the reading.
pub fn now_secs() -> u64 {
    let t = system_time_now();
    let since_epoch = match duration_since_epoch(&t) {
        Some(d) => Some(whole_secs(&d)),
        None => None,
    };
    unix_secs_or_zero(since_epoch)
}

/// The pid that `kill(pid, 0)` may be asked about: only `1..=i32::MAX` name a
/// single process; 0 and larger values would address a process group.
pub fn pid_probe_target(pid: u32) -> (r: Option<i32>)
    ensures
        r is Some <==> 1 <= pid && pid <= i32::MAX,
        r matches Some(p) ==> p as int == pid as int,
{
    if pid >= 1 && pid <= 2147483647 {
        Some(pid as i32)
    } else {
        None
    }
}

/// A heartbeat written at `last` is fresh at `now` when no more than
/// `timeout` seconds have passed (a heartbeat from the future is fresh).
pub open spec fn fresh_at(last: u64, now: u64, timeout: u64) -> bool {
    (if now > last {
        now - last
    } else {
        0
    }) <= timeout
}

pub open spec fn spec_heartbeat_fresh_at(last: Option<u64>, now: u64, timeout: u64) -> bool {
    match last {
        Some(t) => fresh_at(t, now, timeout),
        None => false,
    }
}

/// Whether the last heartbeat (if one was read) is fresh at `now`:
/// `now.saturating_sub(last) <= timeout_secs`.
pub fn heartbeat_fresh_at(last_heartbeat: Option<u64>, now: u64, timeout_secs: u64) -> (r: bool)
    ensures
        r == spec_heartbeat_fresh_at(last_heartbeat, now, timeout_secs),
{
    match last_heartbeat {
        Some(ts) => now.saturating_sub(ts) <= timeout_secs,
        None => false,
    }
}

/// Whether a role's heartbeat is fresh now (peer considered alive); a
/// missing or unreadable heartbeat is never fresh.
pub fn heartbeat_fresh(last_heartbeat: Option<u64>, timeout_secs: u64) -> (r: bool)
    ensures
        exists|now: u64| r == spec_heartbeat_fresh_at(last_heartbeat, now, timeout_secs),
        last_heartbeat is None ==> !r,
        last_heartbeat is Some && timeout_secs == u64::MAX ==> r,
{
    let now = now_secs();
    heartbeat_fresh_at(last_heartbeat, now, timeout_secs)
}

/// An agent is alive if its recorded pid is a running process, or else if
/// its heartbeat is fresh at `now`.
pub open spec fn spec_agent_alive_at(
    pid_running: bool,
    last_heartbeat: Option<u64>,
    now: u64,
    timeout: u64,
) -> bool {
    pid_running || spec_heartbeat_fresh_at(last_heartbeat, now, timeout)
}

pub fn agent_is_alive_at(
    pid_running: bool,
    last_heartbeat: Option<u64>,
    now: u64,
    timeout_secs: u64,
) -> (r: bool)
    ensures
        r == spec_agent_alive_at(pid_running, last_heartbeat, now, timeout_secs),
{
    pid_running || heartbeat_fresh_at(last_heartbeat, now, timeout_secs)
}

/// An agent is alive if its pid is running or its heartbeat is fresh; the
/// clock is read only when the pid is not running.
pub fn agent_is_alive(pid_running: bool, last_heartbeat: Option<u64>, timeout_secs: u64) -> (r: bool)
    ensures
        exists|now: u64| r == spec_agent_alive_at(pid_running, last_heartbeat, now, timeout_secs),
        pid_running ==> r,
        !pid_running && last_heartbeat is None ==> !r,
{
    if pid_running {
        assert(spec_agent_alive_at(pid_running, last_heartbeat, 0, timeout_secs));
        return true;
    }
    let r = heartbeat_fresh(last_heartbeat, timeout_secs);
    proof {
        let w = choose|now: u64| r == spec_heartbeat_fresh_at(last_heartbeat, now, timeout_secs);
        assert(r == spec_agent_alive_at(pid_running, last_heartbeat, w, timeout_secs));
    }
    r
}

/// A heartbeat that was written at `written` and read back is fresh at every
/// `now` no more than `timeout` seconds later.
pub proof fn lemma_written_heartbeat_fresh(written: u64, now: u64, timeout: u64)
    requires
        now <= written + timeout,
    ensures
        spec_heartbeat_fresh_at(parse_u64_spec(trim(decimal(written as nat))), now, timeout),
{
    lemma_heartbeat_file_roundtrip(written);
}

/// Freshness only fades with time: fresh at `later` implies fresh at any
/// earlier `now`.
pub proof fn lemma_fresh_monotone(last: Option<u64>, now: u64, later: u64, timeout: u64)
    requires
        now <= later,
        spec_heartbeat_fresh_at(last, later, timeout),
    ensures
        spec_heartbeat_fresh_at(last, now, timeout),
{
}

} // verus!
