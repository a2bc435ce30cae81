# teaops_agentd

A small supervisor that keeps the teaops agent running: it takes a
single-instance lock, adopts an agent that is already alive at startup,
otherwise fetches the agent binary if it is missing (GitHub releases first,
then a download service), spawns the agent and respawns it after every exit,
and stops it on SIGTERM/SIGINT.

- `src/` is the verified library (Verus): decimal and whitespace handling
  (`text`), release versions and the choice of the highest one in a releases
  feed (`version`), pid/heartbeat/lock files and liveness (`procfile`),
  configuration (`config`), where and how the binary is acquired (`fetch`),
  and the supervisor's decisions as a phase/event machine (`supervisor`).
- `app/` is the program around it: environment, files, processes, signals,
  HTTP and the async loop that performs the actions the library decides.
- `tests/` exercises the library on concrete values.

Configuration comes from `TEAOPS_AGENT_BIN`, `TEAOPS_RUNTIME_DIR`,
`TEAOPS_HEARTBEAT_TIMEOUT_SECS`, `TEAOPS_SUPERVISE_INTERVAL_SECS`,
`TEAOPS_RESTART_BACKOFF_SECS`, `TEAOPS_AGENT_REPO` (default
`simonsmithmd/Teaops-agent`) and `TEAOPS_DOWNLOAD_URL`. The download service
has no default: when `TEAOPS_DOWNLOAD_URL` is unset its URL is the relative
`/download/agent/latest`, which cannot be fetched, so the fallback fails and
only GitHub can provide the binary.
