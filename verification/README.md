# robdex_agent_runtime

The decision logic of the agent runtime's HTTP server, verified with Verus.

- `src/` holds the verified library: error kinds and their HTTP answers
  (`errors`, `failures`), request field checks (`fields`), project intents and
  display names (`projects`), the per-session submit coordination and the
  submit worker's state machine (`coordination`, `worker`), the state stream's
  decisions (`stream`), the snapshot's derived lists (`snapshot`), and the
  checks of the role, registry, submission, artifact and health handlers.
- `app/` is ordinary Rust around it: axum handlers that need only the
  database, the reading of `anyhow`/`sqlx`/`reqwest` failures into the
  library's failure reports, JSON bodies, and the loops that drive a session's
  submit worker against a session store.
- `tests/` exercise the library on concrete values.
