//! The example environment file.

use vstd::prelude::*;

verus! {

/// The text of `api/.env.example` in a new project.
pub const ENV_EXAMPLE: &'static str = r#"# ── Réseau ───────────────────────────────────────────────────────────────────
PORT=
GRPC_PORT=
BIND_ADDRESS=

# ── CORS / front ─────────────────────────────────────────────────────────────
CORS_ALLOWED_ORIGINS=
FRONTEND_BASE_URL=

# ── Metrics (Bearer pour GET /metrics) ───────────────────────────────────────
METRICS_TOKEN=
METRICS_ALLOW_OPEN=

# ── Logging ──────────────────────────────────────────────────────────────────
APP_ENV=
RUST_LOG=
"#;

/// The text of `api/.env.example` in a new project.
pub fn content() -> (r: String)
    ensures
        r@ == ENV_EXAMPLE@,
{
    String::from_str(ENV_EXAMPLE)
}

} // verus!
