//! The skeleton of a new project: every file of its `api/` crate.

pub mod bootstrap;
pub mod cargo;
pub mod config;
pub mod domains;
pub mod env;
pub mod http;
pub mod infrastructure;
pub mod lib_rs;
pub mod main_rs;
pub mod routes;

use vstd::prelude::*;

verus! {

/// The files of a new project's `api/` crate, in the order they are written:
/// each path, relative to `api/`, with its text.
pub open spec fn skeleton() -> Seq<(Seq<char>, Seq<char>)> {
    seq![
        ("Cargo.toml"@, cargo::CARGO_TOML@),
        (".env.example"@, env::ENV_EXAMPLE@),
        ("src/main.rs"@, main_rs::MAIN_RS@),
        ("src/lib.rs"@, lib_rs::LIB_RS@),
        ("src/bootstrap/mod.rs"@, bootstrap::BOOTSTRAP_MOD_RS@),
        ("src/config/mod.rs"@, config::MOD_RS@),
        ("src/config/conf.rs"@, config::CONF@),
        ("src/config/cors.rs"@, config::CORS@),
        ("src/config/grpc_port.rs"@, config::GRPC_PORT@),
        ("src/config/http_address.rs"@, config::HTTP_ADDRESS@),
        ("src/config/http_port.rs"@, config::HTTP_PORT@),
        ("src/config/state.rs"@, config::STATE@),
        ("src/domains/mod.rs"@, domains::MOD_RS@),
        ("src/http/mod.rs"@, http::MOD_RS@),
        ("src/http/extractors/mod.rs"@, http::EXTRACTORS_MOD@),
        ("src/http/handlers/mod.rs"@, http::HANDLERS_MOD@),
        ("src/http/handlers/api/mod.rs"@, http::HANDLERS_API_MOD@),
        ("src/http/handlers/api/health.rs"@, http::HEALTH@),
        ("src/http/handlers/api/livez.rs"@, http::LIVEZ@),
        ("src/http/handlers/api/readyz.rs"@, http::READYZ@),
        ("src/http/handlers/api/v1/mod.rs"@, http::V1_MOD@),
        ("src/http/handlers/api/v1/metrics/mod.rs"@, http::V1_METRICS_MOD@),
        ("src/http/handlers/api/v1/metrics/prometheus_endpoint.rs"@, http::V1_METRICS_PROMETHEUS_ENDPOINT@),
        ("src/http/middlewares/mod.rs"@, http::MIDDLEWARES_MOD@),
        ("src/http/middlewares/metrics.rs"@, http::MIDDLEWARES_METRICS@),
        ("src/http/responses/mod.rs"@, http::RESPONSES_MOD@),
        ("src/infrastructure/mod.rs"@, infrastructure::MOD_RS@),
        ("src/infrastructure/logging/mod.rs"@, infrastructure::LOGGING_MOD@),
        ("src/routes/mod.rs"@, routes::ROUTES_MOD_RS@),
    ]
}

/// The paths and texts held by a list of `(path, text)` pairs.
pub open spec fn file_views(fs: Seq<(&'static str, String)>) -> Seq<(Seq<char>, Seq<char>)> {
    Seq::new(fs.len(), |i: int| (fs[i].0@, fs[i].1@))
}

/// Ordered list `(path relative to api/, text)` of every file of the skeleton
/// that `cargo xtask init` creates.
pub fn files() -> (r: Vec<(&'static str, String)>)
    ensures
        file_views(r@) == skeleton(),
{
    let mut r: Vec<(&'static str, String)> = Vec::new();
    r.push(("Cargo.toml", cargo::content()));
    r.push((".env.example", env::content()));
    r.push(("src/main.rs", main_rs::content()));
    r.push(("src/lib.rs", lib_rs::content()));
    r.push(("src/bootstrap/mod.rs", bootstrap::content()));
    r.push(("src/config/mod.rs", config::mod_rs()));
    r.push(("src/config/conf.rs", config::conf()));
    r.push(("src/config/cors.rs", config::cors()));
    r.push(("src/config/grpc_port.rs", config::grpc_port()));
    r.push(("src/config/http_address.rs", config::http_address()));
    r.push(("src/config/http_port.rs", config::http_port()));
    r.push(("src/config/state.rs", config::state()));
    r.push(("src/domains/mod.rs", domains::mod_rs()));
    r.push(("src/http/mod.rs", http::mod_rs()));
    r.push(("src/http/extractors/mod.rs", http::extractors_mod()));
    r.push(("src/http/handlers/mod.rs", http::handlers_mod()));
    r.push(("src/http/handlers/api/mod.rs", http::handlers_api_mod()));
    r.push(("src/http/handlers/api/health.rs", http::health()));
    r.push(("src/http/handlers/api/livez.rs", http::livez()));
    r.push(("src/http/handlers/api/readyz.rs", http::readyz()));
    r.push(("src/http/handlers/api/v1/mod.rs", http::v1_mod()));
    r.push(("src/http/handlers/api/v1/metrics/mod.rs", http::v1_metrics_mod()));
    r.push(("src/http/handlers/api/v1/metrics/prometheus_endpoint.rs", http::v1_metrics_prometheus_endpoint()));
    r.push(("src/http/middlewares/mod.rs", http::middlewares_mod()));
    r.push(("src/http/middlewares/metrics.rs", http::middlewares_metrics()));
    r.push(("src/http/responses/mod.rs", http::responses_mod()));
    r.push(("src/infrastructure/mod.rs", infrastructure::mod_rs()));
    r.push(("src/infrastructure/logging/mod.rs", infrastructure::logging_mod()));
    r.push(("src/routes/mod.rs", routes::content()));
    assert(file_views(r@) =~= skeleton());
    r
}

/// The skeleton pairs `path` with `text`.
pub open spec fn skeleton_has(path: Seq<char>, text: Seq<char>) -> bool {
    exists|i: int| 0 <= i < skeleton().len() && #[trigger] skeleton()[i] == (path, text)
}

/// Each file of the skeleton gets its own template: the table below pairs
/// every path with the constant that holds its text.
pub proof fn lemma_skeleton_pairs_paths_with_templates()
    ensures
        skeleton().len() == 29,
        skeleton_has("Cargo.toml"@, cargo::CARGO_TOML@),
        skeleton_has(".env.example"@, env::ENV_EXAMPLE@),
        skeleton_has("src/main.rs"@, main_rs::MAIN_RS@),
        skeleton_has("src/lib.rs"@, lib_rs::LIB_RS@),
        skeleton_has("src/bootstrap/mod.rs"@, bootstrap::BOOTSTRAP_MOD_RS@),
        skeleton_has("src/config/mod.rs"@, config::MOD_RS@),
        skeleton_has("src/config/conf.rs"@, config::CONF@),
        skeleton_has("src/config/cors.rs"@, config::CORS@),
        skeleton_has("src/config/grpc_port.rs"@, config::GRPC_PORT@),
        skeleton_has("src/config/http_address.rs"@, config::HTTP_ADDRESS@),
        skeleton_has("src/config/http_port.rs"@, config::HTTP_PORT@),
        skeleton_has("src/config/state.rs"@, config::STATE@),
        skeleton_has("src/domains/mod.rs"@, domains::MOD_RS@),
        skeleton_has("src/http/mod.rs"@, http::MOD_RS@),
        skeleton_has("src/http/extractors/mod.rs"@, http::EXTRACTORS_MOD@),
        skeleton_has("src/http/handlers/mod.rs"@, http::HANDLERS_MOD@),
        skeleton_has("src/http/handlers/api/mod.rs"@, http::HANDLERS_API_MOD@),
        skeleton_has("src/http/handlers/api/health.rs"@, http::HEALTH@),
        skeleton_has("src/http/handlers/api/livez.rs"@, http::LIVEZ@),
        skeleton_has("src/http/handlers/api/readyz.rs"@, http::READYZ@),
        skeleton_has("src/http/handlers/api/v1/mod.rs"@, http::V1_MOD@),
        skeleton_has("src/http/handlers/api/v1/metrics/mod.rs"@, http::V1_METRICS_MOD@),
        skeleton_has("src/http/handlers/api/v1/metrics/prometheus_endpoint.rs"@, http::V1_METRICS_PROMETHEUS_ENDPOINT@),
        skeleton_has("src/http/middlewares/mod.rs"@, http::MIDDLEWARES_MOD@),
        skeleton_has("src/http/middlewares/metrics.rs"@, http::MIDDLEWARES_METRICS@),
        skeleton_has("src/http/responses/mod.rs"@, http::RESPONSES_MOD@),
        skeleton_has("src/infrastructure/mod.rs"@, infrastructure::MOD_RS@),
        skeleton_has("src/infrastructure/logging/mod.rs"@, infrastructure::LOGGING_MOD@),
        skeleton_has("src/routes/mod.rs"@, routes::ROUTES_MOD_RS@),
{
    let sk = skeleton();
    assert(sk[0] == ("Cargo.toml"@, cargo::CARGO_TOML@));
    assert(sk[1] == (".env.example"@, env::ENV_EXAMPLE@));
    assert(sk[2] == ("src/main.rs"@, main_rs::MAIN_RS@));
    assert(sk[3] == ("src/lib.rs"@, lib_rs::LIB_RS@));
    assert(sk[4] == ("src/bootstrap/mod.rs"@, bootstrap::BOOTSTRAP_MOD_RS@));
    assert(sk[5] == ("src/config/mod.rs"@, config::MOD_RS@));
    assert(sk[6] == ("src/config/conf.rs"@, config::CONF@));
    assert(sk[7] == ("src/config/cors.rs"@, config::CORS@));
    assert(sk[8] == ("src/config/grpc_port.rs"@, config::GRPC_PORT@));
    assert(sk[9] == ("src/config/http_address.rs"@, config::HTTP_ADDRESS@));
    assert(sk[10] == ("src/config/http_port.rs"@, config::HTTP_PORT@));
    assert(sk[11] == ("src/config/state.rs"@, config::STATE@));
    assert(sk[12] == ("src/domains/mod.rs"@, domains::MOD_RS@));
    assert(sk[13] == ("src/http/mod.rs"@, http::MOD_RS@));
    assert(sk[14] == ("src/http/extractors/mod.rs"@, http::EXTRACTORS_MOD@));
    assert(sk[15] == ("src/http/handlers/mod.rs"@, http::HANDLERS_MOD@));
    assert(sk[16] == ("src/http/handlers/api/mod.rs"@, http::HANDLERS_API_MOD@));
    assert(sk[17] == ("src/http/handlers/api/health.rs"@, http::HEALTH@));
    assert(sk[18] == ("src/http/handlers/api/livez.rs"@, http::LIVEZ@));
    assert(sk[19] == ("src/http/handlers/api/readyz.rs"@, http::READYZ@));
    assert(sk[20] == ("src/http/handlers/api/v1/mod.rs"@, http::V1_MOD@));
    assert(sk[21] == ("src/http/handlers/api/v1/metrics/mod.rs"@, http::V1_METRICS_MOD@));
    assert(sk[22] == ("src/http/handlers/api/v1/metrics/prometheus_endpoint.rs"@, http::V1_METRICS_PROMETHEUS_ENDPOINT@));
    assert(sk[23] == ("src/http/middlewares/mod.rs"@, http::MIDDLEWARES_MOD@));
    assert(sk[24] == ("src/http/middlewares/metrics.rs"@, http::MIDDLEWARES_METRICS@));
    assert(sk[25] == ("src/http/responses/mod.rs"@, http::RESPONSES_MOD@));
    assert(sk[26] == ("src/infrastructure/mod.rs"@, infrastructure::MOD_RS@));
    assert(sk[27] == ("src/infrastructure/logging/mod.rs"@, infrastructure::LOGGING_MOD@));
    assert(sk[28] == ("src/routes/mod.rs"@, routes::ROUTES_MOD_RS@));
}

} // verus!
