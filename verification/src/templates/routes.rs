//! The router.

use vstd::prelude::*;

verus! {

/// The text of `api/src/routes/mod.rs` in a new project.
pub const ROUTES_MOD_RS: &'static str = r#"use axum::{Router, middleware};

use crate::{
    config::state::AppState,
    http::{handlers::api, middlewares::metrics::metrics_middleware},
};

pub fn create_router(state: AppState) -> Router {
    Router::new()
        .merge(api::v1::metrics::prometheus_endpoint::router())
        .merge(api::health::router())
        .merge(api::livez::router())
        .layer(middleware::from_fn(metrics_middleware))
        .with_state(state)
}
"#;

/// The text of `api/src/routes/mod.rs` in a new project.
pub fn content() -> (r: String)
    ensures
        r@ == ROUTES_MOD_RS@,
{
    String::from_str(ROUTES_MOD_RS)
}

} // verus!
