//! The network-facing dispatcher, built on `axum`.
//!
//! The routing decision itself — which requests reach the health-check
//! handler and what every response holds — is modelled and verified in
//! [`crate::routes`]. This module only hands the same single route to the
//! axum framework, whose router value stays opaque to verification.

use std::sync::Arc;
use vstd::prelude::*;

use crate::routes::health_check;
use crate::AppState;

verus! {

/// `axum::Router`, the framework's dispatcher type, declared so that it
/// can stand in signatures. Its value is opaque to verification.
#[verifier::external_type_specification]
#[verifier::external_body]
#[verifier::reject_recursive_types(S)]
pub struct ExRouter<S>(axum::Router<S>);

/// Builds the service's dispatcher: one route, `GET /`, answered by
/// [`health_check`], wrapped in a tracing middleware layer and bound to
/// the shared state.
///
/// Relies on `axum::Router`: `Router::new` starts with no routes and a
/// default fallback answering `404 Not Found` to every request; `route`
/// with `axum::routing::get` registers the handler for `GET /`; `layer`
/// wraps the routes in `tower_http::trace::TraceLayer`, which records a
/// span per request and leaves responses unchanged; `with_state` supplies
/// the shared state. The router is opaque here, so nothing is stated of
/// the result; the routing decision is verified in
/// [`crate::routes::dispatch`].
#[verifier::external_body]
pub fn create_router(state: Arc<AppState>) -> axum::Router {
    axum::Router::new()
        .route("/", axum::routing::get(|| std::future::ready(health_check())))
        .layer(tower_http::trace::TraceLayer::new_for_http())
        .with_state(state)
}

} // verus!
