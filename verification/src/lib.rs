//! A minimal HTTP service skeleton: one health-check route that answers
//! `GET /` with the constant greeting `Hello, World!`.
//!
//! The route table and the response it owes to every request are modelled
//! and verified in [`routes`]; the axum dispatcher that serves the same
//! single route over the network is built in [`router`]. The network
//! listener and the process bootstrap live outside the library.

use vstd::prelude::*;

pub mod router;
pub mod routes;

pub use router::create_router;
pub use routes::{dispatch, health_check, is_root_path, Method, Response};

verus! {

/// Shared application state, passed to every request handler.
///
/// It is intentionally empty: it exists only as an extension point for
/// future fields, and is immutable after construction.
pub struct AppState {}

} // verus!
