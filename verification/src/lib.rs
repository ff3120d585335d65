//! A verified feature-flag engine.
//!
//! The crate models feature flags scoped to products, together with the
//! decision logic that answers whether a flag is enabled for a given user and
//! the rollout operations (`hoist`, `lower`) that widen or narrow a flag's
//! reach. Persistence and transport are left to the surrounding application;
//! the engine works on plain values and every operation carries a proved
//! contract.

pub mod auth;
pub mod flag;
pub mod oid;
pub mod product;
pub mod response;
pub mod text;
pub mod user;
