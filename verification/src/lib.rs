//! Staleness-gated shared caches for a content backend: a JSON Web Key Set
//! cache backing bearer-token validation, and a template registry that is
//! hot-reloaded from a backing store.
//!
//! Both caches follow one pattern: an in-memory structure is kept consistent
//! with a slower external source of truth, refreshed lazily when request
//! traffic finds it stale, and never exposed to readers mid-rebuild. The
//! decision logic — staleness gating, first-writer-wins key merging, token
//! validation, all-or-nothing registry reloads and the nonce-compare reload
//! gate — is verified; the network, database and lock plumbing around it
//! stays outside and hands the core plain values.

pub mod auth;
pub mod errors;
pub mod jwt;
pub mod keys;
pub mod models;
pub mod reload;
pub mod templates;
pub mod timer;

pub use auth::authenticate;
pub use auth::Auth;
pub use auth::AuthOptions;
pub use auth::AuthStep;
pub use errors::CoreError;
pub use errors::ErrorClass;
pub use keys::KeyMaterial;
pub use keys::KeySetCache;
pub use reload::ReloadCoordinator;
pub use templates::TemplateRegistry;
pub use timer::RefreshTimer;
