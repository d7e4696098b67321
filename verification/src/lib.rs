//! Core of a user-authentication service: validated credential values, an
//! account store keyed by email, and the decision logic of the signup and
//! login flows.
//!
//! [`email::Email`] and [`password::Password`] are value objects that exist
//! only through their fallible `parse` constructors. [`user_store::UserStore`]
//! is the capability contract any storage backend implements;
//! [`hashmap_user_store::HashmapUserStore`] is the in-memory reference
//! backend. [`routes`] turns raw requests into store operations and maps the
//! store's outcomes to the outward error vocabulary. Transport concerns —
//! HTTP wiring, JSON envelopes, process bootstrap — live outside this crate.

pub mod email;
pub mod hashmap_user_store;
pub mod password;
pub mod routes;
pub mod user;
pub mod user_store;
