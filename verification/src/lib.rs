//! Authentication and session lifecycle for the Journly backend: stateless
//! access-token issuance and verification, a refresh-token store with rotation
//! and revocation lineage, password credential verification, and the
//! request-time authorization gate.

pub mod config;
pub mod credentials;
pub mod errors;
pub mod flows;
pub mod gate;
pub(crate) mod ids;
pub mod store;
pub mod token;
pub mod users;
pub mod validation;
