//! JWT authentication: the builder that configures signers and verifiers,
//! and the key-selection logic used when verification keys are resolved
//! from an issuer's JSON Web Key Set.

pub mod algorithm;
pub mod builder;
pub mod cache;
pub mod errors;
pub mod jwt_keys;
pub mod resolver;
pub mod state;
