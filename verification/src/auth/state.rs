//! State markers for the JWT builder.
//!
//! Each marker names a step of the configuration: `Initial`, then either
//! `WithPrivateKey` (to build a signer) or `WithPublicKey` (to build a
//! verifier), and `Final`.

use vstd::prelude::*;

verus! {

/// Initial state: a public or a private key can be set.
pub struct Initial;

/// State after setting a private key.
pub struct WithPrivateKey;

/// State after setting a public key or enabling key resolution.
pub struct WithPublicKey;

/// Final state, ready to build.
pub struct Final;

} // verus!
