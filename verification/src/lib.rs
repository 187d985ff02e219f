//! Verified core of the AGP data plane: the connection pool table, the
//! workload line parser, the JWT builder state machine, the key-selection
//! logic of the JWKS resolver and the session layer's routing decisions.

pub mod auth;
pub mod bitvec;
pub mod pool;
pub mod workload;
pub mod text;
pub mod session;
pub mod datapath_error;
pub mod mcp;
