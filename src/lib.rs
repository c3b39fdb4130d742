//! Custody and authorization engine of a token bridge: the wire codec, the
//! persisted bridge state with its spender ring, the authorization policies,
//! and the instruction processor that turns an instruction into the effects
//! the host must carry out.

pub mod auth;
pub mod codec;
pub mod custody;
pub mod error;
pub mod identity;
pub mod instruction;
pub mod invocation;
pub mod laws;
pub mod processor;
pub mod state;
