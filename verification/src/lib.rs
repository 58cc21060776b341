//! The deeplinks contract, verified: a registry of typed
//! deeplinks (`type_`, `from`, `to`) whose types and endpoints must themselves be
//! named deeplinks, administered by a list of admins and relaying cyberlinks for a
//! list of executors.
//!
//! The contract state lives in [`store::DeeplinkStore`]; the message handlers in
//! [`execute`] check authorisation, validate deeplinks against the named registry,
//! allocate ids and update the state, answering with a [`response::Response`].

pub mod error;
pub mod execute;
pub mod laws;
pub mod response;
pub mod state;
pub mod store;
pub mod table;

