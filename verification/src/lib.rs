//! A verified core for a handle-based socket API over a reliable, UDP-based
//! transport: the socket registry, the per-handle lifecycle state machine, the
//! option codec and the per-thread error channel. The transport engine itself
//! is a collaborator; its objects travel through this crate as opaque type
//! parameters.
#![allow(non_camel_case_types)]
#![allow(non_snake_case)]

pub mod abi;
pub mod codec;
pub mod connected;
pub mod errors;
pub mod lifecycle;
pub mod registry;
pub mod settings;
pub mod socket;
pub mod sockopt;
