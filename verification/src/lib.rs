//! Core of a bridge between a managed host application and a native
//! zero-knowledge proof engine.
//!
//! The host hands over one request object, the carrier, with six fields.
//! This library holds the rules of the exchange: which fields a proving or a
//! verifying call reads and in which order, which fields it writes, how an
//! absent field or an engine failure is reported, and that a failed call
//! leaves the carrier as it was. Talking to the host runtime and running the
//! proof engine are left to the caller.

pub mod carrier;
pub mod error;
pub mod host;
pub mod laws;
pub mod prove;
pub mod verify;
