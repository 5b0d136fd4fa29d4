//! Service layer for a hosted identity/authorization platform.
//!
//! Each operation validates its inputs, decides whether a remote request is
//! warranted, and translates every transport-level outcome into one value of
//! a small per-operation error enumeration. The remote exchange itself is
//! left to the caller: a facade first reports, as a [`transport::Step`],
//! whether to send a request, and then settles the transport outcome into
//! the operation's typed result.

pub mod api_key;
pub mod config;
pub mod errors;
pub mod helpers;
pub mod models;
pub mod org;
pub mod transport;
pub mod user;
pub mod user_map;
