//! Client core for the ipstruct.com "what is my IP" web API.
//!
//! The crate holds everything the client decides: the request settings, the
//! endpoint each query goes to, how the transports are set up from the
//! settings, and how a failed exchange is classified. Sending a request
//! and reading its body are left to the caller, which is handed the
//! transport handle and the URL to use; so is building the blocking
//! transport, for which the caller is handed the builder.

pub mod time;
pub mod setting;
pub mod transport;
pub mod ipinfo;
pub mod endpoint;
pub mod error;
pub mod client;
