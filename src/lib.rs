//! Finding a running game client's local API and forwarding allow-listed
//! requests to it: lockfile discovery, the request checks and the reading of
//! answers, each with a proved contract.

pub mod error;
pub mod gateway;
pub mod lcu;
pub mod number;
pub mod text;
