//! A NAT-PMP (RFC 6886) client core: byte-exact request encoding, response
//! parsing with result-code classification, and the retry/backoff decisions of
//! the transport loop. Socket I/O lives outside this crate; the decisions it
//! needs are made here.
pub mod errors;
pub mod protocol;
pub mod wire;
pub mod requests;
pub mod responses;
pub mod route;
pub mod transport;

use vstd::prelude::*;

verus! {

/// The only NAT-PMP version, carried in the first byte of every message.
pub const VERSION: u8 = 0;

/// The UDP port on which a gateway listens for NAT-PMP requests.
pub const NATPMP_PORT: u16 = 5351;

} // verus!
