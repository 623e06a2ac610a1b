//! Networking primitives shared by the client and the server of a TCP
//! application: a value type for a network endpoint, and the decision logic
//! of a read that hides "would block" from its caller.
//!
//! The library performs no I/O. The caller owns the socket, performs each
//! read, and hands the outcome to [`ReadStep::after`], which says whether to
//! read again or what to return.

pub mod address;
pub mod ip;
pub mod numeral;
pub mod read;
pub mod retry;

pub use address::{Address, SocketAddress};
pub use ip::IpAddress;
pub use read::{ReadFault, ReadStep, ReadStreamError};
