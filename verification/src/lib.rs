//! Dispatch layer of a LaTeX-to-PNG rendering service: the framed wire
//! protocol spoken with rendering backends, the connection pool with its
//! retry and timeout policy, and the admission check that separates
//! priority from public traffic.

pub mod admission;
pub mod backend;
pub mod connect;
pub mod dispatch;
pub mod exchange;
pub mod pool;
pub mod proto;
pub mod reply;
