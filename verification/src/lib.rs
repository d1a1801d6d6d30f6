//! A userland network-stack core: it takes raw IP frames on one side and
//! hands byte streams and datagrams out the other, with the parsing, the
//! demultiplexing, the per-connection buffering and the connection
//! lifecycle stated in contracts and proved.

pub mod addr;
pub mod checksum;
pub mod control;
pub mod error;
pub mod fifo;
pub mod filter;
pub mod packet;
pub mod runner;
pub mod stack;
pub mod tcp;
pub mod udp;

pub use addr::{IpAddrRepr, SocketAddrRepr};
pub use error::{channel_closed_err, StackError};
pub use filter::{IpFilter, IpFilters};
pub use packet::AnyIpPktFrame;
pub use runner::{BoxFuture, Runner};
pub use stack::{Stack, StackBuilder};
pub use tcp::TcpStream;
