//! One way to work with TCP and UDP streams.

pub mod addr;
pub mod datagram;
pub mod delivery;
pub mod dns;
pub mod error;
pub mod host_port;
pub mod idle;
pub mod listener;
pub mod net;
pub mod peers;
pub mod read;
pub mod stream;
pub mod timeout;
pub mod udp;
