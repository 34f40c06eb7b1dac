//! Transport layer of a UDP device-discovery stack: per-interface sockets
//! with address reuse and multicast membership, servers that fan received
//! packets out to registered observers, and managers that coordinate one
//! server per viable local interface.

pub mod addr;
pub mod bytes;
pub mod error;
pub mod hexdump;
pub mod interface;
pub mod multicast_manager;
pub mod multicast_server;
pub mod observer;
pub mod packet;
pub mod receiver;
mod sys;
pub mod udp_socket;
pub mod unicast_manager;
pub mod unicast_server;
