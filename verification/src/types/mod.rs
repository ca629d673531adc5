//! Value types shared by the sockets.

pub mod socket_flags;
pub mod socket_options;

pub use socket_flags::SocketRecvFlags;
pub use socket_flags::SocketSendFlags;
pub use socket_options::SocketOptions;
pub use socket_options::Certificate;
pub use socket_options::TlsSocketOptions;
