//! Listener configuration: the socket options a listener is built with.
//! Addresses are held as plain values; the layer that actually binds a
//! socket converts them to its own address type.

use vstd::prelude::*;

verus! {

/// A socket address as plain values.
#[derive(Clone, Copy, Debug, PartialEq, Eq, Structural)]
pub enum SocketAddress {
    /// An IPv4 address (big-endian octets packed high to low) and port.
    V4 {
        /// The four octets, highest first.
        addr: u32,
        /// The port.
        port: u16,
    },
    /// An IPv6 address as two 64-bit halves and port.
    V6 {
        /// The upper eight octets, highest first.
        addr_hi: u64,
        /// The lower eight octets, highest first.
        addr_lo: u64,
        /// The port.
        port: u16,
    },
}

/// Custom listener config.
#[derive(Clone, Copy, Debug, PartialEq, Eq, Structural)]
pub struct ListenerConfig {
    /// Whether to enable reuse_port.
    pub reuse_port: bool,
    /// Whether to enable reuse_addr.
    pub reuse_addr: bool,
    /// Whether to enable ip_transparent.
    pub ip_transparent: bool,
    /// Bind address for connecting sockets.
    pub bind_address: Option<SocketAddress>,
    /// Backlog size.
    pub backlog: i32,
    /// Send buffer size or None to use default.
    pub send_buf_size: Option<usize>,
    /// Recv buffer size or None to use default.
    pub recv_buf_size: Option<usize>,
}

impl Default for ListenerConfig {
    /// Port and address reuse on, transparency off, no bind address, a
    /// backlog of 1024, default kernel buffer sizes.
    fn default() -> (c: ListenerConfig)
        ensures
            c == (ListenerConfig {
                reuse_port: true,
                reuse_addr: true,
                ip_transparent: false,
                bind_address: None,
                backlog: 1024,
                send_buf_size: None,
                recv_buf_size: None,
            }),
    {
        ListenerConfig {
            reuse_port: true,
            reuse_addr: true,
            ip_transparent: false,
            bind_address: None,
            backlog: 1024,
            send_buf_size: None,
            recv_buf_size: None,
        }
    }
}

impl ListenerConfig {
    /// Enable SO_REUSEPORT.
    #[must_use]
    pub fn reuse_port(self, reuse_port: bool) -> (c: ListenerConfig)
        ensures
            c == (ListenerConfig { reuse_port, ..self }),
    {
        ListenerConfig { reuse_port, ..self }
    }

    /// Enable SO_REUSEADDR.
    #[must_use]
    pub fn reuse_addr(self, reuse_addr: bool) -> (c: ListenerConfig)
        ensures
            c == (ListenerConfig { reuse_addr, ..self }),
    {
        ListenerConfig { reuse_addr, ..self }
    }

    /// Enable IP_TRANSPARENT.
    #[must_use]
    pub fn ip_transparent(self, ip_transparent: bool) -> (c: ListenerConfig)
        ensures
            c == (ListenerConfig { ip_transparent, ..self }),
    {
        ListenerConfig { ip_transparent, ..self }
    }

    /// Specify socket bind address.
    #[must_use]
    pub fn bind_address(self, bind_address: SocketAddress) -> (c: ListenerConfig)
        ensures
            c == (ListenerConfig { bind_address: Some(bind_address), ..self }),
    {
        ListenerConfig { bind_address: Some(bind_address), ..self }
    }

    /// Specify backlog.
    #[must_use]
    pub fn backlog(self, backlog: i32) -> (c: ListenerConfig)
        ensures
            c == (ListenerConfig { backlog, ..self }),
    {
        ListenerConfig { backlog, ..self }
    }

    /// Specify SO_SNDBUF.
    #[must_use]
    pub fn send_buf_size(self, send_buf_size: usize) -> (c: ListenerConfig)
        ensures
            c == (ListenerConfig { send_buf_size: Some(send_buf_size), ..self }),
    {
        ListenerConfig { send_buf_size: Some(send_buf_size), ..self }
    }

    /// Specify SO_RCVBUF.
    #[must_use]
    pub fn recv_buf_size(self, recv_buf_size: usize) -> (c: ListenerConfig)
        ensures
            c == (ListenerConfig { recv_buf_size: Some(recv_buf_size), ..self }),
    {
        ListenerConfig { recv_buf_size: Some(recv_buf_size), ..self }
    }
}

} // verus!
