//! Core of a thread-per-core asynchronous I/O runtime.
//!
//! Tasks run cooperatively on a single thread; I/O hands buffers to the
//! kernel by value and returns them by value with the result. The modules
//! here cover the owned-buffer contract, the task system with its local run
//! queue, the driver slot table, the cross-thread wake path, and the
//! executor's scheduling decisions.

pub mod async_read_rent;
pub mod buf;
pub mod channel;
pub mod driver;
pub mod listener_config;
pub mod readiness;
pub mod runtime;
pub mod slots;
pub mod task;

pub use crate::async_read_rent::{AsyncReadRent, AsyncReadRentAt, BufResult, ByteSource, IoError};
pub use crate::buf::OwnedBuf;
pub use crate::listener_config::{ListenerConfig, SocketAddress};
pub use crate::runtime::{spawn, Context, FusionRuntime, JoinHandle, Registry, Runtime};
