//! A request/response server framework over a datagram transport.
//!
//! The verified core holds the per-datagram request context with its
//! attribute store, the abort-aware hook pipeline, the decisions of the
//! accept loop and the shutdown protocol. The socket, the task runtime and
//! the process-wide panic hook are driven from outside this crate, which
//! hands the core plain values and performs the actions it returns.

pub mod addr;
pub mod attribute;
pub mod bytes;
pub mod config;
pub mod context;
pub mod dispatch;
pub mod error;
pub mod panic;
pub mod pipeline;
pub mod response;
mod seal;
pub mod shutdown;
pub mod text;

pub use addr::{IpAddress, PeerAddr};
pub use attribute::{AnySendSyncClone, AttrKind, AttrValue, AttributeStore};
pub use bytes::remove_trailing_zeros;
pub use config::{Server, ServerConfig, DEFAULT_BUFFER_SIZE, DEFAULT_HOST, DEFAULT_LISTEN_PORT};
pub use context::{ContextView, Datagram, InnerContext};
pub use dispatch::{Dispatcher, LoopAction, LoopEvent};
pub use error::{RequestError, ResponseError, ResponseResult, ServerError};
pub use panic::PanicData;
pub use pipeline::{HookPipeline, PipelineStatus};
pub use response::{Request, Response, ResponseData};
pub use shutdown::ShutdownState;
pub use text::{bind_address, decimal_text};
