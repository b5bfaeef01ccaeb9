//! Building blocks for driving a radare2 engine over its line-oriented
//! request/response protocol.
//!
//! The crate holds the verified core of the pipe machinery: the framing and
//! decoding of engine replies, the JSON decoding step behind `cmdj`, the
//! HTTP body extraction, the environment-variable handshake of an inherited
//! session, the argument planning for spawned engines and worker pools, and
//! the shared-library name and C-string preparation of the in-process
//! transport.  The thin shells that perform the actual process, socket and
//! dynamic-library calls live outside the verified library and hand plain
//! values in and out.

pub mod error;
pub mod framing;
pub mod http;
pub mod inherit;
pub mod json;
pub mod native;
pub mod pool;
pub mod spawn;
pub mod structs;

pub use error::Error;
pub use framing::process_result;
pub use http::R2PipeHttp;
pub use spawn::R2PipeSpawnOptions;
