//! An embeddable HTTP/1.x server core.
//!
//! The crate turns a raw request string into a structured [`request::Request`],
//! decides which registered [`route::Route`] answers it, runs the request
//! through global [`checkpoint::Checkpoint`] filters and per-route checks, and
//! serializes the handler's [`response::Response`] back into wire text.
//! Every stage carries a contract that pins its behaviour down to the exact
//! output string.

pub mod checkpoint;
pub mod checkpoint_manager;
pub mod content;
pub mod cookie;
pub mod cookie_factory;
pub mod cors;
pub mod http1;
pub mod laws;
pub mod method;
pub mod protocol;
pub mod request;
pub mod request_factory;
pub mod response;
pub mod response_factory;
pub mod route;
pub mod server;
pub mod status;
pub mod stringmap;
pub mod text;
