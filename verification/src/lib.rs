//! A protocol gateway library: it speaks a relational-database wire protocol
//! toward clients and delegates query execution to an embedded storage
//! engine. The verified core is the wire codec (length-prefixed frame
//! encoding and decoding), the query router, the type mapper that turns
//! backend values into wire fields, the backend adapter, and the
//! per-connection session state machine. Socket handling and task spawning
//! live outside the library and drive it through plain values.

pub mod backend;
pub mod bytes;
pub mod mapper;
pub mod model;
pub mod router;
pub mod session;
pub mod wire;
