//! A uniform wrap / unwrap contract for decorator types over byte streams.
//!
//! A decorator (a buffering layer, a structured encoder) takes exclusive
//! ownership of an underlying stream when it is wrapped around it, and hands
//! the stream back when it is unwrapped. The [`ReadAdapter`] and
//! [`WriteAdapter`] traits state that contract once, so that generic code can
//! wrap and recover streams without knowing the concrete decorator.

pub mod adapter;
pub mod buffered;
pub mod error;
pub mod json;
pub mod stream;

pub use adapter::ReadAdapter;
pub use adapter::WriteAdapter;
pub use buffered::BufReader;
pub use buffered::BufWriter;
pub use error::StreamError;
pub use error::UnwrapError;
pub use json::JsonSerializer;
pub use stream::ByteReader;
pub use stream::ByteWriter;
pub use stream::MemSource;
pub use stream::QuotaSink;
