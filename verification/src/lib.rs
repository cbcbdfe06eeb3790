//! Readers that hash what they deliver.
//!
//! A [`Reader`] wraps a byte source together with a hash. Every byte that a
//! read hands to the caller is handed to the hash as well, in the same order,
//! before the read returns; nothing else ever reaches the hash. An
//! [`AsyncReader`] does the same for a source that is polled.
//!
//! The hash algorithm is any implementation of `chksum_core::Hash`, and the
//! source any reader of `std::io` or of `tokio::io`; both are opaque here.
//! What is proved is which bytes went where. The source carries a ghost
//! record of every call made of it through the wrapper and of what each one
//! returned, the hash a ghost record of the chunks it was fed, and the
//! contracts say how the records grow with each operation and that the two
//! stay in step.

use vstd::prelude::*;

pub mod record;
pub mod foreign;
pub mod accumulator;
pub mod source;
pub mod reader;
pub mod async_reader;
pub mod laws;

pub use accumulator::Accumulator;
pub use async_reader::{async_new, async_with_hash, AsyncReader};
pub use reader::{new, with_hash, Reader};
pub use record::{Attempt, Peek, Polled};
