//! A peekable abstraction for double-ended sequence producers.
//!
//! The adapter wraps a producer that hands out items one at a time, from the
//! front and (when supported) from the back, and adds the ability to inspect
//! the next item from either end without consuming it.  The crux is the pair
//! of lookahead slots and the cross-slot fallback rule that keeps "peek from
//! both ends, then consume from either" free of lost or duplicated items.

pub mod laws;
pub mod peekable;
pub mod producer;
pub mod slot;

pub use peekable::DoubleEndedPeekable;
pub use peekable::DoubleEndedPeekableExt;
pub use producer::DoubleEndedProducer;
pub use producer::Producer;
pub use producer::SparseProducer;
pub use producer::VecProducer;
pub use slot::MaybePeeked;
