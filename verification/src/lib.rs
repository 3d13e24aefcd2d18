//! A subscription to a queue, seen from both sides: the network side pushes
//! deliveries into it, the application polls them out of it.
//!
//! The record that both sides share is [`inner::ConsumerInner`]; its
//! operations are specified over the model [`inner::ConsumerState`], and the
//! laws that relate them are proved in [`laws`]. The two handles of
//! [`consumer`] reach the record through a lock.

pub mod consumer;
pub mod inner;
pub mod laws;
pub mod shared;
pub mod task;
