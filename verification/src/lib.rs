//! An in-process, type-safe publish/subscribe message bus.
//!
//! The bus keeps a registry of broadcast channels, one per message type
//! identity, created lazily on first subscription. Each channel is a bounded
//! ring buffer with drop-oldest backpressure: publishing never blocks, and a
//! subscriber that falls behind is told how many values it missed. The
//! delivery semantics (ordering, lag accounting, teardown) are stated as
//! contracts over a mathematical view of the bus and proved.
//!
//! The bus is a plain value: an embedding program shares it behind a lock of
//! its choosing (receiving needs only shared access) and decides how to wait
//! while a receive reports that nothing new has been published yet.

pub mod bus;
pub mod laws;
pub mod message;
