//! An actor framework: services own their state, receive messages through
//! a mailbox, and are reached through cheaply clonable links.
pub mod channel;
pub mod link;
pub mod msg;
pub mod envelope;
pub mod ctx;
pub mod stream;
pub mod sink;
