//! Relay of window events to a front end.
//!
//! The host runs the event loop and answers queries on the window; this
//! library decides, for each event and each answer, which queries to make,
//! which size to apply and which notifications to publish, and in what order.
pub mod relay;
pub mod session;
