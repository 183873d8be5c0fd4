//! A rendezvous-and-handoff protocol that delivers one text payload from a
//! short-lived sender to a long-running receiver over a shared display,
//! using selection ownership, window properties and injected notifications.
pub mod handoff;
pub mod invocation;
pub mod protocol;
pub mod receiver;
pub mod sender;
