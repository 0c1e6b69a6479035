//! Keeps named firewall rules pointed at the machine's current public address.
//!
//! The crate holds the decisions of the updater: whether a freshly resolved
//! address differs from the last one applied, whether a rule name and an
//! address may be sent to the firewall service, what is sent, and in which
//! order one cycle asks for its outside work. The outside work itself (the
//! lookup request, the call to the firewall service, the wait between cycles)
//! is done by the caller, which hands each result back as an event.

pub mod control;
pub mod matcher;
pub mod resolver;
pub mod tracker;
pub mod updater;
