//! Coordination layer of a button-to-notification device: a debounced input
//! source, a status-indicator state machine, a connection-supervisor policy,
//! and a bounded outbound mailbox with exactly-once outcome reporting.

pub mod button;
pub mod led;
pub mod led_op;
pub mod mailbox;
pub mod telegram;
pub mod wifi;
