//! Core of a split-phase peripheral driver set for low-power wireless
//! microcontrollers: an event-dispatch bitmask bridging interrupt and
//! run-loop contexts, an ownership-transfer buffer slot, a UART
//! transmit/receive state machine, a radio command engine with its binary
//! command layouts, and the power/clock register interface they drive.

pub mod commands;
pub mod events;
pub mod prcm;
pub mod radio;
pub mod returncode;
pub mod stack;
pub mod slot;
pub mod uart;
