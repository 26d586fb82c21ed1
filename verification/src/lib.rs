//! Command dispatch and flash-region policy of a serial firmware-update agent.
//!
//! The agent listens on a serial link, decodes commands, validates them and
//! turns them into flash operations and responses. This crate holds the
//! decisions; the caller owns the serial port and the flash driver, performs
//! each operation that a step asks for, and reports how it went.

pub mod attributes;
pub mod codec;
pub mod dispatch;
pub mod flash;
pub mod protocol;
pub mod session;
