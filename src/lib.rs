//! Host-side driver logic for the Pololu Motoron family of motor controllers: the checksum of
//! the wire protocol, the byte layout of each command and response, and the session layer
//! that decides which frames go out and how replies are read back.

pub mod checksum;
pub mod commands;
pub mod controllers;
pub mod session;

pub use crate::commands::{ClearLatchedStatusFlags, Error as CommandsError, FirmwareVersion};
pub use crate::controllers::ControllerType;
pub use crate::session::{Error, ProtocolOptions, Session, RESET_SETTLE_MILLIS};
