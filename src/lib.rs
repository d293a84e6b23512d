//! Driver core for the Microchip ENC28J60 stand-alone Ethernet controller.
//!
//! The crate holds the controller's register catalog, the encoding of its SPI
//! commands, and the decision logic of its initialization, receive and
//! transmit procedures, written as step machines: each step takes what the
//! device answered to the previous commands and hands back the next commands
//! to put on the bus. The bus itself is driven by the caller.
use vstd::prelude::*;

pub mod command;
pub mod device;
pub mod init;
pub mod network;
pub mod phy;
pub mod receive;
pub mod register;
pub mod transmit;

verus! {

} // verus!
