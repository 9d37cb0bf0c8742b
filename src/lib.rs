//! Verified core of a USB/IP relay for a composite smart-card token: the CCID
//! message codec, ATR parameter derivation, the CCID bridge state machine, and
//! the control-transfer routing of the virtual composite device.
#![allow(non_snake_case)]
#![allow(non_camel_case_types)]
#![allow(non_upper_case_globals)]

pub mod consts;
pub mod proto;
pub mod atr;
pub mod usb;
pub mod ccid;
pub mod control;
pub mod device;
pub mod webusb;
pub mod fido;
pub mod reserved;
