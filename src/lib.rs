//! Firmware flashing protocol for the Anne Pro 2 keyboard's IAP bootloader:
//! the 64-byte command frame, the IAP command set, the chunked transfer of
//! an image, device selection and the decisions of a flashing run.

pub mod protocol;
pub mod frame;
pub mod commands;
pub mod transfer;
pub mod device;
pub mod flash;
pub mod hex;
