//! USB class driver that lets host tooling reboot an RP2040 device into its
//! mass-storage bootloader ("boot-select mode") over a live USB connection.
//!
//! The crate contributes one vendor-specific interface to the device's USB
//! configuration and recognises two vendor-defined control requests on it.
//! The request decoding and the argument encoding for the boot-ROM re-entry
//! primitive are verified; the USB stack and the boot ROM themselves are
//! reached through narrow trusted wrappers.

pub mod boot_rom;
pub mod config;
pub mod driver;
pub mod protocol;
pub mod usb_stack;
