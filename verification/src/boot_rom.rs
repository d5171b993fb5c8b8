//! Trusted wrapper for the device's boot-ROM re-entry primitive.

use vstd::prelude::*;

verus! {

/// Relies on `rp2040_hal::rom_data::reset_to_usb_boot`: it resets the RP2040
/// into its boot-select bootloader, exposing the device as mass storage, with
/// `gpio_mask` naming an activity-indicator GPIO (zero for none) and
/// `disable_mask` naming the sub-interfaces to suppress. On success the call
/// never returns, so nothing is promised of its result.
#[verifier::external_body]
pub(crate) fn enter_bootsel_mode(gpio_mask: u32, disable_mask: u32) {
    rp2040_hal::rom_data::reset_to_usb_boot(gpio_mask, disable_mask)
}

} // verus!
