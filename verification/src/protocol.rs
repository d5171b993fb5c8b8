//! The control-transfer protocol: the request model, the bit-level decoding
//! of the boot-select request's value field, and the dispatch rule that maps
//! an inbound control OUT transfer to the action the driver takes.

use vstd::prelude::*;
use crate::config::{disable_encoding, DisableInterface};

verus! {

/// Request code: enter boot-select mode.
pub const RESET_REQUEST_BOOTSEL: u8 = 0x01;
/// Request code: reset into flashing mode without boot-select. Not
/// implemented; the driver stalls it rather than inventing a reset path.
pub const RESET_REQUEST_FLASH: u8 = 0x02;

/// The type of a control request, as carried in the request header.
#[derive(Clone, Copy, Debug, PartialEq, Eq, Structural)]
pub enum RequestKind {
    /// A USB standard request.
    Standard,
    /// A class-specific request.
    Class,
    /// A vendor-specific request.
    Vendor,
    /// A reserved type value.
    Reserved,
}

/// The recipient of a control request, as carried in the request header.
#[derive(Clone, Copy, Debug, PartialEq, Eq, Structural)]
pub enum RecipientKind {
    /// The device as a whole.
    Device,
    /// One interface; `index` then names the interface number.
    Interface,
    /// One endpoint.
    Endpoint,
    /// None of the above.
    Other,
    /// A reserved recipient value.
    Reserved,
}

/// The fields of one inbound control request that the driver reads.
#[derive(Clone, Copy, Debug, PartialEq, Eq, Structural)]
pub struct ControlRequest {
    /// Type of the request.
    pub request_type: RequestKind,
    /// Recipient of the request.
    pub recipient: RecipientKind,
    /// Numeric request code.
    pub request: u8,
    /// 16-bit value field.
    pub value: u16,
    /// 16-bit index field; for interface recipients, the interface number.
    pub index: u16,
    /// Length of the data stage.
    pub length: u16,
}

/// What the driver does with one inbound control OUT transfer.
#[derive(Clone, Copy, Debug, PartialEq, Eq, Structural)]
pub enum ControlOutAction {
    /// The request was not addressed to this driver: no hardware action, and
    /// the transfer is left unacknowledged for others to handle.
    Ignored,
    /// Enter boot-select mode through the boot ROM with these two arguments.
    EnterBootSel { gpio_mask: u32, disable_mask: u32 },
    /// The reset-into-flashing request, which the driver does not implement:
    /// the transfer is stalled.
    Stall,
    /// An unknown but harmless request code: acknowledged, nothing done.
    Accept,
}

/// What the driver does with one inbound control IN transfer.
#[derive(Clone, Copy, Debug, PartialEq, Eq, Structural)]
pub enum ControlInAction {
    /// The request was not addressed to this driver: the transfer is left
    /// unacknowledged for others to handle.
    Ignored,
    /// The request was addressed to this driver: the transfer is accepted
    /// with no response data and discarded — the protocol is fire-and-forget.
    Accept,
}

/// The GPIO activity-indicator mask a configured default LED contributes:
/// one bit set for the configured line, or zero when no LED is configured.
pub open spec fn spec_default_led_mask(default_led: Option<usize>) -> u32 {
    match default_led {
        Some(line) => if line < 32 { 1u32 << (line as u32) } else { 0 },
        None => 0,
    }
}

/// The GPIO activity-indicator mask for a boot-select request. When bit 8 of
/// the value field is set, the host names the line in bits 9 and up; a 32-bit
/// mask can only name lines 0 to 31, so the shift amount is the line number
/// reduced to its low five bits. Otherwise the configured default applies.
pub open spec fn spec_gpio_mask(value: u16, default_led: Option<usize>) -> u32 {
    if value & 0x100 != 0 {
        1u32 << (((value >> 9) & 0x1f) as u32)
    } else {
        spec_default_led_mask(default_led)
    }
}

/// The disable-mask argument for a boot-select request: the host's ad-hoc
/// disable bits (the value field's low seven bits) combined with the
/// configured variant's encoding.
pub open spec fn spec_disable_mask(value: u16, disable: DisableInterface) -> u32 {
    ((value & 0x7f) as u32) | disable_encoding(disable)
}

/// Whether a control request is addressed to this driver: class-specific,
/// aimed at an interface, and carrying this driver's interface number.
pub open spec fn spec_request_matches(intf_index: u8, req: ControlRequest) -> bool {
    &&& req.request_type == RequestKind::Class
    &&& req.recipient == RecipientKind::Interface
    &&& req.index == intf_index as u16
}

/// The action taken for one inbound control OUT transfer, given the driver's
/// interface number and its configuration values.
pub open spec fn spec_control_out_action(
    intf_index: u8,
    req: ControlRequest,
    disable: DisableInterface,
    default_led: Option<usize>,
) -> ControlOutAction {
    if !spec_request_matches(intf_index, req) {
        ControlOutAction::Ignored
    } else if req.request == RESET_REQUEST_BOOTSEL {
        ControlOutAction::EnterBootSel {
            gpio_mask: spec_gpio_mask(req.value, default_led),
            disable_mask: spec_disable_mask(req.value, disable),
        }
    } else if req.request == RESET_REQUEST_FLASH {
        ControlOutAction::Stall
    } else {
        ControlOutAction::Accept
    }
}

/// Computes the GPIO activity-indicator mask for a boot-select request.
pub fn gpio_mask(value: u16, default_led: Option<usize>) -> (r: u32)
    requires
        default_led matches Some(line) ==> line < 32,
    ensures
        r == spec_gpio_mask(value, default_led),
{
    if value & 0x100 != 0 {
        let line: u16 = (value >> 9) & 0x1f;
        assert(line < 32) by (bit_vector)
            requires
                line == (value >> 9) & 0x1f,
        ;
        1u32 << (line as u32)
    } else {
        match default_led {
            Some(line) => 1u32 << (line as u32),
            None => 0,
        }
    }
}

/// Computes the disable-mask argument for a boot-select request.
pub fn disable_mask(value: u16, disable: DisableInterface) -> (r: u32)
    ensures
        r == spec_disable_mask(value, disable),
{
    ((value & 0x7f) as u32) | disable.into()
}

/// Decides what to do with one inbound control OUT transfer addressed to any
/// interface, given this driver's interface number and configuration values.
pub fn control_out_action(
    intf_index: u8,
    req: &ControlRequest,
    disable: DisableInterface,
    default_led: Option<usize>,
) -> (a: ControlOutAction)
    requires
        default_led matches Some(line) ==> line < 32,
    ensures
        a == spec_control_out_action(intf_index, *req, disable, default_led),
{
    if !(req.request_type == RequestKind::Class && req.recipient == RecipientKind::Interface
        && req.index == intf_index as u16) {
        return ControlOutAction::Ignored;
    }
    if req.request == RESET_REQUEST_BOOTSEL {
        ControlOutAction::EnterBootSel {
            gpio_mask: gpio_mask(req.value, default_led),
            disable_mask: disable_mask(req.value, disable),
        }
    } else if req.request == RESET_REQUEST_FLASH {
        ControlOutAction::Stall
    } else {
        ControlOutAction::Accept
    }
}

/// What the driver does with one inbound control IN transfer: it never
/// produces response data, so a transfer addressed to it is accepted empty
/// and discarded, and any other is left alone.
pub open spec fn spec_control_in_action(intf_index: u8, req: ControlRequest) -> ControlInAction {
    if spec_request_matches(intf_index, req) {
        ControlInAction::Accept
    } else {
        ControlInAction::Ignored
    }
}

/// Decides what to do with one inbound control IN transfer addressed to any
/// interface, given this driver's interface number.
pub fn control_in_action(intf_index: u8, req: &ControlRequest) -> (a: ControlInAction)
    ensures
        a == spec_control_in_action(intf_index, *req),
{
    if req.request_type == RequestKind::Class && req.recipient == RecipientKind::Interface
        && req.index == intf_index as u16 {
        ControlInAction::Accept
    } else {
        ControlInAction::Ignored
    }
}

/// Law: a request whose type, recipient or index does not match this driver
/// is ignored — no hardware action, and the transfer stays unacknowledged.
pub proof fn lemma_mismatch_is_ignored(
    intf_index: u8,
    req: ControlRequest,
    disable: DisableInterface,
    default_led: Option<usize>,
)
    requires
        !spec_request_matches(intf_index, req),
    ensures
        spec_control_out_action(intf_index, req, disable, default_led)
            == ControlOutAction::Ignored,
{
}

/// Law: a request addressed to this driver whose code is neither the
/// boot-select code nor the flash-reset code is accepted with nothing done:
/// the action carries no boot-ROM arguments and is not a stall.
pub proof fn lemma_unknown_code_is_accepted(
    intf_index: u8,
    req: ControlRequest,
    disable: DisableInterface,
    default_led: Option<usize>,
)
    requires
        spec_request_matches(intf_index, req),
        req.request != RESET_REQUEST_BOOTSEL,
        req.request != RESET_REQUEST_FLASH,
    ensures
        spec_control_out_action(intf_index, req, disable, default_led)
            == ControlOutAction::Accept,
{
}

/// Law: when bit 8 of the value field is clear, the GPIO mask comes from the
/// configured default alone, whatever the rest of the value field holds.
pub proof fn lemma_default_led_governs(value: u16, default_led: Option<usize>)
    requires
        value & 0x100 == 0,
    ensures
        spec_gpio_mask(value, default_led) == spec_default_led_mask(default_led),
{
}

} // verus!
