//! The reset class driver: owns one interface slot of the host USB stack,
//! contributes the vendor-specific interface descriptor that host tooling
//! looks for, and handles inbound control transfers.

use vstd::prelude::*;
use core::marker::PhantomData;
use crate::boot_rom::enter_bootsel_mode;
use crate::config::Config;
use crate::protocol::{
    spec_control_in_action, spec_control_out_action, control_in_action, control_out_action,
    ControlInAction, ControlOutAction, ControlRequest,
};
use crate::usb_stack::{
    interface_index, interface_index_of, write_interface_descriptor, writer_bytes,
    writer_capacity, writer_in_configuration, writer_interface_count, DescriptorError,
};

verus! {

/// Interface class byte: vendor-specific.
pub const CLASS_VENDOR_SPECIFIC: u8 = 0xFF;
/// Interface subclass byte identifying the boot-reset interface.
pub const RESET_INTERFACE_SUBCLASS: u8 = 0x00;
/// Interface protocol byte identifying the boot-reset interface.
pub const RESET_INTERFACE_PROTOCOL: u8 = 0x01;

/// The driver's whole contribution to the configuration descriptor: one
/// nine-byte interface descriptor — length, descriptor type, interface
/// number, alternate setting, endpoint count, class, subclass, protocol,
/// interface-string index.
pub open spec fn spec_interface_descriptor(intf_index: u8) -> Seq<u8> {
    seq![
        9u8,
        4u8,
        intf_index,
        0u8,
        0u8,
        CLASS_VENDOR_SPECIFIC,
        RESET_INTERFACE_SUBCLASS,
        RESET_INTERFACE_PROTOCOL,
        0u8,
    ]
}

/// One reset class driver: the interface slot it registered and, as a
/// zero-size tag, the configuration bound to it. A device has at most one;
/// the slot is taken at construction and never changes.
pub struct PicoToolsReset<C: Config> {
    intf: usb_device::bus::InterfaceNumber,
    _cnf: PhantomData<C>,
}

impl<C: Config> PicoToolsReset<C> {
    /// The interface number of the slot this driver registered.
    pub closed spec fn spec_interface_number(&self) -> u8 {
        interface_index_of(self.intf)
    }

    /// Binds the driver to the interface slot it registered with the owning
    /// USB stack. The handle must come fresh from the stack's allocator,
    /// before device enumeration completes, and is fixed for the driver's
    /// lifetime.
    pub fn new(intf: usb_device::bus::InterfaceNumber) -> (r: PicoToolsReset<C>)
        ensures
            r.spec_interface_number() == interface_index_of(intf),
    {
        PicoToolsReset { intf, _cnf: PhantomData }
    }

    /// The interface number this driver registered.
    pub fn interface_number(&self) -> (r: u8)
        ensures
            r == self.spec_interface_number(),
    {
        interface_index(&self.intf)
    }

    /// The driver's descriptor contribution as plain bytes.
    pub fn descriptor_bytes(&self) -> (r: Vec<u8>)
        ensures
            r@ == spec_interface_descriptor(self.spec_interface_number()),
    {
        let mut v: Vec<u8> = Vec::new();
        v.push(9);
        v.push(4);
        v.push(interface_index(&self.intf));
        v.push(0);
        v.push(0);
        v.push(CLASS_VENDOR_SPECIFIC);
        v.push(RESET_INTERFACE_SUBCLASS);
        v.push(RESET_INTERFACE_PROTOCOL);
        v.push(0);
        proof {
            assert(v@ =~= spec_interface_descriptor(self.spec_interface_number()));
        }
        v
    }

    /// Emits the driver's descriptor contribution through the stack's writer.
    /// It succeeds exactly when the writer is assembling a configuration
    /// descriptor with room for nine more bytes, and then appends exactly the
    /// bytes of [`Self::descriptor_bytes`]. On an error none of them is
    /// appended (though the header's interface count may already be bumped);
    /// the error propagates up and the stack aborts descriptor assembly. No
    /// retry is attempted.
    pub fn get_configuration_descriptors(
        &self,
        writer: &mut usb_device::descriptor::DescriptorWriter<'_>,
    ) -> (r: Result<(), DescriptorError>)
        requires
            writer_in_configuration(*old(writer)) ==> writer_interface_count(*old(writer)) < 255,
        ensures
            r is Ok <==> writer_in_configuration(*old(writer))
                && writer_bytes(*old(writer)).len() + 9 <= writer_capacity(*old(writer)),
            r == Err::<(), DescriptorError>(DescriptorError::InvalidState)
                <==> !writer_in_configuration(*old(writer)),
            r == Err::<(), DescriptorError>(DescriptorError::BufferOverflow)
                <==> writer_in_configuration(*old(writer))
                    && writer_bytes(*old(writer)).len() + 9 > writer_capacity(*old(writer)),
            r is Ok ==> writer_bytes(*final(writer)).len()
                == writer_bytes(*old(writer)).len() as int + 9,
            r is Ok ==> writer_bytes(*final(writer)).subrange(
                writer_bytes(*old(writer)).len() as int,
                writer_bytes(*old(writer)).len() as int + 9,
            ) == spec_interface_descriptor(self.spec_interface_number()),
            r is Err ==> writer_bytes(*final(writer)).len() == writer_bytes(*old(writer)).len(),
            writer_capacity(*final(writer)) == writer_capacity(*old(writer)),
            writer_in_configuration(*final(writer)) == writer_in_configuration(*old(writer)),
    {
        let r = write_interface_descriptor(
            writer,
            self.intf,
            CLASS_VENDOR_SPECIFIC,
            RESET_INTERFACE_SUBCLASS,
            RESET_INTERFACE_PROTOCOL,
        );
        proof {
            if r is Ok {
                assert(writer_bytes(*writer).subrange(
                    writer_bytes(*old(writer)).len() as int,
                    writer_bytes(*old(writer)).len() as int + 9,
                ) =~= spec_interface_descriptor(self.spec_interface_number()));
            }
        }
        r
    }

    /// Bus-reset hook: the driver holds no per-transfer state to clear, so
    /// this deliberately does nothing.
    pub fn reset(&mut self)
        ensures
            *final(self) == *old(self),
    {
    }

    /// Handles one inbound control OUT transfer: filters by type, recipient
    /// and interface number, dispatches on the request code, and on the
    /// boot-select code re-enters the boot ROM with the decoded arguments
    /// (a call that does not return when it succeeds). The returned action
    /// tells the caller how to answer the transfer. Callbacks are handled one
    /// at a time; the exclusive borrow rules out re-entry before a call
    /// returns.
    pub fn control_out(&mut self, req: &ControlRequest) -> (a: ControlOutAction)
        ensures
            *final(self) == *old(self),
            a == spec_control_out_action(
                old(self).spec_interface_number(),
                *req,
                C::spec_interface_disable_mask(),
                C::spec_bootsel_activity_led(),
            ),
    {
        let a = control_out_action(
            interface_index(&self.intf),
            req,
            C::interface_disable_mask(),
            C::bootsel_activity_led(),
        );
        if let ControlOutAction::EnterBootSel { gpio_mask, disable_mask } = a {
            enter_bootsel_mode(gpio_mask, disable_mask);
        }
        a
    }

    /// Handles one inbound control IN transfer: the protocol is fire-and-
    /// forget, so the driver never produces response data — a transfer
    /// addressed to it is to be accepted empty and discarded, any other left
    /// alone. The returned action tells the caller how to answer.
    pub fn control_in(&mut self, req: &ControlRequest) -> (a: ControlInAction)
        ensures
            *final(self) == *old(self),
            a == spec_control_in_action(old(self).spec_interface_number(), *req),
    {
        control_in_action(interface_index(&self.intf), req)
    }
}

/// Law: the descriptor-emission output — the plain bytes, or the range a
/// successful writer call appends — is a function of the interface number
/// alone, so emitting it twice yields byte-identical output.
pub proof fn lemma_descriptor_emission_idempotent(intf_index: u8, first: Seq<u8>, second: Seq<u8>)
    requires
        first == spec_interface_descriptor(intf_index),
        second == spec_interface_descriptor(intf_index),
    ensures
        first == second,
{
}

} // verus!
