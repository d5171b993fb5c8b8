//! Trusted declarations for the host USB stack: the interface-slot
//! registration call, the handle it returns, and the descriptor writer the
//! stack hands the driver during configuration-descriptor assembly.

use vstd::prelude::*;

verus! {

#[verifier::external_type_specification]
#[verifier::external_body]
pub struct ExInterfaceNumber(usb_device::bus::InterfaceNumber);

#[verifier::external_type_specification]
#[verifier::external_body]
pub struct ExDescriptorWriter<'a>(usb_device::descriptor::DescriptorWriter<'a>);

/// The numeric interface number inside an interface handle. An interface
/// handle is an opaque wrapper around that number, so the number is a
/// function of the handle alone.
pub uninterp spec fn interface_index_of(n: usb_device::bus::InterfaceNumber) -> u8;

/// Relies on `u8::from(InterfaceNumber)` of `usb_device`: it unwraps the
/// handle to the interface number it carries.
#[verifier::external_body]
pub(crate) fn interface_index(n: &usb_device::bus::InterfaceNumber) -> (r: u8)
    ensures
        r == interface_index_of(*n),
{
    u8::from(*n)
}

/// The bytes a descriptor writer has written so far.
pub uninterp spec fn writer_bytes(w: usb_device::descriptor::DescriptorWriter) -> Seq<u8>;

/// The capacity of the buffer behind a descriptor writer.
pub uninterp spec fn writer_capacity(w: usb_device::descriptor::DescriptorWriter) -> nat;

/// Whether a descriptor writer is assembling a configuration descriptor,
/// so that an interface descriptor may be appended.
pub uninterp spec fn writer_in_configuration(w: usb_device::descriptor::DescriptorWriter) -> bool;

/// The interface count recorded in the configuration header a descriptor
/// writer is assembling.
pub uninterp spec fn writer_interface_count(w: usb_device::descriptor::DescriptorWriter) -> u8;

/// Why the driver's descriptor contribution was not written.
#[derive(Clone, Copy, Debug, PartialEq, Eq, Structural)]
pub enum DescriptorError {
    /// The descriptor buffer lacks space for the contribution.
    BufferOverflow,
    /// The writer is not assembling a configuration descriptor.
    InvalidState,
}

/// Relies on `DescriptorWriter::interface` of `usb_device`. On `Ok` it
/// appends exactly one nine-byte interface descriptor carrying the given
/// interface number, class, subclass and protocol bytes (with the default
/// alternate setting, no endpoints yet, and no interface string) to the
/// configuration descriptor under assembly, and counts the interface in the
/// configuration header. It succeeds exactly when the writer is assembling a
/// configuration descriptor and nine bytes fit. On an overflow nothing is
/// appended, but the header's interface count was already bumped; outside a
/// configuration descriptor the writer is left untouched. The count is a
/// single byte, so a full count must be ruled out before the call.
#[verifier::external_body]
pub(crate) fn write_interface_descriptor(
    writer: &mut usb_device::descriptor::DescriptorWriter<'_>,
    number: usb_device::bus::InterfaceNumber,
    class: u8,
    subclass: u8,
    protocol: u8,
) -> (r: Result<(), DescriptorError>)
    requires
        writer_in_configuration(*old(writer)) ==> writer_interface_count(*old(writer)) < 255,
    ensures
        r is Ok <==> writer_in_configuration(*old(writer))
            && writer_bytes(*old(writer)).len() + 9 <= writer_capacity(*old(writer)),
        r == Err::<(), DescriptorError>(DescriptorError::InvalidState)
            <==> !writer_in_configuration(*old(writer)),
        r == Err::<(), DescriptorError>(DescriptorError::BufferOverflow)
            <==> writer_in_configuration(*old(writer))
                && writer_bytes(*old(writer)).len() + 9 > writer_capacity(*old(writer)),
        r is Ok ==> writer_bytes(*final(writer)).len() == writer_bytes(*old(writer)).len() as int + 9,
        r is Ok ==> writer_bytes(*final(writer)).subrange(
            writer_bytes(*old(writer)).len() as int,
            writer_bytes(*old(writer)).len() as int + 9,
        ) == seq![
            9u8,
            4u8,
            interface_index_of(number),
            0u8,
            0u8,
            class,
            subclass,
            protocol,
            0u8,
        ],
        r is Err ==> writer_bytes(*final(writer)).len() == writer_bytes(*old(writer)).len(),
        !writer_in_configuration(*old(writer)) ==> *final(writer) == *old(writer),
        writer_in_configuration(*old(writer)) ==> writer_interface_count(*final(writer))
            == writer_interface_count(*old(writer)) + 1,
        writer_capacity(*final(writer)) == writer_capacity(*old(writer)),
        writer_in_configuration(*final(writer)) == writer_in_configuration(*old(writer)),
{
    match writer.interface(number, class, subclass, protocol) {
        Ok(()) => Ok(()),
        Err(usb_device::UsbError::BufferOverflow) => Err(DescriptorError::BufferOverflow),
        Err(_) => Err(DescriptorError::InvalidState),
    }
}

} // verus!
