use usb_device::bus::{PollResult, UsbBus, UsbBusAllocator};
use usb_device::endpoint::{EndpointAddress, EndpointType};
use usb_device::{UsbDirection, UsbError};

use usbd_picotool_reset::config::{Config, DefaultConfig, DisableInterface};
use usbd_picotool_reset::driver::PicoToolsReset;
use usbd_picotool_reset::protocol::{
    control_out_action, disable_mask, gpio_mask, ControlInAction, ControlOutAction,
    ControlRequest, RecipientKind, RequestKind, RESET_REQUEST_BOOTSEL, RESET_REQUEST_FLASH,
};

/// A bus stub: just enough to drive the stack's interface allocator in tests.
struct DummyBus;

impl UsbBus for DummyBus {
    fn alloc_ep(
        &mut self,
        _ep_dir: UsbDirection,
        _ep_addr: Option<EndpointAddress>,
        _ep_type: EndpointType,
        _max_packet_size: u16,
        _interval: u8,
    ) -> usb_device::Result<EndpointAddress> {
        Err(UsbError::EndpointOverflow)
    }

    fn enable(&mut self) {}

    fn reset(&self) {}

    fn set_device_address(&self, _addr: u8) {}

    fn write(&self, _ep_addr: EndpointAddress, _buf: &[u8]) -> usb_device::Result<usize> {
        Err(UsbError::InvalidEndpoint)
    }

    fn read(&self, _ep_addr: EndpointAddress, _buf: &mut [u8]) -> usb_device::Result<usize> {
        Err(UsbError::InvalidEndpoint)
    }

    fn set_stalled(&self, _ep_addr: EndpointAddress, _stalled: bool) {}

    fn is_stalled(&self, _ep_addr: EndpointAddress) -> bool {
        false
    }

    fn suspend(&self) {}

    fn resume(&self) {}

    fn poll(&self) -> PollResult {
        PollResult::None
    }
}

fn make_driver(alloc: &UsbBusAllocator<DummyBus>) -> PicoToolsReset<DefaultConfig> {
    PicoToolsReset::new(alloc.interface())
}

fn class_request(intf: u8, request: u8, value: u16) -> ControlRequest {
    ControlRequest {
        request_type: RequestKind::Class,
        recipient: RecipientKind::Interface,
        request,
        value,
        index: intf as u16,
        length: 0,
    }
}

#[test]
fn disable_interface_encodings() {
    assert_eq!(DisableInterface::BothEnabled.into(), 0);
    assert_eq!(DisableInterface::DisableMassStorage.into(), 1);
    assert_eq!(DisableInterface::DisablePicoBoot.into(), 2);
}

#[test]
fn default_config_values() {
    assert_eq!(
        DefaultConfig::interface_disable_mask(),
        DisableInterface::BothEnabled
    );
    assert_eq!(DefaultConfig::bootsel_activity_led(), None);
}

#[test]
fn mismatched_requests_are_ignored() {
    let alloc = UsbBusAllocator::new(DummyBus);
    let mut driver = make_driver(&alloc);
    let intf = driver.interface_number();

    let standard = ControlRequest {
        request_type: RequestKind::Standard,
        ..class_request(intf, RESET_REQUEST_BOOTSEL, 0)
    };
    assert_eq!(driver.control_out(&standard), ControlOutAction::Ignored);

    let vendor = ControlRequest {
        request_type: RequestKind::Vendor,
        ..class_request(intf, RESET_REQUEST_BOOTSEL, 0)
    };
    assert_eq!(driver.control_out(&vendor), ControlOutAction::Ignored);

    let to_device = ControlRequest {
        recipient: RecipientKind::Device,
        ..class_request(intf, RESET_REQUEST_BOOTSEL, 0)
    };
    assert_eq!(driver.control_out(&to_device), ControlOutAction::Ignored);

    let other_interface = ControlRequest {
        index: intf as u16 + 1,
        ..class_request(intf, RESET_REQUEST_BOOTSEL, 0)
    };
    assert_eq!(driver.control_out(&other_interface), ControlOutAction::Ignored);
}

#[test]
fn bootsel_with_zero_value_and_default_config() {
    let action = control_out_action(
        2,
        &class_request(2, RESET_REQUEST_BOOTSEL, 0x0000),
        DisableInterface::BothEnabled,
        None,
    );
    assert_eq!(
        action,
        ControlOutAction::EnterBootSel {
            gpio_mask: 0,
            disable_mask: 0,
        }
    );
}

#[test]
fn bootsel_with_explicit_gpio_line() {
    // bit 8 set, line = value >> 9 = 0
    assert_eq!(gpio_mask(0x0105, None), 1);
    assert_eq!(
        disable_mask(0x0105, DisableInterface::BothEnabled),
        0x05
    );
    assert_eq!(
        disable_mask(0x0105, DisableInterface::DisableMassStorage),
        0x05 | 1
    );
    assert_eq!(
        disable_mask(0x0105, DisableInterface::DisablePicoBoot),
        0x05 | 2
    );
    // a higher line: bit 8 set, line 9 -> one bit at position 9
    let value = 0x0100 | (9 << 9);
    assert_eq!(gpio_mask(value, Some(5)), 1 << 9);
}

#[test]
fn disable_bits_use_or_semantics() {
    // the configured bit is already inside the host's low bits: OR keeps 0x7F
    assert_eq!(
        disable_mask(0x007f, DisableInterface::DisableMassStorage),
        0x7f
    );
    let action = control_out_action(
        0,
        &class_request(0, RESET_REQUEST_BOOTSEL, 0x007f),
        DisableInterface::DisableMassStorage,
        None,
    );
    assert_eq!(
        action,
        ControlOutAction::EnterBootSel {
            gpio_mask: 0,
            disable_mask: 0x7f,
        }
    );
}

#[test]
fn configured_led_applies_when_bit_eight_clear() {
    assert_eq!(gpio_mask(0x0000, Some(5)), 32);
    assert_eq!(gpio_mask(0x00ff, Some(5)), 32);
    assert_eq!(gpio_mask(0x0e01, Some(5)), 32);
    let action = control_out_action(
        1,
        &class_request(1, RESET_REQUEST_BOOTSEL, 0x007f),
        DisableInterface::BothEnabled,
        Some(5),
    );
    assert_eq!(
        action,
        ControlOutAction::EnterBootSel {
            gpio_mask: 32,
            disable_mask: 0x7f,
        }
    );
}

#[test]
fn unknown_codes_are_accepted_without_action() {
    let alloc = UsbBusAllocator::new(DummyBus);
    let mut driver = make_driver(&alloc);
    let intf = driver.interface_number();

    for code in [0x00u8, 0x03, 0x10, 0x7f, 0xff] {
        let action = driver.control_out(&class_request(intf, code, 0x1234));
        assert_eq!(action, ControlOutAction::Accept);
    }
}

#[test]
fn flash_reset_request_is_stalled() {
    let alloc = UsbBusAllocator::new(DummyBus);
    let mut driver = make_driver(&alloc);
    let intf = driver.interface_number();
    let action = driver.control_out(&class_request(intf, RESET_REQUEST_FLASH, 0));
    assert_eq!(action, ControlOutAction::Stall);
}

#[test]
fn descriptor_contribution_is_idempotent_and_exact() {
    let alloc = UsbBusAllocator::new(DummyBus);
    let driver = make_driver(&alloc);
    let intf = driver.interface_number();

    let first = driver.descriptor_bytes();
    let second = driver.descriptor_bytes();
    assert_eq!(first, second);
    assert_eq!(first, vec![9, 4, intf, 0, 0, 0xff, 0x00, 0x01, 0]);
}

#[test]
fn registration_hands_out_distinct_slots() {
    let alloc = UsbBusAllocator::new(DummyBus);
    let first = make_driver(&alloc);
    let second = make_driver(&alloc);
    assert_ne!(first.interface_number(), second.interface_number());
    // the handles are stable: each driver keeps the number it registered
    assert_eq!(first.interface_number(), first.interface_number());
    // the descriptor carries the driver's own interface number
    assert_eq!(first.descriptor_bytes()[2], first.interface_number());
    assert_eq!(second.descriptor_bytes()[2], second.interface_number());
}

#[test]
fn control_in_is_accepted_empty_on_this_interface() {
    let alloc = UsbBusAllocator::new(DummyBus);
    let mut driver = make_driver(&alloc);
    let intf = driver.interface_number();

    // addressed to this driver: accepted (with no response data) and discarded
    let ours = class_request(intf, RESET_REQUEST_BOOTSEL, 0);
    assert_eq!(driver.control_in(&ours), ControlInAction::Accept);
    let unknown_code = class_request(intf, 0x42, 0x1234);
    assert_eq!(driver.control_in(&unknown_code), ControlInAction::Accept);

    // not addressed to this driver: left for others
    let other_interface = class_request(intf + 1, RESET_REQUEST_BOOTSEL, 0);
    assert_eq!(driver.control_in(&other_interface), ControlInAction::Ignored);
    let vendor = ControlRequest {
        request_type: RequestKind::Vendor,
        ..class_request(intf, RESET_REQUEST_BOOTSEL, 0)
    };
    assert_eq!(driver.control_in(&vendor), ControlInAction::Ignored);
}

#[test]
fn reset_and_control_in_change_nothing() {
    let alloc = UsbBusAllocator::new(DummyBus);
    let mut driver = make_driver(&alloc);
    let before = driver.interface_number();
    driver.reset();
    driver.control_in(&class_request(before, RESET_REQUEST_BOOTSEL, 0));
    assert_eq!(driver.interface_number(), before);
}
