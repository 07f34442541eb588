use spectrusty::bus::{
    BusDevice, BusDeviceChain, DeviceState, DeviceTag, KEMPSTON_MOUSE_PORT_MASK,
    kempston_mouse_bus_device,
};
use spectrusty::mouse::{
    KempstonMouseDevice, MOUSE_BUTTON_LEFT, MOUSE_BUTTON_RIGHT, MouseMovement, clamped_move,
};
use spectrusty::ula128::Ula128;

#[test]
fn mouse_port_decode_and_buttons() {
    let mut mouse = KempstonMouseDevice::default();
    assert_eq!(mouse.port_read(64223), 255);
    mouse.set_buttons(MOUSE_BUTTON_LEFT);
    assert_eq!(mouse.port_read(64223), 254);
    mouse.set_buttons(MOUSE_BUTTON_RIGHT);
    assert_eq!(mouse.port_read(64223), 253);
    mouse.set_buttons(MOUSE_BUTTON_LEFT | MOUSE_BUTTON_RIGHT);
    assert_eq!(mouse.port_read(64223), 252);
    assert_eq!(mouse.get_buttons(), 3);
}

#[test]
fn mouse_movement_updates_position_latches() {
    let mut mouse = KempstonMouseDevice::default();
    mouse.move_mouse(MouseMovement { horizontal: 10, vertical: 4 });
    // The horizontal latch moves by half the count; the vertical axis is
    // negated on the wire.  Both start from all ones and wrap.
    assert_eq!(mouse.port_read(64479), 4);
    assert_eq!(mouse.port_read(65503), 253);
}

#[test]
fn clamped_move_wraps() {
    assert_eq!(clamped_move(250, 20), 4);
    assert_eq!(clamped_move(10, -5), 7);
    assert_eq!(clamped_move(0, 3), 1);
    assert_eq!(clamped_move(77, 0), 77);
}

#[test]
fn first_device_claims_port() {
    let mut chain = BusDeviceChain::new();
    let first = kempston_mouse_bus_device();
    let second = BusDevice {
        port_mask: KEMPSTON_MOUSE_PORT_MASK,
        port_bits: 0,
        state: DeviceState::KempstonMouse(KempstonMouseDevice {
            data_btn: 0x55,
            data_x: 1,
            data_y: 2,
            buttons: 0,
        }),
    };
    chain.attach(first);
    chain.attach(second);
    // Both devices claim the button port; the first one answers, and
    // the second device's handler is never consulted.
    assert_eq!(chain.port_read(64223), Some(0xff));
    // A host update reaches the first mouse only.
    chain.set_mouse_buttons(MOUSE_BUTTON_LEFT);
    assert_eq!(chain.port_read(64223), Some(0xfe));
    // The second device kept its state untouched throughout: once the
    // first is detached, it answers with its own latches.
    let detached = chain.detach_first(DeviceTag::KempstonMouse);
    assert!(detached.is_some());
    assert_eq!(chain.port_read(64223), Some(0x55));
    assert_eq!(chain.port_read(64479), Some(1));
    assert_eq!(chain.port_read(65503), Some(2));
}

#[test]
fn unclaimed_port_falls_through() {
    let mut chain = BusDeviceChain::new();
    assert_eq!(chain.port_read(64223), None);
    chain.attach(kempston_mouse_bus_device());
    // Address bit five set: the mouse decode does not claim the port.
    assert_eq!(chain.port_read(0xffff), None);
    assert!(!chain.port_write(0xffff, 1));
    assert!(chain.port_write(64223, 1));
}

#[test]
fn chain_reset_returns_devices_to_power_on() {
    let mut chain = BusDeviceChain::new();
    chain.attach(kempston_mouse_bus_device());
    chain.set_mouse_buttons(MOUSE_BUTTON_LEFT | MOUSE_BUTTON_RIGHT);
    chain.move_mouse(MouseMovement { horizontal: 6, vertical: 0 });
    assert_eq!(chain.port_read(64223), Some(252));
    chain.on_reset();
    assert_eq!(chain.port_read(64223), Some(255));
    assert_eq!(chain.port_read(64479), Some(255));
}

#[test]
fn chipset_offers_unclaimed_ports_to_chain() {
    let mut chip = Ula128::default();
    assert_eq!(chip.read_io(64223), None);
    chip.attach_device(kempston_mouse_bus_device());
    assert_eq!(chip.read_io(64223), Some(255));
    chip.set_mouse_buttons(MOUSE_BUTTON_LEFT);
    assert_eq!(chip.read_io(64223), Some(254));
    let detached = chip.detach_first_device(DeviceTag::KempstonMouse);
    assert!(detached.is_some());
    assert_eq!(chip.read_io(64223), None);
}
