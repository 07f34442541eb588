//! A Kempston-style mouse: three data latches (buttons, horizontal and
//! vertical position) read through three port decodes.

use vstd::prelude::*;

verus! {

/// Button state bit: the left button is held.
pub const MOUSE_BUTTON_LEFT: u8 = 0b01;

/// Button state bit: the right button is held.
pub const MOUSE_BUTTON_RIGHT: u8 = 0b10;

/// A relative mouse movement, in counts.
#[derive(Clone, Copy, PartialEq, Eq, Structural, Debug)]
pub struct MouseMovement {
    pub horizontal: i16,
    pub vertical: i16,
}

/// The mouse device: the raw values its three ports answer with, plus the
/// last button state handed in by the host.
///
/// On the wire a button reads as `0` while held, so the power-on value of
/// every latch is all ones.
#[derive(Clone, Copy, PartialEq, Eq, Structural, Debug)]
pub struct KempstonMouseDevice {
    pub data_btn: u8,
    pub data_x: u8,
    pub data_y: u8,
    pub buttons: u8,
}

/// Bit 8 low selects the button latch.
pub const MOUSE_PORT_BTN_MASK: u16 = 0b0000_0001_0000_0000;

/// With bit 8 high, bits 8 and 10 tell the two position latches apart.
pub const MOUSE_PORT_POS_MASK: u16 = 0b0000_0101_0000_0000;

/// Bits 8 and 10 selecting the horizontal latch.
pub const MOUSE_PORT_X_BITS: u16 = 0b0000_0001_0000_0000;

/// The power-on state of the mouse: no button held, every latch all ones.
pub open spec fn mouse_power_on() -> KempstonMouseDevice {
    KempstonMouseDevice { data_btn: 0xff, data_x: 0xff, data_y: 0xff, buttons: 0 }
}

/// A position step moves the latch by half the raw count, wrapping around.
pub open spec fn mouse_coord_step(prev: u8, coord: i16) -> u8 {
    vstd::wrapping::u8_specs::wrapping_add(prev, (coord >> 1) as u8)
}

/// The value the device answers with for a given port.
pub open spec fn mouse_port_value(device: KempstonMouseDevice, port: u16) -> u8 {
    if port & MOUSE_PORT_BTN_MASK == 0 {
        device.data_btn
    } else if port & MOUSE_PORT_POS_MASK == MOUSE_PORT_X_BITS {
        device.data_x
    } else {
        device.data_y
    }
}

/// The button latch after the host reports `buttons`: held buttons pull
/// their wire low; the unused lines keep their previous state.
pub open spec fn mouse_button_lines(prev: u8, buttons: u8) -> u8 {
    (prev & 0b1111_1100) | (if buttons & MOUSE_BUTTON_LEFT == 0 {
        MOUSE_BUTTON_LEFT
    } else {
        0
    }) | (if buttons & MOUSE_BUTTON_RIGHT == 0 {
        MOUSE_BUTTON_RIGHT
    } else {
        0
    })
}

impl KempstonMouseDevice {
    pub fn new() -> (device: KempstonMouseDevice)
        ensures
            device == mouse_power_on(),
    {
        KempstonMouseDevice { data_btn: 0xff, data_x: 0xff, data_y: 0xff, buttons: 0 }
    }

    /// Answers a port read.  Every port decodes to one of the three
    /// latches: bit 8 low reads the buttons; otherwise bit 10 picks the
    /// vertical latch over the horizontal one.
    pub fn port_read(&self, port: u16) -> (value: u8)
        ensures
            value == mouse_port_value(*self, port),
    {
        if port & MOUSE_PORT_BTN_MASK == 0 {
            self.data_btn
        } else if port & 0b0000_0100_0000_0000 == 0 {
            proof {
                assert(port & 0b0000_0101_0000_0000u16 == 0b0000_0001_0000_0000u16)
                    by (bit_vector)
                    requires
                        port & 0b0000_0001_0000_0000u16 != 0,
                        port & 0b0000_0100_0000_0000u16 == 0,
                ;
            }
            self.data_x
        } else {
            proof {
                assert(port & 0b0000_0101_0000_0000u16 != 0b0000_0001_0000_0000u16)
                    by (bit_vector)
                    requires
                        port & 0b0000_0100_0000_0000u16 != 0,
                ;
            }
            self.data_y
        }
    }

    /// Latches a new button state reported by the host.
    pub fn set_buttons(&mut self, buttons: u8)
        requires
            buttons <= 3,
        ensures
            *final(self) == (KempstonMouseDevice {
                data_btn: mouse_button_lines(old(self).data_btn, buttons),
                buttons,
                ..*old(self)
            }),
    {
        self.buttons = buttons;
        self.data_btn = (self.data_btn & 0b1111_1100) | (if buttons & MOUSE_BUTTON_LEFT == 0 {
            MOUSE_BUTTON_LEFT
        } else {
            0
        }) | (if buttons & MOUSE_BUTTON_RIGHT == 0 {
            MOUSE_BUTTON_RIGHT
        } else {
            0
        });
    }

    /// The last button state handed to [`Self::set_buttons`].
    pub fn get_buttons(&self) -> (buttons: u8)
        ensures
            buttons == self.buttons,
    {
        self.buttons
    }

    /// Applies a relative movement to the two position latches.  The
    /// vertical axis grows downward on the wire, so its count is negated.
    pub fn move_mouse(&mut self, movement: MouseMovement)
        requires
            movement.vertical > i16::MIN,
        ensures
            *final(self) == (KempstonMouseDevice {
                data_x: mouse_coord_step(old(self).data_x, movement.horizontal),
                data_y: mouse_coord_step(old(self).data_y, (0 - movement.vertical) as i16),
                ..*old(self)
            }),
    {
        self.data_x = clamped_move(self.data_x, movement.horizontal);
        self.data_y = clamped_move(self.data_y, -movement.vertical);
    }
}

impl Default for KempstonMouseDevice {
    /// The power-on state: no button held, every latch all ones.
    fn default() -> (device: KempstonMouseDevice)
        ensures
            device == mouse_power_on(),
    {
        KempstonMouseDevice::new()
    }
}

/// Moves a position latch by half the raw count, wrapping on overflow.
pub fn clamped_move(prev: u8, coord: i16) -> (moved: u8)
    ensures
        moved == mouse_coord_step(prev, coord),
{
    prev.wrapping_add((coord >> 1) as u8)
}

} // verus!
