//! The peripheral bus: an ordered, runtime-composable chain of devices.
//! The first device whose port decode claims an access handles it
//! exclusively; reset and frame-boundary notifications reach every device.

use vstd::prelude::*;
use crate::mouse::{KempstonMouseDevice, MouseMovement, mouse_port_value, mouse_power_on};

verus! {

/// The device-type tag used for runtime lookup of optional peripherals.
#[derive(Clone, Copy, PartialEq, Eq, Structural, Debug)]
pub enum DeviceTag {
    KempstonMouse,
}

/// The internal state a device owns exclusively.
#[derive(Clone, Copy, PartialEq, Eq, Structural, Debug)]
pub enum DeviceState {
    KempstonMouse(KempstonMouseDevice),
}

/// One attached device: its fixed port decode and its state.
#[derive(Clone, Copy, PartialEq, Eq, Structural, Debug)]
pub struct BusDevice {
    pub port_mask: u16,
    pub port_bits: u16,
    pub state: DeviceState,
}

/// The Kempston mouse decode: address bit 5 low.
pub const KEMPSTON_MOUSE_PORT_MASK: u16 = 0b0000_0000_0010_0000;

/// A freshly attached Kempston mouse in its power-on state.
pub fn kempston_mouse_bus_device() -> (device: BusDevice)
    ensures
        device.port_mask == KEMPSTON_MOUSE_PORT_MASK,
        device.port_bits == 0,
        device.state == DeviceState::KempstonMouse(mouse_power_on()),
{
    BusDevice {
        port_mask: KEMPSTON_MOUSE_PORT_MASK,
        port_bits: 0,
        state: DeviceState::KempstonMouse(KempstonMouseDevice::new()),
    }
}

pub open spec fn device_tag(device: BusDevice) -> DeviceTag {
    match device.state {
        DeviceState::KempstonMouse(_) => DeviceTag::KempstonMouse,
    }
}

/// Whether the device's fixed port decode claims the access.
pub open spec fn device_claims(device: BusDevice, port: u16) -> bool {
    port & device.port_mask == device.port_bits
}

/// The value a device answers a claimed read with.
pub open spec fn device_read_value(device: BusDevice, port: u16) -> u8 {
    match device.state {
        DeviceState::KempstonMouse(mouse) => mouse_port_value(mouse, port),
    }
}

/// A device's state after it handles a claimed write.  The mouse's latches
/// are host-driven, so it ignores bus writes.
pub open spec fn device_after_write(device: BusDevice, port: u16, value: u8) -> BusDevice {
    match device.state {
        DeviceState::KempstonMouse(_) => device,
    }
}

/// A device's state after a reset notification: power-on state behind an
/// unchanged decode.
pub open spec fn device_after_reset(device: BusDevice) -> BusDevice {
    match device.state {
        DeviceState::KempstonMouse(_) => BusDevice {
            state: DeviceState::KempstonMouse(mouse_power_on()),
            ..device
        },
    }
}

/// The position of the first device in the chain that claims the port,
/// if any.
pub open spec fn first_claim(s: Seq<BusDevice>, port: u16) -> Option<int>
    decreases s.len(),
{
    if s.len() == 0 {
        None
    } else if device_claims(s[0], port) {
        Some(0int)
    } else {
        match first_claim(s.skip(1), port) {
            Some(i) => Some(i + 1),
            None => None,
        }
    }
}

/// A device that claims a port, and before which no device claims it, is
/// the one `first_claim` picks.
pub proof fn lemma_first_claim_found(s: Seq<BusDevice>, port: u16, i: int)
    requires
        0 <= i < s.len(),
        device_claims(s[i], port),
        forall|j: int| 0 <= j < i ==> !device_claims(#[trigger] s[j], port),
    ensures
        first_claim(s, port) == Some(i),
    decreases i,
{
    if i == 0 {
    } else {
        assert(!device_claims(s[0], port));
        let t = s.skip(1);
        assert(t[i - 1] == s[i]);
        assert forall|j: int| 0 <= j < i - 1 implies !device_claims(#[trigger] t[j], port) by {
            assert(t[j] == s[j + 1]);
        }
        lemma_first_claim_found(t, port, i - 1);
    }
}

/// When no device claims the port, no device handles it.
pub proof fn lemma_first_claim_none(s: Seq<BusDevice>, port: u16)
    requires
        forall|j: int| 0 <= j < s.len() ==> !device_claims(#[trigger] s[j], port),
    ensures
        first_claim(s, port) is None,
    decreases s.len(),
{
    if s.len() > 0 {
        let t = s.skip(1);
        assert forall|j: int| 0 <= j < t.len() implies !device_claims(#[trigger] t[j], port) by {
            assert(t[j] == s[j + 1]);
        }
        lemma_first_claim_none(t, port);
    }
}

/// An access whose port is claimed by two devices in the chain is handled
/// by the earlier one alone: whatever device handles it stands at or
/// before the first of the two claimants, so the later claimant is never
/// the handler.
pub proof fn lemma_first_claim_ignores_later(s: Seq<BusDevice>, port: u16, i: int, j: int)
    requires
        0 <= i < j < s.len(),
        device_claims(s[i], port),
        device_claims(s[j], port),
    ensures
        first_claim(s, port) matches Some(k) && k <= i < j,
    decreases i,
{
    if !device_claims(s[0], port) {
        let t = s.skip(1);
        assert(t[i - 1] == s[i]);
        assert(t[j - 1] == s[j]);
        lemma_first_claim_ignores_later(t, port, i - 1, j - 1);
    }
}

/// The position of the first device in the chain with the given type
/// tag, if any.
pub open spec fn first_with_tag(s: Seq<BusDevice>, tag: DeviceTag) -> Option<int>
    decreases s.len(),
{
    if s.len() == 0 {
        None
    } else if device_tag(s[0]) == tag {
        Some(0int)
    } else {
        match first_with_tag(s.skip(1), tag) {
            Some(i) => Some(i + 1),
            None => None,
        }
    }
}

/// A device with the tag, and before which no device carries it, is the
/// one `first_with_tag` picks.
pub proof fn lemma_first_tag_found(s: Seq<BusDevice>, tag: DeviceTag, i: int)
    requires
        0 <= i < s.len(),
        device_tag(s[i]) == tag,
        forall|j: int| 0 <= j < i ==> device_tag(#[trigger] s[j]) != tag,
    ensures
        first_with_tag(s, tag) == Some(i),
    decreases i,
{
    if i > 0 {
        let t = s.skip(1);
        assert(t[i - 1] == s[i]);
        assert forall|j: int| 0 <= j < i - 1 implies device_tag(#[trigger] t[j]) != tag by {
            assert(t[j] == s[j + 1]);
        }
        lemma_first_tag_found(t, tag, i - 1);
    }
}

/// When no device carries the tag, the lookup finds nothing.
pub proof fn lemma_first_tag_none(s: Seq<BusDevice>, tag: DeviceTag)
    requires
        forall|j: int| 0 <= j < s.len() ==> device_tag(#[trigger] s[j]) != tag,
    ensures
        first_with_tag(s, tag) is None,
    decreases s.len(),
{
    if s.len() > 0 {
        let t = s.skip(1);
        assert forall|j: int| 0 <= j < t.len() implies device_tag(#[trigger] t[j]) != tag by {
            assert(t[j] == s[j + 1]);
        }
        lemma_first_tag_none(t, tag);
    }
}

/// The first attached mouse after the host latches a new button state.
pub open spec fn device_after_set_buttons(device: BusDevice, buttons: u8) -> BusDevice {
    match device.state {
        DeviceState::KempstonMouse(mouse) => BusDevice {
            state: DeviceState::KempstonMouse(
                KempstonMouseDevice {
                    data_btn: crate::mouse::mouse_button_lines(mouse.data_btn, buttons),
                    buttons,
                    ..mouse
                },
            ),
            ..device
        },
    }
}

/// The first attached mouse after a relative movement.
pub open spec fn device_after_mouse_move(device: BusDevice, movement: MouseMovement) -> BusDevice {
    match device.state {
        DeviceState::KempstonMouse(mouse) => BusDevice {
            state: DeviceState::KempstonMouse(
                KempstonMouseDevice {
                    data_x: crate::mouse::mouse_coord_step(mouse.data_x, movement.horizontal),
                    data_y: crate::mouse::mouse_coord_step(
                        mouse.data_y,
                        (0 - movement.vertical) as i16,
                    ),
                    ..mouse
                },
            ),
            ..device
        },
    }
}

/// The ordered chain of attached devices.  Devices are attached and
/// detached at runtime and looked up by device-type tag.
#[derive(Clone, Debug)]
pub struct BusDeviceChain {
    devices: Vec<BusDevice>,
}

impl View for BusDeviceChain {
    type V = Seq<BusDevice>;

    closed spec fn view(&self) -> Seq<BusDevice> {
        self.devices@
    }
}

impl BusDeviceChain {
    /// A chain with no devices attached.
    pub fn new() -> (chain: BusDeviceChain)
        ensures
            chain@ == Seq::<BusDevice>::empty(),
    {
        let chain = BusDeviceChain { devices: Vec::new() };
        proof {
            assert(chain@ =~= Seq::<BusDevice>::empty());
        }
        chain
    }

    pub fn device_count(&self) -> (n: usize)
        ensures
            n == self@.len(),
    {
        self.devices.len()
    }

    pub fn device_at(&self, k: usize) -> (device: &BusDevice)
        requires
            k < self@.len(),
        ensures
            *device == self@[k as int],
    {
        &self.devices[k]
    }

    /// Attaches a device at the end of the chain.
    pub fn attach(&mut self, device: BusDevice)
        ensures
            final(self)@ == old(self)@.push(device),
    {
        self.devices.push(device);
    }

    /// Finds the first device with the given type tag.
    pub fn find_device(&self, tag: DeviceTag) -> (found: Option<usize>)
        ensures
            match first_with_tag(self@, tag) {
                Some(i) => found matches Some(k) && k == i,
                None => found is None,
            },
    {
        let mut k: usize = 0;
        while k < self.devices.len()
            invariant
                k <= self@.len(),
                forall|j: int| 0 <= j < k ==> device_tag(#[trigger] self@[j]) != tag,
            decreases self@.len() - k,
        {
            let found = match self.devices[k].state {
                DeviceState::KempstonMouse(_) => tag == DeviceTag::KempstonMouse,
            };
            if found {
                proof {
                    lemma_first_tag_found(self@, tag, k as int);
                }
                return Some(k);
            }
            k = k + 1;
        }
        proof {
            lemma_first_tag_none(self@, tag);
        }
        None
    }

    /// Detaches the first device with the given type tag, handing it back.
    pub fn detach_first(&mut self, tag: DeviceTag) -> (detached: Option<BusDevice>)
        ensures
            match first_with_tag(old(self)@, tag) {
                Some(k) => {
                    &&& detached == Some(old(self)@[k])
                    &&& final(self)@ == old(self)@.remove(k)
                },
                None => {
                    &&& detached is None
                    &&& final(self)@ == old(self)@
                },
            },
    {
        match self.find_device(tag) {
            Some(k) => {
                let device = self.devices.remove(k);
                Some(device)
            },
            None => None,
        }
    }

    /// Answers a port read: the first device claiming the port answers;
    /// with no claimant the access falls through to the caller.
    pub fn port_read(&self, port: u16) -> (value: Option<u8>)
        ensures
            match first_claim(self@, port) {
                Some(i) => value == Some(device_read_value(self@[i], port)),
                None => value is None,
            },
    {
        let mut k: usize = 0;
        while k < self.devices.len()
            invariant
                k <= self@.len(),
                forall|j: int| 0 <= j < k ==> !device_claims(#[trigger] self@[j], port),
            decreases self@.len() - k,
        {
            let device = &self.devices[k];
            if port & device.port_mask == device.port_bits {
                proof {
                    lemma_first_claim_found(self@, port, k as int);
                }
                let value = match &device.state {
                    DeviceState::KempstonMouse(mouse) => mouse.port_read(port),
                };
                return Some(value);
            }
            k = k + 1;
        }
        proof {
            lemma_first_claim_none(self@, port);
        }
        None
    }

    /// Delivers a port write to the first device claiming the port; every
    /// other device is left untouched.  Returns whether any device claimed
    /// the access.
    pub fn port_write(&mut self, port: u16, value: u8) -> (handled: bool)
        ensures
            match first_claim(old(self)@, port) {
                Some(i) => {
                    &&& handled
                    &&& final(self)@ == old(self)@.update(
                        i,
                        device_after_write(old(self)@[i], port, value),
                    )
                },
                None => {
                    &&& !handled
                    &&& final(self)@ == old(self)@
                },
            },
    {
        let mut k: usize = 0;
        while k < self.devices.len()
            invariant
                k <= self@.len(),
                self@ == old(self)@,
                forall|j: int| 0 <= j < k ==> !device_claims(#[trigger] self@[j], port),
            decreases self@.len() - k,
        {
            let device = &self.devices[k];
            if port & device.port_mask == device.port_bits {
                proof {
                    lemma_first_claim_found(self@, port, k as int);
                }
                match &device.state {
                    // The mouse's latches are host-driven: a claimed bus
                    // write leaves them as they are.
                    DeviceState::KempstonMouse(_) => {},
                }
                proof {
                    assert(self@ =~= old(self)@.update(
                        k as int,
                        device_after_write(old(self)@[k as int], port, value),
                    ));
                }
                return true;
            }
            k = k + 1;
        }
        proof {
            lemma_first_claim_none(self@, port);
        }
        false
    }

    /// Delivers a reset notification to every device, claimed ports or
    /// not: each returns to its power-on state.
    pub fn on_reset(&mut self)
        ensures
            final(self)@.len() == old(self)@.len(),
            forall|i: int|
                0 <= i < old(self)@.len() ==> final(self)@[i] == device_after_reset(
                    #[trigger] old(self)@[i],
                ),
    {
        let mut k: usize = 0;
        while k < self.devices.len()
            invariant
                k <= self@.len(),
                self@.len() == old(self)@.len(),
                forall|i: int|
                    k <= i < old(self)@.len() ==> #[trigger] self@[i] == old(self)@[i],
                forall|i: int|
                    0 <= i < k ==> #[trigger] self@[i] == device_after_reset(old(self)@[i]),
            decreases self@.len() - k,
        {
            let device = self.devices[k];
            let reset_device = match device.state {
                DeviceState::KempstonMouse(_) => BusDevice {
                    state: DeviceState::KempstonMouse(KempstonMouseDevice::new()),
                    ..device
                },
            };
            self.devices.set(k, reset_device);
            k = k + 1;
        }
    }

    /// Delivers a frame-boundary notification to every device.  None of
    /// the supported device kinds holds frame-scoped state, so the chain
    /// is unchanged.
    pub fn on_frame_boundary(&mut self)
        ensures
            final(self)@ == old(self)@,
    {
    }

    /// Asks every device whether it asserts a non-maskable interrupt.
    /// None of the supported device kinds ever does.
    pub fn on_nmi(&mut self) -> (asserted: bool)
        ensures
            final(self)@ == old(self)@,
            !asserted,
    {
        false
    }

    /// Latches a new button state into the first attached mouse, if any.
    pub fn set_mouse_buttons(&mut self, buttons: u8) -> (found: bool)
        requires
            buttons <= 3,
        ensures
            match first_with_tag(old(self)@, DeviceTag::KempstonMouse) {
                Some(k) => {
                    &&& found
                    &&& final(self)@ == old(self)@.update(
                        k,
                        device_after_set_buttons(old(self)@[k], buttons),
                    )
                },
                None => {
                    &&& !found
                    &&& final(self)@ == old(self)@
                },
            },
    {
        match self.find_device(DeviceTag::KempstonMouse) {
            Some(k) => {
                let device = self.devices[k];
                match device.state {
                    DeviceState::KempstonMouse(mut mouse) => {
                        mouse.set_buttons(buttons);
                        self.devices.set(
                            k,
                            BusDevice { state: DeviceState::KempstonMouse(mouse), ..device },
                        );
                    },
                }
                true
            },
            None => false,
        }
    }

    /// Applies a relative movement to the first attached mouse, if any.
    pub fn move_mouse(&mut self, movement: MouseMovement) -> (found: bool)
        requires
            movement.vertical > i16::MIN,
        ensures
            match first_with_tag(old(self)@, DeviceTag::KempstonMouse) {
                Some(k) => {
                    &&& found
                    &&& final(self)@ == old(self)@.update(
                        k,
                        device_after_mouse_move(old(self)@[k], movement),
                    )
                },
                None => {
                    &&& !found
                    &&& final(self)@ == old(self)@
                },
            },
    {
        match self.find_device(DeviceTag::KempstonMouse) {
            Some(k) => {
                let device = self.devices[k];
                match device.state {
                    DeviceState::KempstonMouse(mut mouse) => {
                        mouse.move_mouse(movement);
                        self.devices.set(
                            k,
                            BusDevice { state: DeviceState::KempstonMouse(mouse), ..device },
                        );
                    },
                }
                true
            },
            None => false,
        }
    }
}

} // verus!
