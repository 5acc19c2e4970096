use vstd::prelude::*;

use crate::error::OverlayError;
use crate::input::{ActionHandles, INVALID_HANDLE};

verus! {

/// How many tracked devices the runtime reports on.
pub const MAX_TRACKED_DEVICE_COUNT: u32 = 64;

/// Button bits of the runtime's controller state.
pub const BUTTON_TRIGGER: u64 = 0x2_0000_0000;
pub const BUTTON_GRIP: u64 = 0x4;
pub const BUTTON_TOUCHPAD: u64 = 0x1_0000_0000;
pub const BUTTON_JOYSTICK: u64 = 0x4_0000_0000;

/// Axis slots of the runtime's controller state.
pub const AXIS_TOUCHPAD: usize = 0;
pub const AXIS_TRIGGER: usize = 1;
pub const AXIS_JOYSTICK: usize = 2;

/// Checks a tracked-device index from the host.
pub fn check_device_index(index: u32) -> (r: Result<usize, OverlayError>)
    ensures
        index < MAX_TRACKED_DEVICE_COUNT ==> r == Ok::<usize, OverlayError>(index as usize),
        index >= MAX_TRACKED_DEVICE_COUNT ==> r == Err::<usize, OverlayError>(
            OverlayError::InvalidDeviceIndex,
        ),
{
    if index >= MAX_TRACKED_DEVICE_COUNT {
        Err(OverlayError::InvalidDeviceIndex)
    } else {
        Ok(index as usize)
    }
}

/// The indices of the devices that are controllers, in increasing order,
/// given whether each device index holds a controller.
pub fn controller_indices(is_controller: &Vec<bool>) -> (r: Vec<u32>)
    requires
        is_controller@.len() <= u32::MAX,
    ensures
        forall|k: int| 0 <= k < r@.len() ==> #[trigger] r@[k] < is_controller@.len()
            && is_controller@[r@[k] as int],
        forall|k: int, l: int| 0 <= k < l < r@.len() ==> r@[k] < r@[l],
        forall|i: int|
            0 <= i < is_controller@.len() && #[trigger] is_controller@[i] ==> r@.contains(
                i as u32,
            ),
{
    let mut r: Vec<u32> = Vec::new();
    let n = is_controller.len();
    let mut i: usize = 0;
    while i < n
        invariant
            n == is_controller@.len(),
            n <= u32::MAX,
            i <= n,
            forall|k: int| 0 <= k < r@.len() ==> #[trigger] r@[k] < i && is_controller@[r@[k] as int],
            forall|k: int, l: int| 0 <= k < l < r@.len() ==> r@[k] < r@[l],
            forall|j: int| 0 <= j < i && #[trigger] is_controller@[j] ==> r@.contains(j as u32),
        decreases n - i,
    {
        if is_controller[i] {
            let ghost before = r@;
            r.push(i as u32);
            proof {
                assert forall|k: int| 0 <= k < r@.len() implies #[trigger] r@[k] < i + 1
                    && is_controller@[r@[k] as int] by {
                    if k < before.len() {
                        assert(r@[k] == before[k]);
                    }
                }
                assert forall|k: int, l: int| 0 <= k < l < r@.len() implies r@[k] < r@[l] by {
                    if l < before.len() {
                        assert(r@[k] == before[k] && r@[l] == before[l]);
                    } else {
                        assert(r@[k] == before[k]);
                        assert(before[k] < i);
                    }
                }
                assert forall|j: int| 0 <= j < i + 1 && #[trigger] is_controller@[j] implies r@.contains(
                    j as u32,
                ) by {
                    if j < i {
                        let k = choose|k: int| 0 <= k < before.len() && before[k] == j as u32;
                        assert(r@[k] == j as u32);
                    } else {
                        assert(r@[before.len() as int] == j as u32);
                    }
                }
            }
        }
        i = i + 1;
    }
    r
}

/// The digital part of a controller's state.
#[derive(Clone, Copy, Debug, PartialEq, Eq, Structural)]
pub struct ControllerButtons {
    pub trigger_pressed: bool,
    pub grip_pressed: bool,
    pub touchpad_pressed: bool,
    pub joystick_pressed: bool,
}

impl ControllerButtons {
    /// What is reported when the runtime has no state for the device.
    pub fn released() -> (r: ControllerButtons)
        ensures
            !r.trigger_pressed,
            !r.grip_pressed,
            !r.touchpad_pressed,
            !r.joystick_pressed,
    {
        ControllerButtons {
            trigger_pressed: false,
            grip_pressed: false,
            touchpad_pressed: false,
            joystick_pressed: false,
        }
    }

    /// Reads the buttons off the runtime's pressed-button bit mask.
    pub fn from_button_mask(mask: u64) -> (r: ControllerButtons)
        ensures
            r.trigger_pressed == (mask & BUTTON_TRIGGER != 0),
            r.grip_pressed == (mask & BUTTON_GRIP != 0),
            r.touchpad_pressed == (mask & BUTTON_TOUCHPAD != 0),
            r.joystick_pressed == (mask & BUTTON_JOYSTICK != 0),
    {
        ControllerButtons {
            trigger_pressed: mask & BUTTON_TRIGGER != 0,
            grip_pressed: mask & BUTTON_GRIP != 0,
            touchpad_pressed: mask & BUTTON_TOUCHPAD != 0,
            joystick_pressed: mask & BUTTON_JOYSTICK != 0,
        }
    }
}

/// The hand a controller is assigned to.
#[derive(Clone, Copy, Debug, PartialEq, Eq, Structural)]
pub enum ControllerRole {
    LeftHand,
    RightHand,
    Other,
}

/// The input source whose action data speaks for a controller of this
/// role: its hand's source, or none.
pub open spec fn spec_hand_source(handles: ActionHandles, role: ControllerRole) -> u64 {
    match role {
        ControllerRole::LeftHand => handles.left_hand_source,
        ControllerRole::RightHand => handles.right_hand_source,
        ControllerRole::Other => INVALID_HANDLE,
    }
}

pub fn hand_source(handles: &ActionHandles, role: ControllerRole) -> (r: u64)
    ensures
        r == spec_hand_source(*handles, role),
{
    match role {
        ControllerRole::LeftHand => handles.left_hand_source,
        ControllerRole::RightHand => handles.right_hand_source,
        ControllerRole::Other => INVALID_HANDLE,
    }
}

/// The sources to query for action data, in order of preference: the
/// hand's own source first where there is one, then the wildcard source.
pub fn override_sources(preferred: u64) -> (r: Vec<u64>)
    ensures
        preferred == INVALID_HANDLE ==> r@ == seq![INVALID_HANDLE],
        preferred != INVALID_HANDLE ==> r@ == seq![preferred, INVALID_HANDLE],
{
    if preferred == INVALID_HANDLE {
        vec![INVALID_HANDLE]
    } else {
        vec![preferred, INVALID_HANDLE]
    }
}

/// One digital-action reading: whether the query succeeded, whether the
/// action is active for that source, and its state.
#[derive(Clone, Copy, Debug, PartialEq, Eq, Structural)]
pub struct DigitalReading {
    pub ok: bool,
    pub active: bool,
    pub state: bool,
}

/// The pressed state after the action readings, taken in order of
/// preference: the first successful and active reading decides; without
/// one the raw button state stands.
pub open spec fn overridden(base: bool, readings: Seq<DigitalReading>) -> bool
    decreases readings.len(),
{
    if readings.len() == 0 {
        base
    } else if readings[0].ok && readings[0].active {
        readings[0].state
    } else {
        overridden(base, readings.drop_first())
    }
}

/// Applies the dedicated action's readings to a button's raw state.
pub fn override_pressed(base: bool, readings: &Vec<DigitalReading>) -> (r: bool)
    ensures
        r == overridden(base, readings@),
{
    let n = readings.len();
    let mut i: usize = 0;
    proof {
        assert(readings@.subrange(0, n as int) =~= readings@);
    }
    while i < n
        invariant
            n == readings@.len(),
            i <= n,
            overridden(base, readings@) == overridden(base, readings@.subrange(i as int, n as int)),
        decreases n - i,
    {
        let reading = readings[i];
        proof {
            let rest = readings@.subrange(i as int, n as int);
            assert(rest[0] == reading);
            assert(rest.drop_first() =~= readings@.subrange(i + 1, n as int));
        }
        if reading.ok && reading.active {
            return reading.state;
        }
        i = i + 1;
    }
    proof {
        assert(readings@.subrange(n as int, n as int) =~= Seq::<DigitalReading>::empty());
    }
    base
}

} // verus!
