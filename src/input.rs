use vstd::prelude::*;

use crate::error::OverlayError;

verus! {

/// Consecutive released samples needed before the toggle re-arms.
pub const TOGGLE_RELEASE_STREAK_TO_UNLOCK: u8 = 3;

/// The runtime's "no handle" value for action sets, actions and sources.
pub const INVALID_HANDLE: u64 = 0;

/// Input error codes of the runtime that the binding query tells apart.
pub const INPUT_ERROR_NONE: u32 = 0;
pub const INPUT_ERROR_NO_ACTIVE_ACTION_SET: u32 = 8;
pub const INPUT_ERROR_NO_DATA: u32 = 13;
pub const INPUT_ERROR_BUFFER_TOO_SMALL: u32 = 14;

/// Edge detection for the toggle action: one click per press, robust to
/// samples that drop out for a moment while the action is held.
#[derive(Clone, Copy, Debug, PartialEq, Eq, Structural)]
pub struct ToggleDebounce {
    pub last_toggle_state: bool,
    /// A click was already reported for the current hold.
    pub toggle_lock: bool,
    /// Consecutive released samples, saturating.
    pub toggle_release_streak: u8,
}

/// Released and unlocked, with no release streak.
pub open spec fn debounce_initial() -> ToggleDebounce {
    ToggleDebounce { last_toggle_state: false, toggle_lock: false, toggle_release_streak: 0 }
}

/// The state after one sample.
pub open spec fn debounce_next(s: ToggleDebounce, sample: bool) -> ToggleDebounce {
    if sample {
        ToggleDebounce { last_toggle_state: true, toggle_lock: true, toggle_release_streak: 0 }
    } else {
        let streak: u8 = if s.toggle_release_streak < 255 {
            (s.toggle_release_streak + 1) as u8
        } else {
            255u8
        };
        ToggleDebounce {
            last_toggle_state: false,
            toggle_lock: if streak >= TOGGLE_RELEASE_STREAK_TO_UNLOCK {
                false
            } else {
                s.toggle_lock
            },
            toggle_release_streak: streak,
        }
    }
}

/// Whether one sample is reported as a click: a held sample while unlocked.
pub open spec fn debounce_click(s: ToggleDebounce, sample: bool) -> bool {
    sample && !s.toggle_lock
}

impl ToggleDebounce {
    /// The lock is open whenever the release streak has reached the threshold.
    pub open spec fn wf(&self) -> bool {
        self.toggle_release_streak >= TOGGLE_RELEASE_STREAK_TO_UNLOCK ==> !self.toggle_lock
    }

    /// A debouncer that has seen no sample.
    pub fn new() -> (r: ToggleDebounce)
        ensures
            r == debounce_initial(),
            r.wf(),
    {
        ToggleDebounce { last_toggle_state: false, toggle_lock: false, toggle_release_streak: 0 }
    }

    /// Feeds one sample ("the action is active and pressed") and reports
    /// whether it is a fresh click. A held sample clicks only while
    /// unlocked, and locks; the lock opens again only after enough
    /// consecutive released samples.
    pub fn poll(&mut self, sample: bool) -> (clicked: bool)
        ensures
            clicked == debounce_click(*old(self), sample),
            *final(self) == debounce_next(*old(self), sample),
            old(self).wf() ==> final(self).wf(),
            old(self).toggle_lock && !final(self).toggle_lock
                ==> final(self).toggle_release_streak >= TOGGLE_RELEASE_STREAK_TO_UNLOCK,
    {
        if sample {
            self.toggle_release_streak = 0;
        } else {
            if self.toggle_release_streak < 255 {
                self.toggle_release_streak = self.toggle_release_streak + 1;
            }
            if self.toggle_release_streak >= TOGGLE_RELEASE_STREAK_TO_UNLOCK {
                self.toggle_lock = false;
            }
        }
        let clicked = sample && !self.toggle_lock;
        if clicked {
            self.toggle_lock = true;
        }
        self.last_toggle_state = sample;
        clicked
    }
}

/// The runtime handles that input queries need, looked up together.
#[derive(Clone, Copy, Debug, PartialEq, Eq, Structural)]
pub struct ActionHandles {
    pub action_set: u64,
    pub toggle_action: u64,
    pub trigger_action: u64,
    pub grip_action: u64,
    pub left_hand_source: u64,
    pub right_hand_source: u64,
}

/// Input state of one manager: the action handles, valid only once all of
/// them were looked up, and the toggle debouncer.
#[derive(Clone, Copy, Debug, PartialEq, Eq, Structural)]
pub struct InputActionCache {
    pub initialized: bool,
    pub handles: ActionHandles,
    pub toggle: ToggleDebounce,
}

impl InputActionCache {
    /// No handles yet; the debouncer is released and unlocked.
    pub fn new() -> (r: InputActionCache)
        ensures
            !r.initialized,
            r.handles == (ActionHandles {
                action_set: INVALID_HANDLE,
                toggle_action: INVALID_HANDLE,
                trigger_action: INVALID_HANDLE,
                grip_action: INVALID_HANDLE,
                left_hand_source: INVALID_HANDLE,
                right_hand_source: INVALID_HANDLE,
            }),
            r.toggle == debounce_initial(),
            r.toggle.wf(),
    {
        InputActionCache {
            initialized: false,
            handles: ActionHandles {
                action_set: INVALID_HANDLE,
                toggle_action: INVALID_HANDLE,
                trigger_action: INVALID_HANDLE,
                grip_action: INVALID_HANDLE,
                left_hand_source: INVALID_HANDLE,
                right_hand_source: INVALID_HANDLE,
            },
            toggle: ToggleDebounce::new(),
        }
    }

    /// Installs a complete set of handles, after every lookup succeeded,
    /// and resets the debouncer.
    pub fn initialize(&mut self, handles: ActionHandles)
        ensures
            final(self).initialized,
            final(self).handles == handles,
            final(self).toggle == debounce_initial(),
            final(self).toggle.wf(),
    {
        self.initialized = true;
        self.handles = handles;
        self.toggle = ToggleDebounce::new();
    }

    /// One poll of the toggle action with the runtime's digital data for
    /// it: the sample is "active and pressed".
    pub fn poll_toggle(&mut self, active: bool, pressed: bool) -> (r: Result<bool, OverlayError>)
        ensures
            !old(self).initialized ==> r == Err::<bool, OverlayError>(
                OverlayError::InputNotInitialized,
            ) && *final(self) == *old(self),
            old(self).initialized ==> r == Ok::<bool, OverlayError>(
                debounce_click(old(self).toggle, active && pressed),
            ) && final(self).toggle == debounce_next(old(self).toggle, active && pressed)
                && final(self).initialized && final(self).handles == old(self).handles,
            old(self).toggle.wf() ==> final(self).toggle.wf(),
    {
        if !self.initialized {
            return Err(OverlayError::InputNotInitialized);
        }
        let clicked = self.toggle.poll(active && pressed);
        Ok(clicked)
    }
}

/// How a binding-information query ended, by the runtime's error code.
#[derive(Clone, Copy, Debug, PartialEq, Eq, Structural)]
pub enum BindingQuery {
    /// The returned entries are read (a full buffer still holds entries).
    Read,
    /// No binding data is available yet: the action has no labels.
    NoBindings,
    /// A real failure, reported with the runtime's code.
    Failed,
}

/// Errors that mean "no bindings yet" rather than a failure.
pub open spec fn non_fatal_binding_error(err: u32) -> bool {
    err == INPUT_ERROR_NO_DATA || err == INPUT_ERROR_NO_ACTIVE_ACTION_SET
}

pub fn is_non_fatal_binding_info_error(err: u32) -> (r: bool)
    ensures
        r == non_fatal_binding_error(err),
{
    err == INPUT_ERROR_NO_DATA || err == INPUT_ERROR_NO_ACTIVE_ACTION_SET
}

/// Classifies the error code of a binding-information query.
pub fn classify_binding_query(err: u32) -> (r: BindingQuery)
    ensures
        (err == INPUT_ERROR_NONE || err == INPUT_ERROR_BUFFER_TOO_SMALL) ==> r
            == BindingQuery::Read,
        non_fatal_binding_error(err) ==> r == BindingQuery::NoBindings,
        !(err == INPUT_ERROR_NONE || err == INPUT_ERROR_BUFFER_TOO_SMALL
            || non_fatal_binding_error(err)) ==> r == BindingQuery::Failed,
{
    if err == INPUT_ERROR_NONE || err == INPUT_ERROR_BUFFER_TOO_SMALL {
        BindingQuery::Read
    } else if is_non_fatal_binding_info_error(err) {
        BindingQuery::NoBindings
    } else {
        BindingQuery::Failed
    }
}

/// How many entries of a binding query to read: what the runtime reported,
/// but never more than the buffer it was given.
pub fn binding_entries_to_read(returned_count: u32, capacity: usize) -> (r: usize)
    ensures
        r as int == if (returned_count as int) < capacity as int {
            returned_count as int
        } else {
            capacity as int
        },
{
    if (returned_count as u64) < (capacity as u64) {
        returned_count as usize
    } else {
        capacity
    }
}

/// The host-facing view of the current input bindings.
#[allow(non_snake_case)]
#[derive(Debug)]
pub struct CurrentBindings {
    pub initialized: bool,
    pub toggleOverlay: Vec<String>,
    pub triggerBindings: Vec<String>,
    pub gripBindings: Vec<String>,
    pub triggerBound: bool,
    pub gripBound: bool,
}

impl CurrentBindings {
    /// What is reported before input was initialized: nothing is bound.
    pub fn uninitialized() -> (r: CurrentBindings)
        ensures
            !r.initialized,
            r.toggleOverlay@.len() == 0,
            r.triggerBindings@.len() == 0,
            r.gripBindings@.len() == 0,
            !r.triggerBound,
            !r.gripBound,
    {
        CurrentBindings {
            initialized: false,
            toggleOverlay: Vec::new(),
            triggerBindings: Vec::new(),
            gripBindings: Vec::new(),
            triggerBound: false,
            gripBound: false,
        }
    }

    /// The bindings of an initialized input layer: an action counts as
    /// bound when it has at least one binding label.
    pub fn from_labels(toggle: Vec<String>, trigger: Vec<String>, grip: Vec<String>) -> (r:
        CurrentBindings)
        ensures
            r.initialized,
            r.toggleOverlay@ == toggle@,
            r.triggerBindings@ == trigger@,
            r.gripBindings@ == grip@,
            r.triggerBound == (trigger@.len() > 0),
            r.gripBound == (grip@.len() > 0),
    {
        let trigger_bound = trigger.len() > 0;
        let grip_bound = grip.len() > 0;
        CurrentBindings {
            initialized: true,
            toggleOverlay: toggle,
            triggerBindings: trigger,
            gripBindings: grip,
            triggerBound: trigger_bound,
            gripBound: grip_bound,
        }
    }
}

} // verus!
