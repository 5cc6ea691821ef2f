use vstd::prelude::*;

use crate::inputs::joy_featherwing::ButtonSet;

verus! {

/// The latest readings of the two peripherals, as the render loop sees them.
///
/// Each field holds what was published last; nothing is queued and nothing
/// is merged. The two fields are independent of each other.
#[derive(Clone, Copy, Debug, PartialEq, Eq, Structural)]
pub struct SharedSensorState {
    pub brightness: u8,
    pub buttons: ButtonSet,
}

impl SharedSensorState {
    /// The state before anything was published: brightness 0, no button.
    pub fn new() -> (state: SharedSensorState)
        ensures
            state.brightness == 0,
            state.buttons == ButtonSet::none(),
    {
        SharedSensorState { brightness: 0, buttons: ButtonSet::empty() }
    }

    pub fn publish_brightness(&mut self, value: u8)
        ensures
            final(self).brightness == value,
            final(self).buttons == old(self).buttons,
    {
        self.brightness = value;
    }

    pub fn get_brightness(&self) -> (value: u8)
        ensures
            value == self.brightness,
    {
        self.brightness
    }

    /// Replaces the published set by `set`.
    pub fn publish_buttons(&mut self, set: ButtonSet)
        ensures
            final(self).buttons == set,
            final(self).brightness == old(self).brightness,
    {
        self.buttons = set;
    }

    pub fn get_buttons(&self) -> (set: ButtonSet)
        ensures
            set == self.buttons,
    {
        self.buttons
    }
}

} // verus!
