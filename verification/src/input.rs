//! The joypad register. The host pushes an `InputState` of eight button
//! booleans; the game selects the direction or action set by writing bits
//! 4-5, and reads pressed buttons active-low in the low nibble.

use vstd::prelude::*;

verus! {

#[derive(Debug, Default, Clone, Copy, PartialEq, Eq, Structural)]
pub struct InputState {
    pub left: bool,
    pub right: bool,
    pub up: bool,
    pub down: bool,
    pub a: bool,
    pub b: bool,
    pub select: bool,
    pub start: bool,
}

impl InputState {
    pub fn new() -> (r: InputState)
        ensures
            r == (InputState {
                left: false,
                right: false,
                up: false,
                down: false,
                a: false,
                b: false,
                select: false,
                start: false,
            }),
    {
        InputState {
            left: false,
            right: false,
            up: false,
            down: false,
            a: false,
            b: false,
            select: false,
            start: false,
        }
    }
}

/// Which button set the game has selected through the register's bits 4-5.
#[derive(Debug, Clone, Copy, Eq, PartialEq, Structural)]
pub enum ButtonSet {
    Neither,
    Arrows,
    Actions,
}

/// The joypad register value for a given input state and selection: bits
/// 7-6 read as 1, bits 5-4 show which set is not selected, and the low
/// nibble holds the selected set's buttons, pressed = 0.
pub open spec fn spec_encode_joypad(state: InputState, selected_set: ButtonSet) -> u8 {
    let base: u8 = match selected_set {
        ButtonSet::Neither => 0xFF,
        ButtonSet::Arrows => 0xEF,
        ButtonSet::Actions => 0xDF,
    };
    let b0 = if (state.right && selected_set is Arrows) || (state.a && selected_set is Actions) {
        base & !0x01
    } else {
        base
    };
    let b1 = if (state.left && selected_set is Arrows) || (state.b && selected_set is Actions) {
        b0 & !0x02
    } else {
        b0
    };
    let b2 = if (state.up && selected_set is Arrows) || (state.select && selected_set is Actions) {
        b1 & !0x04
    } else {
        b1
    };
    if (state.down && selected_set is Arrows) || (state.start && selected_set is Actions) {
        b2 & !0x08
    } else {
        b2
    }
}

pub fn encode_joypad_state(state: InputState, selected_set: ButtonSet) -> (r: u8)
    ensures
        r == spec_encode_joypad(state, selected_set),
{
    let mut value: u8 = match selected_set {
        ButtonSet::Neither => 0xFF,
        ButtonSet::Arrows => 0xEF,
        ButtonSet::Actions => 0xDF,
    };

    let arrows = match selected_set {
        ButtonSet::Arrows => true,
        _ => false,
    };
    let actions = match selected_set {
        ButtonSet::Actions => true,
        _ => false,
    };

    if (state.right && arrows) || (state.a && actions) {
        value = value & !0x01;
    }
    if (state.left && arrows) || (state.b && actions) {
        value = value & !0x02;
    }
    if (state.up && arrows) || (state.select && actions) {
        value = value & !0x04;
    }
    if (state.down && arrows) || (state.start && actions) {
        value = value & !0x08;
    }

    value
}

pub struct InputRegister {
    pub input_state: InputState,
    pub selected_set: ButtonSet,
}

impl InputRegister {
    pub fn new() -> (r: InputRegister)
        ensures
            r.input_state == (InputState {
                left: false,
                right: false,
                up: false,
                down: false,
                a: false,
                b: false,
                select: false,
                start: false,
            }),
            r.selected_set is Neither,
    {
        InputRegister { input_state: InputState::new(), selected_set: ButtonSet::Neither }
    }

    /// Writing the register selects a button set: bit 4 low picks the
    /// arrows, bit 5 low picks the actions, anything else deselects both.
    pub fn write_8(&mut self, value: u8)
        ensures
            final (self).input_state == old(self).input_state,
            final (self).selected_set == spec_selected_set(value),
    {
        let masked = value & 0x30;
        proof {
            let v = value;
            assert(v & 0x30 == (v / 16 % 4) * 16) by (bit_vector);
        }
        self.selected_set = match masked {
            0x20 => ButtonSet::Arrows,
            0x10 => ButtonSet::Actions,
            _ => ButtonSet::Neither,
        };
    }

    pub fn read_8(&self) -> (r: u8)
        ensures
            r == spec_encode_joypad(self.input_state, self.selected_set),
    {
        encode_joypad_state(self.input_state, self.selected_set)
    }

    pub fn update(&mut self, new_state: InputState)
        ensures
            final (self).input_state == new_state,
            final (self).selected_set == old(self).selected_set,
    {
        self.input_state = new_state;
    }
}

/// The set selected by a register write: of bits 5-4, the value 0b10
/// selects the arrows, 0b01 the actions.
pub open spec fn spec_selected_set(value: u8) -> ButtonSet {
    if value / 16 % 4 == 2 {
        ButtonSet::Arrows
    } else if value / 16 % 4 == 1 {
        ButtonSet::Actions
    } else {
        ButtonSet::Neither
    }
}

} // verus!
