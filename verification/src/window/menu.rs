//! The rules of the menu that have nothing to do with drawing it: which
//! pages there are, and how the arrows step through save slots, window scales
//! and palettes.
use vstd::prelude::*;

verus! {

/// The pages of the menu.
#[derive(Clone, Copy, PartialEq, Eq, Structural, Debug)]
pub enum MenuPage {
    Main,
    Input,
    Options,
    Info,
}

/// Save slots are numbered from 1 to 9.
pub const FIRST_SLOT: u8 = 1;

pub const LAST_SLOT: u8 = 9;

/// The window shows the display magnified between 2 and 8 times.
pub const MIN_SCALE: u8 = 2;

pub const MAX_SCALE: u8 = 8;

/// The palettes: the original one, the one of the screen, and the user's own.
pub const PALETTE_ORIGINAL: u8 = 0;

pub const PALETTE_LCD: u8 = 1;

pub const PALETTE_CUSTOM: u8 = 2;

/// The display has four shades.
pub const SHADES: u8 = 4;

/// The slot after `slot`, or before it: from the last slot the way forward
/// leads to the first, and from the first the way back to the last. A number
/// that is no slot leads to the first slot forward and to the last back.
pub open spec fn spec_step_slot(slot: u8, forward: bool) -> u8 {
    if forward {
        if slot < LAST_SLOT {
            (slot + 1) as u8
        } else {
            FIRST_SLOT
        }
    } else {
        if FIRST_SLOT < slot <= LAST_SLOT {
            (slot - 1) as u8
        } else {
            LAST_SLOT
        }
    }
}

/// The scale one step up or down from `scale`, held within its limits.
pub open spec fn spec_step_scale(scale: u8, up: bool) -> u8 {
    if up {
        if scale < MAX_SCALE {
            (scale + 1) as u8
        } else {
            scale
        }
    } else {
        if scale > MIN_SCALE {
            (scale - 1) as u8
        } else {
            scale
        }
    }
}

/// The palette after `preset`, or before it, in a ring of three.
pub open spec fn spec_step_palette(preset: u8, forward: bool) -> u8 {
    if forward {
        if preset < PALETTE_CUSTOM {
            (preset + 1) as u8
        } else {
            PALETTE_ORIGINAL
        }
    } else {
        if PALETTE_ORIGINAL < preset <= PALETTE_CUSTOM {
            (preset - 1) as u8
        } else {
            PALETTE_CUSTOM
        }
    }
}

/// The slot after `slot`, or before it: from the last slot the way forward
/// leads to the first, and from the first the way back to the last. A number
/// that is no slot leads to the first slot forward and to the last back.
#[verifier::when_used_as_spec(spec_step_slot)]
pub fn step_slot(slot: u8, forward: bool) -> (r: u8)
    ensures
        r == spec_step_slot(slot, forward),
        FIRST_SLOT <= r <= LAST_SLOT,
{
    if forward {
        if slot < LAST_SLOT {
            slot + 1
        } else {
            FIRST_SLOT
        }
    } else {
        if slot > FIRST_SLOT && slot <= LAST_SLOT {
            slot - 1
        } else {
            LAST_SLOT
        }
    }
}

/// The scale one step up or down from `scale`, held within its limits.
#[verifier::when_used_as_spec(spec_step_scale)]
pub fn step_scale(scale: u8, up: bool) -> (r: u8)
    ensures
        r == spec_step_scale(scale, up),
        MIN_SCALE <= scale <= MAX_SCALE ==> MIN_SCALE <= r <= MAX_SCALE,
{
    if up {
        if scale < MAX_SCALE {
            scale + 1
        } else {
            scale
        }
    } else {
        if scale > MIN_SCALE {
            scale - 1
        } else {
            scale
        }
    }
}

/// The palette after `preset`, or before it, in a ring of three.
#[verifier::when_used_as_spec(spec_step_palette)]
pub fn step_palette(preset: u8, forward: bool) -> (r: u8)
    ensures
        r == spec_step_palette(preset, forward),
        r <= PALETTE_CUSTOM,
{
    if forward {
        if preset < PALETTE_CUSTOM {
            preset + 1
        } else {
            PALETTE_ORIGINAL
        }
    } else {
        if preset > PALETTE_ORIGINAL && preset <= PALETTE_CUSTOM {
            preset - 1
        } else {
            PALETTE_CUSTOM
        }
    }
}

/// A step forward and a step back lead to where one was, for the slots and
/// for the palettes; nine steps forward lead round the slots.
pub proof fn lemma_steps_undo(slot: u8, preset: u8)
    requires
        FIRST_SLOT <= slot <= LAST_SLOT,
        preset <= PALETTE_CUSTOM,
    ensures
        spec_step_slot(spec_step_slot(slot, true), false) == slot,
        spec_step_slot(spec_step_slot(slot, false), true) == slot,
        spec_step_palette(spec_step_palette(preset, true), false) == preset,
        spec_step_palette(spec_step_palette(preset, false), true) == preset,
        spec_step_palette(spec_step_palette(spec_step_palette(preset, true), true), true)
            == preset,
{
}

} // verus!
