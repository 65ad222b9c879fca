//! Shared direction handling for the glide modes: a direction bit set with
//! hold/release tracking and per-frame accelerated cursor movement.
use vstd::prelude::*;

use crate::config::{cursor_speed, spec_cursor_speed};
use crate::keymap::{
    KEY_H, KEY_J, KEY_K, KEY_KP1, KEY_KP2, KEY_KP3, KEY_KP4, KEY_KP6, KEY_KP7, KEY_KP8, KEY_KP9,
    KEY_L,
};
use crate::device::pointer::PointerAction;

verus! {

/// Bits of the eight directions.
pub const DIR_UP: u8 = 0x01;

pub const DIR_DOWN: u8 = 0x02;

pub const DIR_LEFT: u8 = 0x04;

pub const DIR_RIGHT: u8 = 0x08;

pub const DIR_UP_LEFT: u8 = 0x10;

pub const DIR_UP_RIGHT: u8 = 0x20;

pub const DIR_DOWN_LEFT: u8 = 0x40;

pub const DIR_DOWN_RIGHT: u8 = 0x80;

/// A set of held directions, one bit per direction.
#[derive(Clone, Copy, Debug, PartialEq, Eq, Structural)]
pub struct Dir {
    pub bits: u8,
}

pub open spec fn dir(bits: u8) -> Dir {
    Dir { bits }
}

impl Dir {
    /// The empty set.
    pub fn empty() -> (d: Dir)
        ensures
            d.bits == 0,
    {
        Dir { bits: 0 }
    }

    /// Set `flag`'s bits.
    pub fn insert(&mut self, flag: Dir)
        ensures
            final(self).bits == old(self).bits | flag.bits,
    {
        self.bits = self.bits | flag.bits;
    }

    /// Clear `flag`'s bits.
    pub fn remove(&mut self, flag: Dir)
        ensures
            final(self).bits == old(self).bits & !flag.bits,
    {
        self.bits = self.bits & !flag.bits;
    }

    /// Whether all of `flag`'s bits are set.
    pub fn contains(&self, flag: Dir) -> (b: bool)
        ensures
            b == (self.bits & flag.bits == flag.bits),
    {
        self.bits & flag.bits == flag.bits
    }
}

/// Direction of a numpad keycode.
pub open spec fn spec_from_numpad(code: u16) -> Option<u8> {
    if code == KEY_KP8 {
        Some(0x01u8)
    } else if code == KEY_KP2 {
        Some(0x02u8)
    } else if code == KEY_KP4 {
        Some(0x04u8)
    } else if code == KEY_KP6 {
        Some(0x08u8)
    } else if code == KEY_KP7 {
        Some(0x10u8)
    } else if code == KEY_KP9 {
        Some(0x20u8)
    } else if code == KEY_KP1 {
        Some(0x40u8)
    } else if code == KEY_KP3 {
        Some(0x80u8)
    } else {
        None
    }
}

/// Direction of an alpha (h/j/k/l) keycode.
pub open spec fn spec_from_alpha(code: u16) -> Option<u8> {
    if code == KEY_H {
        Some(0x04u8)
    } else if code == KEY_J {
        Some(0x02u8)
    } else if code == KEY_K {
        Some(0x01u8)
    } else if code == KEY_L {
        Some(0x08u8)
    } else {
        None
    }
}

/// Unit movement vector of a direction set holding exactly one direction;
/// (0, 0) for any other set.
pub open spec fn spec_to_vector(bits: u8) -> (i32, i32) {
    if bits == 0x01 {
        (0i32, -1i32)
    } else if bits == 0x02 {
        (0i32, 1i32)
    } else if bits == 0x04 {
        (-1i32, 0i32)
    } else if bits == 0x08 {
        (1i32, 0i32)
    } else if bits == 0x10 {
        (-1i32, -1i32)
    } else if bits == 0x20 {
        (1i32, -1i32)
    } else if bits == 0x40 {
        (-1i32, 1i32)
    } else if bits == 0x80 {
        (1i32, 1i32)
    } else {
        (0i32, 0i32)
    }
}

pub open spec fn opt_bits(d: Option<Dir>) -> Option<u8> {
    match d {
        Some(d) => Some(d.bits),
        None => None,
    }
}

impl Dir {
    /// Map a numpad keycode to its direction.
    pub fn from_numpad(code: u16) -> (d: Option<Dir>)
        ensures
            opt_bits(d) == spec_from_numpad(code),
    {
        match code {
            KEY_KP8 => Some(Dir { bits: DIR_UP }),
            KEY_KP2 => Some(Dir { bits: DIR_DOWN }),
            KEY_KP4 => Some(Dir { bits: DIR_LEFT }),
            KEY_KP6 => Some(Dir { bits: DIR_RIGHT }),
            KEY_KP7 => Some(Dir { bits: DIR_UP_LEFT }),
            KEY_KP9 => Some(Dir { bits: DIR_UP_RIGHT }),
            KEY_KP1 => Some(Dir { bits: DIR_DOWN_LEFT }),
            KEY_KP3 => Some(Dir { bits: DIR_DOWN_RIGHT }),
            _ => None,
        }
    }

    /// Map a numpad keycode to its direction (the keypad navigator's name).
    pub fn from_keypad(code: u16) -> (d: Option<Dir>)
        ensures
            opt_bits(d) == spec_from_numpad(code),
    {
        Dir::from_numpad(code)
    }

    /// Map an alpha (h/j/k/l) keycode to its direction.
    pub fn from_alpha(code: u16) -> (d: Option<Dir>)
        ensures
            opt_bits(d) == spec_from_alpha(code),
    {
        match code {
            KEY_H => Some(Dir { bits: DIR_LEFT }),
            KEY_J => Some(Dir { bits: DIR_DOWN }),
            KEY_K => Some(Dir { bits: DIR_UP }),
            KEY_L => Some(Dir { bits: DIR_RIGHT }),
            _ => None,
        }
    }

    /// Unit movement vector for this direction.
    pub fn to_vector(self) -> (v: (i32, i32))
        ensures
            v == spec_to_vector(self.bits),
    {
        match self.bits {
            0x01 => (0, -1),
            0x02 => (0, 1),
            0x04 => (-1, 0),
            0x08 => (1, 0),
            0x10 => (-1, -1),
            0x20 => (1, -1),
            0x40 => (-1, 1),
            0x80 => (1, 1),
            _ => (0, 0),
        }
    }
}

/// The held-key counter, direction set and tick counter after a direction
/// key event: a release (`value` 0) clears the flag, counts one key fewer
/// (not below 0) and restarts acceleration once no key is held; a press
/// (`value` 1) sets the flag and counts one key more (not above 255);
/// auto-repeat (any other value) changes nothing.
pub open spec fn spec_update_dir(held: u8, mask: u8, count: u32, flag: u8, value: i32) -> (u8, u8, u32) {
    if value == 0 {
        let h: u8 = if held == 0 { 0 } else { (held - 1) as u8 };
        (h, mask & !flag, if h == 0 { 0 } else { count })
    } else if value == 1 {
        (if held == 255 { 255 } else { (held + 1) as u8 }, mask | flag, count)
    } else {
        (held, mask, count)
    }
}

/// Track a direction hold/release on a mask plus counters.
pub fn update_dir(held: &mut u8, mask: &mut Dir, count: &mut u32, flag: Dir, value: i32)
    ensures
        (*final(held), final(mask).bits, *final(count)) == spec_update_dir(
            *old(held),
            old(mask).bits,
            *old(count),
            flag.bits,
            value,
        ),
{
    if value == 0 {
        mask.remove(flag);
        *held = held.saturating_sub(1);
        if *held == 0 {
            *count = 0;
        }
    } else if value == 1 {
        mask.insert(flag);
        *held = held.saturating_add(1);
    }
}

/// The move of one tick while exactly one direction key is held: the
/// direction's unit vector scaled by the speed for the incremented tick
/// count.
pub open spec fn spec_tick_move(mask: u8, next_count: u32) -> PointerAction {
    let (dx, dy) = spec_to_vector(mask);
    let step = spec_cursor_speed(next_count as int);
    PointerAction::MoveRel { dx: (dx * step) as i32, dy: (dy * step) as i32 }
}

pub open spec fn sat_inc(n: u32) -> u32 {
    if n == u32::MAX { n } else { (n + 1) as u32 }
}

/// One per-frame movement step while a direction is held (accelerated):
/// nothing unless exactly one direction key is held; then the tick count
/// advances and the cursor moves.
pub fn direction_tick(held: u8, mask: Dir, count: &mut u32) -> (act: Option<PointerAction>)
    ensures
        held != 1 ==> act is None && *final(count) == *old(count),
        held == 1 ==> *final(count) == sat_inc(*old(count)) && act == Some(
            spec_tick_move(mask.bits, *final(count)),
        ),
{
    if held != 1 {
        return None;
    }
    let (dx, dy) = mask.to_vector();
    *count = count.saturating_add(1);
    let step = cursor_speed(*count);
    proof {
        crate::config::lemma_cursor_speed_monotone(*count, *count);
    }
    // The vector's components are -1, 0 or 1 and the step is at most 50.
    let mx = dx * step;
    let my = dy * step;
    Some(PointerAction::MoveRel { dx: mx, dy: my })
}

/// Held directions of one glide mode.
pub struct DirState {
    pub held: u8,
    pub mask: Dir,
    pub count: u32,
}

impl DirState {
    pub fn new() -> (s: DirState)
        ensures
            s.held == 0 && s.mask.bits == 0 && s.count == 0,
    {
        DirState { held: 0, mask: Dir::empty(), count: 0 }
    }

    /// Record a direction key event.
    pub fn update(&mut self, flag: Dir, value: i32)
        ensures
            (final(self).held, final(self).mask.bits, final(self).count) == spec_update_dir(
                old(self).held,
                old(self).mask.bits,
                old(self).count,
                flag.bits,
                value,
            ),
    {
        update_dir(&mut self.held, &mut self.mask, &mut self.count, flag, value);
    }

    /// One per-frame movement step.
    pub fn tick(&mut self) -> (act: Option<PointerAction>)
        ensures
            final(self).held == old(self).held,
            final(self).mask == old(self).mask,
            old(self).held != 1 ==> act is None && final(self).count == old(self).count,
            old(self).held == 1 ==> final(self).count == sat_inc(old(self).count) && act == Some(
                spec_tick_move(old(self).mask.bits, final(self).count),
            ),
    {
        direction_tick(self.held, self.mask, &mut self.count)
    }
}

/// Pressing and then releasing a direction key that was not held restores
/// the held-key count and the direction set; the acceleration restarts
/// when no other direction key stays held.
pub proof fn lemma_press_release_restores(held: u8, mask: u8, count: u32, flag: u8)
    requires
        mask & flag == 0,
        held < 255,
    ensures
        ({
            let (h1, m1, c1) = spec_update_dir(held, mask, count, flag, 1);
            spec_update_dir(h1, m1, c1, flag, 0) == (held, mask, if held == 0 { 0 } else { count })
        }),
{
    assert((mask | flag) & !flag == mask) by (bit_vector)
        requires
            mask & flag == 0,
    ;
}

} // verus!
