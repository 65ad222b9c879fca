//! Linux evdev keycodes of the standard 105-key layout, modifier tracking
//! and the keycode-to-ASCII map used by the grid.
use vstd::prelude::*;

verus! {

// ── Standard 105-key USB HID to Linux evdev keycodes ────────────────

/// Highest evdev keycode registered on the virtual keyboard (covers
/// letters, digits, numpad and modifiers).
pub const KEYCODE_MAX: u16 = 255;
pub const KEY_ESC: u16 = 1;
pub const KEY_1: u16 = 2;
pub const KEY_2: u16 = 3;
pub const KEY_3: u16 = 4;
pub const KEY_4: u16 = 5;
pub const KEY_5: u16 = 6;
pub const KEY_6: u16 = 7;
pub const KEY_7: u16 = 8;
pub const KEY_8: u16 = 9;
pub const KEY_9: u16 = 10;
pub const KEY_0: u16 = 11;
pub const KEY_BACKSPACE: u16 = 14;
pub const KEY_TAB: u16 = 15;
pub const KEY_Q: u16 = 16;
pub const KEY_W: u16 = 17;
pub const KEY_E: u16 = 18;
pub const KEY_R: u16 = 19;
pub const KEY_T: u16 = 20;
pub const KEY_Y: u16 = 21;
pub const KEY_U: u16 = 22;
pub const KEY_I: u16 = 23;
pub const KEY_O: u16 = 24;
pub const KEY_P: u16 = 25;
pub const KEY_ENTER: u16 = 28;
pub const KEY_LEFTCTRL: u16 = 29;
pub const KEY_A: u16 = 30;
pub const KEY_S: u16 = 31;
pub const KEY_D: u16 = 32;
pub const KEY_F: u16 = 33;
pub const KEY_G: u16 = 34;
pub const KEY_H: u16 = 35;
pub const KEY_J: u16 = 36;
pub const KEY_K: u16 = 37;
pub const KEY_L: u16 = 38;
pub const KEY_SEMICOLON: u16 = 39;
pub const KEY_APOSTROPHE: u16 = 40;
pub const KEY_LEFTSHIFT: u16 = 42;
pub const KEY_Z: u16 = 44;
pub const KEY_X: u16 = 45;
pub const KEY_C: u16 = 46;
pub const KEY_V: u16 = 47;
pub const KEY_B: u16 = 48;
pub const KEY_N: u16 = 49;
pub const KEY_M: u16 = 50;
pub const KEY_COMMA: u16 = 51;
pub const KEY_DOT: u16 = 52;
pub const KEY_RIGHTSHIFT: u16 = 54;
pub const KEY_KPASTERISK: u16 = 55;
pub const KEY_LEFTALT: u16 = 56;
pub const KEY_SPACE: u16 = 57;
pub const KEY_CAPSLOCK: u16 = 58;
pub const KEY_NUMLOCK: u16 = 69;
pub const KEY_KP7: u16 = 71;
pub const KEY_KP8: u16 = 72;
pub const KEY_KP9: u16 = 73;
pub const KEY_KPMINUS: u16 = 74;
pub const KEY_KP4: u16 = 75;
pub const KEY_KP5: u16 = 76;
pub const KEY_KP6: u16 = 77;
pub const KEY_KPPLUS: u16 = 78;
pub const KEY_KP1: u16 = 79;
pub const KEY_KP2: u16 = 80;
pub const KEY_KP3: u16 = 81;
pub const KEY_KP0: u16 = 82;
pub const KEY_KPDOT: u16 = 83;
pub const KEY_KPENTER: u16 = 96;
pub const KEY_RIGHTCTRL: u16 = 97;
pub const KEY_KPSLASH: u16 = 98;
pub const KEY_RIGHTALT: u16 = 100;
pub const KEY_LEFTMETA: u16 = 125;
pub const KEY_RIGHTMETA: u16 = 126;

/// Modifier-key state (shift/ctrl/meta/alt), one bool per key.
pub struct ModState {
    pub shift: bool,
    pub ctrl: bool,
    pub meta: bool,
    pub alt: bool,
}

impl Default for ModState {
    fn default() -> (m: ModState)
        ensures
            !m.shift && !m.ctrl && !m.meta && !m.alt,
    {
        ModState { shift: false, ctrl: false, meta: false, alt: false }
    }
}

impl ModState {
    /// The modifier state after key `code` went down (`pressed`) or up.
    pub open spec fn after(self, code: u16, pressed: bool) -> ModState {
        if code == KEY_LEFTSHIFT || code == KEY_RIGHTSHIFT {
            ModState { shift: pressed, ..self }
        } else if code == KEY_LEFTCTRL || code == KEY_RIGHTCTRL {
            ModState { ctrl: pressed, ..self }
        } else if code == KEY_LEFTMETA || code == KEY_RIGHTMETA {
            ModState { meta: pressed, ..self }
        } else if code == KEY_LEFTALT || code == KEY_RIGHTALT {
            ModState { alt: pressed, ..self }
        } else {
            self
        }
    }

    pub fn update(&mut self, code: u16, pressed: bool)
        ensures
            *final(self) == old(self).after(code, pressed),
    {
        match code {
            KEY_LEFTSHIFT | KEY_RIGHTSHIFT => self.shift = pressed,
            KEY_LEFTCTRL | KEY_RIGHTCTRL => self.ctrl = pressed,
            KEY_LEFTMETA | KEY_RIGHTMETA => self.meta = pressed,
            KEY_LEFTALT | KEY_RIGHTALT => self.alt = pressed,
            _ => {},
        }
    }
}

/// The letter keys and their lower-case ASCII bytes, in the order the map
/// scans them.
pub open spec fn letter_table() -> Seq<(u16, u8)> {
    seq![
        (KEY_Q, 113u8), (KEY_W, 119u8), (KEY_E, 101u8), (KEY_R, 114u8), (KEY_T, 116u8),
        (KEY_Y, 121u8), (KEY_U, 117u8), (KEY_I, 105u8), (KEY_O, 111u8), (KEY_P, 112u8),
        (KEY_A, 97u8), (KEY_S, 115u8), (KEY_D, 100u8), (KEY_F, 102u8), (KEY_G, 103u8),
        (KEY_H, 104u8), (KEY_J, 106u8), (KEY_K, 107u8), (KEY_L, 108u8), (KEY_Z, 122u8),
        (KEY_X, 120u8), (KEY_C, 99u8), (KEY_V, 118u8), (KEY_B, 98u8), (KEY_N, 110u8),
        (KEY_M, 109u8),
    ]
}

/// Lower-case letter of a letter keycode.
pub open spec fn letter_of(code: u16) -> Option<u8> {
    if exists|i: int| 0 <= i < 26 && (#[trigger] letter_table()[i]).0 == code {
        let i = choose|i: int| 0 <= i < 26 && (#[trigger] letter_table()[i]).0 == code;
        Some(letter_table()[i].1)
    } else {
        None
    }
}

/// The shifted symbols of the digit row, indexed by the digit.
pub open spec fn shifted_digit(idx: int) -> u8 {
    seq![41u8, 33u8, 64u8, 35u8, 36u8, 37u8, 94u8, 38u8, 42u8, 40u8][idx]
}

/// Keycode plus shift state to ASCII byte: letters (upper case under shift),
/// linefeed, space, backspace (0x7f), escape, comma, dot, semicolon and the
/// digit row (its symbols under shift).
pub open spec fn spec_key_map(code: u16, shift: bool) -> Option<u8> {
    match letter_of(code) {
        Some(v) => Some(if shift { (v - 32) as u8 } else { v }),
        None => if code == KEY_ENTER {
            Some(10u8)
        } else if code == KEY_SPACE {
            Some(32u8)
        } else if code == KEY_BACKSPACE {
            Some(0x7fu8)
        } else if code == KEY_ESC {
            Some(0x1bu8)
        } else if code == KEY_COMMA {
            Some(44u8)
        } else if code == KEY_DOT {
            Some(46u8)
        } else if code == KEY_SEMICOLON {
            Some(59u8)
        } else if KEY_1 <= code <= KEY_0 {
            let idx = (code - 1) % 10;
            Some(if shift { shifted_digit(idx) } else { (48 + idx) as u8 })
        } else {
            None
        },
    }
}

/// Map keycode plus modifiers to an ASCII byte (a-z/linefeed/space/backspace/esc,
/// with comma, dot, semicolon and the digit row). `None` for unsupported and
/// modifier-only keys.
pub fn key_map(code: u16, mods: &ModState) -> (byte: Option<u8>)
    ensures
        byte == spec_key_map(code, mods.shift),
{
    let lut: [(u16, u8); 26] = [
        (KEY_Q, 113u8),
        (KEY_W, 119u8),
        (KEY_E, 101u8),
        (KEY_R, 114u8),
        (KEY_T, 116u8),
        (KEY_Y, 121u8),
        (KEY_U, 117u8),
        (KEY_I, 105u8),
        (KEY_O, 111u8),
        (KEY_P, 112u8),
        (KEY_A, 97u8),
        (KEY_S, 115u8),
        (KEY_D, 100u8),
        (KEY_F, 102u8),
        (KEY_G, 103u8),
        (KEY_H, 104u8),
        (KEY_J, 106u8),
        (KEY_K, 107u8),
        (KEY_L, 108u8),
        (KEY_Z, 122u8),
        (KEY_X, 120u8),
        (KEY_C, 99u8),
        (KEY_V, 118u8),
        (KEY_B, 98u8),
        (KEY_N, 110u8),
        (KEY_M, 109u8),
    ];
    assert(lut@ == letter_table());
    let upper = mods.shift;
    let mut i: usize = 0;
    while i < 26
        invariant
            i <= 26,
            lut@ == letter_table(),
            upper == mods.shift,
            forall|j: int| 0 <= j < i ==> (#[trigger] letter_table()[j]).0 != code,
        decreases 26 - i,
    {
        let (k, v) = lut[i];
        if code == k {
            proof {
                assert(letter_table()[i as int].0 == code);
                assert(exists|w: int| 0 <= w < 26 && (#[trigger] letter_table()[w]).0 == code);
                let w = choose|w: int| 0 <= w < 26 && (#[trigger] letter_table()[w]).0 == code;
                assert(letter_table()[w].0 == letter_table()[i as int].0);
                assert(w == i as int);
                assert(letter_of(code) == Some(v));
            }
            return Some(if upper { v - 32 } else { v });
        }
        i = i + 1;
    }
    assert(letter_of(code) is None);
    match code {
        KEY_ENTER => Some(10u8),
        KEY_SPACE => Some(32u8),
        KEY_BACKSPACE => Some(0x7f),
        KEY_ESC => Some(0x1b),
        KEY_COMMA => Some(44u8),
        KEY_DOT => Some(46u8),
        KEY_SEMICOLON => Some(59u8),
        KEY_1..=KEY_0 => {
            let shifted: [u8; 10] = [41u8, 33u8, 64u8, 35u8, 36u8, 37u8, 94u8, 38u8, 42u8, 40u8];
            let idx = ((code - 1) % 10) as usize;
            assert(shifted@[idx as int] == shifted_digit(idx as int));
            Some(if upper { shifted[idx] } else { 48u8 + idx as u8 })
        },
        _ => None,
    }
}

/// Releasing a modifier undoes its press: after a press and a release of
/// the same key the state is the one a lone release gives, with that
/// modifier up and the others as before.
pub proof fn lemma_press_release_restores(m: ModState, code: u16)
    ensures
        m.after(code, true).after(code, false) == m.after(code, false),
        m.after(code, false).shift == (m.shift && code != KEY_LEFTSHIFT && code != KEY_RIGHTSHIFT),
        m.after(code, false).ctrl == (m.ctrl && code != KEY_LEFTCTRL && code != KEY_RIGHTCTRL),
        m.after(code, false).meta == (m.meta && code != KEY_LEFTMETA && code != KEY_RIGHTMETA),
        m.after(code, false).alt == (m.alt && code != KEY_LEFTALT && code != KEY_RIGHTALT),
{
}

/// Under shift a letter key gives the upper-case form of the letter it
/// gives without shift.
pub proof fn lemma_shift_upper_cases_letters(code: u16)
    requires
        letter_of(code) is Some,
    ensures
        spec_key_map(code, false) == Some(letter_of(code)->0),
        97 <= letter_of(code)->0 <= 122,
        spec_key_map(code, true) == Some((letter_of(code)->0 - 32) as u8),
{
    let i = choose|i: int| 0 <= i < 26 && (#[trigger] letter_table()[i]).0 == code;
    assert(letter_table()[i].0 == code);
}

} // verus!
