//! Windows virtual-keycode to evdev keycode mapping.
//!
//! The low-level hook reports physical keys (virtual-key codes are
//! layout-independent, matching evdev's physical-key semantics). The
//! extended-key prefix (0xE0 in the scan code) tells apart keys that share a
//! virtual-key code, most importantly numpad Enter and the main Enter.
use vstd::prelude::*;

use crate::keymap::{
    letter_table, spec_key_map, KEY_0, KEY_A, KEY_APOSTROPHE, KEY_B, KEY_BACKSPACE, KEY_C, KEY_CAPSLOCK, KEY_COMMA, KEY_D, KEY_DOT, KEY_E, KEY_ENTER, KEY_ESC, KEY_F, KEY_G, KEY_H, KEY_I, KEY_J, KEY_K, KEY_KP0, KEY_KP1, KEY_KP2, KEY_KP3, KEY_KP4, KEY_KP5, KEY_KP6, KEY_KP7, KEY_KP8, KEY_KP9, KEY_KPASTERISK, KEY_KPDOT, KEY_KPENTER, KEY_KPMINUS, KEY_KPPLUS, KEY_KPSLASH, KEY_L, KEY_LEFTALT, KEY_LEFTCTRL, KEY_LEFTMETA, KEY_LEFTSHIFT, KEY_M, KEY_N, KEY_NUMLOCK, KEY_O, KEY_P, KEY_Q, KEY_R, KEY_RIGHTALT, KEY_RIGHTCTRL, KEY_RIGHTMETA, KEY_RIGHTSHIFT, KEY_S, KEY_SEMICOLON, KEY_SPACE, KEY_T, KEY_TAB, KEY_U, KEY_V, KEY_W, KEY_X, KEY_Y, KEY_Z,
};

verus! {

/// evdev keycodes of the letters A to Z, in alphabetical order.
pub open spec fn letters_table() -> Seq<u16> {
    seq![
        KEY_A, KEY_B, KEY_C, KEY_D, KEY_E, KEY_F, KEY_G, KEY_H, KEY_I, KEY_J, KEY_K, KEY_L, KEY_M,
        KEY_N, KEY_O, KEY_P, KEY_Q, KEY_R, KEY_S, KEY_T, KEY_U, KEY_V, KEY_W, KEY_X, KEY_Y, KEY_Z,
    ]
}

pub open spec fn spec_letter_key(vk: u32) -> Option<u16> {
    if 0x41 <= vk <= 0x5A {
        Some(letters_table()[vk - 0x41])
    } else {
        None
    }
}

/// Map a Windows virtual-key code plus scan code to an evdev keycode.
/// `extended` is the hook's extended-key flag; a 0xE0 scan-code prefix
/// counts as extended too.
pub open spec fn spec_vk_to_evdev(vk: u32, scan: u32, extended: bool) -> Option<u16> {
    let ext = extended || scan / 256 == 0xE0;
    if vk == 0x08 {
        Some(KEY_BACKSPACE)
    } else if vk == 0x09 {
        Some(KEY_TAB)
    } else if vk == 0x0D {
        Some(if ext { KEY_KPENTER } else { KEY_ENTER })
    } else if vk == 0x1B {
        Some(KEY_ESC)
    } else if vk == 0x20 {
        Some(KEY_SPACE)
    } else if vk == 0x14 {
        Some(KEY_CAPSLOCK)
    } else if vk == 0x90 {
        Some(KEY_NUMLOCK)
    } else if vk == 0x5B {
        Some(KEY_LEFTMETA)
    } else if vk == 0x5C {
        Some(KEY_RIGHTMETA)
    } else if vk == 0xA0 {
        Some(KEY_LEFTSHIFT)
    } else if vk == 0xA1 {
        Some(KEY_RIGHTSHIFT)
    } else if vk == 0xA2 {
        Some(KEY_LEFTCTRL)
    } else if vk == 0xA3 {
        Some(KEY_RIGHTCTRL)
    } else if vk == 0xA4 {
        Some(KEY_LEFTALT)
    } else if vk == 0xA5 {
        Some(KEY_RIGHTALT)
    } else if vk == 0x10 {
        Some(if scan == 0x36 { KEY_RIGHTSHIFT } else { KEY_LEFTSHIFT })
    } else if vk == 0x11 {
        Some(if ext { KEY_RIGHTCTRL } else { KEY_LEFTCTRL })
    } else if vk == 0x12 {
        Some(if ext { KEY_RIGHTALT } else { KEY_LEFTALT })
    } else if 0x41 <= vk <= 0x5A {
        spec_letter_key(vk)
    } else if vk == 0x30 {
        Some(KEY_0)
    } else if 0x31 <= vk <= 0x39 {
        Some((vk - 0x30 + 1) as u16)
    } else if 0x60 <= vk <= 0x69 {
        Some(seq![KEY_KP0, KEY_KP1, KEY_KP2, KEY_KP3, KEY_KP4, KEY_KP5, KEY_KP6, KEY_KP7, KEY_KP8, KEY_KP9][vk - 0x60])
    } else if vk == 0x6A {
        Some(KEY_KPASTERISK)
    } else if vk == 0x6B {
        Some(KEY_KPPLUS)
    } else if vk == 0x6D {
        Some(KEY_KPMINUS)
    } else if vk == 0x6E {
        Some(KEY_KPDOT)
    } else if vk == 0x6F {
        Some(KEY_KPSLASH)
    } else if vk == 0xBA {
        Some(KEY_SEMICOLON)
    } else if vk == 0xBC {
        Some(KEY_COMMA)
    } else if vk == 0xBE {
        Some(KEY_DOT)
    } else if vk == 0xDE {
        Some(KEY_APOSTROPHE)
    } else {
        None
    }
}

/// `VK_A`..=`VK_Z` to evdev letter keycodes (evdev encodes by physical
/// position); `None` past `VK_Z`.
pub fn letter_key(vk: u32) -> (code: Option<u16>)
    requires
        vk >= 0x41,
    ensures
        code == spec_letter_key(vk),
{
    let letters: [u16; 26] = [
        KEY_A, KEY_B, KEY_C, KEY_D, KEY_E, KEY_F, KEY_G, KEY_H, KEY_I, KEY_J, KEY_K, KEY_L, KEY_M,
        KEY_N, KEY_O, KEY_P, KEY_Q, KEY_R, KEY_S, KEY_T, KEY_U, KEY_V, KEY_W, KEY_X, KEY_Y, KEY_Z,
    ];
    assert(letters@ == letters_table());
    let idx = (vk - 0x41) as usize;
    if idx < 26 {
        Some(letters[idx])
    } else {
        None
    }
}

/// Map a Windows virtual-key code plus scan code to an evdev keycode.
pub fn vk_to_evdev(vk: u32, scan: u32, extended: bool) -> (code: Option<u16>)
    ensures
        code == spec_vk_to_evdev(vk, scan, extended),
{
    let ext = extended || scan >> 8 == 0xE0;
    assert(scan >> 8 == scan / 256) by (bit_vector);
    match vk {
        0x08 => Some(KEY_BACKSPACE),
        0x09 => Some(KEY_TAB),
        0x0D => Some(if ext { KEY_KPENTER } else { KEY_ENTER }),
        0x1B => Some(KEY_ESC),
        0x20 => Some(KEY_SPACE),
        0x14 => Some(KEY_CAPSLOCK),
        0x90 => Some(KEY_NUMLOCK),
        0x5B => Some(KEY_LEFTMETA),
        0x5C => Some(KEY_RIGHTMETA),
        0xA0 => Some(KEY_LEFTSHIFT),
        0xA1 => Some(KEY_RIGHTSHIFT),
        0xA2 => Some(KEY_LEFTCTRL),
        0xA3 => Some(KEY_RIGHTCTRL),
        0xA4 => Some(KEY_LEFTALT),
        0xA5 => Some(KEY_RIGHTALT),
        0x10 => Some(if scan == 0x36 { KEY_RIGHTSHIFT } else { KEY_LEFTSHIFT }),
        0x11 => Some(if ext { KEY_RIGHTCTRL } else { KEY_LEFTCTRL }),
        0x12 => Some(if ext { KEY_RIGHTALT } else { KEY_LEFTALT }),
        0x41..=0x5A => letter_key(vk),
        0x30 => Some(KEY_0),
        0x31..=0x39 => Some((vk - 0x30 + 1) as u16),
        0x60 => Some(KEY_KP0),
        0x61 => Some(KEY_KP1),
        0x62 => Some(KEY_KP2),
        0x63 => Some(KEY_KP3),
        0x64 => Some(KEY_KP4),
        0x65 => Some(KEY_KP5),
        0x66 => Some(KEY_KP6),
        0x67 => Some(KEY_KP7),
        0x68 => Some(KEY_KP8),
        0x69 => Some(KEY_KP9),
        0x6A => Some(KEY_KPASTERISK),
        0x6B => Some(KEY_KPPLUS),
        0x6D => Some(KEY_KPMINUS),
        0x6E => Some(KEY_KPDOT),
        0x6F => Some(KEY_KPSLASH),
        0xBA => Some(KEY_SEMICOLON),
        0xBC => Some(KEY_COMMA),
        0xBE => Some(KEY_DOT),
        0xDE => Some(KEY_APOSTROPHE),
        _ => None,
    }
}

/// A letter or digit key reported by the Windows hook reaches the grid as
/// the same character that the Linux key map gives the evdev key: the
/// lower-case letter for `VK_A`..=`VK_Z`, the digit for `0x30`..=`0x39`.
pub proof fn lemma_vk_letters_and_digits_map_to_ascii(vk: u32, scan: u32, extended: bool)
    requires
        0x41 <= vk <= 0x5A || 0x30 <= vk <= 0x39,
    ensures
        spec_vk_to_evdev(vk, scan, extended) matches Some(code) && spec_key_map(code, false) == Some(
            (if vk >= 0x41 { vk + 32 } else { vk as int }) as u8,
        ),
{
    let code = spec_vk_to_evdev(vk, scan, extended)->0;
    if vk >= 0x41 {
        let i = (vk - 0x41) as int;
        assert(code == letters_table()[i]);
        let j = choose|j: int| 0 <= j < 26 && (#[trigger] letter_table()[j]).0 == code;
        assert(letter_table()[j].0 == code);
        assert(letter_table()[j].1 == vk + 32);
    }
}

} // verus!
