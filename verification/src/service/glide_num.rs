//! glide-num: numpad glide mode. The direction keys move, KP5 presses the
//! bound button, `/ * -` rebind it, KP0/KP. hold/release it, KP+ double
//! clicks; with NumLock held, `/ 8 7 9` scroll and `* -` click back/forward.
use vstd::prelude::*;

use crate::config::{hid_button_code, spec_hid_button_code, MouseButton, BTN_LEFT, BTN_MIDDLE, BTN_RIGHT};
use crate::keymap::{
    KEY_KP0, KEY_KP5, KEY_KP7, KEY_KP8, KEY_KP9, KEY_KPASTERISK, KEY_KPDOT, KEY_KPMINUS, KEY_KPPLUS,
    KEY_KPSLASH,
};
use crate::device::pointer::{PointerAction, ScrollAxis, SideButton};
use crate::service::dir::{
    spec_to_vector,
    direction_tick, sat_inc, spec_from_numpad, spec_tick_move, spec_update_dir, update_dir, Dir,
};

verus! {

pub struct GlideNum {
    pub active: bool,
    pub numlock_held: bool,
    pub btn5_binding: u8,
    pub btn_held: bool,
    pub dir_held: u8,
    pub dir_mask: Dir,
    pub dir_count: u32,
}

/// Button bound to KP5: 2 middle, 3 right, anything else left.
pub open spec fn spec_binding_button(binding: u8) -> MouseButton {
    if binding == 2 {
        MouseButton::Middle
    } else if binding == 3 {
        MouseButton::Right
    } else {
        MouseButton::Left
    }
}

/// What a NumLock-held key does: wheel notches on `/ 8 7 9`, side-button
/// clicks on `* -`.
pub open spec fn spec_numlock_action(code: u16) -> Option<PointerAction> {
    if code == KEY_KPSLASH {
        Some(PointerAction::Scroll { axis: ScrollAxis::Vertical, dir: 1i32 })
    } else if code == KEY_KP8 {
        Some(PointerAction::Scroll { axis: ScrollAxis::Vertical, dir: -1i32 })
    } else if code == KEY_KP7 {
        Some(PointerAction::Scroll { axis: ScrollAxis::Horizontal, dir: -1i32 })
    } else if code == KEY_KP9 {
        Some(PointerAction::Scroll { axis: ScrollAxis::Horizontal, dir: 1i32 })
    } else if code == KEY_KPASTERISK {
        Some(PointerAction::Side { side: SideButton::Back })
    } else if code == KEY_KPMINUS {
        Some(PointerAction::Side { side: SideButton::Forward })
    } else {
        None
    }
}

/// What one key event does to glide-num: the next state, whether the key is
/// consumed, and the pointer operation it asks for.
#[verifier::opaque]
pub open spec fn spec_num_event(s: GlideNum, code: u16, value: i32, is_press: bool) -> (
    GlideNum,
    bool,
    Option<PointerAction>,
) {
    let b = spec_binding_button(s.btn5_binding);
    if s.numlock_held && spec_numlock_action(code) is Some {
        (s, true, if is_press { spec_numlock_action(code) } else { None })
    } else if let Some(flag) = spec_from_numpad(code) {
        let (h, m, c) = spec_update_dir(s.dir_held, s.dir_mask.bits, s.dir_count, flag, value);
        (GlideNum { dir_held: h, dir_mask: Dir { bits: m }, dir_count: c, ..s }, true, None)
    } else if code == KEY_KP5 {
        if value > 0 {
            (
                GlideNum { btn_held: true, ..s },
                true,
                Some(PointerAction::Button { button: b, press: true }),
            )
        } else if value == 0 && s.btn_held {
            (
                GlideNum { btn_held: false, ..s },
                true,
                Some(PointerAction::Button { button: b, press: false }),
            )
        } else {
            (s, true, None)
        }
    } else if code == KEY_KPDOT {
        if is_press {
            (
                GlideNum { btn_held: false, ..s },
                true,
                Some(PointerAction::Button { button: b, press: false }),
            )
        } else {
            (s, true, None)
        }
    } else if code == KEY_KP0 {
        if value == 1 && !s.btn_held {
            (
                GlideNum { btn_held: true, ..s },
                true,
                Some(PointerAction::Button { button: b, press: true }),
            )
        } else {
            (s, true, None)
        }
    } else if code == KEY_KPASTERISK {
        (if is_press { GlideNum { btn5_binding: 2, ..s } } else { s }, true, None)
    } else if code == KEY_KPSLASH {
        (if is_press { GlideNum { btn5_binding: 1, ..s } } else { s }, true, None)
    } else if code == KEY_KPMINUS {
        (if is_press { GlideNum { btn5_binding: 3, ..s } } else { s }, true, None)
    } else if code == KEY_KPPLUS {
        (s, true, if value == 1 { Some(PointerAction::Click { button: b, count: 2 }) } else { None })
    } else {
        (s, false, None)
    }
}

/// Glide-num at start: off, NumLock up, KP5 bound to the left button,
/// nothing held.
pub open spec fn spec_new_glide_num() -> GlideNum {
    GlideNum {
        active: false,
        numlock_held: false,
        btn5_binding: 1,
        btn_held: false,
        dir_held: 0,
        dir_mask: Dir { bits: 0 },
        dir_count: 0,
    }
}

impl GlideNum {
    pub fn new() -> (g: GlideNum)
        ensures
            g == spec_new_glide_num(),
    {
        GlideNum {
            active: false,
            btn5_binding: 1,
            btn_held: false,
            numlock_held: false,
            dir_held: 0,
            dir_mask: Dir::empty(),
            dir_count: 0,
        }
    }

    pub fn active(&self) -> (b: bool)
        ensures
            b == self.active,
    {
        self.active
    }

    /// Toggle glide-num on/off.
    pub fn toggle(&mut self)
        ensures
            *final(self) == (GlideNum { active: !old(self).active, ..*old(self) }),
    {
        self.active = !self.active;
    }

    /// Record whether `NumLock` is currently held.
    pub fn set_numlock(&mut self, held: bool)
        ensures
            *final(self) == (GlideNum { numlock_held: held, ..*old(self) }),
    {
        self.numlock_held = held;
    }

    pub fn numlock_held(&self) -> (b: bool)
        ensures
            b == self.numlock_held,
    {
        self.numlock_held
    }

    /// The button bound to KP5.
    pub fn button(&self) -> (b: MouseButton)
        ensures
            b == spec_binding_button(self.btn5_binding),
    {
        match self.btn5_binding {
            2 => MouseButton::Middle,
            3 => MouseButton::Right,
            _ => MouseButton::Left,
        }
    }

    /// USB HID code of the button bound to KP5.
    pub fn btn_code(&self) -> (code: u16)
        ensures
            code == spec_hid_button_code(spec_binding_button(self.btn5_binding)),
    {
        hid_button_code(self.button())
    }

    /// One per-frame movement step while a direction is held.
    pub fn direction_tick(&mut self) -> (act: Option<PointerAction>)
        ensures
            *final(self) == (GlideNum {
                dir_count: if old(self).dir_held == 1 { sat_inc(old(self).dir_count) } else { old(self).dir_count },
                ..*old(self)
            }),
            old(self).dir_held != 1 ==> act is None,
            old(self).dir_held == 1 ==> act == Some(
                spec_tick_move(old(self).dir_mask.bits, sat_inc(old(self).dir_count)),
            ),
    {
        direction_tick(self.dir_held, self.dir_mask, &mut self.dir_count)
    }

    /// Handle one key event. Returns whether the key was consumed, and the
    /// pointer operation to perform.
    pub fn handle_event(&mut self, code: u16, value: i32, is_press: bool) -> (res: (
        bool,
        Option<PointerAction>,
    ))
        ensures
            (*final(self), res.0, res.1) == spec_num_event(*old(self), code, value, is_press),
    {
        reveal(spec_num_event);
        if self.numlock_held {
            let act = match code {
                KEY_KPSLASH => Some(PointerAction::Scroll { axis: ScrollAxis::Vertical, dir: 1 }),
                KEY_KP8 => Some(PointerAction::Scroll { axis: ScrollAxis::Vertical, dir: -1 }),
                KEY_KP7 => Some(PointerAction::Scroll { axis: ScrollAxis::Horizontal, dir: -1 }),
                KEY_KP9 => Some(PointerAction::Scroll { axis: ScrollAxis::Horizontal, dir: 1 }),
                KEY_KPASTERISK => Some(PointerAction::Side { side: SideButton::Back }),
                KEY_KPMINUS => Some(PointerAction::Side { side: SideButton::Forward }),
                _ => None,
            };
            if act.is_some() {
                return (true, if is_press { act } else { None });
            }
        }
        let b = self.button();
        if let Some(flag) = Dir::from_numpad(code) {
            update_dir(&mut self.dir_held, &mut self.dir_mask, &mut self.dir_count, flag, value);
            return (true, None);
        }
        match code {
            KEY_KP5 => {
                if value > 0 {
                    self.btn_held = true;
                    (true, Some(PointerAction::Button { button: b, press: true }))
                } else if value == 0 && self.btn_held {
                    self.btn_held = false;
                    (true, Some(PointerAction::Button { button: b, press: false }))
                } else {
                    (true, None)
                }
            },
            KEY_KPDOT => {
                if is_press {
                    self.btn_held = false;
                    (true, Some(PointerAction::Button { button: b, press: false }))
                } else {
                    (true, None)
                }
            },
            KEY_KP0 => {
                if value == 1 && !self.btn_held {
                    self.btn_held = true;
                    (true, Some(PointerAction::Button { button: b, press: true }))
                } else {
                    (true, None)
                }
            },
            KEY_KPASTERISK => {
                if is_press {
                    self.btn5_binding = 2;
                }
                (true, None)
            },
            KEY_KPSLASH => {
                if is_press {
                    self.btn5_binding = 1;
                }
                (true, None)
            },
            KEY_KPMINUS => {
                if is_press {
                    self.btn5_binding = 3;
                }
                (true, None)
            },
            KEY_KPPLUS => {
                if value == 1 {
                    (true, Some(PointerAction::Click { button: b, count: 2 }))
                } else {
                    (true, None)
                }
            },
            _ => (false, None),
        }
    }
}

/// A key that glide-num does not consume leaves its state as it was.
pub proof fn lemma_unconsumed_keeps_state(s: GlideNum, code: u16, value: i32, is_press: bool)
    ensures
        !spec_num_event(s, code, value, is_press).1 ==> spec_num_event(s, code, value, is_press).0
            == s,
{
    reveal(spec_num_event);
}

/// Toggling glide-num twice leaves it as it was.
pub proof fn lemma_toggle_twice(g: GlideNum)
    ensures
        (GlideNum { active: !(GlideNum { active: !g.active, ..g }).active, ..(GlideNum { active: !g.active, ..g }) }) == g,
{
}

/// A direction key starts a glide: from a state with no key held and
/// NumLock up, the press is consumed and the next tick moves three pixels
/// that way.
pub proof fn lemma_direction_glides(s: GlideNum, code: u16)
    requires
        spec_from_numpad(code) is Some,
        !s.numlock_held,
        s.dir_held == 0 && s.dir_mask.bits == 0 && s.dir_count == 0,
    ensures
        ({
            let (g, c, act) = spec_num_event(s, code, 1, true);
            let v = spec_to_vector(spec_from_numpad(code)->0);
            &&& c && act is None
            &&& g.dir_held == 1
            &&& spec_tick_move(g.dir_mask.bits, sat_inc(g.dir_count)) == (PointerAction::MoveRel {
                dx: (v.0 * 3) as i32,
                dy: (v.1 * 3) as i32,
            })
        }),
{
    reveal(spec_num_event);
    vstd::arithmetic::power2::lemma2_to64();
    let f = spec_from_numpad(code)->0;
    assert(0u8 | f == f) by (bit_vector);
}

/// With NumLock up, a press of KP/, KP* or KP- binds KP5 to the left,
/// middle or right button: the key is consumed, sends nothing and changes
/// only the binding; afterwards the bound button code is that button's, a
/// KP5 press presses it and KP+ double-clicks it.
pub proof fn lemma_kp_rebinds_button(s: GlideNum, code: u16, value: i32)
    requires
        !s.numlock_held,
        code == KEY_KPSLASH || code == KEY_KPASTERISK || code == KEY_KPMINUS,
        value > 0,
    ensures
        ({
            let (g, c, act) = spec_num_event(s, code, value, true);
            let b = if code == KEY_KPSLASH {
                MouseButton::Left
            } else if code == KEY_KPASTERISK {
                MouseButton::Middle
            } else {
                MouseButton::Right
            };
            let hid = if code == KEY_KPSLASH {
                BTN_LEFT
            } else if code == KEY_KPASTERISK {
                BTN_MIDDLE
            } else {
                BTN_RIGHT
            };
            &&& c && act is None
            &&& g == (GlideNum { btn5_binding: g.btn5_binding, ..s })
            &&& spec_binding_button(g.btn5_binding) == b
            &&& spec_hid_button_code(spec_binding_button(g.btn5_binding)) == hid
            &&& spec_num_event(g, KEY_KP5, 1, true).2 == Some(
                PointerAction::Button { button: b, press: true },
            )
            &&& spec_num_event(g, KEY_KPPLUS, 1, true).2 == Some(
                PointerAction::Click { button: b, count: 2 },
            )
        }),
{
    reveal(spec_num_event);
    let (g, c, act) = spec_num_event(s, code, value, true);
    assert(spec_from_numpad(code) is None);
    assert(spec_from_numpad(KEY_KP5) is None);
    assert(spec_from_numpad(KEY_KPPLUS) is None);
    assert(!g.numlock_held);
}

} // verus!
