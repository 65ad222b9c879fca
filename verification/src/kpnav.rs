//! The keypad navigator: the numpad mouse mode of the single-loop service
//! (NumLock+KPEnter toggles it). Its keys behave as glide-num's.
use vstd::prelude::*;

use crate::config::spec_hid_button_code;
use crate::device::linux::abi::EV_KEY;
use crate::device::pointer::{KbdOut, PointerAction};
use crate::keymap::{ModState, KEY_CAPSLOCK, KEY_KPENTER, KEY_LEFTMETA, KEY_NUMLOCK, KEY_RIGHTMETA};
use crate::service::dir::{sat_inc, spec_tick_move, Dir};
use crate::service::glide_alpha::release_all;
use crate::service::glide_num::{spec_binding_button, spec_num_event, GlideNum};
use crate::service::{kbd_steps, pointer_steps, Step};

verus! {

pub struct Kpd {
    pub toggle: bool,
    pub btn_5: u8,
    pub btn_held: bool,
    pub numlock_held: bool,
    pub dir_held: u8,
    pub dir_mask: Dir,
    pub dir_count: u32,
}

impl Kpd {
    /// The same state seen as glide-num's.
    pub open spec fn as_glide_num(self) -> GlideNum {
        GlideNum {
            active: self.toggle,
            numlock_held: self.numlock_held,
            btn5_binding: self.btn_5,
            btn_held: self.btn_held,
            dir_held: self.dir_held,
            dir_mask: self.dir_mask,
            dir_count: self.dir_count,
        }
    }

    pub fn new() -> (k: Kpd)
        ensures
            !k.toggle && k.btn_5 == 1 && !k.btn_held && !k.numlock_held,
            k.dir_held == 0 && k.dir_mask.bits == 0 && k.dir_count == 0,
    {
        Kpd {
            toggle: false,
            btn_5: 1,
            btn_held: false,
            numlock_held: false,
            dir_held: 0,
            dir_mask: Dir::empty(),
            dir_count: 0,
        }
    }

    pub fn active(&self) -> (b: bool)
        ensures
            b == self.toggle,
    {
        self.toggle
    }

    /// USB HID code of the button bound to KP5 (2 middle, 3 right, else
    /// left).
    pub fn btn_code(&self) -> (code: u16)
        ensures
            code == spec_hid_button_code(spec_binding_button(self.btn_5)),
    {
        let g = self.to_glide_num();
        g.btn_code()
    }

    fn to_glide_num(&self) -> (g: GlideNum)
        ensures
            g == self.as_glide_num(),
    {
        GlideNum {
            active: self.toggle,
            numlock_held: self.numlock_held,
            btn5_binding: self.btn_5,
            btn_held: self.btn_held,
            dir_held: self.dir_held,
            dir_mask: self.dir_mask,
            dir_count: self.dir_count,
        }
    }

    fn set_from(&mut self, g: &GlideNum)
        ensures
            final(self).as_glide_num() == *g,
    {
        self.toggle = g.active;
        self.numlock_held = g.numlock_held;
        self.btn_5 = g.btn5_binding;
        self.btn_held = g.btn_held;
        self.dir_held = g.dir_held;
        self.dir_mask = g.dir_mask;
        self.dir_count = g.dir_count;
    }

    /// Handle one key event in mouse mode. Returns whether the key was
    /// consumed, and the pointer operation to perform.
    pub fn handle_key_event(&mut self, code: u16, value: i32, is_press: bool) -> (res: (
        bool,
        Option<PointerAction>,
    ))
        ensures
            (final(self).as_glide_num(), res.0, res.1) == spec_num_event(
                old(self).as_glide_num(),
                code,
                value,
                is_press,
            ),
    {
        let mut g = self.to_glide_num();
        let res = g.handle_event(code, value, is_press);
        self.set_from(&g);
        res
    }

    /// One per-frame movement step while a direction is held.
    pub fn direction_tick(&mut self) -> (act: Option<PointerAction>)
        ensures
            final(self).as_glide_num() == (GlideNum {
                dir_count: if old(self).dir_held == 1 { sat_inc(old(self).dir_count) } else { old(self).dir_count },
                ..old(self).as_glide_num()
            }),
            old(self).dir_held != 1 ==> act is None,
            old(self).dir_held == 1 ==> act == Some(
                spec_tick_move(old(self).dir_mask.bits, sat_inc(old(self).dir_count)),
            ),
    {
        let mut g = self.to_glide_num();
        let act = g.direction_tick();
        self.set_from(&g);
        act
    }
}

/// The keypad navigator's state seen from glide-num's.
pub open spec fn kpd_of(g: GlideNum) -> Kpd {
    Kpd {
        toggle: g.active,
        numlock_held: g.numlock_held,
        btn_5: g.btn5_binding,
        btn_held: g.btn_held,
        dir_held: g.dir_held,
        dir_mask: g.dir_mask,
        dir_count: g.dir_count,
    }
}

/// The single-loop service of the keypad navigator: modifiers, whether a
/// Meta key is down, and the navigator.
pub struct KpNav {
    pub mods: ModState,
    pub meta_held: bool,
    pub kpd: Kpd,
}

/// What the single-loop service does with one input event while the grid
/// is on (`grid_active`) or off: Meta+CapsLock toggles the grid and
/// releases the chord; while the grid is on, key presses go to it and
/// everything else is swallowed; otherwise NumLock+KPEnter toggles the
/// navigator, the active navigator takes its keys, and the rest passes
/// through.
pub open spec fn spec_kp_dispatch(s: KpNav, type_: u16, code: u16, value: i32, grid_active: bool) -> (
    KpNav,
    Seq<Step>,
) {
    let is_press = value > 0;
    let mods = s.mods.after(code, is_press);
    let meta_held = if code == KEY_LEFTMETA || code == KEY_RIGHTMETA { is_press } else { s.meta_held };
    let s1 = KpNav { mods, meta_held, kpd: s.kpd };
    if code == KEY_CAPSLOCK && is_press && meta_held {
        (s1, seq![Step::ToggleGrid] + kbd_steps(release_all(seq![KEY_LEFTMETA, KEY_RIGHTMETA, KEY_CAPSLOCK])))
    } else if grid_active {
        (s1, if type_ != EV_KEY || value == 0 { seq![] } else { seq![Step::GridKey { code }] })
    } else {
        let k = if code == KEY_NUMLOCK { Kpd { numlock_held: value != 0, ..s.kpd } } else { s.kpd };
        if code == KEY_KPENTER && is_press && k.numlock_held {
            (KpNav { kpd: Kpd { toggle: !k.toggle, ..k }, ..s1 }, seq![])
        } else if k.toggle && spec_num_event(k.as_glide_num(), code, value, is_press).1 {
            let (g, _, act) = spec_num_event(k.as_glide_num(), code, value, is_press);
            (KpNav { kpd: kpd_of(g), ..s1 }, pointer_steps(act))
        } else if k.toggle {
            (KpNav { kpd: kpd_of(spec_num_event(k.as_glide_num(), code, value, is_press).0), ..s1 }, seq![Step::Forward])
        } else {
            (KpNav { kpd: k, ..s1 }, seq![Step::Forward])
        }
    }
}

impl KpNav {
    pub fn new() -> (s: KpNav)
        ensures
            !s.mods.shift && !s.mods.ctrl && !s.mods.meta && !s.mods.alt,
            !s.meta_held,
            !s.kpd.toggle && s.kpd.btn_5 == 1 && !s.kpd.btn_held && !s.kpd.numlock_held,
            s.kpd.dir_held == 0 && s.kpd.dir_mask.bits == 0 && s.kpd.dir_count == 0,
    {
        KpNav { mods: ModState::default(), meta_held: false, kpd: Kpd::new() }
    }

    /// Route one input event. Returns the steps the loop performs, in order.
    pub fn dispatch(&mut self, type_: u16, code: u16, value: i32, grid_active: bool) -> (steps: Vec<Step>)
        ensures
            (*final(self), steps@) == spec_kp_dispatch(*old(self), type_, code, value, grid_active),
    {
        let is_press = value > 0;
        self.mods.update(code, is_press);
        if code == KEY_LEFTMETA || code == KEY_RIGHTMETA {
            self.meta_held = is_press;
        }
        let mut steps: Vec<Step> = Vec::new();
        if code == KEY_CAPSLOCK && is_press && self.meta_held {
            steps.push(Step::ToggleGrid);
            let keys: [u16; 3] = [KEY_LEFTMETA, KEY_RIGHTMETA, KEY_CAPSLOCK];
            let out = crate::service::glide_alpha::release_keys(&keys);
            proof {
                assert(keys@ == seq![KEY_LEFTMETA, KEY_RIGHTMETA, KEY_CAPSLOCK]);
            }
            let mut i: usize = 0;
            while i < out.len()
                invariant
                    i <= out@.len(),
                    steps@ == seq![Step::ToggleGrid] + kbd_steps(out@.subrange(0, i as int)),
                decreases out@.len() - i,
            {
                steps.push(Step::Kbd(out[i]));
                i = i + 1;
                assert(kbd_steps(out@.subrange(0, i as int)) =~= kbd_steps(out@.subrange(0, i - 1)).push(
                    Step::Kbd(out@[i - 1]),
                ));
            }
            assert(out@.subrange(0, out@.len() as int) =~= out@);
            return steps;
        }
        if grid_active {
            if type_ == EV_KEY && value != 0 {
                steps.push(Step::GridKey { code });
            }
            return steps;
        }
        if code == KEY_NUMLOCK {
            self.kpd.numlock_held = value != 0;
        }
        if code == KEY_KPENTER && is_press && self.kpd.numlock_held {
            self.kpd.toggle = !self.kpd.toggle;
            return steps;
        }
        if self.kpd.active() {
            let (consumed, act) = self.kpd.handle_key_event(code, value, is_press);
            if consumed {
                if let Some(a) = act {
                    steps.push(Step::Pointer(a));
                }
                assert(steps@ =~= pointer_steps(act));
                return steps;
            }
        }
        steps.push(Step::Forward);
        steps
    }
}

/// With the grid off, NumLock+KPEnter toggles the navigator: the NumLock
/// press passes through, and the KPEnter press that follows flips the
/// navigator and sends nothing on.
pub proof fn lemma_kp_numlock_kpenter_toggles(s: KpNav)
    ensures
        ({
            let (s1, out1) = spec_kp_dispatch(s, EV_KEY, KEY_NUMLOCK, 1, false);
            let (s2, out2) = spec_kp_dispatch(s1, EV_KEY, KEY_KPENTER, 1, false);
            &&& out1 == seq![Step::Forward]
            &&& s2.kpd.toggle == !s1.kpd.toggle
            &&& out2.len() == 0
            &&& s1.kpd.numlock_held
        }),
{
    reveal(spec_num_event);
}

} // verus!
