//! glide-alpha: main-keyboard glide mode. CapsLock is the mode's modifier;
//! with it held, h/j/k/l move, w/a/s/d scroll, u/i/o hold buttons and n/m
//! click back/forward.
use vstd::prelude::*;

use crate::config::MouseButton;
use crate::keymap::{
    ModState, KEY_A, KEY_CAPSLOCK, KEY_D, KEY_I, KEY_LEFTMETA, KEY_LEFTSHIFT, KEY_M, KEY_N, KEY_O,
    KEY_RIGHTMETA, KEY_RIGHTSHIFT, KEY_S, KEY_U, KEY_W,
};
use crate::device::pointer::{KbdOut, PointerAction, ScrollAxis, SideButton};
use crate::service::dir::{
    spec_to_vector,
    sat_inc, spec_from_alpha, spec_tick_move, spec_update_dir, Dir, DirState,
};

verus! {

pub struct GlideAlpha {
    pub active: bool,
    pub caps_held: bool,
    pub shift_held: bool,
    pub btn_held: Option<MouseButton>,
    pub dir: DirState,
}

/// The key writes that end a mode toggle: every key of the chord released,
/// then a report, so the desktop never sees them stuck.
pub open spec fn release_all(codes: Seq<u16>) -> Seq<KbdOut> {
    Seq::new(codes.len(), |i: int| KbdOut::Key { code: codes[i], value: 0 }).push(KbdOut::Sync)
}

/// The chord keys that the glide-alpha toggle releases.
pub open spec fn alpha_chord_keys() -> Seq<u16> {
    seq![KEY_LEFTMETA, KEY_RIGHTMETA, KEY_LEFTSHIFT, KEY_RIGHTSHIFT, KEY_CAPSLOCK]
}

/// Meta+Shift+CapsLock (ctrl and alt up) pressed: the glide-alpha toggle
/// chord.
pub open spec fn is_alpha_toggle(code: u16, is_press: bool, mods: ModState) -> bool {
    code == KEY_CAPSLOCK && is_press && mods.meta && mods.shift && !mods.ctrl && !mods.alt
}

/// Scroll axis and direction of w/a/s/d.
pub open spec fn spec_scroll_code(code: u16) -> Option<(ScrollAxis, i32)> {
    if code == KEY_W {
        Some((ScrollAxis::Vertical, 1i32))
    } else if code == KEY_A {
        Some((ScrollAxis::Horizontal, -1i32))
    } else if code == KEY_S {
        Some((ScrollAxis::Vertical, -1i32))
    } else if code == KEY_D {
        Some((ScrollAxis::Horizontal, 1i32))
    } else {
        None
    }
}

/// Button held by u/i/o.
pub open spec fn spec_alpha_button(code: u16) -> Option<MouseButton> {
    if code == KEY_U {
        Some(MouseButton::Left)
    } else if code == KEY_I {
        Some(MouseButton::Middle)
    } else if code == KEY_O {
        Some(MouseButton::Right)
    } else {
        None
    }
}

/// Side button clicked by n/m.
pub open spec fn spec_alpha_side(code: u16) -> Option<SideButton> {
    if code == KEY_N {
        Some(SideButton::Back)
    } else if code == KEY_M {
        Some(SideButton::Forward)
    } else {
        None
    }
}

/// The state with its held keys, button and directions cleared.
pub open spec fn spec_reset_input(s: GlideAlpha) -> GlideAlpha {
    GlideAlpha {
        active: s.active,
        caps_held: false,
        shift_held: false,
        btn_held: None,
        dir: DirState { held: 0, mask: Dir { bits: 0 }, count: 0 },
    }
}

/// What one key event does to glide-alpha: the next state, whether the key
/// is consumed, and the pointer operation it asks for.
#[verifier::opaque]
pub open spec fn spec_alpha_event(s: GlideAlpha, code: u16, value: i32, is_press: bool) -> (
    GlideAlpha,
    bool,
    Option<PointerAction>,
) {
    if code == KEY_CAPSLOCK {
        (GlideAlpha { caps_held: is_press, ..s }, true, None)
    } else if code == KEY_LEFTSHIFT || code == KEY_RIGHTSHIFT {
        (GlideAlpha { shift_held: is_press, ..s }, false, None)
    } else if !s.caps_held || s.shift_held {
        (s, false, None)
    } else if let Some(flag) = spec_from_alpha(code) {
        let (h, m, c) = spec_update_dir(s.dir.held, s.dir.mask.bits, s.dir.count, flag, value);
        (GlideAlpha { dir: DirState { held: h, mask: Dir { bits: m }, count: c }, ..s }, true, None)
    } else if let Some((axis, d)) = spec_scroll_code(code) {
        (s, true, if is_press { Some(PointerAction::Scroll { axis, dir: d }) } else { None })
    } else if let Some(btn) = spec_alpha_button(code) {
        if value > 0 {
            if s.btn_held is None {
                (
                    GlideAlpha { btn_held: Some(btn), ..s },
                    true,
                    Some(PointerAction::Button { button: btn, press: true }),
                )
            } else {
                (s, true, None)
            }
        } else if s.btn_held == Some(btn) {
            (
                GlideAlpha { btn_held: None, ..s },
                true,
                Some(PointerAction::Button { button: btn, press: false }),
            )
        } else {
            (s, true, None)
        }
    } else if let Some(side) = spec_alpha_side(code) {
        (s, true, if is_press { Some(PointerAction::Side { side: side }) } else { None })
    } else {
        (s, false, None)
    }
}

fn scroll_code(code: u16) -> (r: Option<(ScrollAxis, i32)>)
    ensures
        r == spec_scroll_code(code),
{
    match code {
        KEY_W => Some((ScrollAxis::Vertical, 1)),
        KEY_A => Some((ScrollAxis::Horizontal, -1)),
        KEY_S => Some((ScrollAxis::Vertical, -1)),
        KEY_D => Some((ScrollAxis::Horizontal, 1)),
        _ => None,
    }
}

fn shift_code(code: u16) -> (b: bool)
    ensures
        b == (code == KEY_LEFTSHIFT || code == KEY_RIGHTSHIFT),
{
    code == KEY_LEFTSHIFT || code == KEY_RIGHTSHIFT
}

/// The release writes for the chord keys `codes`.
pub fn release_keys(codes: &[u16]) -> (out: Vec<KbdOut>)
    ensures
        out@ == release_all(codes@),
{
    let mut out: Vec<KbdOut> = Vec::new();
    let mut i: usize = 0;
    while i < codes.len()
        invariant
            i <= codes@.len(),
            out@ == Seq::new(i as nat, |j: int| KbdOut::Key { code: codes@[j], value: 0 }),
        decreases codes@.len() - i,
    {
        out.push(KbdOut::Key { code: codes[i], value: 0 });
        i = i + 1;
        assert(out@ =~= Seq::new(i as nat, |j: int| KbdOut::Key { code: codes@[j], value: 0 }));
    }
    out.push(KbdOut::Sync);
    out
}

impl GlideAlpha {
    pub fn new() -> (g: GlideAlpha)
        ensures
            !g.active,
            g == spec_reset_input(g),
    {
        GlideAlpha {
            active: false,
            caps_held: false,
            shift_held: false,
            btn_held: None,
            dir: DirState::new(),
        }
    }

    pub fn active(&self) -> (b: bool)
        ensures
            b == self.active,
    {
        self.active
    }

    /// Toggle glide-alpha on/off via Meta+Shift+CapsLock. Returns whether
    /// the event was consumed, and the key writes that release the chord.
    pub fn toggle(&mut self, code: u16, value: i32, is_press: bool, mods: &ModState) -> (res: (
        bool,
        Vec<KbdOut>,
    ))
        ensures
            !is_alpha_toggle(code, is_press, *mods) ==> !res.0 && res.1@.len() == 0 && *final(self)
                == *old(self),
            is_alpha_toggle(code, is_press, *mods) ==> res.0 && res.1@ == release_all(
                alpha_chord_keys(),
            ) && *final(self) == spec_reset_input(GlideAlpha { active: !old(self).active, ..*old(self) }),
    {
        if code != KEY_CAPSLOCK || !is_press || !mods.meta || !mods.shift || mods.ctrl || mods.alt {
            return (false, Vec::new());
        }
        self.active = !self.active;
        self.reset_input();
        let keys: [u16; 5] = [KEY_LEFTMETA, KEY_RIGHTMETA, KEY_LEFTSHIFT, KEY_RIGHTSHIFT, KEY_CAPSLOCK];
        let out = release_keys(&keys);
        proof {
            assert(keys@ == alpha_chord_keys());
        }
        (true, out)
    }

    /// One per-frame movement step while a direction is held.
    pub fn direction_tick(&mut self) -> (act: Option<PointerAction>)
        ensures
            *final(self) == (GlideAlpha {
                dir: DirState {
                    count: if old(self).dir.held == 1 { sat_inc(old(self).dir.count) } else { old(self).dir.count },
                    ..old(self).dir
                },
                ..*old(self)
            }),
            old(self).dir.held != 1 ==> act is None,
            old(self).dir.held == 1 ==> act == Some(
                spec_tick_move(old(self).dir.mask.bits, sat_inc(old(self).dir.count)),
            ),
    {
        self.dir.tick()
    }

    /// Clear held directions, buttons and modifiers (e.g. on a mode toggle
    /// or a stuck state).
    pub fn reset_input(&mut self)
        ensures
            *final(self) == spec_reset_input(*old(self)),
    {
        self.dir = DirState::new();
        self.btn_held = None;
        self.caps_held = false;
        self.shift_held = false;
    }

    /// Handle one key event. Returns whether the key was consumed, and the
    /// pointer operation to perform.
    pub fn handle_event(&mut self, code: u16, value: i32, is_press: bool) -> (res: (
        bool,
        Option<PointerAction>,
    ))
        ensures
            (*final(self), res.0, res.1) == spec_alpha_event(*old(self), code, value, is_press),
    {
        reveal(spec_alpha_event);
        if code == KEY_CAPSLOCK {
            self.caps_held = is_press;
            return (true, None);
        }
        if shift_code(code) {
            self.shift_held = is_press;
            return (false, None);
        }
        let caps = self.caps_held;
        let s = self.shift_held;
        if !caps || s {
            return (false, None);
        }
        if let Some(flag) = Dir::from_alpha(code) {
            self.dir.update(flag, value);
            return (true, None);
        }
        if let Some((axis, dir)) = scroll_code(code) {
            if is_press {
                return (true, Some(PointerAction::Scroll { axis, dir }));
            }
            return (true, None);
        }
        let btn = match code {
            KEY_U => Some(MouseButton::Left),
            KEY_I => Some(MouseButton::Middle),
            KEY_O => Some(MouseButton::Right),
            _ => None,
        };
        if let Some(btn) = btn {
            if value > 0 {
                if self.btn_held.is_none() {
                    self.btn_held = Some(btn);
                    return (true, Some(PointerAction::Button { button: btn, press: true }));
                }
            } else {
                let same = match self.btn_held {
                    Some(held) => held == btn,
                    None => false,
                };
                if same {
                    self.btn_held = None;
                    return (true, Some(PointerAction::Button { button: btn, press: false }));
                }
            }
            return (true, None);
        }
        let side = match code {
            KEY_N => Some(SideButton::Back),
            KEY_M => Some(SideButton::Forward),
            _ => None,
        };
        if let Some(side) = side {
            if is_press {
                return (true, Some(PointerAction::Side { side: side }));
            }
            return (true, None);
        }
        (false, None)
    }
}

/// CapsLock held, an h/j/k/l press starts a glide: from a state with no
/// key held, the CapsLock press and the direction press are both consumed
/// and the next tick moves three pixels that way.
pub proof fn lemma_caps_direction_glides(s: GlideAlpha, code: u16)
    requires
        spec_from_alpha(code) is Some,
        !s.shift_held,
        s.dir.held == 0 && s.dir.mask.bits == 0 && s.dir.count == 0,
    ensures
        ({
            let (a1, c1, act1) = spec_alpha_event(s, KEY_CAPSLOCK, 1, true);
            let (a2, c2, act2) = spec_alpha_event(a1, code, 1, true);
            let v = spec_to_vector(spec_from_alpha(code)->0);
            &&& c1 && act1 is None
            &&& c2 && act2 is None
            &&& a2.dir.held == 1
            &&& spec_tick_move(a2.dir.mask.bits, sat_inc(a2.dir.count)) == (PointerAction::MoveRel {
                dx: (v.0 * 3) as i32,
                dy: (v.1 * 3) as i32,
            })
        }),
{
    reveal(spec_alpha_event);
    vstd::arithmetic::power2::lemma2_to64();
    let f = spec_from_alpha(code)->0;
    assert(0u8 | f == f) by (bit_vector);
}

/// With CapsLock held and Shift up, u, i and o hold the left, middle and
/// right button: with no button held the press is consumed and presses
/// that button, and the release of the same key releases it again.
pub proof fn lemma_uio_hold_buttons(s: GlideAlpha, code: u16, value: i32, is_press: bool)
    requires
        s.caps_held,
        !s.shift_held,
        s.btn_held is None,
        code == KEY_U || code == KEY_I || code == KEY_O,
        value > 0,
    ensures
        ({
            let b = if code == KEY_U {
                MouseButton::Left
            } else if code == KEY_I {
                MouseButton::Middle
            } else {
                MouseButton::Right
            };
            let (a1, c1, act1) = spec_alpha_event(s, code, value, is_press);
            let (a2, c2, act2) = spec_alpha_event(a1, code, 0, false);
            &&& c1 && act1 == Some(PointerAction::Button { button: b, press: true })
            &&& a1 == (GlideAlpha { btn_held: Some(b), ..s })
            &&& c2 && act2 == Some(PointerAction::Button { button: b, press: false })
            &&& a2 == s
        }),
{
    reveal(spec_alpha_event);
    assert(spec_from_alpha(code) is None);
}

/// With CapsLock held and Shift up, a press of w, s, a or d scrolls one
/// notch up, down, left or right and changes nothing else.
pub proof fn lemma_wasd_scroll(s: GlideAlpha, code: u16, value: i32)
    requires
        s.caps_held,
        !s.shift_held,
        code == KEY_W || code == KEY_S || code == KEY_A || code == KEY_D,
    ensures
        spec_alpha_event(s, code, value, true) == (s, true, Some(
            if code == KEY_W {
                PointerAction::Scroll { axis: ScrollAxis::Vertical, dir: 1i32 }
            } else if code == KEY_S {
                PointerAction::Scroll { axis: ScrollAxis::Vertical, dir: -1i32 }
            } else if code == KEY_A {
                PointerAction::Scroll { axis: ScrollAxis::Horizontal, dir: -1i32 }
            } else {
                PointerAction::Scroll { axis: ScrollAxis::Horizontal, dir: 1i32 }
            },
        )),
{
    reveal(spec_alpha_event);
    assert(spec_from_alpha(code) is None);
}

} // verus!
