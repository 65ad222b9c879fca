//! The service: the cross-mode state machine that routes each key event to
//! glide-num, glide-alpha or the grid, or passes it through.
pub mod dir;
pub mod glide_alpha;
pub mod glide_num;
pub mod grid;
pub mod windows;

use vstd::prelude::*;

use crate::keymap::{
    key_map, spec_key_map, ModState, KEY_CAPSLOCK, KEY_KPENTER, KEY_LEFTMETA, KEY_NUMLOCK,
    KEY_RIGHTMETA, KEY_TAB,
};
use crate::device::pointer::{KbdOut, PointerAction};
use crate::device::linux::abi::EV_KEY;
use self::glide_alpha::{
    alpha_chord_keys, release_all, release_keys, spec_alpha_event, spec_reset_input, GlideAlpha,
};
use self::glide_num::{spec_new_glide_num, spec_num_event, GlideNum};

verus! {

/// One thing the service loop must do for an input event, in order.
#[derive(Clone, Copy, Debug, PartialEq, Eq, Structural)]
pub enum Step {
    /// Write to the pass-through keyboard.
    Kbd(KbdOut),
    /// Operate the virtual pointer.
    Pointer(PointerAction),
    /// Turn the grid on or off (connects to or drops the overlay).
    ToggleGrid,
    /// Hand the key to the active grid.
    GridKey { code: u16 },
    /// Pass the event through to the desktop unchanged.
    Forward,
}

/// Keys that go to the grid: those the key map knows, and Tab.
pub open spec fn spec_is_grid_key(code: u16) -> bool {
    spec_key_map(code, false) is Some || code == KEY_TAB
}

pub fn is_grid_key(code: u16) -> (b: bool)
    ensures
        b == spec_is_grid_key(code),
{
    let mods = ModState { shift: false, ctrl: false, meta: false, alt: false };
    key_map(code, &mods).is_some() || code == KEY_TAB
}

/// No modifier is held.
pub open spec fn no_mods(m: ModState) -> bool {
    !m.meta && !m.shift && !m.ctrl && !m.alt
}

/// NumLock+KPEnter (no modifier): the glide-num toggle chord.
pub open spec fn is_num_toggle(code: u16, is_press: bool, numlock_held: bool, m: ModState) -> bool {
    code == KEY_KPENTER && is_press && numlock_held && no_mods(m)
}

/// Meta+CapsLock (shift, ctrl and alt up): the grid toggle chord.
pub open spec fn is_grid_toggle(code: u16, is_press: bool, m: ModState) -> bool {
    code == KEY_CAPSLOCK && is_press && m.meta && !m.shift && !m.ctrl && !m.alt
}

/// The press completes a mode-toggle chord: meta+CapsLock (ctrl and alt up)
/// or NumLock+KPEnter (no modifier). A held modifier is then swallowed.
pub open spec fn is_chord(code: u16, is_press: bool, numlock_held: bool, m: ModState) -> bool {
    is_press && ((code == KEY_CAPSLOCK && m.meta && !m.ctrl && !m.alt) || (code == KEY_KPENTER
        && numlock_held && no_mods(m)))
}

/// Modifier presses that are held back until it is known whether a chord
/// follows.
pub open spec fn is_held_back(code: u16) -> bool {
    code == KEY_LEFTMETA || code == KEY_RIGHTMETA || code == KEY_NUMLOCK
}

pub open spec fn kbd_steps(out: Seq<KbdOut>) -> Seq<Step> {
    out.map_values(|k: KbdOut| Step::Kbd(k))
}

pub open spec fn pointer_steps(act: Option<PointerAction>) -> Seq<Step> {
    match act {
        Some(a) => seq![Step::Pointer(a)],
        None => seq![],
    }
}

/// Toggle glide-num on NumLock+KPEnter (no modifier held); track NumLock.
/// Returns whether the event was consumed.
pub fn toggle_glide_num(glide_num: &mut GlideNum, code: u16, value: i32, is_press: bool, mods: &ModState) -> (
    consumed: bool)
    ensures
        ({
            let g = if code == KEY_NUMLOCK { GlideNum { numlock_held: value != 0, ..*old(glide_num) } } else { *old(glide_num) };
            &&& consumed == is_num_toggle(code, is_press, g.numlock_held, *mods)
            &&& *final(glide_num) == if consumed { GlideNum { active: !g.active, ..g } } else { g }
        }),
{
    if code == KEY_NUMLOCK {
        glide_num.set_numlock(value != 0);
    }
    if code == KEY_KPENTER && is_press && glide_num.numlock_held() && !mods.meta && !mods.shift
        && !mods.ctrl && !mods.alt {
        glide_num.toggle();
        return true;
    }
    false
}

/// The cross-mode state: modifiers, the held-back modifier press, and the
/// two glide modes. The grid's own state lives with its overlay.
pub struct Service {
    pub mods: ModState,
    pub pending: Option<u16>,
    pub glide_num: GlideNum,
    pub glide_alpha: GlideAlpha,
}

/// Routing of a key event to the active modes, after the toggles: glide-num
/// first, then glide-alpha, then the grid; anything unconsumed passes
/// through.
pub open spec fn spec_input(b: Service, code: u16, value: i32, is_press: bool, grid_active: bool) -> (
    Service,
    Seq<Step>,
) {
    let gn = b.glide_num;
    if gn.active && spec_num_event(gn, code, value, is_press).1 {
        let (g2, _, act) = spec_num_event(gn, code, value, is_press);
        (Service { glide_num: g2, ..b }, pointer_steps(act))
    } else {
        let (b2, consumed, act) = if b.glide_alpha.active {
            let (a2, c, act) = spec_alpha_event(b.glide_alpha, code, value, is_press);
            (Service { glide_alpha: a2, ..b }, c, act)
        } else {
            (b, false, None)
        };
        if consumed {
            (b2, pointer_steps(act))
        } else if grid_active && spec_is_grid_key(code) && value != 0 {
            (b2, seq![Step::GridKey { code }])
        } else {
            (b2, seq![Step::Forward])
        }
    }
}

/// The mode toggles, then the routing of a key event.
pub open spec fn spec_route(b: Service, code: u16, value: i32, is_press: bool, grid_active: bool) -> (
    Service,
    Seq<Step>,
) {
    let gn = b.glide_num;
    if is_num_toggle(code, is_press, gn.numlock_held, b.mods) {
        (Service { glide_num: GlideNum { active: !gn.active, ..gn }, ..b }, seq![])
    } else if glide_alpha::is_alpha_toggle(code, is_press, b.mods) {
        (
            Service {
                glide_alpha: spec_reset_input(
                    GlideAlpha { active: !b.glide_alpha.active, ..b.glide_alpha },
                ),
                ..b
            },
            kbd_steps(release_all(alpha_chord_keys())),
        )
    } else if is_grid_toggle(code, is_press, b.mods) {
        (
            b,
            seq![Step::ToggleGrid] + kbd_steps(
                release_all(seq![KEY_LEFTMETA, KEY_RIGHTMETA, KEY_CAPSLOCK]),
            ),
        )
    } else {
        spec_input(b, code, value, is_press, grid_active)
    }
}

/// What the service does with one input event (`type_`, `code`, `value`)
/// while the grid is on (`grid_active`) or off: the next state and the
/// steps to perform, in order. A press of Meta or NumLock is held back;
/// the next key event replays it first unless it completes a toggle chord.
pub open spec fn spec_dispatch(s: Service, type_: u16, code: u16, value: i32, grid_active: bool) -> (
    Service,
    Seq<Step>,
) {
    let is_press = value > 0;
    let mods = s.mods.after(code, is_press);
    if type_ != EV_KEY {
        (Service { mods, ..s }, seq![Step::Forward])
    } else {
        let gn = if code == KEY_NUMLOCK {
            GlideNum { numlock_held: value != 0, ..s.glide_num }
        } else {
            s.glide_num
        };
        let chord = is_chord(code, is_press, gn.numlock_held, mods);
        let replay = match s.pending {
            Some(p) => if chord {
                seq![]
            } else {
                seq![Step::Kbd(KbdOut::Key { code: p, value: 1 }), Step::Kbd(KbdOut::Sync)]
            },
            None => seq![],
        };
        let base = Service { mods, pending: None, glide_num: gn, glide_alpha: s.glide_alpha };
        if is_press && is_held_back(code) {
            (Service { pending: Some(code), ..base }, replay)
        } else {
            let (n, out) = spec_route(base, code, value, is_press, grid_active);
            (n, replay + out)
        }
    }
}

fn push_kbd(steps: &mut Vec<Step>, out: Vec<KbdOut>)
    ensures
        final(steps)@ == old(steps)@ + kbd_steps(out@),
{
    let mut i: usize = 0;
    let ghost start = steps@;
    while i < out.len()
        invariant
            i <= out@.len(),
            steps@ == start + kbd_steps(out@.subrange(0, i as int)),
        decreases out@.len() - i,
    {
        steps.push(Step::Kbd(out[i]));
        i = i + 1;
        assert(kbd_steps(out@.subrange(0, i as int)) =~= kbd_steps(out@.subrange(0, i - 1)).push(
            Step::Kbd(out@[i - 1]),
        ));
    }
    assert(out@.subrange(0, out@.len() as int) =~= out@);
}

fn push_pointer(steps: &mut Vec<Step>, act: Option<PointerAction>)
    ensures
        final(steps)@ == old(steps)@ + pointer_steps(act),
{
    if let Some(a) = act {
        steps.push(Step::Pointer(a));
    }
    assert(final(steps)@ =~= old(steps)@ + pointer_steps(act)) by {
        if act is None {
            assert(pointer_steps(act) =~= seq![]);
        }
    }
}

impl Service {
    pub fn new() -> (s: Service)
        ensures
            !s.mods.shift && !s.mods.ctrl && !s.mods.meta && !s.mods.alt,
            s.pending is None,
            s.glide_num == spec_new_glide_num(),
            !s.glide_alpha.active && s.glide_alpha == spec_reset_input(s.glide_alpha),
    {
        Service {
            mods: ModState::default(),
            pending: None,
            glide_num: GlideNum::new(),
            glide_alpha: GlideAlpha::new(),
        }
    }

    /// Route one input event. `grid_active` says whether the grid is on.
    /// Returns the steps the loop performs, in order.
    pub fn dispatch(&mut self, type_: u16, code: u16, value: i32, grid_active: bool) -> (steps: Vec<Step>)
        ensures
            (*final(self), steps@) == spec_dispatch(*old(self), type_, code, value, grid_active),
    {
        let is_press = value > 0;
        self.mods.update(code, is_press);
        let mut steps: Vec<Step> = Vec::new();
        if type_ != EV_KEY {
            steps.push(Step::Forward);
            return steps;
        }
        // NumLock is tracked before the hold-back below, so that a held
        // NumLock makes KPEnter a chord.
        if code == KEY_NUMLOCK {
            self.glide_num.set_numlock(value != 0);
        }
        let m = &self.mods;
        let chord = is_press && ((code == KEY_CAPSLOCK && m.meta && !m.ctrl && !m.alt) || (code
            == KEY_KPENTER && self.glide_num.numlock_held() && !m.meta && !m.shift && !m.ctrl
            && !m.alt));
        let pending = self.pending;
        self.pending = None;
        if let Some(p) = pending {
            if !chord {
                steps.push(Step::Kbd(KbdOut::Key { code: p, value: 1 }));
                steps.push(Step::Kbd(KbdOut::Sync));
            }
        }
        if is_press && (code == KEY_LEFTMETA || code == KEY_RIGHTMETA || code == KEY_NUMLOCK) {
            self.pending = Some(code);
            return steps;
        }
        self.route(code, value, is_press, grid_active, &mut steps);
        steps
    }

    /// The mode toggles, then the routing; appends the steps.
    fn route(&mut self, code: u16, value: i32, is_press: bool, grid_active: bool, steps: &mut Vec<Step>)
        requires
            code == KEY_NUMLOCK ==> old(self).glide_num.numlock_held == (value != 0),
        ensures
            ({
                let (n, out) = spec_route(*old(self), code, value, is_press, grid_active);
                *final(self) == n && final(steps)@ == old(steps)@ + out
            }),
    {
        let ghost start = steps@;
        if toggle_glide_num(&mut self.glide_num, code, value, is_press, &self.mods) {
            assert(steps@ =~= start + seq![]);
            return;
        }
        let (consumed, out) = self.glide_alpha.toggle(code, value, is_press, &self.mods);
        if consumed {
            push_kbd(steps, out);
            return;
        }
        if code == KEY_CAPSLOCK && is_press && self.mods.meta && !self.mods.shift && !self.mods.ctrl
            && !self.mods.alt {
            steps.push(Step::ToggleGrid);
            let keys: [u16; 3] = [KEY_LEFTMETA, KEY_RIGHTMETA, KEY_CAPSLOCK];
            let out = release_keys(&keys);
            proof {
                assert(keys@ == seq![KEY_LEFTMETA, KEY_RIGHTMETA, KEY_CAPSLOCK]);
            }
            push_kbd(steps, out);
            proof {
                assert(steps@ =~= start + (seq![Step::ToggleGrid] + kbd_steps(
                    release_all(seq![KEY_LEFTMETA, KEY_RIGHTMETA, KEY_CAPSLOCK]),
                )));
            }
            return;
        }
        self.input(code, value, is_press, grid_active, steps);
    }

    /// Routing to the active modes; appends the steps.
    fn input(&mut self, code: u16, value: i32, is_press: bool, grid_active: bool, steps: &mut Vec<Step>)
        ensures
            ({
                let (n, out) = spec_input(*old(self), code, value, is_press, grid_active);
                *final(self) == n && final(steps)@ == old(steps)@ + out
            }),
    {
        let ghost start = steps@;
        if self.glide_num.active() {
            let ghost before = self.glide_num;
            let (consumed, act) = self.glide_num.handle_event(code, value, is_press);
            if consumed {
                push_pointer(steps, act);
                return;
            }
            proof {
                glide_num::lemma_unconsumed_keeps_state(before, code, value, is_press);
            }
        }
        if self.glide_alpha.active() {
            let (consumed, act) = self.glide_alpha.handle_event(code, value, is_press);
            if consumed {
                push_pointer(steps, act);
                return;
            }
        }
        if grid_active && is_grid_key(code) && value != 0 {
            steps.push(Step::GridKey { code });
            return;
        }
        steps.push(Step::Forward);
    }

    /// One per-frame movement step of both glide modes, glide-num first.
    pub fn direction_tick(&mut self) -> (acts: Vec<PointerAction>)
        ensures
            final(self).mods == old(self).mods,
            final(self).pending == old(self).pending,
            ({
                let mut g = old(self).glide_num;
                let mut a = old(self).glide_alpha;
                &&& final(self).glide_num == (GlideNum {
                    dir_count: if g.dir_held == 1 { dir::sat_inc(g.dir_count) } else { g.dir_count },
                    ..g
                })
                &&& final(self).glide_alpha == (GlideAlpha {
                    dir: dir::DirState {
                        count: if a.dir.held == 1 { dir::sat_inc(a.dir.count) } else { a.dir.count },
                        ..a.dir
                    },
                    ..a
                })
                &&& acts@ == (if g.dir_held == 1 {
                    seq![dir::spec_tick_move(g.dir_mask.bits, dir::sat_inc(g.dir_count))]
                } else {
                    seq![]
                }) + (if a.dir.held == 1 {
                    seq![dir::spec_tick_move(a.dir.mask.bits, dir::sat_inc(a.dir.count))]
                } else {
                    seq![]
                })
            }),
    {
        let mut acts: Vec<PointerAction> = Vec::new();
        if let Some(a) = self.glide_num.direction_tick() {
            acts.push(a);
        }
        if let Some(a) = self.glide_alpha.direction_tick() {
            acts.push(a);
        }
        acts
    }

    /// Clear the held directions of both glide modes (after a stall that may
    /// have lost key releases).
    pub fn reset_direction(&mut self)
        ensures
            final(self).mods == old(self).mods,
            final(self).pending == old(self).pending,
            final(self).glide_num == (GlideNum {
                dir_held: 0,
                dir_mask: dir::Dir { bits: 0 },
                dir_count: 0,
                ..old(self).glide_num
            }),
            final(self).glide_alpha == (GlideAlpha {
                dir: dir::DirState { held: 0, mask: dir::Dir { bits: 0 }, count: 0 },
                ..old(self).glide_alpha
            }),
    {
        self.glide_num.dir_held = 0;
        self.glide_num.dir_mask = dir::Dir::empty();
        self.glide_num.dir_count = 0;
        self.glide_alpha.dir = dir::DirState::new();
    }
}

/// NumLock+KPEnter toggles glide-num: from a state with no modifier and no
/// key held back, a NumLock press followed by a KPEnter press turns
/// glide-num on or off and sends nothing to the desktop (the NumLock press
/// is swallowed by the chord).
pub proof fn lemma_numlock_kpenter_toggles_glide_num(s: Service, grid_active: bool)
    requires
        s.pending is None,
        no_mods(s.mods),
    ensures
        ({
            let (s1, out1) = spec_dispatch(s, EV_KEY, KEY_NUMLOCK, 1, grid_active);
            let (s2, out2) = spec_dispatch(s1, EV_KEY, KEY_KPENTER, 1, grid_active);
            &&& out1.len() == 0
            &&& out2.len() == 0
            &&& s2.glide_num.active == !s.glide_num.active
            &&& s2.glide_num.numlock_held
            &&& s2.pending is None
            &&& s2.glide_alpha == s.glide_alpha
        }),
{
}

/// Meta+CapsLock toggles the grid: from a state with no modifier and no key
/// held back, a Meta press followed by a CapsLock press asks for the grid
/// toggle and then releases Meta and CapsLock; the Meta press never
/// reaches the desktop.
pub proof fn lemma_meta_capslock_toggles_grid(s: Service, grid_active: bool)
    requires
        s.pending is None,
        no_mods(s.mods),
    ensures
        ({
            let (s1, out1) = spec_dispatch(s, EV_KEY, KEY_LEFTMETA, 1, grid_active);
            let (s2, out2) = spec_dispatch(s1, EV_KEY, KEY_CAPSLOCK, 1, grid_active);
            &&& out1.len() == 0
            &&& out2 == seq![Step::ToggleGrid] + kbd_steps(
                release_all(seq![KEY_LEFTMETA, KEY_RIGHTMETA, KEY_CAPSLOCK]),
            )
            &&& s2.pending is None
        }),
{
}

/// Meta+Shift+CapsLock toggles glide-alpha: with Shift held and no key held
/// back, a Meta press followed by a CapsLock press flips glide-alpha,
/// clears its held keys and releases the chord keys.
pub proof fn lemma_meta_shift_capslock_toggles_glide_alpha(s: Service, grid_active: bool)
    requires
        s.pending is None,
        s.mods.shift && !s.mods.ctrl && !s.mods.alt && !s.mods.meta,
    ensures
        ({
            let (s1, out1) = spec_dispatch(s, EV_KEY, KEY_LEFTMETA, 1, grid_active);
            let (s2, out2) = spec_dispatch(s1, EV_KEY, KEY_CAPSLOCK, 1, grid_active);
            &&& out1.len() == 0
            &&& out2 == kbd_steps(release_all(alpha_chord_keys()))
            &&& s2.glide_alpha.active == !s.glide_alpha.active
            &&& s2.glide_alpha == spec_reset_input(s2.glide_alpha)
        }),
{
}

/// The writes that replay a held-back key press.
pub open spec fn replay_of(code: u16) -> Seq<Step> {
    seq![Step::Kbd(KbdOut::Key { code, value: 1 }), Step::Kbd(KbdOut::Sync)]
}

/// A held-back modifier press is not lost: when the next key event does not
/// complete a chord, the press is replayed to the desktop before anything
/// the event itself causes.
pub proof fn lemma_held_modifier_replayed(s: Service, held: u16, code: u16, value: i32, grid_active: bool)
    requires
        s.pending is None,
        is_held_back(held),
    ensures
        ({
            let (s1, out1) = spec_dispatch(s, EV_KEY, held, 1, grid_active);
            let (s2, out2) = spec_dispatch(s1, EV_KEY, code, value, grid_active);
            let gn = if code == KEY_NUMLOCK {
                GlideNum { numlock_held: value != 0, ..s1.glide_num }
            } else {
                s1.glide_num
            };
            &&& out1.len() == 0
            &&& s1.pending == Some(held)
            &&& !is_chord(code, value > 0, gn.numlock_held, s1.mods.after(code, value > 0))
                ==> out2.subrange(0, 2) == replay_of(held)
        }),
{
    let (s1, out1) = spec_dispatch(s, EV_KEY, held, 1, grid_active);
    let (s2, out2) = spec_dispatch(s1, EV_KEY, code, value, grid_active);
    let replay = replay_of(held);
    if value > 0 && is_held_back(code) {
    } else {
        let gn = if code == KEY_NUMLOCK {
            GlideNum { numlock_held: value != 0, ..s1.glide_num }
        } else {
            s1.glide_num
        };
        let base = Service { mods: s1.mods.after(code, value > 0), pending: None, glide_num: gn, glide_alpha: s1.glide_alpha };
        let (n, rest) = spec_route(base, code, value, value > 0, grid_active);
        assert((replay + rest).subrange(0, 2) =~= replay);
    }
}

/// Whether NumLock is held once the key event (`code`, `value`) is seen.
pub open spec fn numlock_after(s: Service, code: u16, value: i32) -> bool {
    if code == KEY_NUMLOCK { value != 0 } else { s.glide_num.numlock_held }
}

/// With both glide modes and the grid off, a key event that neither holds a
/// modifier back nor completes a mode toggle reaches the desktop unchanged:
/// a held-back press is replayed first, then the event is forwarded, and
/// nothing else is done.
pub proof fn lemma_idle_forwards(s: Service, code: u16, value: i32)
    requires
        !s.glide_num.active,
        !s.glide_alpha.active,
        !(value > 0 && is_held_back(code)),
        !is_num_toggle(code, value > 0, numlock_after(s, code, value), s.mods.after(code, value > 0)),
        !is_grid_toggle(code, value > 0, s.mods.after(code, value > 0)),
        !glide_alpha::is_alpha_toggle(code, value > 0, s.mods.after(code, value > 0)),
    ensures
        spec_dispatch(s, EV_KEY, code, value, false).1 == (match s.pending {
            Some(p) => replay_of(p),
            None => seq![],
        }) + seq![Step::Forward],
        spec_dispatch(s, EV_KEY, code, value, false).0.pending is None,
{
    let out = spec_dispatch(s, EV_KEY, code, value, false).1;
    match s.pending {
        Some(p) => assert(out =~= replay_of(p) + seq![Step::Forward]),
        None => assert(out =~= seq![Step::Forward]),
    }
}

/// The glide-num state a key event meets: NumLock tracked first.
pub open spec fn glide_num_seen(s: Service, code: u16, value: i32) -> GlideNum {
    GlideNum { numlock_held: numlock_after(s, code, value), ..s.glide_num }
}

/// A pointer operation that glide-alpha asks for is performed, not dropped:
/// for a key event that holds nothing back and completes no mode toggle,
/// when glide-num does not take the key and glide-alpha is on and consumes
/// it with an operation `a`, the event's steps are a replay of a held-back
/// press (if any) and then `a`, and glide-alpha moves on as it says.
pub proof fn lemma_alpha_pointer_performed(s: Service, code: u16, value: i32, grid_active: bool)
    requires
        !(value > 0 && is_held_back(code)),
        !is_num_toggle(code, value > 0, numlock_after(s, code, value), s.mods.after(code, value > 0)),
        !is_grid_toggle(code, value > 0, s.mods.after(code, value > 0)),
        !glide_alpha::is_alpha_toggle(code, value > 0, s.mods.after(code, value > 0)),
        !(s.glide_num.active && spec_num_event(glide_num_seen(s, code, value), code, value, value > 0).1),
        s.glide_alpha.active,
        spec_alpha_event(s.glide_alpha, code, value, value > 0).1,
        spec_alpha_event(s.glide_alpha, code, value, value > 0).2 is Some,
    ensures
        ({
            let a = spec_alpha_event(s.glide_alpha, code, value, value > 0).2->0;
            let (n, steps) = spec_dispatch(s, EV_KEY, code, value, grid_active);
            &&& steps == (match s.pending {
                Some(p) => if is_chord(code, value > 0, numlock_after(s, code, value), s.mods.after(code, value > 0)) {
                    seq![]
                } else {
                    replay_of(p)
                },
                None => seq![],
            }) + seq![Step::Pointer(a)]
            &&& steps.last() == Step::Pointer(a)
            &&& n.glide_alpha == spec_alpha_event(s.glide_alpha, code, value, value > 0).0
        }),
{
    let a = spec_alpha_event(s.glide_alpha, code, value, value > 0).2->0;
    let (n, steps) = spec_dispatch(s, EV_KEY, code, value, grid_active);
    assert(pointer_steps(Some(a)) =~= seq![Step::Pointer(a)]);
    match s.pending {
        Some(p) => {
            if is_chord(code, value > 0, numlock_after(s, code, value), s.mods.after(code, value > 0)) {
                assert(steps =~= seq![Step::Pointer(a)]);
            } else {
                assert(steps =~= replay_of(p) + seq![Step::Pointer(a)]);
            }
        },
        None => assert(steps =~= seq![Step::Pointer(a)]),
    }
}

/// Likewise for glide-num: when glide-num is on and consumes a key event
/// (that holds nothing back and completes no toggle) with an operation
/// `a`, the event's steps end with `a`, and glide-num moves on as it says.
pub proof fn lemma_num_pointer_performed(s: Service, code: u16, value: i32, grid_active: bool)
    requires
        !(value > 0 && is_held_back(code)),
        !is_num_toggle(code, value > 0, numlock_after(s, code, value), s.mods.after(code, value > 0)),
        !is_grid_toggle(code, value > 0, s.mods.after(code, value > 0)),
        !glide_alpha::is_alpha_toggle(code, value > 0, s.mods.after(code, value > 0)),
        s.glide_num.active,
        spec_num_event(glide_num_seen(s, code, value), code, value, value > 0).1,
        spec_num_event(glide_num_seen(s, code, value), code, value, value > 0).2 is Some,
    ensures
        ({
            let (g, _, act) = spec_num_event(glide_num_seen(s, code, value), code, value, value > 0);
            let (n, steps) = spec_dispatch(s, EV_KEY, code, value, grid_active);
            &&& steps.len() >= 1
            &&& steps.last() == Step::Pointer(act->0)
            &&& n.glide_num == g
        }),
{
    let (g, _, act) = spec_num_event(glide_num_seen(s, code, value), code, value, value > 0);
    let (n, steps) = spec_dispatch(s, EV_KEY, code, value, grid_active);
    assert(pointer_steps(act) =~= seq![Step::Pointer(act->0)]);
}

} // verus!
