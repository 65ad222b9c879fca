//! Decisions of the Windows keyboard hook: auto-repeat suppression, and the
//! liveness probe that detects a hook the system has stalled.
use vstd::prelude::*;

verus! {

/// Probe period and answer timeout, in milliseconds.
pub const PROBE_INTERVAL_MS: u64 = 100;

pub const PROBE_TIMEOUT_MS: u64 = 100;

/// Time from `earlier` to `later`, zero if `later` is not after it.
pub open spec fn elapsed(later: u64, earlier: u64) -> int {
    if later >= earlier { later - earlier } else { 0 }
}

/// Liveness-probe state machine: arm a probe on an interval, then declare
/// the hook stalled if the probe went unanswered within a timeout. Times
/// are milliseconds on a monotonic clock.
pub struct Probe {
    pub interval: u64,
    pub timeout: u64,
    pub last: u64,
    pub pending: bool,
}

/// The probe after checking it at `now`, and whether the hook stalled.
pub open spec fn spec_check(p: Probe, now: u64, answered: bool) -> (Probe, bool) {
    if !p.pending || elapsed(now, p.last) < p.timeout {
        (p, false)
    } else {
        (Probe { pending: false, ..p }, !answered)
    }
}

impl Probe {
    pub fn new(now: u64) -> (p: Probe)
        ensures
            p.interval == PROBE_INTERVAL_MS,
            p.timeout == PROBE_TIMEOUT_MS,
            p.last == now,
            !p.pending,
    {
        Probe { interval: PROBE_INTERVAL_MS, timeout: PROBE_TIMEOUT_MS, last: now, pending: false }
    }

    /// A probe is due when none is pending and the interval has passed.
    pub fn due(&self, now: u64) -> (b: bool)
        ensures
            b == (!self.pending && elapsed(now, self.last) >= self.interval),
    {
        !self.pending && (if now >= self.last { now - self.last } else { 0 }) >= self.interval
    }

    /// A probe was just sent.
    pub fn arm(&mut self, now: u64)
        ensures
            *final(self) == (Probe { last: now, pending: true, ..*old(self) }),
    {
        self.last = now;
        self.pending = true;
    }

    /// Once the pending probe's timeout has passed, settle it: returns
    /// `true` when it went unanswered (the hook stalled).
    pub fn check(&mut self, now: u64, answered: bool) -> (stalled: bool)
        ensures
            (*final(self), stalled) == spec_check(*old(self), now, answered),
    {
        let passed = if now >= self.last { now - self.last } else { 0 };
        if !self.pending || passed < self.timeout {
            return false;
        }
        self.pending = false;
        !answered
    }
}

/// What the hook does with a key event.
#[derive(Clone, Copy, Debug, PartialEq, Eq, Structural)]
pub enum HookVerdict {
    /// A first press or a release: hand it to the service.
    Dispatch,
    /// An auto-repeat of a key whose press was consumed: swallow it.
    SwallowRepeat,
    /// An auto-repeat of a key whose press went through: let it through.
    PassRepeat,
}

/// Per-key pressed and swallowed flags. Windows auto-repeats the key-down
/// message while a key is held (evdev sends one press); repeats must not
/// reach the service, and a swallowed key keeps its repeats swallowed.
pub struct HookState {
    pub pressed: Vec<bool>,
    pub swallowed: Vec<bool>,
}

/// The hook's key flags after a key event of `vk`, and the verdict.
pub open spec fn spec_on_key(pressed: Seq<bool>, swallowed: Seq<bool>, vk: int, key_down: bool) -> (
    Seq<bool>,
    Seq<bool>,
    HookVerdict,
) {
    if key_down {
        if pressed[vk] {
            (
                pressed,
                swallowed,
                if swallowed[vk] {
                    HookVerdict::SwallowRepeat
                } else {
                    HookVerdict::PassRepeat
                },
            )
        } else {
            (pressed.update(vk, true), swallowed, HookVerdict::Dispatch)
        }
    } else {
        (pressed.update(vk, false), swallowed.update(vk, false), HookVerdict::Dispatch)
    }
}

impl HookState {
    pub open spec fn wf(&self) -> bool {
        self.pressed@.len() == 256 && self.swallowed@.len() == 256
    }

    pub fn new() -> (s: HookState)
        ensures
            s.wf(),
            forall|i: int| 0 <= i < 256 ==> !s.pressed@[i] && !s.swallowed@[i],
    {
        let mut pressed: Vec<bool> = Vec::new();
        let mut swallowed: Vec<bool> = Vec::new();
        let mut i: usize = 0;
        while i < 256
            invariant
                i <= 256,
                pressed@.len() == i && swallowed@.len() == i,
                forall|j: int| 0 <= j < i ==> !pressed@[j] && !swallowed@[j],
            decreases 256 - i,
        {
            pressed.push(false);
            swallowed.push(false);
            i = i + 1;
        }
        HookState { pressed, swallowed }
    }

    /// Classify a key event of virtual key `vk`: a press of a key already
    /// down is an auto-repeat; a release clears the key's flags.
    pub fn on_key(&mut self, vk: usize, key_down: bool) -> (v: HookVerdict)
        requires
            old(self).wf(),
            vk < 256,
        ensures
            final(self).wf(),
            (final(self).pressed@, final(self).swallowed@, v) == spec_on_key(
                old(self).pressed@,
                old(self).swallowed@,
                vk as int,
                key_down,
            ),
    {
        if key_down {
            if self.pressed[vk] {
                return if self.swallowed[vk] {
                    HookVerdict::SwallowRepeat
                } else {
                    HookVerdict::PassRepeat
                };
            }
            self.pressed.set(vk, true);
            HookVerdict::Dispatch
        } else {
            self.pressed.set(vk, false);
            self.swallowed.set(vk, false);
            HookVerdict::Dispatch
        }
    }

    /// Remember whether the service consumed the press of `vk`.
    pub fn record(&mut self, vk: usize, consumed: bool)
        requires
            old(self).wf(),
            vk < 256,
        ensures
            final(self).wf(),
            final(self).pressed@ == old(self).pressed@,
            final(self).swallowed@ == old(self).swallowed@.update(vk as int, consumed),
    {
        self.swallowed.set(vk, consumed);
    }
}

/// A key's auto-repeats never reach the service: once a press of `vk` has
/// been dispatched, further presses of it are not dispatched until it is
/// released, and they keep the fate (swallowed or not) that the service
/// gave the first press; the release is dispatched and clears the key.
pub proof fn lemma_repeats_not_dispatched(
    pressed: Seq<bool>,
    swallowed: Seq<bool>,
    vk: int,
    consumed: bool,
)
    requires
        pressed.len() == 256,
        swallowed.len() == 256,
        0 <= vk < 256,
        !pressed[vk],
    ensures
        ({
            let (p1, s1, v1) = spec_on_key(pressed, swallowed, vk, true);
            let s2 = s1.update(vk, consumed);
            let (p3, s3, v3) = spec_on_key(p1, s2, vk, true);
            let (p4, s4, v4) = spec_on_key(p3, s3, vk, false);
            &&& v1 == HookVerdict::Dispatch
            &&& v3 == if consumed { HookVerdict::SwallowRepeat } else { HookVerdict::PassRepeat }
            &&& p3 == p1 && s3 == s2
            &&& v4 == HookVerdict::Dispatch
            &&& !p4[vk] && !s4[vk]
        }),
{
}

/// A stalled probe is reported once: after a check has settled the probe,
/// checks report nothing until a new probe is armed.
pub proof fn lemma_stall_reported_once(p: Probe, now: u64, answered: bool, later: u64, answered2: bool)
    ensures
        ({
            let (p1, stalled) = spec_check(p, now, answered);
            stalled ==> !spec_check(p1, later, answered2).1 && !p1.pending
        }),
{
}

} // verus!
