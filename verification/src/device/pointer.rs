//! Platform-neutral pointer and keyboard output: what the modes ask the
//! virtual pointer and the pass-through keyboard to do, and the evdev event
//! batches that carry each pointer operation on Linux.
use vstd::prelude::*;

use crate::config::{hid_button_code, spec_hid_button_code, MouseButton, BTN_EXTRA, BTN_SIDE};
use crate::device::linux::abi::{ev, syn, RawEvent, EV_KEY, EV_REL, EV_SYN, REL_HWHEEL, REL_WHEEL, REL_X, REL_Y, SYN_REPORT};

verus! {

/// Scroll axis for mouse-wheel events.
#[derive(Clone, Copy, Debug, PartialEq, Eq, Structural)]
pub enum ScrollAxis {
    Vertical,
    Horizontal,
}

/// Side buttons (browser back/forward).
#[derive(Clone, Copy, Debug, PartialEq, Eq, Structural)]
pub enum SideButton {
    Back,
    Forward,
}

/// One operation of the virtual pointer.
#[derive(Clone, Copy, Debug, PartialEq, Eq, Structural)]
pub enum PointerAction {
    /// Move by a relative delta.
    MoveRel { dx: i32, dy: i32 },
    /// Press (`press`) or release a button.
    Button { button: MouseButton, press: bool },
    /// Press and release a button `count` times, half the click interval
    /// after each press and each release.
    Click { button: MouseButton, count: u32 },
    /// One wheel notch along `axis`, `dir` = +1 or -1.
    Scroll { axis: ScrollAxis, dir: i32 },
    /// Press and release a side button.
    Side { side: SideButton },
    /// Warp to absolute screen coordinates.
    Warp { x: i32, y: i32 },
}

/// One write to the pass-through keyboard.
#[derive(Clone, Copy, Debug, PartialEq, Eq, Structural)]
pub enum KbdOut {
    /// Key `code` with value `value` (0 release, 1 press).
    Key { code: u16, value: i32 },
    /// Close the batch.
    Sync,
}

/// Wheel code of a scroll axis.
pub open spec fn spec_wheel_code(axis: ScrollAxis) -> u16 {
    match axis {
        ScrollAxis::Vertical => REL_WHEEL,
        ScrollAxis::Horizontal => REL_HWHEEL,
    }
}

/// Button code of a side button.
pub open spec fn spec_side_code(button: SideButton) -> u16 {
    match button {
        SideButton::Back => BTN_SIDE,
        SideButton::Forward => BTN_EXTRA,
    }
}

/// Events of a relative move: X, Y, report.
pub fn move_rel_events(dx: i32, dy: i32) -> (evs: Vec<RawEvent>)
    ensures
        evs@ == seq![ev(EV_REL, REL_X, dx), ev(EV_REL, REL_Y, dy), syn()],
{
    let mut evs = Vec::new();
    evs.push(RawEvent { type_: EV_REL, code: REL_X, value: dx });
    evs.push(RawEvent { type_: EV_REL, code: REL_Y, value: dy });
    evs.push(RawEvent { type_: EV_SYN, code: SYN_REPORT, value: 0 });
    evs
}

/// Step `half` of a click run: the even steps press `button`, the odd ones
/// release it, so `count` clicks are the steps `0 .. 2 * count`, each
/// followed by half the click interval.
pub fn click_step(button: MouseButton, half: u64) -> (act: PointerAction)
    ensures
        act == (PointerAction::Button { button, press: half % 2 == 0 }),
{
    PointerAction::Button { button, press: half % 2 == 0 }
}

/// Events of a button press (value 1) or release (value 0), then a report.
pub fn button_events(button: MouseButton, press: bool) -> (evs: Vec<RawEvent>)
    ensures
        evs@ == seq![ev(EV_KEY, spec_hid_button_code(button), if press { 1i32 } else { 0i32 }), syn()],
{
    let mut evs = Vec::new();
    let value: i32 = if press { 1 } else { 0 };
    evs.push(RawEvent { type_: EV_KEY, code: hid_button_code(button), value });
    evs.push(RawEvent { type_: EV_SYN, code: SYN_REPORT, value: 0 });
    evs
}

/// Events of one wheel notch: the axis' wheel code with `dir`, then a report.
pub fn scroll_events(axis: ScrollAxis, dir: i32) -> (evs: Vec<RawEvent>)
    ensures
        evs@ == seq![ev(EV_REL, spec_wheel_code(axis), dir), syn()],
{
    let code = match axis {
        ScrollAxis::Vertical => REL_WHEEL,
        ScrollAxis::Horizontal => REL_HWHEEL,
    };
    let mut evs = Vec::new();
    evs.push(RawEvent { type_: EV_REL, code, value: dir });
    evs.push(RawEvent { type_: EV_SYN, code: SYN_REPORT, value: 0 });
    evs
}

/// Events of a side-button click: press, report, release, report.
pub fn side_events(button: SideButton) -> (evs: Vec<RawEvent>)
    ensures
        evs@ == seq![
            ev(EV_KEY, spec_side_code(button), 1),
            syn(),
            ev(EV_KEY, spec_side_code(button), 0),
            syn(),
        ],
{
    let code = match button {
        SideButton::Back => BTN_SIDE,
        SideButton::Forward => BTN_EXTRA,
    };
    let mut evs = Vec::new();
    evs.push(RawEvent { type_: EV_KEY, code, value: 1 });
    evs.push(RawEvent { type_: EV_SYN, code: SYN_REPORT, value: 0 });
    evs.push(RawEvent { type_: EV_KEY, code, value: 0 });
    evs.push(RawEvent { type_: EV_SYN, code: SYN_REPORT, value: 0 });
    evs
}

} // verus!
