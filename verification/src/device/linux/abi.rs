//! Linux input ABI values: event types and codes, the event record the
//! kernel reads and writes, and the data of a uinput device setup.
use vstd::prelude::*;
use vstd::string::StringSliceAdditionalSpecFns;

use crate::config::UINPUT_NAME_MAXLEN;

verus! {

pub const EV_SYN: u16 = 0;

pub const EV_KEY: u16 = 1;

pub const EV_REL: u16 = 2;

pub const EV_ABS: u16 = 3;

pub const REL_X: u16 = 0;

pub const REL_Y: u16 = 1;

pub const REL_HWHEEL: u16 = 6;

pub const REL_WHEEL: u16 = 8;

pub const ABS_X: u16 = 0;

pub const ABS_Y: u16 = 1;

pub const SYN_REPORT: u16 = 0;

/// One input event without its timestamp (written with a zero time).
#[derive(Clone, Copy, Debug, PartialEq, Eq, Structural)]
pub struct RawEvent {
    pub type_: u16,
    pub code: u16,
    pub value: i32,
}

pub open spec fn ev(type_: u16, code: u16, value: i32) -> RawEvent {
    RawEvent { type_, code, value }
}

/// The report that closes a batch of events.
pub open spec fn syn() -> RawEvent {
    ev(EV_SYN, SYN_REPORT, 0)
}

/// The key events that release every keycode from 1 to `max`, in order.
pub open spec fn release_every_key(max: u16) -> Seq<RawEvent> {
    Seq::new(max as nat, |i: int| ev(EV_KEY, (i + 1) as u16, 0))
}

/// The batch a virtual keyboard starts with: every keycode from 1 to `max`
/// released, then a report.
pub fn release_all_events(max: u16) -> (evs: Vec<RawEvent>)
    ensures
        evs@ == release_every_key(max).push(syn()),
{
    let mut evs: Vec<RawEvent> = Vec::new();
    let mut code: u16 = 0;
    while code < max
        invariant
            code <= max,
            evs@ == release_every_key(code),
        decreases max - code,
    {
        code = code + 1;
        evs.push(RawEvent { type_: EV_KEY, code, value: 0 });
        assert(evs@ =~= release_every_key(code));
    }
    evs.push(RawEvent { type_: EV_SYN, code: SYN_REPORT, value: 0 });
    evs
}

/// Event types a virtual device registers: keys and reports, and relative
/// motion where it is a pointer (`rel`).
pub fn device_event_types(rel: bool) -> (types: Vec<u16>)
    ensures
        types@ == (if rel { seq![EV_KEY, EV_SYN, EV_REL] } else { seq![EV_KEY, EV_SYN] }),
{
    let mut types: Vec<u16> = Vec::new();
    types.push(EV_KEY);
    types.push(EV_SYN);
    if rel {
        types.push(EV_REL);
    }
    types
}

/// Relative axes a virtual device registers: X, Y and both wheels for a
/// pointer (`rel`), none otherwise.
pub fn device_rel_codes(rel: bool) -> (codes: Vec<u16>)
    ensures
        codes@ == (if rel { seq![REL_X, REL_Y, REL_HWHEEL, REL_WHEEL] } else { seq![] }),
{
    let mut codes: Vec<u16> = Vec::new();
    if rel {
        codes.push(REL_X);
        codes.push(REL_Y);
        codes.push(REL_HWHEEL);
        codes.push(REL_WHEEL);
    }
    codes
}

/// Range of an absolute axis, as the kernel's `input_absinfo` holds it.
#[derive(Clone, Copy, Debug, PartialEq, Eq, Structural)]
pub struct InputAbsinfo {
    pub value: i32,
    pub minimum: i32,
    pub maximum: i32,
    pub fuzz: i32,
    pub flat: i32,
    pub resolution: i32,
}

/// Setup of one absolute axis of a uinput device (`uinput_abs_setup`).
#[derive(Clone, Copy, Debug, PartialEq, Eq)]
pub struct UinputAbsSetup {
    pub code: u16,
    pub pad: [u8; 2],
    pub absinfo: InputAbsinfo,
}

/// The absolute axis `code` spanning `0..=i16::MAX`, as the virtual
/// absolute mouse registers its X and Y axes.
pub fn abs_axis_setup(code: u16) -> (s: UinputAbsSetup)
    ensures
        s.code == code,
        s.pad@ == seq![0u8, 0u8],
        s.absinfo == (InputAbsinfo {
            value: 0,
            minimum: 0,
            maximum: 0x7fff,
            fuzz: 0,
            flat: 0,
            resolution: 0,
        }),
{
    UinputAbsSetup {
        code,
        pad: [0, 0],
        absinfo: InputAbsinfo {
            value: 0,
            minimum: 0,
            maximum: 0x7fff,
            fuzz: 0,
            flat: 0,
            resolution: 0,
        },
    }
}

/// The name field of a uinput setup: the name's bytes, cut at
/// `UINPUT_NAME_MAXLEN`, then zeros up to that length.
pub open spec fn spec_uinput_name(name: Seq<u8>) -> Seq<u8> {
    Seq::new(
        UINPUT_NAME_MAXLEN as nat,
        |i: int|
            if i < name.len() {
                name[i]
            } else {
                0u8
            },
    )
}

/// Encode a device name into the fixed-size name field of a uinput setup.
pub fn uinput_name(name: &str) -> (field: Vec<u8>)
    ensures
        field@ == spec_uinput_name(name.spec_bytes()),
{
    let bytes = name.as_bytes();
    let len = if bytes.len() < UINPUT_NAME_MAXLEN {
        bytes.len()
    } else {
        UINPUT_NAME_MAXLEN
    };
    let mut field: Vec<u8> = Vec::new();
    let mut i: usize = 0;
    while i < UINPUT_NAME_MAXLEN
        invariant
            i <= UINPUT_NAME_MAXLEN,
            len <= bytes@.len(),
            len == bytes@.len() || len == UINPUT_NAME_MAXLEN,
            bytes@ == name.spec_bytes(),
            field@.len() == i,
            forall|j: int| 0 <= j < i ==> field@[j] == spec_uinput_name(bytes@)[j],
        decreases UINPUT_NAME_MAXLEN - i,
    {
        if i < len {
            field.push(bytes[i]);
        } else {
            field.push(0);
        }
        i = i + 1;
    }
    assert(field@ =~= spec_uinput_name(bytes@));
    field
}

} // verus!
