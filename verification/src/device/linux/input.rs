//! Keyboard detection from a device's key bits, recognition of the devices
//! this project creates itself, and the evdev ioctl request numbers.
use vstd::prelude::*;

use crate::config::{PROJECT_NAME, UINPUT_NAME_MAXLEN};
use crate::device::linux::abi::spec_uinput_name;
use crate::text::str_eq;
use vstd::string::StringSliceAdditionalSpecFns;

verus! {

/// Whether key `code` is set in an `EVIOCGKEY` bit map: bit `code % 8` of
/// byte `code / 8`.
pub open spec fn spec_has_key(bits: Seq<u8>, code: int) -> bool {
    (bits[code / 8] >> ((code % 8) as u8)) & 1u8 == 1u8
}

/// Number of set bits among the `k` lowest bits of a byte.
pub open spec fn bits_below(b: u8, k: nat) -> nat
    decreases k,
{
    if k == 0 {
        0
    } else {
        bits_below(b, (k - 1) as nat) + ((b >> ((k - 1) as u8)) & 1u8) as nat
    }
}

/// Number of set bits of a byte.
pub open spec fn popcount(b: u8) -> nat {
    bits_below(b, 8)
}

/// Number of keys set in a bit map.
pub open spec fn key_count(bits: Seq<u8>) -> nat
    decreases bits.len(),
{
    if bits.len() == 0 {
        0
    } else {
        key_count(bits.drop_last()) + popcount(bits.last())
    }
}

/// Keys a device must have to drive the grid: a-z, 0-9, space, enter,
/// backspace, escape.
pub open spec fn grid_required() -> Seq<u16> {
    seq![
        1u16, 14, 28, 57, 2, 3, 4, 5, 6, 7, 8, 9, 10, 11, 16, 17, 18, 19, 20, 21, 22, 23, 24, 25,
        30, 31, 32, 33, 34, 35, 36, 37, 38, 44, 45, 46, 47, 48, 49, 50,
    ]
}

pub const GRID_MIN_KEYS: u32 = 40;

/// Keys a device must have to drive glide-num: numpad digits, `/ * - + .`,
/// NumLock and numpad Enter.
pub open spec fn pad_required() -> Seq<u16> {
    seq![55u16, 69, 71, 72, 73, 74, 75, 76, 77, 78, 79, 80, 81, 82, 83, 96, 98]
}

pub const PAD_MIN_KEYS: u32 = 17;

pub open spec fn has_all(bits: Seq<u8>, codes: Seq<u16>) -> bool {
    forall|i: int| 0 <= i < codes.len() ==> spec_has_key(bits, #[trigger] codes[i] as int)
}

/// A device is suitable when it has enough keys and all the keys of the
/// grid, or of the numpad.
pub open spec fn spec_is_suitable(bits: Seq<u8>) -> bool {
    ||| key_count(bits) >= GRID_MIN_KEYS && has_all(bits, grid_required())
    ||| key_count(bits) >= PAD_MIN_KEYS && has_all(bits, pad_required())
}

pub fn has_key(bits: &[u8; 96], code: u16) -> (b: bool)
    requires
        code < 768,
    ensures
        b == spec_has_key(bits@, code as int),
{
    let ix = code as usize;
    let byte = bits[ix / 8];
    let k = (ix % 8) as u8;
    assert((byte & (1u8 << k) != 0) == ((byte >> k) & 1u8 == 1u8)) by (bit_vector)
        requires
            k < 8,
    ;
    (byte & (1u8 << k)) != 0
}

fn count_ones(b: u8) -> (n: u32)
    ensures
        n == popcount(b),
        n <= 8,
{
    let mut n: u32 = 0;
    let mut k: u8 = 0;
    while k < 8
        invariant
            k <= 8,
            n == bits_below(b, k as nat),
            n <= k,
        decreases 8 - k,
    {
        let bit = (b >> k) & 1u8;
        assert(bit <= 1) by (bit_vector)
            requires
                bit == (b >> k) & 1u8,
        ;
        n = n + bit as u32;
        k = k + 1;
    }
    n
}

pub fn count_keys(bits: &[u8; 96]) -> (n: u32)
    ensures
        n == key_count(bits@),
{
    let mut n: u32 = 0;
    let mut i: usize = 0;
    while i < 96
        invariant
            i <= 96,
            bits@.len() == 96,
            n == key_count(bits@.subrange(0, i as int)),
            n <= 8 * i,
        decreases 96 - i,
    {
        let c = count_ones(bits[i]);
        assert(bits@.subrange(0, i + 1).drop_last() =~= bits@.subrange(0, i as int));
        n = n + c;
        i = i + 1;
    }
    assert(bits@.subrange(0, 96) =~= bits@);
    n
}

fn has_all_keys(bits: &[u8; 96], codes: &[u16]) -> (b: bool)
    requires
        forall|i: int| 0 <= i < codes@.len() ==> #[trigger] codes@[i] < 768,
    ensures
        b == has_all(bits@, codes@),
{
    let mut i: usize = 0;
    while i < codes.len()
        invariant
            i <= codes@.len(),
            forall|j: int| 0 <= j < codes@.len() ==> #[trigger] codes@[j] < 768,
            forall|j: int| 0 <= j < i ==> spec_has_key(bits@, #[trigger] codes@[j] as int),
        decreases codes@.len() - i,
    {
        if !has_key(bits, codes[i]) {
            return false;
        }
        i = i + 1;
    }
    true
}

/// Whether a device with key bit map `bits` can drive the grid or the
/// numpad glide.
pub fn is_suitable(bits: &[u8; 96]) -> (b: bool)
    ensures
        b == spec_is_suitable(bits@),
{
    let grid: [u16; 40] = [
        1, 14, 28, 57, 2, 3, 4, 5, 6, 7, 8, 9, 10, 11, 16, 17, 18, 19, 20, 21, 22, 23, 24, 25, 30,
        31, 32, 33, 34, 35, 36, 37, 38, 44, 45, 46, 47, 48, 49, 50,
    ];
    let pad: [u16; 17] = [55, 69, 71, 72, 73, 74, 75, 76, 77, 78, 79, 80, 81, 82, 83, 96, 98];
    assert(grid@ == grid_required());
    assert(pad@ == pad_required());
    let n = count_keys(bits);
    let grid_ok = n >= GRID_MIN_KEYS && has_all_keys(bits, &grid);
    let pad_ok = n >= PAD_MIN_KEYS && has_all_keys(bits, &pad);
    grid_ok || pad_ok
}

/// Whether a device has standard keyboard keys: the letter A, keypad 1 or
/// the Up arrow (the earlier, looser test for a keyboard).
pub fn is_keyboard(bits: &[u8; 96]) -> (b: bool)
    ensures
        b == (spec_has_key(bits@, 30) || spec_has_key(bits@, 79) || spec_has_key(bits@, 103)),
{
    has_key(bits, 30) || has_key(bits, 79) || has_key(bits, 103)
}

/// Whether a device name (as `EVIOCGNAME` fills its buffer) starts with the
/// project's prefix, so the device is one of ours.
pub fn is_own_name(buf: &[u8]) -> (b: bool)
    ensures
        b == PROJECT_NAME.spec_bytes().is_prefix_of(buf@),
{
    let prefix = PROJECT_NAME.as_bytes();
    if prefix.len() > buf.len() {
        return false;
    }
    let mut i: usize = 0;
    while i < prefix.len()
        invariant
            i <= prefix@.len(),
            prefix@.len() <= buf@.len(),
            prefix@ == PROJECT_NAME.spec_bytes(),
            forall|j: int| 0 <= j < i ==> prefix@[j] == buf@[j],
        decreases prefix@.len() - i,
    {
        if prefix[i] != buf[i] {
            return false;
        }
        i = i + 1;
    }
    true
}

/// `EVIOCGNAME(len)`: read direction, size `len`, type `'E'`, number 6.
/// The fields are OR-ed together; for sizes below 0x8000 they do not
/// overlap and the number is their sum.
pub fn eviocgname(len: u16) -> (req: u64)
    ensures
        req == (2u64 << 30) | ((len as u64) << 16) | (0x45u64 << 8) | 0x06u64,
        len < 0x8000 ==> req == 0x8000_0000u64 + (len as u64) * 0x1_0000 + 0x4506,
{
    let l = len as u64;
    let r = (2u64 << 30) | (l << 16) | (0x45u64 << 8) | 0x06;
    assert(l < 0x8000 ==> r == 0x8000_0000u64 + l * 0x1_0000 + 0x4506) by (bit_vector)
        requires
            r == (2u64 << 30) | (l << 16) | (0x45u64 << 8) | 0x06u64,
    ;
    r
}

/// `EVIOCGBIT(ev_type, len)`: read direction, size `len`, type `'E'`,
/// number `0x20 + ev_type`. The fields are OR-ed together; for the sizes
/// (`len` below 0x4000) and types (below 0xe0) that the ioctl takes they
/// do not overlap and the number is their sum.
pub fn eviocgbit(ev_type: u32, len: usize) -> (req: u64)
    ensures
        req == (2u64 << 30) | ((len as u64) << 16) | (0x45u64 << 8) | ((0x20 + ev_type) as u64),
        len < 0x4000 && ev_type < 0xe0 ==> req == 0x8000_0000u64 + (len as u64) * 0x1_0000
            + 0x4520 + ev_type as u64,
{
    let l = len as u64;
    let t = ev_type as u64;
    let r = (2u64 << 30) | (l << 16) | (0x45u64 << 8) | (0x20 + t);
    assert(l < 0x4000 && t < 0xe0 ==> r == 0x8000_0000u64 + l * 0x1_0000 + 0x4520 + t) by (bit_vector)
        requires
            r == (2u64 << 30) | (l << 16) | (0x45u64 << 8) | ((0x20 + t) as u64),
            t < 0x1_0000_0000,
    ;
    r
}

/// Whether `name` occurs among `names`.
pub open spec fn has_name(names: Seq<String>, name: Seq<char>) -> bool {
    exists|i: int| 0 <= i < names.len() && (#[trigger] names[i])@ == name
}

/// Whether `name` is one of `names` (a device already held, say).
pub fn contains_name(names: &[String], name: &str) -> (b: bool)
    ensures
        b == has_name(names@, name@),
{
    let mut i: usize = 0;
    while i < names.len()
        invariant
            i <= names@.len(),
            forall|j: int| 0 <= j < i ==> (#[trigger] names@[j])@ != name@,
        decreases names@.len() - i,
    {
        if str_eq(names[i].as_str(), name) {
            return true;
        }
        i = i + 1;
    }
    false
}

/// After a hot-plug notice: which of the held devices are still present,
/// each held name checked against the names now listed.
pub fn rescan_keep(held: &[String], current: &[String]) -> (keep: Vec<bool>)
    ensures
        keep@.len() == held@.len(),
        forall|i: int| 0 <= i < held@.len() ==> keep@[i] == has_name(current@, (#[trigger] held@[i])@),
{
    let mut keep: Vec<bool> = Vec::new();
    let mut i: usize = 0;
    while i < held.len()
        invariant
            i <= held@.len(),
            keep@.len() == i,
            forall|j: int| 0 <= j < i ==> keep@[j] == has_name(current@, (#[trigger] held@[j])@),
        decreases held@.len() - i,
    {
        keep.push(contains_name(current, held[i].as_str()));
        i = i + 1;
    }
    keep
}

/// The project's name is six ASCII bytes.
proof fn lemma_project_name_bytes()
    ensures
        PROJECT_NAME.spec_bytes() == seq![107u8, 117u8, 114u8, 115u8, 111u8, 114u8],
{
    reveal_strlit("kursor");
    vstd::string::is_ascii_spec_bytes(PROJECT_NAME);
    assert(PROJECT_NAME.spec_bytes() =~= seq![107u8, 117u8, 114u8, 115u8, 111u8, 114u8]);
}

/// The virtual devices the service creates are recognised as its own: a
/// device name that starts with the project's name still starts with it in
/// the uinput name field, so the keyboard scan never grabs the service's
/// own output.
pub proof fn lemma_own_devices_recognized(name: Seq<u8>)
    requires
        PROJECT_NAME.spec_bytes().is_prefix_of(name),
    ensures
        PROJECT_NAME.spec_bytes().is_prefix_of(spec_uinput_name(name)),
{
    lemma_project_name_bytes();
    let p = PROJECT_NAME.spec_bytes();
    let f = spec_uinput_name(name);
    assert(p.len() <= UINPUT_NAME_MAXLEN);
    assert forall|i: int| 0 <= i < p.len() implies f[i] == p[i] by {
        assert(name[i] == p[i]);
    }
    assert(f.subrange(0, p.len() as int) =~= p);
}

} // verus!
