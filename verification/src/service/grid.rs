//! The grid's input logic: the typed-key filter that narrows the selection
//! layer by layer, the session context, and the decisions each key leads
//! to. Drawing and cursor geometry live with the overlay.
use vstd::prelude::*;
use vstd::string::StringSliceAdditionalSpecFns;
use vstd::utf8::{encode_utf8, is_ascii_chars};

use crate::config::{
    action_key, in_table, l1_key_pos, l1_table, l2_key_pos, l2_table, l3_key_pos, l3_table,
    pos_result, spec_action_key, spec_button_number, MouseButton,
};
use crate::keymap::{key_map, spec_key_map, ModState, KEY_H, KEY_J, KEY_K, KEY_L, KEY_TAB};
use crate::text::{string_clear, string_pop, string_push};

verus! {

/// The keys typed so far to select a region.
pub struct GridFilter {
    pub input: String,
}

impl GridFilter {
    pub fn new() -> (f: GridFilter)
        ensures
            f.input@ == Seq::<char>::empty(),
    {
        GridFilter { input: String::new() }
    }

    pub fn input(&self) -> (s: &str)
        ensures
            s@ == self.input@,
    {
        self.input.as_str()
    }

    /// Length of the input in bytes (its characters, while they are ASCII).
    pub fn len(&self) -> (n: usize)
        ensures
            n == encode_utf8(self.input@).len() as usize,
            is_ascii_chars(self.input@) ==> n == self.input@.len() as usize,
    {
        proof {
            if is_ascii_chars(self.input@) {
                vstd::utf8::is_ascii_chars_encode_utf8(self.input@);
            }
        }
        self.input.as_str().len()
    }

    pub fn is_empty(&self) -> (b: bool)
        ensures
            b == (self.input@.len() == 0),
    {
        self.input.as_str().is_empty()
    }

    pub fn push(&mut self, ch: char)
        ensures
            final(self).input@ == old(self).input@.push(ch),
    {
        string_push(&mut self.input, ch);
    }

    /// Remove the last key, if any.
    pub fn pop(&mut self)
        ensures
            final(self).input@ == if old(self).input@.len() == 0 {
                old(self).input@
            } else {
                old(self).input@.drop_last()
            },
    {
        let _ = string_pop(&mut self.input);
    }

    pub fn clear(&mut self)
        ensures
            final(self).input@ == Seq::<char>::empty(),
    {
        string_clear(&mut self.input);
    }

    /// Whether `label` starts with the typed keys.
    pub fn matches(&self, label: &str) -> (b: bool)
        ensures
            b == self.input@.is_prefix_of(label@),
    {
        let input = self.input.as_str();
        let n = input.unicode_len();
        let m = label.unicode_len();
        if n > m {
            return false;
        }
        let mut i: usize = 0;
        while i < n
            invariant
                n == input@.len(),
                m == label@.len(),
                n <= m,
                input@ == self.input@,
                i <= n,
                forall|j: int| 0 <= j < i ==> input@[j] == label@[j],
            decreases n - i,
        {
            if input.get_char(i) != label.get_char(i) {
                return false;
            }
            i = i + 1;
        }
        true
    }
}

/// A filter is well formed when it is a path through the three layers: at
/// most three keys, the first from layer 1, the second from layer 2, the
/// third from layer 3.
pub open spec fn filter_wf(f: Seq<char>) -> bool {
    &&& f.len() <= 3
    &&& f.len() >= 1 ==> in_table(l1_table(), 3, 9, f[0])
    &&& f.len() >= 2 ==> in_table(l2_table(), 9, 3, f[1])
    &&& f.len() >= 3 ==> in_table(l3_table(), 3, 5, f[2])
}

/// Phase of a grid session on several monitors.
#[derive(Clone, Copy, Debug, PartialEq, Eq, Structural)]
pub enum GridPhase {
    Selecting,
    Navigating,
}

/// Input context of the grid on one monitor: the filter, the click repeat
/// count typed after it, and the layer-4 nudge within the layer-3 cell.
pub struct GridCtx {
    pub filter: GridFilter,
    pub repeat: u32,
    pub l4_dx: i32,
    pub l4_dy: i32,
}

impl GridCtx {
    /// The context's invariant: a well-formed filter and a nudge within
    /// three steps each way.
    pub open spec fn wf(&self) -> bool {
        &&& filter_wf(self.filter.input@)
        &&& -3 <= self.l4_dx <= 3
        &&& -3 <= self.l4_dy <= 3
    }

    pub fn new() -> (c: GridCtx)
        ensures
            c.wf(),
            c.filter.input@ == Seq::<char>::empty(),
            c.repeat == 0,
            c.l4_dx == 0 && c.l4_dy == 0,
    {
        GridCtx { filter: GridFilter::new(), repeat: 0, l4_dx: 0, l4_dy: 0 }
    }
}

/// What the overlay side does after a grid key.
pub enum GridStep {
    /// Nothing to do.
    Nothing,
    /// Redraw the overlay from the context.
    Redraw,
    /// Warp to the centre of the region that `region` selects, nudged by
    /// (`dx`, `dy`), then redraw.
    Warp { region: String, dx: i32, dy: i32 },
    /// Warp as above, click `button` `count` times, then redraw.
    Click { region: String, button: MouseButton, count: u32, dx: i32, dy: i32 },
}

/// The abstract outcome of a grid key.
pub enum StepModel {
    Nothing,
    Redraw,
    Warp { region: Seq<char>, dx: i32, dy: i32 },
    Click { region: Seq<char>, button: MouseButton, count: u32, dx: i32, dy: i32 },
}

impl GridStep {
    pub open spec fn model(&self) -> StepModel {
        match self {
            GridStep::Nothing => StepModel::Nothing,
            GridStep::Redraw => StepModel::Redraw,
            GridStep::Warp { region, dx, dy } => StepModel::Warp { region: region@, dx: *dx, dy: *dy },
            GridStep::Click { region, button, count, dx, dy } => StepModel::Click {
                region: region@,
                button: *button,
                count: *count,
                dx: *dx,
                dy: *dy,
            },
        }
    }
}

/// The abstract grid context.
pub struct CtxModel {
    pub filter: Seq<char>,
    pub repeat: u32,
    pub dx: i32,
    pub dy: i32,
}

impl GridCtx {
    pub open spec fn model(&self) -> CtxModel {
        CtxModel { filter: self.filter.input@, repeat: self.repeat, dx: self.l4_dx, dy: self.l4_dy }
    }
}

/// `n * 10 + d`, saturating at `u32::MAX` at either step.
pub open spec fn spec_repeat_digit(n: u32, d: u32) -> u32 {
    let m: int = if n * 10 > u32::MAX { u32::MAX as int } else { n * 10 };
    if m + d > u32::MAX { u32::MAX } else { (m + d) as u32 }
}

/// The button of a grid action key.
pub open spec fn spec_button_of(n: u8) -> MouseButton {
    if n == 1 {
        MouseButton::Left
    } else if n == 2 {
        MouseButton::Middle
    } else {
        MouseButton::Right
    }
}

/// The context after a warp or click: filter, repeat and nudge cleared.
pub open spec fn reset_model() -> CtxModel {
    CtxModel { filter: Seq::empty(), repeat: 0, dx: 0, dy: 0 }
}

/// Whether `c` may extend a filter of length `len`: a layer-1 key first, a
/// layer-2 key second, a layer-3 key third or (replacing it) fourth.
pub open spec fn valid_next(len: int, c: char) -> bool {
    if len == 0 {
        in_table(l1_table(), 3, 9, c)
    } else if len == 1 {
        in_table(l2_table(), 9, 3, c)
    } else if len == 2 || len == 3 {
        in_table(l3_table(), 3, 5, c)
    } else {
        false
    }
}

/// What one typed byte does to the grid context: `;` warps and resets;
/// `p` steps back a layer (from layer 3 straight to layer 1); a digit after
/// a selection adds to the repeat count; `j`/`k`/`l` after a two-key
/// selection click (the repeat count of times, once if none); a valid
/// layer key extends the filter (replacing a layer-3 key); anything else is
/// ignored.
pub open spec fn spec_process_byte(c: CtxModel, byte: u8) -> (CtxModel, StepModel) {
    let ch = byte as char;
    let len = c.filter.len() as int;
    if byte == 59 {
        (reset_model(), StepModel::Warp { region: c.filter, dx: c.dx, dy: c.dy })
    } else if byte == 112 {
        let f1 = if len == 0 { c.filter } else { c.filter.drop_last() };
        let f2 = if f1.len() >= 2 { f1.drop_last() } else { f1 };
        (CtxModel { filter: f2, repeat: 0, dx: 0, dy: 0 }, StepModel::Redraw)
    } else if len > 0 && 48 <= byte <= 57 {
        (CtxModel { repeat: spec_repeat_digit(c.repeat, (byte - 48) as u32), ..c }, StepModel::Nothing)
    } else if len >= 2 && spec_action_key(ch) is Some {
        (
            reset_model(),
            StepModel::Click {
                region: c.filter,
                button: spec_button_of(spec_action_key(ch)->0),
                count: if c.repeat == 0 { 1 } else { c.repeat },
                dx: c.dx,
                dy: c.dy,
            },
        )
    } else if valid_next(len, ch) {
        let f = if len >= 3 { c.filter.drop_last() } else { c.filter };
        (CtxModel { filter: f.push(ch), repeat: 0, dx: 0, dy: 0 }, StepModel::Redraw)
    } else {
        (c, StepModel::Nothing)
    }
}

fn repeat_digit(n: u32, d: u32) -> (r: u32)
    requires
        d <= 9,
    ensures
        r == spec_repeat_digit(n, d),
{
    let m = match n.checked_mul(10) {
        Some(m) => m,
        None => u32::MAX,
    };
    match m.checked_add(d) {
        Some(r) => r,
        None => u32::MAX,
    }
}

fn clone_string(s: &String) -> (r: String)
    ensures
        r@ == s@,
{
    s.clone()
}

impl GridCtx {
    fn reset_l4(&mut self)
        ensures
            final(self).filter.input@ == old(self).filter.input@,
            final(self).repeat == old(self).repeat,
            final(self).l4_dx == 0 && final(self).l4_dy == 0,
    {
        self.l4_dx = 0;
        self.l4_dy = 0;
    }

    /// Handle one typed byte. Returns what the overlay side does next.
    pub fn process_byte(&mut self, byte: u8) -> (step: GridStep)
        ensures
            (final(self).model(), step.model()) == spec_process_byte(old(self).model(), byte),
            old(self).wf() ==> final(self).wf(),
    {
        let len0 = self.filter.input.as_str().unicode_len();
        if byte == 59 {
            let region = clone_string(&self.filter.input);
            let (dx, dy) = (self.l4_dx, self.l4_dy);
            self.filter.clear();
            self.repeat = 0;
            self.reset_l4();
            return GridStep::Warp { region, dx, dy };
        }
        if byte == 112 {
            self.filter.pop();
            let len1 = self.filter.input.as_str().unicode_len();
            if len1 >= 2 {
                self.filter.pop();
            }
            self.repeat = 0;
            self.reset_l4();
            return GridStep::Redraw;
        }
        let c = byte as char;
        if len0 > 0 && 48 <= byte && byte <= 57 {
            self.repeat = repeat_digit(self.repeat, (byte - 48) as u32);
            return GridStep::Nothing;
        }
        if len0 >= 2 {
            if let Some(n) = action_key(c) {
                let region = clone_string(&self.filter.input);
                let count = if self.repeat == 0 { 1 } else { self.repeat };
                let button = match n {
                    1 => MouseButton::Left,
                    2 => MouseButton::Middle,
                    _ => MouseButton::Right,
                };
                let (dx, dy) = (self.l4_dx, self.l4_dy);
                self.filter.clear();
                self.repeat = 0;
                self.reset_l4();
                return GridStep::Click { region, button, count, dx, dy };
            }
        }
        let valid = if len0 == 0 {
            l1_key_pos(c).is_some()
        } else if len0 == 1 {
            l2_key_pos(c).is_some()
        } else if len0 == 2 || len0 == 3 {
            l3_key_pos(c).is_some()
        } else {
            false
        };
        if !valid {
            return GridStep::Nothing;
        }
        if len0 >= 3 {
            self.filter.pop();
        }
        self.filter.push(c);
        self.repeat = 0;
        self.reset_l4();
        GridStep::Redraw
    }

    /// Layer-4 nudge (shift+h/j/k/l) by one step, within three steps each
    /// way; only once a layer-3 cell is selected. Returns whether to
    /// redraw.
    pub fn nudge(&mut self, code: u16) -> (redraw: bool)
        requires
            old(self).filter.input@.len() >= 3 ==> (code == KEY_H ==> old(self).l4_dx > i32::MIN) && (
            code == KEY_L ==> old(self).l4_dx < i32::MAX) && (code == KEY_K ==> old(self).l4_dy
                > i32::MIN) && (code == KEY_J ==> old(self).l4_dy < i32::MAX),
        ensures
            old(self).wf() ==> final(self).wf(),
            final(self).filter.input@ == old(self).filter.input@,
            final(self).repeat == old(self).repeat,
            redraw == (old(self).filter.input@.len() >= 3),
            (final(self).l4_dx, final(self).l4_dy) == if !redraw {
                (old(self).l4_dx, old(self).l4_dy)
            } else if code == KEY_H {
                (if old(self).l4_dx - 1 > -3 { (old(self).l4_dx - 1) as i32 } else { -3i32 }, old(self).l4_dy)
            } else if code == KEY_L {
                (if old(self).l4_dx + 1 < 3 { (old(self).l4_dx + 1) as i32 } else { 3i32 }, old(self).l4_dy)
            } else if code == KEY_K {
                (old(self).l4_dx, if old(self).l4_dy - 1 > -3 { (old(self).l4_dy - 1) as i32 } else { -3i32 })
            } else if code == KEY_J {
                (old(self).l4_dx, if old(self).l4_dy + 1 < 3 { (old(self).l4_dy + 1) as i32 } else { 3i32 })
            } else {
                (old(self).l4_dx, old(self).l4_dy)
            },
    {
        if self.filter.input.as_str().unicode_len() < 3 {
            return false;
        }
        match code {
            KEY_H => {
                let v = self.l4_dx - 1;
                self.l4_dx = if v > -3 { v } else { -3 };
            },
            KEY_L => {
                let v = self.l4_dx + 1;
                self.l4_dx = if v < 3 { v } else { 3 };
            },
            KEY_K => {
                let v = self.l4_dy - 1;
                self.l4_dy = if v > -3 { v } else { -3 };
            },
            KEY_J => {
                let v = self.l4_dy + 1;
                self.l4_dy = if v < 3 { v } else { 3 };
            },
            _ => {},
        }
        true
    }
}

/// The region a typed filter selects: none before two keys; else the label
/// of the layer-2 cell (the first two keys) and, with a third key, its row
/// and column in layer 3 (none at all when the third key is not a layer-3
/// key). Keys after the third are not looked at.
pub fn region_parts(input: &str) -> (res: Option<(String, Option<(usize, usize)>)>)
    requires
        is_ascii_chars(input@),
    ensures
        input@.len() < 2 ==> res is None,
        input@.len() == 2 ==> (res matches Some((label, sub)) && label@ == input@ && sub is None),
        input@.len() > 2 ==> match res {
            Some((label, sub)) => label@ == input@.subrange(0, 2) && sub is Some && pos_result(
                l3_table(),
                3,
                5,
                input@[2],
                sub,
            ),
            None => !in_table(l3_table(), 3, 5, input@[2]),
        },
{
    let n = input.unicode_len();
    if n < 2 {
        return None;
    }
    let mut label = String::new();
    string_push(&mut label, input.get_char(0));
    string_push(&mut label, input.get_char(1));
    assert(label@ =~= input@.subrange(0, 2));
    if n >= 3 {
        let sub = l3_key_pos(input.get_char(2));
        match sub {
            Some(p) => Some((label, Some(p))),
            None => None,
        }
    } else {
        assert(input@.subrange(0, 2) =~= input@);
        Some((label, None))
    }
}

/// What a key does while navigating the grid.
#[derive(Clone, Copy, Debug, PartialEq, Eq, Structural)]
pub enum NavKey {
    /// Shift+h/j/k/l: nudge within the layer-3 cell.
    Nudge { code: u16 },
    /// Tab with several monitors: move to the next monitor.
    NextMonitor,
    /// A mapped key: handle its byte.
    Byte { byte: u8 },
    /// Anything else.
    Ignore,
}

pub open spec fn spec_nav_key(code: u16, mods: ModState, monitor_count: usize) -> NavKey {
    if mods.shift && (code == KEY_H || code == KEY_J || code == KEY_K || code == KEY_L) {
        NavKey::Nudge { code }
    } else if code == KEY_TAB && monitor_count > 1 {
        NavKey::NextMonitor
    } else {
        match spec_key_map(code, mods.shift) {
            Some(b) => NavKey::Byte { byte: b },
            None => NavKey::Ignore,
        }
    }
}

/// Classify a key pressed while navigating the grid.
pub fn nav_key(code: u16, mods: &ModState, monitor_count: usize) -> (k: NavKey)
    ensures
        k == spec_nav_key(code, *mods, monitor_count),
{
    if mods.shift && (code == KEY_H || code == KEY_J || code == KEY_K || code == KEY_L) {
        return NavKey::Nudge { code };
    }
    if code == KEY_TAB && monitor_count > 1 {
        return NavKey::NextMonitor;
    }
    match key_map(code, mods) {
        Some(b) => NavKey::Byte { byte: b },
        None => NavKey::Ignore,
    }
}

/// The monitor after `idx`, wrapping to the first.
pub fn next_monitor(idx: usize, count: usize) -> (next: usize)
    requires
        count > 0,
        idx < usize::MAX,
    ensures
        next == (idx + 1) % (count as int),
        next < count,
{
    (idx + 1) % count
}

/// What a key does while selecting a monitor.
#[derive(Clone, Copy, Debug, PartialEq, Eq, Structural)]
pub enum SelectKey {
    /// The letter of a monitor: select monitor `idx`.
    Select { idx: usize },
    /// Another lower-case letter: show it as a hint.
    Hint { ch: char },
    /// Anything else.
    Ignore,
}

pub open spec fn spec_select_key(code: u16, mods: ModState, monitor_count: usize) -> SelectKey {
    match spec_key_map(code, mods.shift) {
        Some(b) => if 97 <= b <= 122 {
            if ((b - 97) as usize) < monitor_count {
                SelectKey::Select { idx: (b - 97) as usize }
            } else {
                SelectKey::Hint { ch: b as char }
            }
        } else {
            SelectKey::Ignore
        },
        None => SelectKey::Ignore,
    }
}

/// Classify a key pressed while selecting a monitor: letter `a` selects the
/// first monitor, `b` the second, and so on.
pub fn select_key(code: u16, mods: &ModState, monitor_count: usize) -> (k: SelectKey)
    ensures
        k == spec_select_key(code, *mods, monitor_count),
{
    match key_map(code, mods) {
        Some(b) => {
            if 97 <= b && b <= 122 {
                let idx = (b - 97) as usize;
                if idx < monitor_count {
                    SelectKey::Select { idx }
                } else {
                    SelectKey::Hint { ch: b as char }
                }
            } else {
                SelectKey::Ignore
            }
        },
        None => SelectKey::Ignore,
    }
}

/// Removing the key just typed gives back the filter as it was.
pub proof fn lemma_push_pop(f: Seq<char>, ch: char)
    ensures
        f.push(ch).drop_last() == f,
        f.push(ch).len() == f.len() + 1,
{
    assert(f.push(ch).drop_last() =~= f);
}

/// Every byte keeps the grid context well formed, so the filter never holds
/// more than three keys, each from its layer.
pub proof fn lemma_process_byte_keeps_wf(c: CtxModel, byte: u8)
    requires
        filter_wf(c.filter),
        -3 <= c.dx <= 3,
        -3 <= c.dy <= 3,
    ensures
        filter_wf(spec_process_byte(c, byte).0.filter),
        spec_process_byte(c, byte).0.filter.len() <= 3,
        -3 <= spec_process_byte(c, byte).0.dx <= 3,
        -3 <= spec_process_byte(c, byte).0.dy <= 3,
{
    let len = c.filter.len() as int;
    let ch = byte as char;
    if byte != 59 && byte == 112 {
        let f1 = if len == 0 { c.filter } else { c.filter.drop_last() };
        let f2 = if f1.len() >= 2 { f1.drop_last() } else { f1 };
        assert(forall|i: int| 0 <= i < f2.len() ==> f2[i] == c.filter[i]);
    } else if byte != 59 && !(len > 0 && 48 <= byte <= 57) && !(len >= 2 && spec_action_key(ch) is Some) && valid_next(len, ch) {
        let f = if len >= 3 { c.filter.drop_last() } else { c.filter };
        assert(forall|i: int| 0 <= i < f.len() ==> f.push(ch)[i] == c.filter[i]);
    }
}

/// A repeat count typed after a selection sets how often the action key
/// clicks: after two keys of the grid, digits `d1` and `d2` and then a
/// click key click the selected region `10 * d1 + d2` times (once for 0),
/// and leave the context reset.
pub proof fn lemma_typed_count_clicks(c: CtxModel, d1: u8, d2: u8, act: u8)
    requires
        c.filter.len() == 2,
        c.repeat == 0,
        48 <= d1 <= 57,
        48 <= d2 <= 57,
        spec_action_key(act as char) is Some,
    ensures
        ({
            let (c1, s1) = spec_process_byte(c, d1);
            let (c2, s2) = spec_process_byte(c1, d2);
            let (c3, s3) = spec_process_byte(c2, act);
            let n = (d1 - 48) * 10 + (d2 - 48);
            &&& s1 == StepModel::Nothing && s2 == StepModel::Nothing
            &&& s3 == StepModel::Click {
                region: c.filter,
                button: spec_button_of(spec_action_key(act as char)->0),
                count: if n == 0 { 1 } else { n as u32 },
                dx: c.dx,
                dy: c.dy,
            }
            &&& c3 == reset_model()
        }),
{
    let n1 = (d1 - 48) as u32;
    assert(spec_repeat_digit(0, n1) == n1);
    let n2 = (d2 - 48) as u32;
    assert(spec_repeat_digit(n1, n2) == n1 * 10 + n2);
    assert(act != 59 && act != 112) by {
        if act == 59 || act == 112 {
            assert(spec_action_key(act as char) is None);
        }
    }
    assert(!(48 <= act <= 57)) by {
        if 48 <= act <= 57 {
            assert(spec_action_key(act as char) is None);
        }
    }
}

/// After a selection of two or more keys, `j`, `k` and `l` click the left,
/// middle and right button (the button numbered as the key's action):
/// the selected region, as often as the typed count says (once without
/// one), at the current nudge; and the context is reset.
pub proof fn lemma_click_keys_pick_buttons(c: CtxModel)
    requires
        c.filter.len() >= 2,
    ensures
        ({
            let n = if c.repeat == 0 { 1u32 } else { c.repeat };
            &&& spec_process_byte(c, 106) == (reset_model(), StepModel::Click {
                region: c.filter,
                button: MouseButton::Left,
                count: n,
                dx: c.dx,
                dy: c.dy,
            })
            &&& spec_process_byte(c, 107) == (reset_model(), StepModel::Click {
                region: c.filter,
                button: MouseButton::Middle,
                count: n,
                dx: c.dx,
                dy: c.dy,
            })
            &&& spec_process_byte(c, 108) == (reset_model(), StepModel::Click {
                region: c.filter,
                button: MouseButton::Right,
                count: n,
                dx: c.dx,
                dy: c.dy,
            })
        }),
        forall|b: u8|
            #![trigger spec_process_byte(c, b)]
            spec_process_byte(c, b).1 matches StepModel::Click { button, .. } ==> spec_action_key(
                b as char,
            ) == Some(spec_button_number(button)),
{
    assert((106u8 as char) == 'j');
    assert((107u8 as char) == 'k');
    assert((108u8 as char) == 'l');
    assert forall|b: u8|
        #![trigger spec_process_byte(c, b)]
        (spec_process_byte(c, b).1 matches StepModel::Click { button, .. } ==> spec_action_key(
            b as char,
        ) == Some(spec_button_number(button))) by {
        let ch = b as char;
        if spec_action_key(ch) is Some && !(48 <= b <= 57) && b != 59 && b != 112 {
            assert(ch == 'j' || ch == 'k' || ch == 'l');
        }
    }
}

} // verus!
