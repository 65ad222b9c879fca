//! Project identity, key layouts, cursor acceleration and button codes.
use vstd::arithmetic::power2::pow2;
use vstd::prelude::*;

verus! {

// ── Project identity ─────────────────────────────────────────────────

pub const PROJECT_NAME: &'static str = "kursor";

pub const SERVICE: &'static str = "kursord";

/// Kernel `UINPUT_MAX_NAME_SIZE`: the name field of a uinput setup is this long.
pub const UINPUT_NAME_MAXLEN: usize = 80;

pub const UINPUT_NAME: &'static str = "kursor";

pub const DEV_ABS: &'static str = "kursor";

pub const DEV_REL: &'static str = "kursor-rel";

pub const DEV_KBD: &'static str = "kursor-kbd";

pub const DEV_PTR: &'static str = "kursor-ptr";

pub const GRID_WINDOW: &'static str = "kursor-grid";

pub const WLR_NAME: &'static str = "kursor";

pub const SHM_PREFIX: &'static str = "kursor-shm";

// ── Screen fallback ──────────────────────────────────────────────────

pub const FALLBACK_WIDTH: u16 = 1920;

pub const FALLBACK_HEIGHT: u16 = 1080;

// ── Grid geometry ────────────────────────────────────────────────────

pub const GRID_ROWS: u32 = 27;

pub const GRID_COLS: u32 = 27;

// ── Three-layer grid key layouts ─────────────────────────────────────

/// Layer 1: 9 columns by 3 rows (main keyboard physical layout).
pub open spec fn l1_table() -> Seq<Seq<char>> {
    seq![
        seq!['q', 'w', 'e', 'r', 't', 'y', 'u', 'i', 'o'],
        seq!['a', 's', 'd', 'f', 'g', 'h', 'j', 'k', 'l'],
        seq!['z', 'x', 'c', 'v', 'b', 'n', 'm', ',', '.'],
    ]
}

/// Layer 2: 3 columns by 9 rows (layer 1 turned a quarter clockwise).
pub open spec fn l2_table() -> Seq<Seq<char>> {
    seq![
        seq!['z', 'a', 'q'],
        seq!['x', 's', 'w'],
        seq!['c', 'd', 'e'],
        seq!['v', 'f', 'r'],
        seq!['b', 'g', 't'],
        seq!['n', 'h', 'y'],
        seq!['m', 'j', 'u'],
        seq![',', 'k', 'i'],
        seq!['.', 'l', 'o'],
    ]
}

/// Layer 3: 5 columns by 3 rows (left half of the main keypad).
pub open spec fn l3_table() -> Seq<Seq<char>> {
    seq![
        seq!['q', 'w', 'e', 'r', 't'],
        seq!['a', 's', 'd', 'f', 'g'],
        seq!['z', 'x', 'c', 'v', 'b'],
    ]
}

/// `ch` stands at row `r`, column `c` of the `rows` by `cols` layout `t`.
pub open spec fn at_pos(t: Seq<Seq<char>>, rows: int, cols: int, r: int, c: int, ch: char) -> bool {
    0 <= r < rows && 0 <= c < cols && t[r][c] == ch
}

/// `ch` stands somewhere in the `rows` by `cols` layout `t`.
pub open spec fn in_table(t: Seq<Seq<char>>, rows: int, cols: int, ch: char) -> bool {
    exists|r: int, c: int| at_pos(t, rows, cols, r, c, ch)
}

/// What a key-position lookup returns: the position of `ch`, or `None` when
/// the layout does not hold it.
pub open spec fn pos_result(
    t: Seq<Seq<char>>,
    rows: int,
    cols: int,
    ch: char,
    res: Option<(usize, usize)>,
) -> bool {
    match res {
        Some((r, c)) => at_pos(t, rows, cols, r as int, c as int, ch),
        None => !in_table(t, rows, cols, ch),
    }
}

/// Key of layer 1 at row `r`, column `c`.
pub fn l1_key(r: usize, c: usize) -> (ch: char)
    requires
        r < 3,
        c < 9,
    ensures
        ch == l1_table()[r as int][c as int],
{
    let rows: [[char; 9]; 3] = [
        ['q', 'w', 'e', 'r', 't', 'y', 'u', 'i', 'o'],
        ['a', 's', 'd', 'f', 'g', 'h', 'j', 'k', 'l'],
        ['z', 'x', 'c', 'v', 'b', 'n', 'm', ',', '.'],
    ];
    let row = rows[r];
    row[c]
}

/// Key of layer 2 at row `r`, column `c`.
pub fn l2_key(r: usize, c: usize) -> (ch: char)
    requires
        r < 9,
        c < 3,
    ensures
        ch == l2_table()[r as int][c as int],
{
    let rows: [[char; 3]; 9] = [
        ['z', 'a', 'q'],
        ['x', 's', 'w'],
        ['c', 'd', 'e'],
        ['v', 'f', 'r'],
        ['b', 'g', 't'],
        ['n', 'h', 'y'],
        ['m', 'j', 'u'],
        [',', 'k', 'i'],
        ['.', 'l', 'o'],
    ];
    let row = rows[r];
    row[c]
}

/// Key of layer 3 at row `r`, column `c`.
pub fn l3_key(r: usize, c: usize) -> (ch: char)
    requires
        r < 3,
        c < 5,
    ensures
        ch == l3_table()[r as int][c as int],
{
    let rows: [[char; 5]; 3] = [
        ['q', 'w', 'e', 'r', 't'],
        ['a', 's', 'd', 'f', 'g'],
        ['z', 'x', 'c', 'v', 'b'],
    ];
    let row = rows[r];
    row[c]
}

/// Position (row, column) of `ch` in layer 3.
pub fn l3_key_pos(ch: char) -> (res: Option<(usize, usize)>)
    ensures
        pos_result(l3_table(), 3, 5, ch, res),
{
    let mut r: usize = 0;
    while r < 3
        invariant
            r <= 3,
            forall|i: int, j: int| 0 <= i < r && 0 <= j < 5 ==> l3_table()[i][j] != ch,
        decreases 3 - r,
    {
        let mut c: usize = 0;
        while c < 5
            invariant
                r < 3,
                c <= 5,
                forall|i: int, j: int| 0 <= i < r && 0 <= j < 5 ==> l3_table()[i][j] != ch,
                forall|j: int| 0 <= j < c ==> l3_table()[r as int][j] != ch,
            decreases 5 - c,
        {
            if l3_key(r, c) == ch {
                return Some((r, c));
            }
            c = c + 1;
        }
        r = r + 1;
    }
    None
}

/// Position (row, column) of `ch` in layer 1.
pub fn l1_key_pos(ch: char) -> (res: Option<(usize, usize)>)
    ensures
        pos_result(l1_table(), 3, 9, ch, res),
{
    let mut r: usize = 0;
    while r < 3
        invariant
            r <= 3,
            forall|i: int, j: int| 0 <= i < r && 0 <= j < 9 ==> l1_table()[i][j] != ch,
        decreases 3 - r,
    {
        let mut c: usize = 0;
        while c < 9
            invariant
                r < 3,
                c <= 9,
                forall|i: int, j: int| 0 <= i < r && 0 <= j < 9 ==> l1_table()[i][j] != ch,
                forall|j: int| 0 <= j < c ==> l1_table()[r as int][j] != ch,
            decreases 9 - c,
        {
            if l1_key(r, c) == ch {
                return Some((r, c));
            }
            c = c + 1;
        }
        r = r + 1;
    }
    None
}

/// Position (row, column) of `ch` in layer 2.
pub fn l2_key_pos(ch: char) -> (res: Option<(usize, usize)>)
    ensures
        pos_result(l2_table(), 9, 3, ch, res),
{
    let mut r: usize = 0;
    while r < 9
        invariant
            r <= 9,
            forall|i: int, j: int| 0 <= i < r && 0 <= j < 3 ==> l2_table()[i][j] != ch,
        decreases 9 - r,
    {
        let mut c: usize = 0;
        while c < 3
            invariant
                r < 9,
                c <= 3,
                forall|i: int, j: int| 0 <= i < r && 0 <= j < 3 ==> l2_table()[i][j] != ch,
                forall|j: int| 0 <= j < c ==> l2_table()[r as int][j] != ch,
            decreases 3 - c,
        {
            if l2_key(r, c) == ch {
                return Some((r, c));
            }
            c = c + 1;
        }
        r = r + 1;
    }
    None
}

/// No key occurs twice in the `rows` by `cols` layout `t`.
pub open spec fn table_distinct(t: Seq<Seq<char>>, rows: int, cols: int) -> bool {
    forall|r1: int, c1: int, r2: int, c2: int|
        #![trigger t[r1][c1], t[r2][c2]]
        0 <= r1 < rows && 0 <= c1 < cols && 0 <= r2 < rows && 0 <= c2 < cols && t[r1][c1]
            == t[r2][c2] ==> r1 == r2 && c1 == c2
}

/// Each of the three grid layouts holds every key once, so a key names one
/// position of a layer.
pub proof fn lemma_layouts_distinct()
    ensures
        table_distinct(l1_table(), 3, 9),
        table_distinct(l2_table(), 9, 3),
        table_distinct(l3_table(), 3, 5),
{
    assert(table_distinct(l1_table(), 3, 9));
    assert(table_distinct(l2_table(), 9, 3));
    assert(table_distinct(l3_table(), 3, 5));
}

/// Label of the cell at global (`row`, `col`) of the 27 by 27 grid: its
/// layer-1 key followed by its layer-2 key.
pub open spec fn spec_cell_label(row: int, col: int) -> Seq<char> {
    seq![l1_table()[row / 9][col / 3], l2_table()[row % 9][col % 3]]
}

/// Full label for cell at global (row, col) in the 27 by 27 grid.
pub fn cell_label(row: u32, col: u32) -> (label: String)
    requires
        row < 27,
        col < 27,
    ensures
        label@ == spec_cell_label(row as int, col as int),
{
    let l1 = l1_key((row / 9) as usize, (col / 3) as usize);
    let l2 = l2_key((row % 9) as usize, (col % 3) as usize);
    let mut label = String::new();
    crate::text::string_push(&mut label, l1);
    crate::text::string_push(&mut label, l2);
    label
}

/// Distinct cells of the 27 by 27 grid carry distinct labels, and the
/// layer lookups recover a cell from its label: the first key sits at
/// (`row / 9`, `col / 3`) of layer 1, the second at (`row % 9`, `col % 3`)
/// of layer 2.
pub proof fn lemma_cell_labels_identify_cells(row1: int, col1: int, row2: int, col2: int)
    requires
        0 <= row1 < 27,
        0 <= col1 < 27,
        0 <= row2 < 27,
        0 <= col2 < 27,
    ensures
        at_pos(l1_table(), 3, 9, row1 / 9, col1 / 3, spec_cell_label(row1, col1)[0]),
        at_pos(l2_table(), 9, 3, row1 % 9, col1 % 3, spec_cell_label(row1, col1)[1]),
        spec_cell_label(row1, col1) == spec_cell_label(row2, col2) ==> row1 == row2 && col1
            == col2,
{
    lemma_layouts_distinct();
    if spec_cell_label(row1, col1) == spec_cell_label(row2, col2) {
        assert(spec_cell_label(row1, col1)[0] == spec_cell_label(row2, col2)[0]);
        assert(spec_cell_label(row1, col1)[1] == spec_cell_label(row2, col2)[1]);
        assert(row1 / 9 == row2 / 9 && col1 / 3 == col2 / 3);
        assert(row1 % 9 == row2 % 9 && col1 % 3 == col2 % 3);
    }
}

// ── Cursor movement acceleration ─────────────────────────────────────

pub const CURSOR_STEP: i32 = 3;

pub const MAX_CURSOR_STEP: i32 = 50;

pub const CURSOR_ACCEL_INTERVAL: u32 = 5;

pub const MAX_ACCEL_SHIFTS: u32 = 10;

/// Step in pixels after `repeat_count` ticks: the base step doubles every
/// `CURSOR_ACCEL_INTERVAL` ticks (at most `MAX_ACCEL_SHIFTS` times) and is
/// capped at `MAX_CURSOR_STEP`.
pub open spec fn spec_cursor_speed(repeat_count: int) -> int {
    let shifts = if repeat_count / 5 < 10 { repeat_count / 5 } else { 10 };
    let step: int = 3 * (pow2(shifts as nat) as int);
    if step < 50 { step } else { 50 }
}

pub fn cursor_speed(repeat_count: u32) -> (speed: i32)
    ensures
        speed == spec_cursor_speed(repeat_count as int),
{
    let q = repeat_count / CURSOR_ACCEL_INTERVAL;
    let shifts = if q < MAX_ACCEL_SHIFTS { q } else { MAX_ACCEL_SHIFTS };
    proof {
        vstd::arithmetic::power2::lemma2_to64();
        vstd::bits::lemma_u32_shl_is_mul(1u32, shifts);
    }
    let scale = (1u32 << shifts) as i32;
    assert(scale <= 1024) by {
        if shifts < 10 {
            vstd::arithmetic::power2::lemma_pow2_strictly_increases(shifts as nat, 10);
        }
    }
    // The scale is at most 1024, so the product cannot saturate.
    let step = CURSOR_STEP * scale;
    if step < MAX_CURSOR_STEP { step } else { MAX_CURSOR_STEP }
}

/// The cursor never slows down while a direction stays held, and its step
/// stays between `CURSOR_STEP` and `MAX_CURSOR_STEP`.
pub proof fn lemma_cursor_speed_monotone(a: u32, b: u32)
    requires
        a <= b,
    ensures
        spec_cursor_speed(a as int) <= spec_cursor_speed(b as int),
        CURSOR_STEP <= spec_cursor_speed(a as int) <= MAX_CURSOR_STEP,
{
    let sa = if a / 5 < 10 { a / 5 } else { 10 };
    let sb = if b / 5 < 10 { b / 5 } else { 10 };
    assert(a as int / 5 <= b as int / 5) by (nonlinear_arith)
        requires a <= b;
    vstd::arithmetic::power2::lemma_pow2_pos(sa as nat);
    if sa < sb {
        vstd::arithmetic::power2::lemma_pow2_strictly_increases(sa as nat, sb as nat);
    }
}

// ── Action keys ──────────────────────────────────────────────────────

/// Grid action key for a mouse button: `j`, `k`, `l` for buttons 1, 2, 3.
pub open spec fn spec_action_key(ch: char) -> Option<u8> {
    if ch == 'j' {
        Some(1u8)
    } else if ch == 'k' {
        Some(2u8)
    } else if ch == 'l' {
        Some(3u8)
    } else {
        None
    }
}

pub fn action_key(ch: char) -> (btn: Option<u8>)
    ensures
        btn == spec_action_key(ch),
{
    let keys: [(char, u8); 3] = [('j', 1), ('k', 2), ('l', 3)];
    let mut i: usize = 0;
    while i < 3
        invariant
            i <= 3,
            keys@ == seq![('j', 1u8), ('k', 2u8), ('l', 3u8)],
            forall|j: int| 0 <= j < i ==> keys@[j].0 != ch,
        decreases 3 - i,
    {
        let (k, b) = keys[i];
        if k == ch {
            return Some(b);
        }
        i = i + 1;
    }
    None
}

// ── Timing ───────────────────────────────────────────────────────────

pub const CLICK_INTERVAL_MS: u64 = 100;

pub const UINPUT_CREATE_WAIT_MS: u64 = 50;

pub const MOVE_WAIT_MS: u64 = 20;

pub const POLL_INTERVAL_MS: u64 = 16;

// ── USB HID buttons ──────────────────────────────────────────────────

pub const BTN_LEFT: u16 = 0x110;

pub const BTN_RIGHT: u16 = 0x111;

pub const BTN_MIDDLE: u16 = 0x112;

pub const BTN_SIDE: u16 = 0x113;

pub const BTN_EXTRA: u16 = 0x114;

/// USB HID button code for mouse buttons (1 = left, 2 = middle, anything
/// else = right).
pub open spec fn spec_btn_code(button: u8) -> u16 {
    if button == 1 {
        BTN_LEFT
    } else if button == 2 {
        BTN_MIDDLE
    } else {
        BTN_RIGHT
    }
}

pub fn btn_code(button: u8) -> (code: u16)
    ensures
        code == spec_btn_code(button),
{
    match button {
        1 => BTN_LEFT,
        2 => BTN_MIDDLE,
        _ => BTN_RIGHT,
    }
}

/// A physical mouse button.
#[derive(Clone, Copy, Debug, PartialEq, Eq, Structural)]
pub enum MouseButton {
    Left,
    Middle,
    Right,
}

/// Button number of a mouse button (1 = left, 2 = middle, 3 = right).
pub open spec fn spec_button_number(b: MouseButton) -> u8 {
    match b {
        MouseButton::Left => 1u8,
        MouseButton::Middle => 2u8,
        MouseButton::Right => 3u8,
    }
}

/// USB HID code of a mouse button.
pub open spec fn spec_hid_button_code(b: MouseButton) -> u16 {
    match b {
        MouseButton::Left => BTN_LEFT,
        MouseButton::Middle => BTN_MIDDLE,
        MouseButton::Right => BTN_RIGHT,
    }
}

impl MouseButton {
    pub fn as_u8(self) -> (n: u8)
        ensures
            n == spec_button_number(self),
    {
        match self {
            MouseButton::Left => 1,
            MouseButton::Middle => 2,
            MouseButton::Right => 3,
        }
    }

    /// The button with number `n` (1, 2, 3), if any.
    pub fn from_u8(n: u8) -> (b: Option<MouseButton>)
        ensures
            match b {
                Some(b) => spec_button_number(b) == n,
                None => n < 1 || n > 3,
            },
    {
        match n {
            1 => Some(MouseButton::Left),
            2 => Some(MouseButton::Middle),
            3 => Some(MouseButton::Right),
            _ => None,
        }
    }
}

pub fn hid_button_code(button: MouseButton) -> (code: u16)
    ensures
        code == spec_hid_button_code(button),
        code == spec_btn_code(spec_button_number(button)),
{
    match button {
        MouseButton::Left => BTN_LEFT,
        MouseButton::Middle => BTN_MIDDLE,
        MouseButton::Right => BTN_RIGHT,
    }
}

} // verus!
