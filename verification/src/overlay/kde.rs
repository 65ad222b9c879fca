//! Parsing of the replies that the KDE cursor query reads back: the D-Bus
//! reply that names the loaded script, and the compositor journal lines that
//! carry the cursor position.
//!
//! Text is handled as a sequence of characters. Lines, whitespace trimming,
//! whitespace-separated words and decimal `i32` numbers are defined here as
//! spec functions with the meaning that std's documentation gives
//! `str::lines`, `str::trim`, `str::split_whitespace` and `i32::from_str`.
use vstd::prelude::*;

verus! {

/// The characters of a string, in order.
pub fn chars_of(s: &str) -> (v: Vec<char>)
    ensures
        v@ == s@,
{
    let mut v: Vec<char> = Vec::new();
    for c in it: s.chars()
        invariant
            v@ == it.seq().subrange(0, it.index() as int),
    {
        v.push(c);
    }
    v
}

/// Unicode `White_Space`, as `char::is_whitespace` documents it.
pub open spec fn is_space(c: char) -> bool {
    let u = c as u32;
    ||| 0x9 <= u <= 0xd
    ||| u == 0x20
    ||| u == 0x85
    ||| u == 0xa0
    ||| u == 0x1680
    ||| 0x2000 <= u <= 0x200a
    ||| u == 0x2028
    ||| u == 0x2029
    ||| u == 0x202f
    ||| u == 0x205f
    ||| u == 0x3000
}

fn is_space_char(c: char) -> (b: bool)
    ensures
        b == is_space(c),
{
    let u = c as u32;
    (0x9 <= u && u <= 0xd) || u == 0x20 || u == 0x85 || u == 0xa0 || u == 0x1680 || (0x2000 <= u
        && u <= 0x200a) || u == 0x2028 || u == 0x2029 || u == 0x202f || u == 0x205f || u == 0x3000
}

/// The kinds of character runs that the scanner steps over.
pub enum Run {
    /// Whitespace.
    Spaces,
    /// Anything but whitespace.
    Word,
    /// Anything but a line feed.
    Line,
}

/// The characters that a run of the given kind is made of.
pub open spec fn run_pred(k: Run) -> spec_fn(char) -> bool {
    match k {
        Run::Spaces => |c: char| is_space(c),
        Run::Word => |c: char| !is_space(c),
        Run::Line => |c: char| c != '\n',
    }
}

/// Where the run of characters satisfying `p` that starts at `i` ends.
pub open spec fn run_end(s: Seq<char>, i: int, p: spec_fn(char) -> bool) -> int
    decreases s.len() - i,
{
    if 0 <= i < s.len() && p(s[i]) {
        run_end(s, i + 1, p)
    } else {
        i
    }
}

/// A run ends inside `s`, at a character outside it, and every character
/// it covers satisfies `p`.
pub proof fn lemma_run_end(s: Seq<char>, i: int, p: spec_fn(char) -> bool)
    requires
        0 <= i <= s.len(),
    ensures
        i <= run_end(s, i, p) <= s.len(),
        run_end(s, i, p) < s.len() ==> !p(s[run_end(s, i, p)]),
        i < s.len() && p(s[i]) ==> run_end(s, i, p) > i,
        forall|k: int| i <= k < run_end(s, i, p) ==> p(#[trigger] s[k]),
    decreases s.len() - i,
{
    if i < s.len() && p(s[i]) {
        lemma_run_end(s, i + 1, p);
    }
}

fn pred_holds(k: &Run, c: char) -> (b: bool)
    ensures
        b == run_pred(*k)(c),
{
    match k {
        Run::Spaces => is_space_char(c),
        Run::Word => !is_space_char(c),
        Run::Line => c != '\n',
    }
}

/// The end of the run of the given kind that starts at `i`.
fn scan(v: &Vec<char>, i: usize, k: Run) -> (e: usize)
    requires
        i <= v.len(),
    ensures
        e == run_end(v@, i as int, run_pred(k)),
        i <= e <= v.len(),
        e < v.len() ==> !run_pred(k)(v@[e as int]),
        i < v.len() && run_pred(k)(v@[i as int]) ==> e > i,
{
    proof {
        lemma_run_end(v@, i as int, run_pred(k));
    }
    let mut e: usize = i;
    while e < v.len() && pred_holds(&k, v[e])
        invariant
            i <= e <= v.len(),
            run_end(v@, i as int, run_pred(k)) == run_end(v@, e as int, run_pred(k)),
        decreases v.len() - e,
    {
        e = e + 1;
    }
    e
}

/// The characters from `lo` up to `hi`.
fn slice_of(v: &Vec<char>, lo: usize, hi: usize) -> (r: Vec<char>)
    requires
        lo <= hi <= v.len(),
    ensures
        r@ == v@.subrange(lo as int, hi as int),
{
    let mut r: Vec<char> = Vec::new();
    let mut k: usize = lo;
    while k < hi
        invariant
            lo <= k <= hi,
            hi <= v.len(),
            r@ == v@.subrange(lo as int, k as int),
        decreases hi - k,
    {
        r.push(v[k]);
        k = k + 1;
        assert(r@ =~= v@.subrange(lo as int, k as int));
    }
    r
}

/// Whether `pat` occurs in `s` at index `i`.
pub open spec fn matches_at(s: Seq<char>, i: int, pat: Seq<char>) -> bool {
    &&& 0 <= i
    &&& i + pat.len() <= s.len()
    &&& s.subrange(i, i + pat.len()) == pat
}

/// The first index at or after `i` where `pat` occurs in `s`.
pub open spec fn find_from(s: Seq<char>, pat: Seq<char>, i: int) -> Option<int>
    decreases s.len() + 1 - i,
{
    if i < 0 || i + pat.len() > s.len() {
        None
    } else if matches_at(s, i, pat) {
        Some(i)
    } else {
        find_from(s, pat, i + 1)
    }
}

fn matches_exec(v: &Vec<char>, i: usize, pat: &Vec<char>) -> (b: bool)
    ensures
        b == matches_at(v@, i as int, pat@),
{
    if i > v.len() || pat.len() > v.len() - i {
        return false;
    }
    let mut k: usize = 0;
    while k < pat.len()
        invariant
            k <= pat.len(),
            i + pat.len() <= v.len(),
            forall|m: int| 0 <= m < k ==> v@[i + m] == pat@[m],
        decreases pat.len() - k,
    {
        if v[i + k] != pat[k] {
            assert(v@.subrange(i as int, i + pat.len())[k as int] != pat@[k as int]);
            return false;
        }
        k = k + 1;
    }
    assert(v@.subrange(i as int, i + pat.len()) =~= pat@);
    true
}

/// The first occurrence of `pat` in `v`.
fn find_vec(v: &Vec<char>, pat: &Vec<char>) -> (r: Option<usize>)
    ensures
        match r {
            Some(i) => find_from(v@, pat@, 0) == Some(i as int) && i + pat.len() <= v.len(),
            None => find_from(v@, pat@, 0) is None,
        },
{
    if pat.len() > v.len() {
        return None;
    }
    if pat.len() == 0 {
        assert(v@.subrange(0, 0) =~= pat@);
        return Some(0);
    }
    let last: usize = v.len() - pat.len();
    let mut i: usize = 0;
    while i <= last
        invariant
            last == v.len() - pat.len(),
            0 < pat.len() <= v.len(),
            i <= last + 1,
            find_from(v@, pat@, 0) == find_from(v@, pat@, i as int),
        decreases last + 1 - i,
    {
        if matches_exec(v, i, pat) {
            return Some(i);
        }
        i = i + 1;
    }
    None
}

/// Whether `pat` occurs in `s`.
pub open spec fn contains(s: Seq<char>, pat: Seq<char>) -> bool {
    find_from(s, pat, 0) is Some
}

/// `s` without leading whitespace.
pub open spec fn trim_start(s: Seq<char>) -> Seq<char>
    decreases s.len(),
{
    if s.len() > 0 && is_space(s[0]) {
        trim_start(s.drop_first())
    } else {
        s
    }
}

/// `s` without trailing characters equal to `c`.
pub open spec fn trim_end_char(s: Seq<char>, c: char) -> Seq<char>
    decreases s.len(),
{
    if s.len() > 0 && s.last() == c {
        trim_end_char(s.drop_last(), c)
    } else {
        s
    }
}

/// `s` without trailing whitespace.
pub open spec fn trim_end(s: Seq<char>) -> Seq<char>
    decreases s.len(),
{
    if s.len() > 0 && is_space(s.last()) {
        trim_end(s.drop_last())
    } else {
        s
    }
}

/// `s` without leading and trailing whitespace (`str::trim`).
pub open spec fn trim(s: Seq<char>) -> Seq<char> {
    trim_end(trim_start(s))
}

fn trim_start_vec(v: &Vec<char>) -> (r: Vec<char>)
    ensures
        r@ == trim_start(v@),
{
    let mut a: usize = 0;
    assert(v@.subrange(0, v.len() as int) =~= v@);
    while a < v.len() && is_space_char(v[a])
        invariant
            a <= v.len(),
            trim_start(v@) == trim_start(v@.subrange(a as int, v.len() as int)),
        decreases v.len() - a,
    {
        assert(v@.subrange(a as int, v.len() as int).drop_first() =~= v@.subrange(
            a + 1,
            v.len() as int,
        ));
        a = a + 1;
    }
    slice_of(v, a, v.len())
}

fn trim_end_vec(v: &Vec<char>) -> (r: Vec<char>)
    ensures
        r@ == trim_end(v@),
{
    let mut b: usize = v.len();
    assert(v@.subrange(0, b as int) =~= v@);
    while b > 0 && is_space_char(v[b - 1])
        invariant
            b <= v.len(),
            trim_end(v@) == trim_end(v@.subrange(0, b as int)),
        decreases b,
    {
        assert(v@.subrange(0, b as int).drop_last() =~= v@.subrange(0, b - 1));
        b = b - 1;
    }
    slice_of(v, 0, b)
}

fn trim_vec(v: &Vec<char>) -> (r: Vec<char>)
    ensures
        r@ == trim(v@),
{
    let t = trim_start_vec(v);
    trim_end_vec(&t)
}

fn trim_end_char_vec(v: &Vec<char>, c: char) -> (r: Vec<char>)
    ensures
        r@ == trim_end_char(v@, c),
{
    let mut b: usize = v.len();
    assert(v@.subrange(0, b as int) =~= v@);
    while b > 0 && v[b - 1] == c
        invariant
            b <= v.len(),
            trim_end_char(v@, c) == trim_end_char(v@.subrange(0, b as int), c),
        decreases b,
    {
        assert(v@.subrange(0, b as int).drop_last() =~= v@.subrange(0, b - 1));
        b = b - 1;
    }
    slice_of(v, 0, b)
}

/// Whether `c` is an ASCII decimal digit.
pub open spec fn is_digit(c: char) -> bool {
    48 <= (c as u32) <= 57
}

/// Whether every character of `s` is a decimal digit.
pub open spec fn all_digits(s: Seq<char>) -> bool {
    forall|k: int| 0 <= k < s.len() ==> is_digit(#[trigger] s[k])
}

/// The number that a string of decimal digits writes.
pub open spec fn digits_value(s: Seq<char>) -> int
    decreases s.len(),
{
    if s.len() == 0 {
        0
    } else {
        digits_value(s.drop_last()) * 10 + ((s.last() as u32) - 48)
    }
}

/// `i32::from_str`: an optional `+` or `-` sign followed by at least one
/// decimal digit and nothing else, whose value fits in an `i32`.
pub open spec fn spec_parse_i32(s: Seq<char>) -> Option<i32> {
    let signed = s.len() > 0 && (s[0] == '-' || s[0] == '+');
    let ds = if signed { s.drop_first() } else { s };
    let v = if signed && s[0] == '-' { -digits_value(ds) } else { digits_value(ds) };
    if ds.len() == 0 || !all_digits(ds) || v < i32::MIN || v > i32::MAX {
        None
    } else {
        Some(v as i32)
    }
}

fn parse_i32(w: &Vec<char>) -> (r: Option<i32>)
    ensures
        r == spec_parse_i32(w@),
{
    let n: usize = w.len();
    if n == 0 {
        return None;
    }
    let mut start: usize = 0;
    let mut neg = false;
    if w[0] == '-' {
        neg = true;
        start = 1;
    } else if w[0] == '+' {
        start = 1;
    }
    if start == n {
        return None;
    }
    let ghost ds = w@.subrange(start as int, n as int);
    assert(ds =~= (if start == 1 { w@.drop_first() } else { w@ }));
    let mut acc: u64 = 0;
    let mut over = false;
    let mut k: usize = start;
    while k < n
        invariant
            start <= k <= n,
            n == w.len(),
            n > 0,
            start <= 1,
            start == 1 <==> (w@[0] == '-' || w@[0] == '+'),
            neg <==> w@[0] == '-',
            ds == w@.subrange(start as int, n as int),
            all_digits(w@.subrange(start as int, k as int)),
            !over ==> acc == digits_value(w@.subrange(start as int, k as int)),
            !over ==> acc <= 2147483648,
            over ==> digits_value(w@.subrange(start as int, k as int)) > 2147483648,
        decreases n - k,
    {
        let u = w[k] as u32;
        if u < 48 || u > 57 {
            assert(ds[k - start] == w@[k as int]);
            assert(!is_digit(ds[k - start]));
            assert(!all_digits(ds));
            return None;
        }
        let ghost pre = w@.subrange(start as int, k as int);
        let ghost post = w@.subrange(start as int, k + 1);
        assert(post.drop_last() =~= pre);
        assert(post.last() == w@[k as int]);
        proof {
            lemma_digits_nonneg(pre);
        }
        let d: u64 = (u - 48) as u64;
        if !over {
            let nv: u64 = acc * 10 + d;
            if nv > 2147483648 {
                over = true;
            } else {
                acc = nv;
            }
        }
        k = k + 1;
        assert(all_digits(post));
    }
    assert(w@.subrange(start as int, n as int) == ds);
    if over {
        return None;
    }
    if neg {
        let x: i64 = 0 - (acc as i64);
        Some(x as i32)
    } else if acc <= 2147483647 {
        Some(acc as i32)
    } else {
        None
    }
}

/// A string of digits has a nonnegative value.
pub proof fn lemma_digits_nonneg(s: Seq<char>)
    requires
        all_digits(s),
    ensures
        digits_value(s) >= 0,
    decreases s.len(),
{
    if s.len() > 0 {
        assert(is_digit(s[s.len() - 1]));
        assert(all_digits(s.drop_last()));
        lemma_digits_nonneg(s.drop_last());
    }
}

/// `l` without one trailing carriage return.
pub open spec fn strip_cr(l: Seq<char>) -> Seq<char> {
    if l.len() > 0 && l.last() == '\r' {
        l.drop_last()
    } else {
        l
    }
}

/// The lines of `s` from index `i` on, as `str::lines` gives them: split at
/// each line feed, a carriage return just before a line feed dropped, and
/// no empty line after a final line feed.
pub open spec fn lines_from(s: Seq<char>, i: int) -> Seq<Seq<char>>
    decreases s.len() - i,
{
    if 0 <= i < s.len() {
        let e = run_end(s, i, run_pred(Run::Line));
        proof {
            lemma_run_end(s, i, run_pred(Run::Line));
        }
        if e < s.len() {
            seq![strip_cr(s.subrange(i, e))] + lines_from(s, e + 1)
        } else {
            seq![s.subrange(i, s.len() as int)]
        }
    } else {
        seq![]
    }
}

/// The lines of `s` (`str::lines`).
pub open spec fn spec_lines(s: Seq<char>) -> Seq<Seq<char>> {
    lines_from(s, 0)
}

/// The line that starts at `i`, and the index where the next one starts.
fn next_line(v: &Vec<char>, i: usize) -> (r: (Vec<char>, usize))
    requires
        i < v.len(),
    ensures
        i < r.1 <= v.len(),
        lines_from(v@, i as int) == seq![r.0@] + lines_from(v@, r.1 as int),
{
    let e = scan(v, i, Run::Line);
    if e < v.len() {
        let mut line = slice_of(v, i, e);
        if line.len() > 0 && line[line.len() - 1] == '\r' {
            line.pop();
            assert(line@ =~= strip_cr(v@.subrange(i as int, e as int)));
        }
        (line, e + 1)
    } else {
        let line = slice_of(v, i, e);
        assert(lines_from(v@, e as int) =~= seq![]);
        assert(seq![line@] + lines_from(v@, e as int) =~= seq![line@]);
        (line, e)
    }
}

/// The first number among the whitespace-separated words of `s` from index
/// `i` on: each word in turn is read as an `i32`, and the first that reads
/// gives the result.
pub open spec fn first_int_word_from(s: Seq<char>, i: int) -> Option<i32>
    decreases s.len() - i,
{
    if 0 <= i <= s.len() {
        let a = run_end(s, i, run_pred(Run::Spaces));
        proof {
            lemma_run_end(s, i, run_pred(Run::Spaces));
        }
        if a < s.len() {
            let b = run_end(s, a, run_pred(Run::Word));
            proof {
                lemma_run_end(s, a, run_pred(Run::Word));
            }
            match spec_parse_i32(s.subrange(a, b)) {
                Some(x) => Some(x),
                None => first_int_word_from(s, b),
            }
        } else {
            None
        }
    } else {
        None
    }
}

fn first_int_word(v: &Vec<char>) -> (r: Option<i32>)
    ensures
        r == first_int_word_from(v@, 0),
{
    let n: usize = v.len();
    let mut i: usize = 0;
    while i < n
        invariant
            i <= n,
            n == v.len(),
            first_int_word_from(v@, 0) == first_int_word_from(v@, i as int),
        decreases n - i,
    {
        let a = scan(v, i, Run::Spaces);
        if a >= n {
            return None;
        }
        let b = scan(v, a, Run::Word);
        let w = slice_of(v, a, b);
        let p = parse_i32(&w);
        if p.is_some() {
            return p;
        }
        i = b;
    }
    None
}

/// The text `int32`.
pub open spec fn int32_tag() -> Seq<char> {
    seq!['i', 'n', 't', '3', '2']
}

/// The text `"x":`.
pub open spec fn x_tag() -> Seq<char> {
    seq!['"', 'x', '"', ':']
}

/// The text `"y":`.
pub open spec fn y_tag() -> Seq<char> {
    seq!['"', 'y', '"', ':']
}

/// The first line of `ls` in which `pat` occurs.
pub open spec fn first_with(ls: Seq<Seq<char>>, pat: Seq<char>) -> Option<Seq<char>>
    decreases ls.len(),
{
    if ls.len() == 0 {
        None
    } else if contains(ls[0], pat) {
        Some(ls[0])
    } else {
        first_with(ls.drop_first(), pat)
    }
}

/// Lines without `pat` in front of others do not change which line is the
/// first to hold it.
pub proof fn lemma_first_with_skips(a: Seq<Seq<char>>, b: Seq<Seq<char>>, pat: Seq<char>)
    requires
        forall|k: int| 0 <= k < a.len() ==> !contains(#[trigger] a[k], pat),
    ensures
        first_with(a + b, pat) == first_with(b, pat),
    decreases a.len(),
{
    if a.len() > 0 {
        assert((a + b).drop_first() =~= a.drop_first() + b);
        assert((a + b)[0] == a[0]);
        lemma_first_with_skips(a.drop_first(), b, pat);
    } else {
        assert(a + b =~= b);
    }
}

/// The script id in a `loadScript` D-Bus reply: the first number among the
/// words of the first line that holds `int32`.
pub open spec fn spec_parse_script_id(s: Seq<char>) -> Option<i32> {
    match first_with(spec_lines(s), int32_tag()) {
        Some(l) => first_int_word_from(l, 0),
        None => None,
    }
}

/// Reads the script id out of the reply to `org.kde.kwin.Scripting.loadScript`
/// that `dbus-send --print-reply` prints; `None` where the reply has none.
pub fn parse_script_id(out: &str) -> (r: Option<i32>)
    ensures
        r == spec_parse_script_id(out@),
{
    let v = chars_of(out);
    let mut tag: Vec<char> = Vec::new();
    tag.push('i');
    tag.push('n');
    tag.push('t');
    tag.push('3');
    tag.push('2');
    assert(tag@ =~= int32_tag());
    let n: usize = v.len();
    let mut i: usize = 0;
    let ghost mut done: Seq<Seq<char>> = seq![];
    assert(done + lines_from(v@, 0) =~= lines_from(v@, 0));
    while i < n
        invariant
            i <= n,
            n == v.len(),
            v@ == out@,
            tag@ == int32_tag(),
            spec_lines(v@) == done + lines_from(v@, i as int),
            forall|k: int| 0 <= k < done.len() ==> !contains(#[trigger] done[k], int32_tag()),
        decreases n - i,
    {
        let (line, next) = next_line(&v, i);
        let found = find_vec(&line, &tag);
        if found.is_some() {
            proof {
                lemma_first_with_skips(done, lines_from(v@, i as int), int32_tag());
            }
            return first_int_word(&line);
        }
        proof {
            assert(done.push(line@) + lines_from(v@, next as int) =~= done + lines_from(
                v@,
                i as int,
            ));
            done = done.push(line@);
        }
        i = next;
    }
    proof {
        assert(lines_from(v@, n as int) =~= seq![]);
        assert(done + seq![] =~= done);
        lemma_first_with_skips(done, seq![], int32_tag());
    }
    None
}

fn tag_vec(c: char) -> (t: Vec<char>)
    ensures
        t@ == seq!['"', c, '"', ':'],
{
    let mut t: Vec<char> = Vec::new();
    t.push('"');
    t.push(c);
    t.push('"');
    t.push(':');
    assert(t@ =~= seq!['"', c, '"', ':']);
    t
}

/// `r` up to the first occurrence of `pat`, or all of `r` where there is none.
pub open spec fn before_pat(r: Seq<char>, pat: Seq<char>) -> Seq<char> {
    match find_from(r, pat, 0) {
        Some(j) => r.subrange(0, j),
        None => r,
    }
}

/// `s.split(pat).nth(1)`: what lies between the first occurrence of `pat`
/// and the next one (or the end).
pub open spec fn split_second(s: Seq<char>, pat: Seq<char>) -> Option<Seq<char>> {
    match find_from(s, pat, 0) {
        Some(i) => Some(before_pat(s.subrange(i + pat.len(), s.len() as int), pat)),
        None => None,
    }
}

fn before_pat_vec(r: &Vec<char>, pat: &Vec<char>) -> (b: Vec<char>)
    ensures
        b@ == before_pat(r@, pat@),
{
    match find_vec(r, pat) {
        Some(j) => slice_of(r, 0, j),
        None => slice_of(r, 0, r.len()),
    }
}

fn split_second_vec(s: &Vec<char>, pat: &Vec<char>) -> (p: Option<Vec<char>>)
    ensures
        match p {
            Some(w) => split_second(s@, pat@) == Some(w@),
            None => split_second(s@, pat@) is None,
        },
{
    match find_vec(s, pat) {
        Some(i) => {
            let rest = slice_of(s, i + pat.len(), s.len());
            Some(before_pat_vec(&rest, pat))
        },
        None => None,
    }
}

/// The x coordinate of a journal line: after `"x":`, up to the first comma.
pub open spec fn spec_x_of(l: Seq<char>) -> Option<i32> {
    match split_second(l, x_tag()) {
        Some(p) => spec_parse_i32(trim(before_pat(p, seq![',']))),
        None => None,
    }
}

/// The y coordinate of a journal line: after `"y":`, closing braces and
/// whitespace at the end dropped.
pub open spec fn spec_y_of(l: Seq<char>) -> Option<i32> {
    match split_second(l, y_tag()) {
        Some(p) => spec_parse_i32(trim(trim_end_char(trim(p), '}'))),
        None => None,
    }
}

/// The cursor position that a journal line carries, where both coordinates
/// read.
pub open spec fn spec_coords_of(l: Seq<char>) -> Option<(i32, i32)> {
    if spec_x_of(l) is Some && spec_y_of(l) is Some {
        Some((spec_x_of(l).unwrap(), spec_y_of(l).unwrap()))
    } else {
        None
    }
}

/// The position carried by the last line of `ls` that carries one.
pub open spec fn last_coords(ls: Seq<Seq<char>>) -> Option<(i32, i32)>
    decreases ls.len(),
{
    if ls.len() == 0 {
        None
    } else if spec_coords_of(ls.last()) is Some {
        spec_coords_of(ls.last())
    } else {
        last_coords(ls.drop_last())
    }
}

/// The cursor position in the journal output: that of the last line that
/// carries one.
pub open spec fn spec_parse_coords(s: Seq<char>) -> Option<(i32, i32)> {
    last_coords(spec_lines(s))
}

fn coords_of_line(l: &Vec<char>, xt: &Vec<char>, yt: &Vec<char>) -> (r: Option<(i32, i32)>)
    requires
        xt@ == x_tag(),
        yt@ == y_tag(),
    ensures
        r == spec_coords_of(l@),
{
    let mut comma: Vec<char> = Vec::new();
    comma.push(',');
    assert(comma@ =~= seq![',']);
    let x = match split_second_vec(l, xt) {
        Some(p) => {
            let head = before_pat_vec(&p, &comma);
            parse_i32(&trim_vec(&head))
        },
        None => None,
    };
    let y = match split_second_vec(l, yt) {
        Some(p) => {
            let t = trim_vec(&p);
            let u = trim_end_char_vec(&t, '}');
            parse_i32(&trim_vec(&u))
        },
        None => None,
    };
    match (x, y) {
        (Some(a), Some(b)) => Some((a, b)),
        _ => None,
    }
}

/// Reads the cursor position out of the compositor journal that
/// `journalctl -o cat` prints: the last line that carries both `"x":` and
/// `"y":` numbers wins; `None` where no line does.
pub fn parse_coords(out: &str) -> (r: Option<(i32, i32)>)
    ensures
        r == spec_parse_coords(out@),
{
    let v = chars_of(out);
    let xt = tag_vec('x');
    let yt = tag_vec('y');
    let n: usize = v.len();
    let mut i: usize = 0;
    let mut best: Option<(i32, i32)> = None;
    let ghost mut done: Seq<Seq<char>> = seq![];
    assert(done + lines_from(v@, 0) =~= lines_from(v@, 0));
    while i < n
        invariant
            i <= n,
            n == v.len(),
            v@ == out@,
            xt@ == x_tag(),
            yt@ == y_tag(),
            spec_lines(v@) == done + lines_from(v@, i as int),
            best == last_coords(done),
        decreases n - i,
    {
        let (line, next) = next_line(&v, i);
        let c = coords_of_line(&line, &xt, &yt);
        if c.is_some() {
            best = c;
        }
        proof {
            assert(done.push(line@) + lines_from(v@, next as int) =~= done + lines_from(
                v@,
                i as int,
            ));
            assert(done.push(line@).drop_last() =~= done);
            done = done.push(line@);
        }
        i = next;
    }
    proof {
        assert(lines_from(v@, n as int) =~= seq![]);
        assert(done + seq![] =~= done);
    }
    best
}

// ── What the queries print ───────────────────────────────────────────

/// The character of a decimal digit.
pub open spec fn digit_char(d: int) -> char {
    seq!['0', '1', '2', '3', '4', '5', '6', '7', '8', '9'][d]
}

/// Decimal digits of a natural number, most significant first.
pub open spec fn nat_text(n: nat) -> Seq<char>
    decreases n,
{
    if n < 10 {
        seq![digit_char(n as int)]
    } else {
        nat_text(n / 10).push(digit_char((n % 10) as int))
    }
}

/// Decimal text of an integer, with a minus sign when negative: how the
/// compositor's script prints a coordinate, and how D-Bus prints an id.
pub open spec fn int_text(v: int) -> Seq<char> {
    if v < 0 { seq!['-'] + nat_text((-v) as nat) } else { nat_text(v as nat) }
}

proof fn lemma_digit_char(d: int)
    requires
        0 <= d < 10,
    ensures
        digit_char(d) as u32 == 48 + d,
        is_digit(digit_char(d)),
{
    if d == 0 {
    } else if d == 1 {
    } else if d == 2 {
    } else if d == 3 {
    } else if d == 4 {
    } else if d == 5 {
    } else if d == 6 {
    } else if d == 7 {
    } else if d == 8 {
    } else {
    }
}

proof fn lemma_nat_text(n: nat)
    ensures
        nat_text(n).len() >= 1,
        all_digits(nat_text(n)),
        digits_value(nat_text(n)) == n,
    decreases n,
{
    lemma_digit_char((n % 10) as int);
    if n < 10 {
        let t = nat_text(n);
        assert(t.drop_last() =~= Seq::<char>::empty());
        assert(digits_value(t.drop_last()) == 0);
        assert(t.last() == digit_char(n as int));
        assert(digits_value(t) == n);
    } else {
        lemma_nat_text(n / 10);
        let t = nat_text(n);
        assert(t.drop_last() =~= nat_text(n / 10));
        assert(t.last() == digit_char((n % 10) as int));
        assert(digits_value(t) == digits_value(nat_text(n / 10)) * 10 + (n % 10));
        assert((n / 10) * 10 + n % 10 == n);
        assert forall|k: int| 0 <= k < t.len() implies is_digit(#[trigger] t[k]) by {
            if k < t.len() - 1 {
                assert(t[k] == nat_text(n / 10)[k]);
            }
        }
    }
}

/// Every character of an integer's text is a digit or its leading minus.
proof fn lemma_int_text_chars(v: int)
    ensures
        int_text(v).len() >= 1,
        forall|k: int| 0 <= k < int_text(v).len() ==> (#[trigger] int_text(v)[k] == '-' && k == 0 && v < 0)
            || is_digit(int_text(v)[k]),
        is_digit(int_text(v).last()),
{
    if v < 0 {
        lemma_nat_text((-v) as nat);
        let t = int_text(v);
        assert forall|k: int| 0 <= k < t.len() implies (#[trigger] t[k] == '-' && k == 0 && v < 0) || is_digit(t[k]) by {
            if k > 0 {
                assert(t[k] == nat_text((-v) as nat)[k - 1]);
            }
        }
        assert(t.last() == nat_text((-v) as nat).last());
    } else {
        lemma_nat_text(v as nat);
    }
}

/// An integer's text reads back as the integer.
pub proof fn lemma_parse_int_text(v: i32)
    ensures
        spec_parse_i32(int_text(v as int)) == Some(v),
{
    let t = int_text(v as int);
    if v < 0 {
        lemma_nat_text((-v) as nat);
        assert(t.drop_first() =~= nat_text((-v) as nat));
    } else {
        lemma_nat_text(v as nat);
        assert(is_digit(t[0]));
    }
}

proof fn lemma_find_from_at(s: Seq<char>, pat: Seq<char>, i: int, k: int)
    requires
        0 <= i <= k,
        matches_at(s, k, pat),
        forall|j: int| i <= j < k ==> !matches_at(s, j, pat),
    ensures
        find_from(s, pat, i) == Some(k),
    decreases k - i,
{
    if i < k {
        lemma_find_from_at(s, pat, i + 1, k);
    }
}

proof fn lemma_find_from_none(s: Seq<char>, pat: Seq<char>, i: int)
    requires
        0 <= i,
        forall|j: int| i <= j ==> !matches_at(s, j, pat),
    ensures
        find_from(s, pat, i) is None,
    decreases s.len() + 1 - i,
{
    if i + pat.len() <= s.len() {
        lemma_find_from_none(s, pat, i + 1);
    }
}

/// No occurrence of a pattern whose second character `s` never holds.
proof fn lemma_no_match_without(s: Seq<char>, pat: Seq<char>)
    requires
        pat.len() >= 2,
        forall|k: int| 0 <= k < s.len() ==> s[k] != pat[1],
    ensures
        find_from(s, pat, 0) is None,
{
    assert forall|j: int| 0 <= j implies !matches_at(s, j, pat) by {
        if matches_at(s, j, pat) {
            assert(s.subrange(j, j + pat.len())[1] == s[j + 1]);
        }
    }
    lemma_find_from_none(s, pat, 0);
}

/// No whitespace in an integer's text, so trimming leaves it alone.
proof fn lemma_trim_int_text(v: int)
    ensures
        trim(int_text(v)) == int_text(v),
        forall|k: int| 0 <= k < int_text(v).len() ==> !is_space(#[trigger] int_text(v)[k]),
{
    lemma_int_text_chars(v);
    let t = int_text(v);
    assert forall|k: int| 0 <= k < t.len() implies !is_space(#[trigger] t[k]) by {
        if t[k] == '-' {
        } else {
            assert(is_digit(t[k]));
        }
    }
    assert(!is_space(t[0]));
    assert(trim_start(t) == t);
    assert(!is_space(t.last()));
}

/// The line the KWin script prints for a cursor at (`x`, `y`).
pub open spec fn coords_line(x: i32, y: i32) -> Seq<char> {
    seq!['*', '{', ' ', '"', 'x', '"', ':'] + int_text(x as int) + seq![',', ' ', '"', 'y', '"', ':']
        + int_text(y as int) + seq![' ', '}']
}

/// The line the KWin script prints reads back as the position it printed.
pub proof fn lemma_coords_line_reads_back(x: i32, y: i32)
    ensures
        spec_coords_of(coords_line(x, y)) == Some((x, y)),
{
    let xt = int_text(x as int);
    let yt = int_text(y as int);
    let a = seq!['*', '{', ' ', '"', 'x', '"', ':'];
    let b = seq![',', ' ', '"', 'y', '"', ':'];
    let c = seq![' ', '}'];
    let l = coords_line(x, y);
    lemma_int_text_chars(x as int);
    lemma_int_text_chars(y as int);
    lemma_trim_int_text(x as int);
    lemma_trim_int_text(y as int);
    lemma_parse_int_text(x);
    lemma_parse_int_text(y);
    let nx = xt.len() as int;
    let ny = yt.len() as int;
    assert(l.len() == 7 + nx + 6 + ny + 2);
    assert forall|k: int| 0 <= k < 7 implies #[trigger] l[k] == a[k] by {}
    assert forall|k: int| 7 <= k < 7 + nx implies #[trigger] l[k] == xt[k - 7] by {}
    assert forall|k: int| 7 + nx <= k < 13 + nx implies #[trigger] l[k] == b[k - 7 - nx] by {}
    assert forall|k: int| 13 + nx <= k < 13 + nx + ny implies #[trigger] l[k] == yt[k - 13 - nx] by {}
    assert forall|k: int| 13 + nx + ny <= k < 15 + nx + ny implies #[trigger] l[k] == c[k - 13 - nx - ny] by {}

    // "x": first occurs at 3.
    assert(l.subrange(3, 7) =~= x_tag());
    assert(!matches_at(l, 0, x_tag())) by {
        assert(l.subrange(0, 4)[0] == l[0]);
    }
    assert(!matches_at(l, 1, x_tag())) by {
        assert(l.subrange(1, 5)[0] == l[1]);
    }
    assert(!matches_at(l, 2, x_tag())) by {
        assert(l.subrange(2, 6)[0] == l[2]);
    }
    lemma_find_from_at(l, x_tag(), 0, 3);
    let r = l.subrange(7, l.len() as int);
    assert(r =~= xt + b + yt + c);
    assert forall|k: int| 0 <= k < r.len() implies r[k] != x_tag()[1] by {
        assert(r[k] == l[k + 7]);
    }
    lemma_no_match_without(r, x_tag());
    assert(split_second(l, x_tag()) == Some(r));
    // The x coordinate ends at the first comma.
    assert(r.subrange(nx, nx + 1) =~= seq![',']);
    assert forall|j: int| 0 <= j < nx implies !matches_at(r, j, seq![',']) by {
        assert(r.subrange(j, j + 1)[0] == r[j]);
        assert(r[j] == xt[j]);
    }
    lemma_find_from_at(r, seq![','], 0, nx);
    assert(before_pat(r, seq![',']) =~= xt);
    assert(spec_x_of(l) == Some(x));

    // "y": first occurs after the x coordinate and the comma.
    let m = 9 + nx;
    assert(l.subrange(m, m + 4) =~= y_tag());
    assert forall|j: int| 0 <= j < m implies !matches_at(l, j, y_tag()) by {
        if matches_at(l, j, y_tag()) {
            assert(l.subrange(j, j + 4)[1] == l[j + 1]);
        }
    }
    lemma_find_from_at(l, y_tag(), 0, m);
    let r2 = l.subrange(m + 4, l.len() as int);
    assert(r2 =~= yt + c);
    assert forall|k: int| 0 <= k < r2.len() implies r2[k] != y_tag()[1] by {
        assert(r2[k] == l[k + m + 4]);
    }
    lemma_no_match_without(r2, y_tag());
    assert(split_second(l, y_tag()) == Some(r2));
    // Trimming: nothing at the start; the closing brace and the space go.
    assert(!is_space(r2[0]));
    assert(trim_start(r2) == r2);
    assert(trim_end(r2) == r2);
    assert(trim(r2) == r2);
    let u = yt.push(' ');
    assert(r2.drop_last() =~= u);
    assert(trim_end_char(u, '}') == u);
    assert(trim_end_char(r2, '}') == u);
    assert(u[0] == yt[0]);
    assert(trim_start(u) == u);
    assert(u.drop_last() =~= yt);
    assert(trim_end(u) == trim_end(yt));
    assert(trim_end(yt) == yt);
    assert(trim(u) == yt);
    assert(spec_y_of(l) == Some(y));
}

/// A run that holds up to `k` and stops there ends at `k`.
proof fn lemma_run_end_to(s: Seq<char>, i: int, k: int, p: spec_fn(char) -> bool)
    requires
        0 <= i <= k <= s.len(),
        forall|j: int| i <= j < k ==> p(#[trigger] s[j]),
        k == s.len() || !p(s[k]),
    ensures
        run_end(s, i, p) == k,
    decreases k - i,
{
    if i < k {
        lemma_run_end_to(s, i + 1, k, p);
    }
}

proof fn lemma_run_end_shift(a: Seq<char>, b: Seq<char>, j: int, p: spec_fn(char) -> bool)
    requires
        0 <= j <= b.len(),
    ensures
        run_end(a + b, a.len() + j, p) == a.len() + run_end(b, j, p),
    decreases b.len() - j,
{
    if j < b.len() {
        assert((a + b)[a.len() + j] == b[j]);
        lemma_run_end_shift(a, b, j + 1, p);
    }
}

/// The lines of a text from index `a.len() + j` on are those of its tail
/// `b` from `j` on.
proof fn lemma_lines_shift(a: Seq<char>, b: Seq<char>, j: int)
    requires
        0 <= j <= b.len(),
    ensures
        lines_from(a + b, a.len() + j) == lines_from(b, j),
    decreases b.len() - j,
{
    if j < b.len() {
        let s = a + b;
        let pl = run_pred(Run::Line);
        lemma_run_end_shift(a, b, j, pl);
        lemma_run_end(b, j, pl);
        let e = run_end(b, j, pl);
        assert(s.subrange(a.len() + j, a.len() + e) =~= b.subrange(j, e));
        if e < b.len() {
            lemma_lines_shift(a, b, e + 1);
        }
    }
}

/// A run that stops inside the head of a text stops at the same place in
/// the head alone.
proof fn lemma_run_end_prefix(a: Seq<char>, b: Seq<char>, i: int, p: spec_fn(char) -> bool)
    requires
        0 <= i <= a.len(),
        run_end(a, i, p) < a.len(),
    ensures
        run_end(a + b, i, p) == run_end(a, i, p),
    decreases a.len() - i,
{
    if p(a[i]) {
        assert((a + b)[i] == a[i]);
        lemma_run_end_prefix(a, b, i + 1, p);
    } else {
        assert((a + b)[i] == a[i]);
    }
}

/// The lines of a text whose head ends with a line feed are the head's
/// lines followed by the tail's.
proof fn lemma_lines_concat(a: Seq<char>, b: Seq<char>, i: int)
    requires
        a.len() == 0 || a.last() == '\n',
        0 <= i <= a.len(),
    ensures
        lines_from(a + b, i) == lines_from(a, i) + lines_from(b, 0),
    decreases a.len() - i,
{
    let s = a + b;
    let pl = run_pred(Run::Line);
    if i == a.len() {
        lemma_lines_shift(a, b, 0);
        assert(lines_from(a, i) =~= Seq::<Seq<char>>::empty());
        assert(lines_from(a, i) + lines_from(b, 0) =~= lines_from(b, 0));
    } else {
        lemma_run_end(a, i, pl);
        if run_end(a, i, pl) == a.len() {
            assert(pl(a[a.len() - 1]));
        }
        let e = run_end(a, i, pl);
        lemma_run_end_prefix(a, b, i, pl);
        assert(s.subrange(i, e) =~= a.subrange(i, e));
        lemma_lines_concat(a, b, e + 1);
        assert(lines_from(a + b, i) =~= seq![strip_cr(a.subrange(i, e))] + lines_from(a + b, e + 1));
        assert(lines_from(a, i) =~= seq![strip_cr(a.subrange(i, e))] + lines_from(a, e + 1));
    }
}

/// The lines of one line that ends with a line feed: that line.
proof fn lemma_single_line(l: Seq<char>)
    requires
        forall|k: int| 0 <= k < l.len() ==> #[trigger] l[k] != '\n',
        l.len() == 0 || l.last() != '\r',
    ensures
        spec_lines(l.push('\n')) == seq![l],
{
    let s = l.push('\n');
    let pl = run_pred(Run::Line);
    assert forall|j: int| 0 <= j < l.len() implies pl(#[trigger] s[j]) by {
        assert(s[j] == l[j]);
    }
    lemma_run_end_to(s, 0, l.len() as int, pl);
    assert(s.subrange(0, l.len() as int) =~= l);
    assert(lines_from(s, l.len() + 1 as int) =~= Seq::<Seq<char>>::empty());
    assert(strip_cr(l) == l);
    assert(spec_lines(s) =~= seq![l]);
}

proof fn lemma_coords_line_chars(x: i32, y: i32)
    ensures
        forall|k: int| 0 <= k < coords_line(x, y).len() ==> #[trigger] coords_line(x, y)[k] != '\n',
        coords_line(x, y).last() == '}',
{
    let xt = int_text(x as int);
    let yt = int_text(y as int);
    let l = coords_line(x, y);
    lemma_int_text_chars(x as int);
    lemma_int_text_chars(y as int);
    let nx = xt.len() as int;
    let ny = yt.len() as int;
    assert forall|k: int| 0 <= k < l.len() implies #[trigger] l[k] != '\n' by {
        if 7 <= k < 7 + nx {
            assert(l[k] == xt[k - 7]);
        } else if 13 + nx <= k < 13 + nx + ny {
            assert(l[k] == yt[k - 13 - nx]);
        }
    }
}

/// The compositor's journal, read back after the script printed the cursor
/// at (`x`, `y`) as its last line, gives that position, whatever came
/// before it.
pub proof fn lemma_journal_reads_back(before: Seq<char>, x: i32, y: i32)
    requires
        before.len() == 0 || before.last() == '\n',
    ensures
        spec_parse_coords(before + coords_line(x, y).push('\n')) == Some((x, y)),
{
    let l = coords_line(x, y);
    lemma_coords_line_chars(x, y);
    lemma_coords_line_reads_back(x, y);
    lemma_single_line(l);
    lemma_lines_concat(before, l.push('\n'), 0);
    let ls = spec_lines(before) + seq![l];
    assert(spec_lines(before + l.push('\n')) == ls);
    assert(ls.last() == l);
}

/// The reply line that names a loaded script.
pub open spec fn script_reply_line(id: i32) -> Seq<char> {
    seq![' ', ' ', ' ', 'i', 'n', 't', '3', '2', ' '] + int_text(id as int)
}

/// A `loadScript` reply reads back as the id it names: after a header line
/// without `int32`, the reply line gives the script's id.
pub proof fn lemma_script_reply_reads_back(header: Seq<char>, id: i32)
    requires
        forall|k: int| 0 <= k < header.len() ==> #[trigger] header[k] != '\n',
        header.len() == 0 || header.last() != '\r',
        !contains(header, int32_tag()),
    ensures
        spec_parse_script_id(header.push('\n') + script_reply_line(id).push('\n')) == Some(id),
{
    let r = script_reply_line(id);
    let t = int_text(id as int);
    lemma_int_text_chars(id as int);
    lemma_trim_int_text(id as int);
    lemma_parse_int_text(id);
    let n = t.len() as int;
    assert forall|k: int| 9 <= k < 9 + n implies #[trigger] r[k] == t[k - 9] by {}
    assert forall|k: int| 0 <= k < r.len() implies #[trigger] r[k] != '\n' by {
        if 9 <= k {
            assert(r[k] == t[k - 9]);
        }
    }
    assert(r.last() == t.last());
    lemma_single_line(header);
    lemma_single_line(r);
    lemma_lines_concat(header.push('\n'), r.push('\n'), 0);
    let ls = seq![header] + seq![r];
    assert(spec_lines(header.push('\n') + r.push('\n')) == ls);
    // The reply line holds `int32` at index 3.
    assert(r.subrange(3, 8) =~= int32_tag());
    assert forall|j: int| 0 <= j < 3 implies !matches_at(r, j, int32_tag()) by {
        assert(r.subrange(j, j + 5)[0] == r[j]);
    }
    lemma_find_from_at(r, int32_tag(), 0, 3);
    assert(ls[0] == header);
    assert(ls.drop_first() =~= seq![r]);
    assert(first_with(seq![r], int32_tag()) == Some(r));
    assert(first_with(ls, int32_tag()) == Some(r));
    // Its words: `int32`, which reads as no number, then the id.
    let sp = run_pred(Run::Spaces);
    let wd = run_pred(Run::Word);
    lemma_run_end_to(r, 0, 3, sp);
    lemma_run_end_to(r, 3, 8, wd);
    let w1 = r.subrange(3, 8);
    assert(!is_digit(w1[0]));
    assert(spec_parse_i32(w1) is None);
    lemma_run_end_to(r, 8, 9, sp);
    assert forall|j: int| 9 <= j < r.len() implies wd(#[trigger] r[j]) by {
        assert(r[j] == t[j - 9]);
    }
    lemma_run_end_to(r, 9, r.len() as int, wd);
    assert(r.subrange(9, r.len() as int) =~= t);
    assert(first_int_word_from(r, 8) == Some(id));
    assert(first_int_word_from(r, 0) == Some(id));
}

} // verus!
