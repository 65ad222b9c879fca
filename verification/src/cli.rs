//! CLI commands, and the parsing of their arguments.
pub mod click;

use vstd::prelude::*;

use crate::config::MouseButton;
use crate::text::str_eq;

verus! {

/// A CLI subcommand.
pub enum Cmd {
    /// Relative move: x > 0 right, y > 0 down.
    Move { x: i32, y: i32 },
    /// Absolute warp to screen pixels (x, y).
    MoveTo { x: i16, y: i16 },
    /// Mouse click: L(eft)|M(iddle)|R(ight), repeated `repeat` times.
    Click { repeat: u32, btn: String },
    /// Print the current cursor position and the screen it is on.
    Pos,
    /// Triple-mode daemon: glide-num + glide-alpha + grid.
    Service,
}

/// A button name that `click` does not know.
pub struct UnknownButton {
    pub name: String,
}

impl UnknownButton {
    /// The message shown for the error.
    pub fn message(&self) -> (m: String)
        ensures
            m@ == "unknown button: "@ + self.name@ + " (use L|M|R)"@,
    {
        let mut m = String::from_str("unknown button: ");
        m.append(self.name.as_str());
        m.append(" (use L|M|R)");
        m
    }
}

/// The button a name stands for: `L`, `l`, `left`, `1`; `M`, `m`,
/// `middle`, `2`; `R`, `r`, `right`, `3`.
pub open spec fn spec_parse_button(s: Seq<char>) -> Option<MouseButton> {
    if s == "L"@ || s == "l"@ || s == "left"@ || s == "1"@ {
        Some(MouseButton::Left)
    } else if s == "M"@ || s == "m"@ || s == "middle"@ || s == "2"@ {
        Some(MouseButton::Middle)
    } else if s == "R"@ || s == "r"@ || s == "right"@ || s == "3"@ {
        Some(MouseButton::Right)
    } else {
        None
    }
}

/// Parse the button argument of `click`.
pub fn parse_button(s: &str) -> (res: Result<MouseButton, UnknownButton>)
    ensures
        match res {
            Ok(b) => spec_parse_button(s@) == Some(b),
            Err(e) => spec_parse_button(s@) is None && e.name@ == s@,
        },
{
    if str_eq(s, "L") || str_eq(s, "l") || str_eq(s, "left") || str_eq(s, "1") {
        Ok(MouseButton::Left)
    } else if str_eq(s, "M") || str_eq(s, "m") || str_eq(s, "middle") || str_eq(s, "2") {
        Ok(MouseButton::Middle)
    } else if str_eq(s, "R") || str_eq(s, "r") || str_eq(s, "right") || str_eq(s, "3") {
        Ok(MouseButton::Right)
    } else {
        Err(UnknownButton { name: s.to_owned() })
    }
}

/// The button names of `click`: exactly `R`, `r`, `right` and `3` name the
/// right button, exactly `L`, `l`, `left` and `1` the left one, exactly
/// `M`, `m`, `middle` and `2` the middle one, and no other text names a
/// button.
pub proof fn lemma_button_names(s: Seq<char>)
    ensures
        (spec_parse_button(s) == Some(MouseButton::Right)) <==> (s == seq!['R'] || s == seq!['r']
            || s == seq!['r', 'i', 'g', 'h', 't'] || s == seq!['3']),
        (spec_parse_button(s) == Some(MouseButton::Left)) <==> (s == seq!['L'] || s == seq!['l']
            || s == seq!['l', 'e', 'f', 't'] || s == seq!['1']),
        (spec_parse_button(s) == Some(MouseButton::Middle)) <==> (s == seq!['M'] || s == seq!['m']
            || s == seq!['m', 'i', 'd', 'd', 'l', 'e'] || s == seq!['2']),
{
    reveal_strlit("L");
    reveal_strlit("l");
    reveal_strlit("left");
    reveal_strlit("1");
    reveal_strlit("M");
    reveal_strlit("m");
    reveal_strlit("middle");
    reveal_strlit("2");
    reveal_strlit("R");
    reveal_strlit("r");
    reveal_strlit("right");
    reveal_strlit("3");
    assert("L"@ =~= seq!['L']);
    assert("l"@ =~= seq!['l']);
    assert("left"@ =~= seq!['l', 'e', 'f', 't']);
    assert("1"@ =~= seq!['1']);
    assert("M"@ =~= seq!['M']);
    assert("m"@ =~= seq!['m']);
    assert("middle"@ =~= seq!['m', 'i', 'd', 'd', 'l', 'e']);
    assert("2"@ =~= seq!['2']);
    assert("R"@ =~= seq!['R']);
    assert("r"@ =~= seq!['r']);
    assert("right"@ =~= seq!['r', 'i', 'g', 'h', 't']);
    assert("3"@ =~= seq!['3']);
    if s.len() == 1 {
        assert(seq![s[0]] =~= s);
    }
    if s.len() == 5 {
        assert(seq![s[0], s[1], s[2], s[3], s[4]] =~= s);
    }
    if s.len() == 6 {
        assert(seq![s[0], s[1], s[2], s[3], s[4], s[5]] =~= s);
    }
    if s.len() == 4 {
        assert(seq![s[0], s[1], s[2], s[3]] =~= s);
    }
}

} // verus!
