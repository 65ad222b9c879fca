//! `kursor click`: which click to make.
use vstd::prelude::*;

use crate::cli::{parse_button, spec_parse_button, UnknownButton};
use crate::device::pointer::PointerAction;

verus! {

/// What `kursor click` does: the named button clicked `repeat` times, or
/// the error for a name that is no button. The caller performs the click.
pub fn run(repeat: u32, btn: String) -> (res: Result<PointerAction, UnknownButton>)
    ensures
        match res {
            Ok(a) => spec_parse_button(btn@) is Some && a == (PointerAction::Click {
                button: spec_parse_button(btn@)->0,
                count: repeat,
            }),
            Err(e) => spec_parse_button(btn@) is None && e.name@ == btn@,
        },
{
    match parse_button(btn.as_str()) {
        Ok(button) => Ok(PointerAction::Click { button, count: repeat }),
        Err(e) => Err(e),
    }
}

} // verus!
