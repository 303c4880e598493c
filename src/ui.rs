//! Small helpers shared by the interface components.
use vstd::prelude::*;

verus! {

/// The interaction state of an on-screen component.
#[derive(Clone, Copy, Debug, Default, PartialEq, Eq, Structural)]
pub enum UIComponentState {
    #[default]
    Idle,
    Hovered,
    Disabled,
    Clicked,
}

/// Turns an empty string into `None` and any other string into an owned copy.
pub fn str_to_option(s: &str) -> (r: Option<String>)
    ensures
        s@.len() == 0 ==> r is None,
        s@.len() > 0 ==> r is Some && r->Some_0@ == s@,
{
    if s.is_empty() {
        None
    } else {
        Some(s.to_string())
    }
}

} // verus!
