//! Decisions the popup window takes on each frame: when it closes itself and
//! what title it shows.
use vstd::prelude::*;

verus! {

/// Whether the window has had the keyboard focus, and whether it is to close.
#[derive(Clone, Copy, Debug, PartialEq, Eq, Structural)]
pub struct FocusStep {
    pub had_focus: bool,
    pub close: bool,
}

/// Takes the window's focus on this frame. The popup closes when it loses
/// the focus, but not before it has first received it (a window manager
/// may show it unfocused for a moment).
pub fn focus_step(had_focus: bool, focused: bool) -> (r: FocusStep)
    ensures
        r.had_focus == (had_focus || focused),
        r.close == (had_focus && !focused),
{
    if focused {
        FocusStep { had_focus: true, close: false }
    } else {
        FocusStep { had_focus, close: had_focus }
    }
}

/// The title after a fetch reported the account's display name: the name
/// replaces the title unless the user chose the title.
pub fn title_after_fetch(title: String, title_explicit: bool, account_name: Option<String>) -> (r: String)
    ensures
        r@ == match account_name {
            Some(n) if !title_explicit => n@,
            _ => title@,
        },
{
    match account_name {
        Some(n) => if title_explicit {
            title
        } else {
            n
        },
        None => title,
    }
}

} // verus!
