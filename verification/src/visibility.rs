//! The main-window visibility policy: hide only what is positively known
//! to be visible; on anything else — hidden, or a failed query — show and
//! focus, so the one visible surface can always be recovered.

use vstd::prelude::*;

verus! {

/// The window identifier reserved for the primary window.
pub open spec fn main_window_label() -> Seq<char> {
    "main"@
}

/// The identifier under which the primary window is registered.
pub fn main_window_label_str() -> (r: &'static str)
    ensures
        r@ == main_window_label(),
{
    "main"
}

/// What the platform layer must do to the main window.
#[derive(Clone, Copy, Debug, PartialEq, Eq, Structural)]
pub enum VisibilityAction {
    /// Hide the window.
    Hide,
    /// Show the window and transfer input focus to it.
    ShowAndFocus,
}

/// The policy: hide exactly when the query positively answered "visible";
/// a "not visible" answer and a failed query both show.
pub open spec fn visibility_decision(visible: Result<bool, String>) -> VisibilityAction {
    if visible == Ok::<bool, String>(true) {
        VisibilityAction::Hide
    } else {
        VisibilityAction::ShowAndFocus
    }
}

/// Decides what a tray activation does to the main window, from the
/// outcome of the platform's visibility query.
pub fn visibility_action(visible: Result<bool, String>) -> (a: VisibilityAction)
    ensures
        a == visibility_decision(visible),
        (a == VisibilityAction::Hide) <==> (visible == Ok::<bool, String>(true)),
{
    match visible {
        Ok(true) => VisibilityAction::Hide,
        _ => VisibilityAction::ShowAndFocus,
    }
}

/// Law: a failed visibility query never hides — the window is shown and
/// focused, so a platform layer that cannot report state cannot cost the
/// user the only way back to the window.
pub proof fn lemma_fail_safe_visibility(visible: Result<bool, String>)
    requires
        visible is Err,
    ensures
        visibility_decision(visible) == VisibilityAction::ShowAndFocus,
{
}

} // verus!
