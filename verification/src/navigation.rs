//! Window-level navigation decisions.
//!
//! When the embedded browsing view asks how to treat a navigation, the
//! window answers from a few facts about the request: what kind of decision
//! is asked for, whether a user gesture or a plain link click caused it,
//! which mouse button and keyboard modifiers were involved, and whether the
//! request names an address.  [`decide_policy`] is that answer, verified;
//! the caller only performs the chosen outcome on the toolkit.  The module
//! also chooses the label under which a history entry is listed.

use vstd::prelude::*;

verus! {

/// The middle mouse button's number in the toolkit's event reports.
pub const MIDDLE_MOUSE_BUTTON: u32 = 2;

/// The modifier-state bit mask meaning that only the shift key is held.
pub const SHIFT_MODIFIER_MASK: u32 = 1;

/// The modifier-state bit mask meaning that only the control key is held.
pub const CONTROL_MODIFIER_MASK: u32 = 4;

/// The kind of policy decision the browsing view asks about.
#[derive(Clone, Copy, PartialEq, Eq, Structural, Debug)]
pub enum DecisionKind {
    /// Navigation within the current window.
    NavigationAction,
    /// Navigation that would open a new window.
    NewWindowAction,
    /// Any other decision, left entirely to the engine.
    Other,
}

/// One navigation request, as the policy handler sees it.
#[derive(Clone, Copy, PartialEq, Eq, Structural, Debug)]
pub struct NavigationRequest {
    /// What kind of decision is asked for.
    pub kind: DecisionKind,
    /// Whether the navigation comes from a plain click on a link.
    pub link_clicked: bool,
    /// Whether a user gesture caused the navigation.
    pub user_gesture: bool,
    /// The mouse button involved, zero when none was.
    pub mouse_button: u32,
    /// The keyboard modifier state at the time of the request.
    pub modifiers: u32,
    /// Whether the underlying request names an address to load.
    pub has_uri: bool,
}

/// What the window does with a navigation request.
#[derive(Clone, Copy, PartialEq, Eq, Structural, Debug)]
pub enum PolicyOutcome {
    /// Take no decision and leave the request to the engine.
    UseDefault,
    /// Take the decision away from the engine and open the address in a new
    /// window.
    OpenNewWindow,
    /// Take the decision away from the engine and load the request in the
    /// current window.
    OpenInThisWindow,
    /// Take the decision away from the engine and drop the request: a window
    /// opened without the user's doing.
    Suppress,
}

/// Whether the user asked for a new window: a deliberate navigation (a user
/// gesture or a link click) combined with the middle mouse button, or with
/// exactly the shift or the control modifier held.
pub open spec fn wants_new_window(request: NavigationRequest) -> bool {
    (request.user_gesture || request.link_clicked) && (request.mouse_button
        == MIDDLE_MOUSE_BUTTON || request.modifiers == SHIFT_MODIFIER_MASK || request.modifiers
        == CONTROL_MODIFIER_MASK)
}

/// The window's answer to a navigation request.  Decisions other than
/// navigation and new-window ones are left to the engine.  A navigation the
/// user aimed at a new window opens one, provided the request names an
/// address.  Beyond that, a new-window request is honoured in the current
/// window when it was deliberate, and dropped as an automatic pop-up when it
/// was not.
pub open spec fn spec_decide_policy(request: NavigationRequest) -> PolicyOutcome {
    if request.kind is Other {
        PolicyOutcome::UseDefault
    } else if wants_new_window(request) && request.has_uri {
        PolicyOutcome::OpenNewWindow
    } else if request.kind is NewWindowAction {
        if request.user_gesture || request.link_clicked {
            PolicyOutcome::OpenInThisWindow
        } else {
            PolicyOutcome::Suppress
        }
    } else {
        PolicyOutcome::UseDefault
    }
}

/// Decides what the window does with a navigation request, as
/// [`spec_decide_policy`] states.
pub fn decide_policy(request: &NavigationRequest) -> (outcome: PolicyOutcome)
    ensures
        outcome == spec_decide_policy(*request),
{
    match request.kind {
        DecisionKind::Other => PolicyOutcome::UseDefault,
        _ => {
            let deliberate = request.user_gesture || request.link_clicked;
            let aimed_elsewhere = request.mouse_button == MIDDLE_MOUSE_BUTTON
                || request.modifiers == SHIFT_MODIFIER_MASK || request.modifiers
                == CONTROL_MODIFIER_MASK;
            if deliberate && aimed_elsewhere && request.has_uri {
                PolicyOutcome::OpenNewWindow
            } else if matches!(request.kind, DecisionKind::NewWindowAction) {
                if deliberate {
                    PolicyOutcome::OpenInThisWindow
                } else {
                    PolicyOutcome::Suppress
                }
            } else {
                PolicyOutcome::UseDefault
            }
        },
    }
}

/// The label under which a history entry is listed: its title where one is
/// known, else its address, else a fixed placeholder.
pub fn history_entry_label(title: Option<&str>, uri: Option<&str>) -> (label: String)
    ensures
        label@ == (match title {
            Some(text) => text@,
            None => match uri {
                Some(address) => address@,
                None => "(no title)"@,
            },
        }),
{
    match title {
        Some(text) => text.to_owned(),
        None => match uri {
            Some(address) => address.to_owned(),
            None => "(no title)".to_owned(),
        },
    }
}

} // verus!
