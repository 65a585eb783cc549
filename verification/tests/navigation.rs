use wv::navigation::CONTROL_MODIFIER_MASK;
use wv::navigation::DecisionKind;
use wv::navigation::MIDDLE_MOUSE_BUTTON;
use wv::navigation::NavigationRequest;
use wv::navigation::PolicyOutcome;
use wv::navigation::SHIFT_MODIFIER_MASK;
use wv::navigation::decide_policy;
use wv::navigation::history_entry_label;

fn plain_click(kind: DecisionKind) -> NavigationRequest {
    NavigationRequest {
        kind,
        link_clicked: true,
        user_gesture: true,
        mouse_button: 1,
        modifiers: 0,
        has_uri: true,
    }
}

#[test]
fn other_decisions_are_left_to_the_engine() {
    let mut request = plain_click(DecisionKind::Other);
    request.mouse_button = MIDDLE_MOUSE_BUTTON;
    assert_eq!(decide_policy(&request), PolicyOutcome::UseDefault);
}

#[test]
fn plain_navigation_is_left_to_the_engine() {
    let request = plain_click(DecisionKind::NavigationAction);
    assert_eq!(decide_policy(&request), PolicyOutcome::UseDefault);
}

#[test]
fn middle_click_opens_a_new_window() {
    let mut request = plain_click(DecisionKind::NavigationAction);
    request.mouse_button = MIDDLE_MOUSE_BUTTON;
    assert_eq!(decide_policy(&request), PolicyOutcome::OpenNewWindow);
}

#[test]
fn shift_or_control_click_opens_a_new_window() {
    let mut request = plain_click(DecisionKind::NavigationAction);
    request.modifiers = SHIFT_MODIFIER_MASK;
    assert_eq!(decide_policy(&request), PolicyOutcome::OpenNewWindow);
    request.modifiers = CONTROL_MODIFIER_MASK;
    assert_eq!(decide_policy(&request), PolicyOutcome::OpenNewWindow);
}

#[test]
fn middle_click_without_address_falls_through() {
    let mut request = plain_click(DecisionKind::NavigationAction);
    request.mouse_button = MIDDLE_MOUSE_BUTTON;
    request.has_uri = false;
    assert_eq!(decide_policy(&request), PolicyOutcome::UseDefault);
}

#[test]
fn deliberate_new_window_request_loads_in_this_window() {
    let request = plain_click(DecisionKind::NewWindowAction);
    assert_eq!(decide_policy(&request), PolicyOutcome::OpenInThisWindow);
}

#[test]
fn automatic_new_window_request_is_suppressed() {
    let request = NavigationRequest {
        kind: DecisionKind::NewWindowAction,
        link_clicked: false,
        user_gesture: false,
        mouse_button: 0,
        modifiers: 0,
        has_uri: true,
    };
    assert_eq!(decide_policy(&request), PolicyOutcome::Suppress);
}

#[test]
fn history_label_prefers_the_title() {
    assert_eq!(
        history_entry_label(Some("Example Domain"), Some("https://example.com/")),
        "Example Domain"
    );
}

#[test]
fn history_label_falls_back_to_the_address() {
    assert_eq!(
        history_entry_label(None, Some("https://example.com/")),
        "https://example.com/"
    );
}

#[test]
fn history_label_placeholder_when_nothing_is_known() {
    assert_eq!(history_entry_label(None, None), "(no title)");
}
