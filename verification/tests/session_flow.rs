//! The session lifecycle, item-line preparation, and the meaning of
//! captured output.

use fzf_wrapped::session::SessionEvent;
use fzf_wrapped::session::SessionState;
use fzf_wrapped::session::may_push;
use fzf_wrapped::session::prepare_item;
use fzf_wrapped::session::selection_from_output;
use fzf_wrapped::session::step;

#[test]
fn pushed_items_are_trimmed_and_newline_terminated() {
    assert_eq!(prepare_item("red"), "red\n");
    assert_eq!(prepare_item("green "), "green\n");
}

#[test]
fn preparing_trims_all_surrounding_white_space() {
    assert_eq!(prepare_item("  tabs\tinside \n"), "tabs\tinside\n");
    assert_eq!(prepare_item("\u{3000}wide\u{3000}"), "wide\n");
    assert_eq!(prepare_item("   "), "\n");
    assert_eq!(prepare_item(""), "\n");
}

#[test]
fn spawn_failure_keeps_the_session_unstarted() {
    let after = step(SessionState::Unstarted, SessionEvent::SpawnFailed);
    assert_eq!(after, Some(SessionState::Unstarted));
    assert!(!may_push(SessionState::Unstarted));
}

#[test]
fn lifecycle_walks_unstarted_running_finished() {
    let running = step(SessionState::Unstarted, SessionEvent::SpawnSucceeded);
    assert_eq!(running, Some(SessionState::Running));
    assert!(may_push(SessionState::Running));
    let still = step(SessionState::Running, SessionEvent::ItemPushed);
    assert_eq!(still, Some(SessionState::Running));
    let done = step(SessionState::Running, SessionEvent::OutputAwaited);
    assert_eq!(done, Some(SessionState::Finished));
    assert!(!may_push(SessionState::Finished));
}

#[test]
fn forbidden_transitions_have_no_next_state() {
    assert_eq!(step(SessionState::Unstarted, SessionEvent::ItemPushed), None);
    assert_eq!(step(SessionState::Unstarted, SessionEvent::OutputAwaited), None);
    assert_eq!(step(SessionState::Running, SessionEvent::SpawnSucceeded), None);
    assert_eq!(step(SessionState::Finished, SessionEvent::ItemPushed), None);
    assert_eq!(step(SessionState::Finished, SessionEvent::OutputAwaited), None);
    assert_eq!(step(SessionState::Finished, SessionEvent::SpawnSucceeded), None);
}

#[test]
fn no_output_means_no_selection() {
    assert_eq!(selection_from_output(&Vec::new()), None);
}

#[test]
fn output_is_decoded_and_trimmed() {
    assert_eq!(
        selection_from_output(&b"red\n".to_vec()),
        Some("red".to_string())
    );
    assert_eq!(
        selection_from_output(&b"  spaced out  \n".to_vec()),
        Some("spaced out".to_string())
    );
}

#[test]
fn invalid_bytes_are_replaced_not_fatal() {
    let bytes = vec![0xff, b'o', b'k', b'\n'];
    assert_eq!(
        selection_from_output(&bytes),
        Some("\u{FFFD}ok".to_string())
    );
}

#[test]
fn whitespace_only_output_trims_to_empty_selection() {
    assert_eq!(selection_from_output(&b"\n".to_vec()), Some("".to_string()));
}
