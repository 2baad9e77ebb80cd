use openaltid::pass::{Pass, PassState};
use openaltid::poller::{Disposition, PollAction, PollEvent};
use openaltid::error::{ExternalActionError, MalformedMarkerError};

fn keys(list: &[&str]) -> Vec<String> {
    list.iter().map(|k| k.to_string()).collect()
}

fn fetch(key: &str) -> PollAction {
    PollAction::FetchValue { key: key.to_string() }
}

#[test]
fn pass_over_no_keys_is_over_at_once() {
    let (pass, action) = Pass::begin(Vec::new());
    assert_eq!(action, PollAction::EndPass { aborted: false });
    assert!(pass.is_over());
    assert_eq!(pass.state, PassState::Ended { aborted: false });
}

#[test]
fn keys_are_taken_in_the_order_of_the_scan() {
    let (pass, action) = Pass::begin(keys(&["complete:1:2", "complete:3:4", "complete:5:6"]));
    assert_eq!(action, fetch("complete:1:2"));
    assert!(!pass.is_over());
    let (pass, action) = pass.advance(PollEvent::Absent);
    assert_eq!(action, PollAction::Finish { disposition: Disposition::Skipped });
    let (pass, action) = pass.advance(PollEvent::Done);
    assert_eq!(action, fetch("complete:3:4"));
    let (pass, action) = pass.advance(PollEvent::Value("nonsense".to_string()));
    assert_eq!(action, PollAction::Finish { disposition: Disposition::Skipped });
    let (pass, action) = pass.advance(PollEvent::Done);
    assert_eq!(action, fetch("complete:5:6"));
    assert_eq!(pass.taken, 3);
    let (pass, _) = pass.advance(PollEvent::Absent);
    let (pass, action) = pass.advance(PollEvent::Done);
    assert_eq!(action, PollAction::EndPass { aborted: false });
    assert!(pass.is_over());
}

#[test]
fn malformed_marker_ends_the_pass_and_leaves_the_rest() {
    let (pass, _) = Pass::begin(keys(&["complete:1:2", "complete:3:4"]));
    let (pass, action) = pass.advance(PollEvent::Value("true:92".to_string()));
    assert_eq!(
        action,
        PollAction::Finish { disposition: Disposition::Malformed(MalformedMarkerError::Value) }
    );
    let (pass, action) = pass.advance(PollEvent::Done);
    assert_eq!(action, PollAction::EndPass { aborted: true });
    assert_eq!(pass.taken, 1);
    assert_eq!(pass.state, PassState::Ended { aborted: true });
    let (pass, action) = pass.advance(PollEvent::Done);
    assert_eq!(action, PollAction::EndPass { aborted: true });
    assert_eq!(pass.taken, 1);
}

#[test]
fn key_out_of_shape_ends_the_pass() {
    let (pass, action) = Pass::begin(keys(&["completed_jobs", "complete:3:4"]));
    assert_eq!(action, fetch("completed_jobs"));
    let (pass, action) = pass.advance(PollEvent::Value("true:1:2".to_string()));
    assert_eq!(
        action,
        PollAction::Finish { disposition: Disposition::Malformed(MalformedMarkerError::Key) }
    );
    let (_, action) = pass.advance(PollEvent::Done);
    assert_eq!(action, PollAction::EndPass { aborted: true });
}

#[test]
fn abandoned_key_does_not_end_the_pass() {
    let (pass, _) = Pass::begin(keys(&["complete:1:2", "complete:3:4"]));
    let (pass, action) = pass.advance(PollEvent::Value("true:92:60".to_string()));
    assert_eq!(action, PollAction::ResolveGuild { guild_id: 2 });
    let unknown = ExternalActionError { message: "Unknown Guild".to_string() };
    let (pass, action) = pass.advance(PollEvent::ActionFailed(unknown));
    assert_eq!(
        action,
        PollAction::Finish { disposition: Disposition::Abandoned { claimed: false } }
    );
    let (_, action) = pass.advance(PollEvent::Done);
    assert_eq!(action, fetch("complete:3:4"));
}

#[test]
fn pass_that_is_over_stays_over() {
    let (pass, _) = Pass::begin(Vec::new());
    let (pass, action) = pass.advance(PollEvent::Value("true:1:2".to_string()));
    assert_eq!(action, PollAction::EndPass { aborted: false });
    assert!(pass.is_over());
}

#[test]
fn pass_ends_within_ten_events_for_each_key() {
    let events = [
        PollEvent::Done,
        PollEvent::Value("false:1:2".to_string()),
        PollEvent::StoreFailed,
    ];
    let n = events.len();
    for code in 0..n.pow(6) {
        let (mut pass, _) = Pass::begin(keys(&["complete:1:2", "complete:3:4"]));
        let mut rest = code;
        for step in 0..20 {
            // the first six events vary, the rest repeat them
            let pick = if step < 6 { rest % n } else { step % n };
            rest /= n;
            let (next, _) = pass.advance(events[pick].clone());
            pass = next;
        }
        assert!(pass.is_over());
    }
}
