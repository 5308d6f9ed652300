use xmu_downloader::qrcode::{parse_state, poll_action, PollAction, State, UrlConsoleQRCode};

#[test]
fn status_bodies_are_read() {
    assert_eq!(parse_state("0"), Some(State::Waiting));
    assert_eq!(parse_state("1"), Some(State::Success));
    assert_eq!(parse_state("2"), Some(State::Scanned));
    assert_eq!(parse_state("3"), Some(State::Outdated));
    assert_eq!(parse_state("4"), None);
    assert_eq!(parse_state(""), None);
    assert_eq!(parse_state("<html>busy</html>"), None);
}

#[test]
fn poll_sequence_regenerates_once_and_ends_on_success() {
    let states = [
        State::Waiting,
        State::Waiting,
        State::Scanned,
        State::Outdated,
        State::Waiting,
        State::Success,
    ];
    let mut regenerations = 0;
    let mut finished_at = None;
    for (i, s) in states.iter().enumerate() {
        match poll_action(Some(*s)) {
            PollAction::KeepPolling => {}
            PollAction::Regenerate => regenerations += 1,
            PollAction::Finish => {
                finished_at = Some(i);
                break;
            }
        }
    }
    assert_eq!(regenerations, 1);
    assert_eq!(finished_at, Some(5));
}

#[test]
fn unreadable_status_keeps_polling() {
    assert_eq!(poll_action(None), PollAction::KeepPolling);
    assert_eq!(poll_action(Some(State::Scanned)), PollAction::KeepPolling);
}

#[test]
fn qrcode_token_lifecycle() {
    let mut q = UrlConsoleQRCode::new("id-1");
    assert_eq!(q.get_id(), "id-1");
    assert_eq!(q.get_data(), None);
    q.set_data("https://example/qr".to_string());
    assert_eq!(q.get_data(), Some("https://example/qr"));
    assert_eq!(q.get_id(), "id-1");
    q.renew("id-2");
    assert_eq!(q.get_id(), "id-2");
    assert_eq!(q.get_data(), None);
}
