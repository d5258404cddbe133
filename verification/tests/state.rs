use check_qualys::state::State;

const ALL: [State; 5] = [State::Dns, State::Error, State::InProgress, State::Ready, State::Unknown];

#[test]
fn state_texts() {
    assert_eq!(State::Dns.as_str(), "DNS");
    assert_eq!(State::Error.as_str(), "ERROR");
    assert_eq!(State::InProgress.as_str(), "IN_PROGRESS");
    assert_eq!(State::Ready.as_str(), "READY");
    assert_eq!(State::Unknown.as_str(), "UNKNOWN");
}

#[test]
fn state_parses_canonical_texts() {
    assert_eq!(State::parse("DNS"), State::Dns);
    assert_eq!(State::parse("ERROR"), State::Error);
    assert_eq!(State::parse("IN_PROGRESS"), State::InProgress);
    assert_eq!(State::parse("READY"), State::Ready);
    assert_eq!(State::parse("UNKNOWN"), State::Unknown);
}

#[test]
fn state_round_trip() {
    for state in ALL {
        assert_eq!(State::parse(state.as_str()), state);
    }
}

#[test]
fn state_takes_three_spellings_of_in_progress() {
    assert_eq!(State::parse("IN_PROGRESS"), State::InProgress);
    assert_eq!(State::parse("INPROGRESS"), State::InProgress);
    assert_eq!(State::parse("IN PROGRESS"), State::InProgress);
}

#[test]
fn state_ignores_letter_case() {
    assert_eq!(State::parse("dns"), State::Dns);
    assert_eq!(State::parse("Dns"), State::Dns);
    assert_eq!(State::parse("error"), State::Error);
    assert_eq!(State::parse("eRRoR"), State::Error);
    assert_eq!(State::parse("ready"), State::Ready);
    assert_eq!(State::parse("Ready"), State::Ready);
    assert_eq!(State::parse("in_progress"), State::InProgress);
    assert_eq!(State::parse("In_Progress"), State::InProgress);
    assert_eq!(State::parse("inprogress"), State::InProgress);
    assert_eq!(State::parse("InProgress"), State::InProgress);
    assert_eq!(State::parse("in progress"), State::InProgress);
    assert_eq!(State::parse("In Progress"), State::InProgress);
}

#[test]
fn state_of_other_texts_is_unknown() {
    assert_eq!(State::parse(""), State::Unknown);
    assert_eq!(State::parse("DONE"), State::Unknown);
    assert_eq!(State::parse("READY "), State::Unknown);
    assert_eq!(State::parse(" READY"), State::Unknown);
    assert_eq!(State::parse("REA DY"), State::Unknown);
    assert_eq!(State::parse("IN  PROGRESS"), State::Unknown);
    assert_eq!(State::parse("IN-PROGRESS"), State::Unknown);
    assert_eq!(State::parse("IN_PROGRES"), State::Unknown);
    assert_eq!(State::parse("IN__PROGRESS"), State::Unknown);
    assert_eq!(State::parse("PROGRESS"), State::Unknown);
    assert_eq!(State::parse("ERRORS"), State::Unknown);
    assert_eq!(State::parse("unknown"), State::Unknown);
    assert_eq!(State::parse("42"), State::Unknown);
}

#[test]
fn state_folds_ascii_letters_only() {
    assert_eq!(State::parse("ＲＥＡＤＹ"), State::Unknown);
    assert_eq!(State::parse("d\u{144}s"), State::Unknown);
    assert_eq!(State::parse("\u{131}n_progress"), State::Unknown);
    assert_eq!(State::parse("READ\u{178}"), State::Unknown);
}
