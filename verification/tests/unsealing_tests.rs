use irmaseal_wasm::buffer::Buf;
use irmaseal_wasm::error::Error;
use irmaseal_wasm::error::SealError;
use irmaseal_wasm::unsealing::open_action;
use irmaseal_wasm::unsealing::open_begin;
use irmaseal_wasm::unsealing::open_finish;
use irmaseal_wasm::unsealing::open_step;
use irmaseal_wasm::unsealing::OpenAction;
use irmaseal_wasm::unsealing::OpenEvent;
use irmaseal_wasm::unsealing::OpenState;

fn seal_errors() -> Vec<SealError> {
    vec![
        SealError::NotIRMASEAL,
        SealError::IncorrectVersion,
        SealError::ConstraintViolation,
        SealError::FormatViolation,
        SealError::UpstreamWritableError,
        SealError::EndOfStream,
        SealError::PrematureEndError,
    ]
}

fn open_states() -> Vec<OpenState> {
    vec![
        OpenState::RawBytes,
        OpenState::HeaderParsed,
        OpenState::Unsealed,
        OpenState::Extracted,
        OpenState::Validated,
        OpenState::PlaintextReturned,
        OpenState::Failed(Error::Validation),
        OpenState::Failed(Error::Seal(SealError::FormatViolation)),
    ]
}

fn open_events() -> Vec<OpenEvent> {
    vec![
        OpenEvent::HeaderRead(Ok(())),
        OpenEvent::HeaderRead(Err(SealError::NotIRMASEAL)),
        OpenEvent::KeyApplied(Ok(())),
        OpenEvent::KeyApplied(Err(SealError::FormatViolation)),
        OpenEvent::PlaintextWritten(Ok(())),
        OpenEvent::PlaintextWritten(Err(SealError::UpstreamWritableError)),
        OpenEvent::TagChecked(true),
        OpenEvent::TagChecked(false),
        OpenEvent::PlaintextCollected,
    ]
}

fn run_open(events: &[OpenEvent]) -> (OpenState, OpenAction) {
    let mut at = open_begin();
    for e in events {
        at = open_step(at.0, *e);
    }
    at
}

#[test]
fn open_begins_with_the_header() {
    assert_eq!(open_begin(), (OpenState::RawBytes, OpenAction::ReadHeader));
}

#[test]
fn open_action_of_each_state() {
    assert_eq!(open_action(OpenState::RawBytes), OpenAction::ReadHeader);
    assert_eq!(open_action(OpenState::HeaderParsed), OpenAction::Unseal);
    assert_eq!(open_action(OpenState::Unsealed), OpenAction::WritePlaintext);
    assert_eq!(open_action(OpenState::Extracted), OpenAction::CheckTag);
    assert_eq!(open_action(OpenState::Validated), OpenAction::CollectPlaintext);
    assert_eq!(open_action(OpenState::PlaintextReturned), OpenAction::Finished);
    assert_eq!(
        open_action(OpenState::Failed(Error::Validation)),
        OpenAction::Fail(Error::Validation)
    );
}

#[test]
fn open_goes_through_its_states_in_order() {
    let (s, a) = open_step(OpenState::RawBytes, OpenEvent::HeaderRead(Ok(())));
    assert_eq!((s, a), (OpenState::HeaderParsed, OpenAction::Unseal));
    let (s, a) = open_step(s, OpenEvent::KeyApplied(Ok(())));
    assert_eq!((s, a), (OpenState::Unsealed, OpenAction::WritePlaintext));
    let (s, a) = open_step(s, OpenEvent::PlaintextWritten(Ok(())));
    assert_eq!((s, a), (OpenState::Extracted, OpenAction::CheckTag));
    let (s, a) = open_step(s, OpenEvent::TagChecked(true));
    assert_eq!((s, a), (OpenState::Validated, OpenAction::CollectPlaintext));
    let (s, a) = open_step(s, OpenEvent::PlaintextCollected);
    assert_eq!((s, a), (OpenState::PlaintextReturned, OpenAction::Finished));
}

#[test]
fn header_failure_is_passed_on_unchanged() {
    for e in seal_errors() {
        assert_eq!(
            open_step(OpenState::RawBytes, OpenEvent::HeaderRead(Err(e))),
            (OpenState::Failed(Error::Seal(e)), OpenAction::Fail(Error::Seal(e)))
        );
    }
}

#[test]
fn wrong_key_fails_the_call() {
    for e in seal_errors() {
        assert_eq!(
            open_step(OpenState::HeaderParsed, OpenEvent::KeyApplied(Err(e))),
            (OpenState::Failed(Error::Seal(e)), OpenAction::Fail(Error::Seal(e)))
        );
    }
}

#[test]
fn write_failure_fails_the_call() {
    for e in seal_errors() {
        assert_eq!(
            open_step(OpenState::Unsealed, OpenEvent::PlaintextWritten(Err(e))),
            (OpenState::Failed(Error::Seal(e)), OpenAction::Fail(Error::Seal(e)))
        );
    }
}

#[test]
fn invalid_tag_fails_with_validation() {
    assert_eq!(
        open_step(OpenState::Extracted, OpenEvent::TagChecked(false)),
        (OpenState::Failed(Error::Validation), OpenAction::Fail(Error::Validation))
    );
}

#[test]
fn invalid_tag_never_hands_out_plaintext() {
    let mut sink = Buf::new(Vec::new());
    assert_eq!(sink.write(&[1, 2, 3]), Ok(()));
    let (state, _) = run_open(&[
        OpenEvent::HeaderRead(Ok(())),
        OpenEvent::KeyApplied(Ok(())),
        OpenEvent::PlaintextWritten(Ok(())),
        OpenEvent::TagChecked(false),
        OpenEvent::TagChecked(true),
        OpenEvent::PlaintextCollected,
    ]);
    assert_eq!(state, OpenState::Failed(Error::Validation));
    let (after, handout) = open_finish(state, &mut sink);
    assert_eq!(after, OpenState::Failed(Error::Validation));
    assert_eq!(handout, Some(Err(Error::Validation)));
    assert_eq!(sink.position(), 0);
    assert_eq!(sink.len(), 3);
}

#[test]
fn valid_tag_hands_out_the_plaintext() {
    let mut sink = Buf::new(Vec::new());
    assert_eq!(sink.write(&[9, 8]), Ok(()));
    assert_eq!(sink.write(&[7]), Ok(()));
    let (state, action) = run_open(&[
        OpenEvent::HeaderRead(Ok(())),
        OpenEvent::KeyApplied(Ok(())),
        OpenEvent::PlaintextWritten(Ok(())),
        OpenEvent::TagChecked(true),
    ]);
    assert_eq!(action, OpenAction::CollectPlaintext);
    let (after, handout) = open_finish(state, &mut sink);
    assert_eq!(after, OpenState::PlaintextReturned);
    assert_eq!(handout, Some(Ok(vec![9, 8, 7])));
    assert_eq!(sink.position(), 3);
}

#[test]
fn finish_hands_out_nothing_while_steps_are_due() {
    for state in [
        OpenState::RawBytes,
        OpenState::HeaderParsed,
        OpenState::Unsealed,
        OpenState::Extracted,
        OpenState::PlaintextReturned,
    ] {
        let mut sink = Buf::new(vec![1, 2, 3]);
        let (after, handout) = open_finish(state, &mut sink);
        assert_eq!(after, state);
        assert_eq!(handout, None);
        assert_eq!(sink.position(), 0);
    }
}

#[test]
fn finish_of_a_failed_call_reports_the_failure() {
    for e in seal_errors() {
        let mut sink = Buf::new(vec![1, 2, 3]);
        let (after, handout) = open_finish(OpenState::Failed(Error::Seal(e)), &mut sink);
        assert_eq!(after, OpenState::Failed(Error::Seal(e)));
        assert_eq!(handout, Some(Err(Error::Seal(e))));
        assert_eq!(sink.position(), 0);
    }
}

#[test]
fn events_out_of_turn_change_nothing() {
    let expected = [
        (OpenState::RawBytes, 0usize, 1usize),
        (OpenState::HeaderParsed, 2, 3),
        (OpenState::Unsealed, 4, 5),
        (OpenState::Extracted, 6, 7),
        (OpenState::Validated, 8, 8),
    ];
    let events = open_events();
    for state in open_states() {
        for (i, event) in events.iter().enumerate() {
            let in_turn = expected.iter().any(|(s, a, b)| *s == state && (i == *a || i == *b));
            let (next, action) = open_step(state, *event);
            assert_eq!(action, open_action(next));
            if !in_turn {
                assert_eq!(next, state);
            } else {
                assert_ne!(next, state);
            }
        }
    }
}

#[test]
fn failed_and_returned_are_final() {
    for event in open_events() {
        for e in seal_errors() {
            let failed = OpenState::Failed(Error::Seal(e));
            assert_eq!(open_step(failed, event), (failed, OpenAction::Fail(Error::Seal(e))));
        }
        assert_eq!(
            open_step(OpenState::PlaintextReturned, event),
            (OpenState::PlaintextReturned, OpenAction::Finished)
        );
    }
}

#[test]
fn first_failure_is_the_one_reported() {
    let (state, action) = run_open(&[
        OpenEvent::HeaderRead(Err(SealError::IncorrectVersion)),
        OpenEvent::HeaderRead(Err(SealError::NotIRMASEAL)),
        OpenEvent::KeyApplied(Err(SealError::FormatViolation)),
        OpenEvent::TagChecked(false),
    ]);
    assert_eq!(state, OpenState::Failed(Error::Seal(SealError::IncorrectVersion)));
    assert_eq!(action, OpenAction::Fail(Error::Seal(SealError::IncorrectVersion)));
}
