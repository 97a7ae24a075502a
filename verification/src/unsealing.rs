//! The order of the steps that open an envelope and return its plaintext.
//!
//! The engine does each step; this module decides which step comes next and
//! when the call ends. The caller performs the step that it is told to,
//! reports the outcome as an event, and is told the next one. The plaintext
//! is handed out only after its authenticity tag was found valid.

use vstd::prelude::*;
use crate::buffer::Buf;
use crate::error::Error;
use crate::error::SealError;

verus! {

/// How far one call has come.
#[derive(Clone, Copy, Debug, PartialEq, Eq)]
pub enum OpenState {
    /// Nothing was done yet: there are only the envelope's bytes.
    RawBytes,
    /// The header was read.
    HeaderParsed,
    /// The user's key was accepted for this envelope.
    Unsealed,
    /// The plaintext was written out; its tag has not been checked yet.
    Extracted,
    /// The tag was found valid.
    Validated,
    /// The plaintext was handed out.
    PlaintextReturned,
    /// The call ended with this failure.
    Failed(Error),
}

/// The outcome of a step, as the caller reports it.
#[derive(Clone, Copy, Debug, PartialEq, Eq)]
pub enum OpenEvent {
    /// The engine read the header, or failed to.
    HeaderRead(Result<(), SealError>),
    /// The engine took the user's key, or refused it.
    KeyApplied(Result<(), SealError>),
    /// The engine wrote the plaintext to the buffer, or failed to.
    PlaintextWritten(Result<(), SealError>),
    /// The engine checked the tag: `true` where it is valid.
    TagChecked(bool),
    /// The plaintext was read out of the buffer.
    PlaintextCollected,
}

/// The step that the caller is to take.
#[derive(Clone, Copy, Debug, PartialEq, Eq)]
pub enum OpenAction {
    /// Read the envelope's header.
    ReadHeader,
    /// Deserialize the user's key and unseal with it.
    Unseal,
    /// Write the whole plaintext to a fresh buffer.
    WritePlaintext,
    /// Check the authenticity tag.
    CheckTag,
    /// Read the buffer from its start to its end and hand that out.
    CollectPlaintext,
    /// Nothing is left to do.
    Finished,
    /// Drop whatever was produced and report this failure.
    Fail(Error),
}

/// The step that is due in a state.
pub open spec fn open_pending(state: OpenState) -> OpenAction {
    match state {
        OpenState::RawBytes => OpenAction::ReadHeader,
        OpenState::HeaderParsed => OpenAction::Unseal,
        OpenState::Unsealed => OpenAction::WritePlaintext,
        OpenState::Extracted => OpenAction::CheckTag,
        OpenState::Validated => OpenAction::CollectPlaintext,
        OpenState::PlaintextReturned => OpenAction::Finished,
        OpenState::Failed(e) => OpenAction::Fail(e),
    }
}

/// Whether an event reports the outcome of the step that is due in a state.
pub open spec fn open_answers(state: OpenState, event: OpenEvent) -> bool {
    match (state, event) {
        (OpenState::RawBytes, OpenEvent::HeaderRead(_)) => true,
        (OpenState::HeaderParsed, OpenEvent::KeyApplied(_)) => true,
        (OpenState::Unsealed, OpenEvent::PlaintextWritten(_)) => true,
        (OpenState::Extracted, OpenEvent::TagChecked(_)) => true,
        (OpenState::Validated, OpenEvent::PlaintextCollected) => true,
        _ => false,
    }
}

/// The failure that an event reports, if it reports one. A failure of the
/// engine is passed on as it is; a tag that does not match is a failure of
/// its own kind.
pub open spec fn open_failure(event: OpenEvent) -> Option<Error> {
    match event {
        OpenEvent::HeaderRead(Err(e)) => Some(Error::Seal(e)),
        OpenEvent::KeyApplied(Err(e)) => Some(Error::Seal(e)),
        OpenEvent::PlaintextWritten(Err(e)) => Some(Error::Seal(e)),
        OpenEvent::TagChecked(false) => Some(Error::Validation),
        _ => None,
    }
}

/// The state that follows when the step that is due has succeeded.
pub open spec fn open_successor(state: OpenState) -> OpenState {
    match state {
        OpenState::RawBytes => OpenState::HeaderParsed,
        OpenState::HeaderParsed => OpenState::Unsealed,
        OpenState::Unsealed => OpenState::Extracted,
        OpenState::Extracted => OpenState::Validated,
        OpenState::Validated => OpenState::PlaintextReturned,
        OpenState::PlaintextReturned => OpenState::PlaintextReturned,
        OpenState::Failed(e) => OpenState::Failed(e),
    }
}

/// The state after an event. An event that does not answer the step that is
/// due changes nothing; a reported failure ends the call with that failure;
/// a success leads to the next state.
pub open spec fn open_next(state: OpenState, event: OpenEvent) -> OpenState {
    if !open_answers(state, event) {
        state
    } else {
        match open_failure(event) {
            Some(e) => OpenState::Failed(e),
            None => open_successor(state),
        }
    }
}

/// The state after a run of events, taken in order.
pub open spec fn open_run(state: OpenState, events: Seq<OpenEvent>) -> OpenState
    decreases events.len(),
{
    if events.len() == 0 {
        state
    } else {
        open_run(open_next(state, events[0]), events.drop_first())
    }
}

/// How many steps lie behind a state that is no failure.
pub open spec fn open_progress(state: OpenState) -> nat {
    match state {
        OpenState::RawBytes => 0,
        OpenState::HeaderParsed => 1,
        OpenState::Unsealed => 2,
        OpenState::Extracted => 3,
        OpenState::Validated => 4,
        OpenState::PlaintextReturned => 5,
        OpenState::Failed(_) => 0,
    }
}

/// The state in which a call begins, and its first step.
pub fn open_begin() -> (r: (OpenState, OpenAction))
    ensures
        r.0 == OpenState::RawBytes,
        r.1 == open_pending(r.0),
{
    (OpenState::RawBytes, OpenAction::ReadHeader)
}

/// The step that is due in `state`.
pub fn open_action(state: OpenState) -> (action: OpenAction)
    ensures
        action == open_pending(state),
{
    match state {
        OpenState::RawBytes => OpenAction::ReadHeader,
        OpenState::HeaderParsed => OpenAction::Unseal,
        OpenState::Unsealed => OpenAction::WritePlaintext,
        OpenState::Extracted => OpenAction::CheckTag,
        OpenState::Validated => OpenAction::CollectPlaintext,
        OpenState::PlaintextReturned => OpenAction::Finished,
        OpenState::Failed(e) => OpenAction::Fail(e),
    }
}

/// Takes the outcome of a step and decides what follows: the new state and
/// the step that is due in it.
pub fn open_step(state: OpenState, event: OpenEvent) -> (r: (OpenState, OpenAction))
    ensures
        r.0 == open_next(state, event),
        r.1 == open_pending(r.0),
{
    let next = match (state, event) {
        (OpenState::RawBytes, OpenEvent::HeaderRead(Ok(_))) => OpenState::HeaderParsed,
        (OpenState::RawBytes, OpenEvent::HeaderRead(Err(e))) => OpenState::Failed(Error::Seal(e)),
        (OpenState::HeaderParsed, OpenEvent::KeyApplied(Ok(_))) => OpenState::Unsealed,
        (OpenState::HeaderParsed, OpenEvent::KeyApplied(Err(e))) => OpenState::Failed(
            Error::Seal(e),
        ),
        (OpenState::Unsealed, OpenEvent::PlaintextWritten(Ok(_))) => OpenState::Extracted,
        (OpenState::Unsealed, OpenEvent::PlaintextWritten(Err(e))) => OpenState::Failed(
            Error::Seal(e),
        ),
        (OpenState::Extracted, OpenEvent::TagChecked(valid)) => {
            if valid {
                OpenState::Validated
            } else {
                OpenState::Failed(Error::Validation)
            }
        },
        (OpenState::Validated, OpenEvent::PlaintextCollected) => OpenState::PlaintextReturned,
        (unchanged, _) => unchanged,
    };
    (next, open_action(next))
}

/// What ending a call in `state` hands out: the plaintext in `store` where
/// the tag was found valid, the failure where the call has failed, and
/// nothing while steps are still due.
pub open spec fn open_handout(state: OpenState, store: Seq<u8>) -> Option<Result<Seq<u8>, Error>> {
    match state {
        OpenState::Validated => Some(Ok(store)),
        OpenState::Failed(e) => Some(Err(e)),
        _ => None,
    }
}

/// The bytes of a handout.
pub open spec fn handout_view(r: Option<Result<Vec<u8>, Error>>) -> Option<Result<Seq<u8>, Error>> {
    match r {
        Some(Ok(bytes)) => Some(Ok(bytes@)),
        Some(Err(e)) => Some(Err(e)),
        None => None,
    }
}

/// Ends a call. In state `Validated` the buffer is read from its start to
/// its end and the plaintext is handed out; that is the step
/// `CollectPlaintext`, and the state that follows is `PlaintextReturned`. In
/// a failed state the failure is handed out and the buffer is left alone, so
/// that plaintext whose tag did not match never leaves it. In any other
/// state nothing happens.
pub fn open_finish(state: OpenState, sink: &mut Buf) -> (r: (
    OpenState,
    Option<Result<Vec<u8>, Error>>,
))
    ensures
        handout_view(r.1) == open_handout(state, old(sink)@.store),
        r.0 == open_next(state, OpenEvent::PlaintextCollected),
        final(sink)@ == (if state == OpenState::Validated {
            old(sink)@.drained()
        } else {
            old(sink)@
        }),
{
    match state {
        OpenState::Validated => {
            let plaintext = sink.contents();
            (OpenState::PlaintextReturned, Some(Ok(plaintext)))
        },
        OpenState::Failed(e) => (state, Some(Err(e))),
        _ => (state, None),
    }
}

/// A failed call stays failed, with the failure it ended with, whatever is
/// reported afterwards.
pub proof fn lemma_open_failure_is_final(e: Error, events: Seq<OpenEvent>)
    ensures
        open_run(OpenState::Failed(e), events) == OpenState::Failed(e),
    decreases events.len(),
{
    if events.len() > 0 {
        lemma_open_failure_is_final(e, events.drop_first());
    }
}

/// Once the plaintext was handed out, nothing that is reported changes the
/// state.
pub proof fn lemma_open_returned_is_final(events: Seq<OpenEvent>)
    ensures
        open_run(OpenState::PlaintextReturned, events) == OpenState::PlaintextReturned,
    decreases events.len(),
{
    if events.len() > 0 {
        lemma_open_returned_is_final(events.drop_first());
    }
}

/// A failure reported for the step that is due ends the call with exactly
/// that failure: none is dropped, and none is turned into another.
pub proof fn lemma_open_reports_failure(state: OpenState, event: OpenEvent, e: Error)
    requires
        open_answers(state, event),
        open_failure(event) == Some(e),
    ensures
        open_next(state, event) == OpenState::Failed(e),
        open_pending(open_next(state, event)) == OpenAction::Fail(e),
{
}

/// Two engine failures end the call alike only where they are the same
/// failure, and no engine failure ends it as a tag mismatch does.
pub proof fn lemma_open_failures_stay_apart(a: OpenEvent, b: OpenEvent)
    requires
        open_failure(a) is Some,
        open_failure(a) == open_failure(b),
    ensures
        a is TagChecked <==> b is TagChecked,
        open_failure(a) == Some(Error::Validation) <==> a == OpenEvent::TagChecked(false),
{
}

/// A step never leads back: an event either fails the call, or leaves the
/// state as it is, or moves it on by one step.
pub proof fn lemma_open_moves_forward(state: OpenState, event: OpenEvent)
    requires
        !(state is Failed),
    ensures
        open_next(state, event) is Failed || open_next(state, event) == state || open_progress(
            open_next(state, event),
        ) == open_progress(state) + 1,
{
}

/// After a tag was found not to match, no run of events leads to a state in
/// which plaintext is handed out.
pub proof fn lemma_invalid_tag_ends_call(events: Seq<OpenEvent>, store: Seq<u8>)
    ensures
        open_run(open_next(OpenState::Extracted, OpenEvent::TagChecked(false)), events)
            == OpenState::Failed(Error::Validation),
        open_handout(
            open_run(open_next(OpenState::Extracted, OpenEvent::TagChecked(false)), events),
            store,
        ) == Some(Err::<Seq<u8>, Error>(Error::Validation)),
{
    lemma_open_failure_is_final(Error::Validation, events);
}

/// From a state before the tag check, a run of events reaches a state past
/// it only through a report that the tag is valid.
proof fn lemma_open_passes_tag_check(state: OpenState, events: Seq<OpenEvent>)
    requires
        !(state is Failed),
        open_progress(state) <= 3,
        open_progress(open_run(state, events)) >= 4,
    ensures
        events.contains(OpenEvent::TagChecked(true)),
    decreases events.len(),
{
    if events.len() > 0 {
        let next = open_next(state, events[0]);
        let rest = events.drop_first();
        if next is Failed {
            lemma_open_failure_is_final(next->Failed_0, rest);
        } else if open_progress(next) >= 4 {
            assert(events[0] == OpenEvent::TagChecked(true));
        } else {
            lemma_open_passes_tag_check(next, rest);
            let i = choose|i: int| 0 <= i < rest.len() && rest[i] == OpenEvent::TagChecked(true);
            assert(events[i + 1] == OpenEvent::TagChecked(true));
        }
    }
}

/// Plaintext is handed out only after the engine reported a valid tag:
/// whatever events a call has seen, if it stands at `Validated` or at
/// `PlaintextReturned`, one of them was `TagChecked(true)`.
pub proof fn lemma_plaintext_needs_valid_tag(events: Seq<OpenEvent>, store: Seq<u8>)
    requires
        ({
            let end = open_run(OpenState::RawBytes, events);
            end == OpenState::Validated || end == OpenState::PlaintextReturned || open_handout(
                end,
                store,
            ) matches Some(Ok(_))
        }),
    ensures
        events.contains(OpenEvent::TagChecked(true)),
{
    lemma_open_passes_tag_check(OpenState::RawBytes, events);
}

/// Where every step succeeds and the tag is valid, the five reports lead
/// from the raw bytes to the plaintext handed out, one state at a time.
pub proof fn lemma_open_success_path()
    ensures
        open_run(
            OpenState::RawBytes,
            seq![
                OpenEvent::HeaderRead(Ok(())),
                OpenEvent::KeyApplied(Ok(())),
                OpenEvent::PlaintextWritten(Ok(())),
                OpenEvent::TagChecked(true),
                OpenEvent::PlaintextCollected,
            ],
        ) == OpenState::PlaintextReturned,
{
    let events = seq![
        OpenEvent::HeaderRead(Ok(())),
        OpenEvent::KeyApplied(Ok(())),
        OpenEvent::PlaintextWritten(Ok(())),
        OpenEvent::TagChecked(true),
        OpenEvent::PlaintextCollected,
    ];
    reveal_with_fuel(open_run, 6);
    let e1 = events.drop_first();
    let e2 = e1.drop_first();
    let e3 = e2.drop_first();
    let e4 = e3.drop_first();
    let e5 = e4.drop_first();
    assert(e5.len() == 0);
}

} // verus!
