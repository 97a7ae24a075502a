//! The order of the steps that seal a payload into an envelope.
//!
//! The engine does each step; this module decides which step comes next and
//! when the call ends. The envelope is handed out only after the whole
//! payload went through the engine, and never in part.

use vstd::prelude::*;
use crate::buffer::Buf;
use crate::error::Error;
use crate::error::SealError;

verus! {

/// How far one call has come.
#[derive(Clone, Copy, Debug, PartialEq, Eq)]
pub enum SealState {
    /// Nothing was done yet.
    Start,
    /// The engine accepted the identity.
    IdentityBuilt,
    /// The sealer stands over a fresh buffer and has written the header.
    Streaming,
    /// The whole payload went through the sealer, which is closed.
    PayloadWritten,
    /// The envelope was handed out.
    EnvelopeReturned,
    /// The call ended with this failure.
    Failed(Error),
}

/// The outcome of a step, as the caller reports it.
#[derive(Clone, Copy, Debug, PartialEq, Eq)]
pub enum SealEvent {
    /// The engine accepted the identity, or rejected it.
    IdentityChecked(Result<(), SealError>),
    /// The engine started a sealer, or failed to.
    SealerStarted(Result<(), SealError>),
    /// The engine took the payload, or failed to.
    PayloadSealed(Result<(), SealError>),
    /// The envelope was read out of the buffer.
    EnvelopeCollected,
}

/// The step that the caller is to take.
#[derive(Clone, Copy, Debug, PartialEq, Eq)]
pub enum SealAction {
    /// Have the engine check the identity.
    BuildIdentity,
    /// Deserialize the public parameters and start a sealer over a fresh,
    /// empty buffer.
    StartSealer,
    /// Write the whole payload to the sealer in one write, then close it.
    WritePayload,
    /// Read the buffer from its start to its end and hand that out.
    CollectEnvelope,
    /// Nothing is left to do.
    Finished,
    /// Drop whatever was produced and report this failure.
    Fail(Error),
}

/// The step that is due in a state.
pub open spec fn seal_pending(state: SealState) -> SealAction {
    match state {
        SealState::Start => SealAction::BuildIdentity,
        SealState::IdentityBuilt => SealAction::StartSealer,
        SealState::Streaming => SealAction::WritePayload,
        SealState::PayloadWritten => SealAction::CollectEnvelope,
        SealState::EnvelopeReturned => SealAction::Finished,
        SealState::Failed(e) => SealAction::Fail(e),
    }
}

/// Whether an event reports the outcome of the step that is due in a state.
pub open spec fn seal_answers(state: SealState, event: SealEvent) -> bool {
    match (state, event) {
        (SealState::Start, SealEvent::IdentityChecked(_)) => true,
        (SealState::IdentityBuilt, SealEvent::SealerStarted(_)) => true,
        (SealState::Streaming, SealEvent::PayloadSealed(_)) => true,
        (SealState::PayloadWritten, SealEvent::EnvelopeCollected) => true,
        _ => false,
    }
}

/// The failure that an event reports, if it reports one: the engine's own,
/// as it is.
pub open spec fn seal_failure(event: SealEvent) -> Option<Error> {
    match event {
        SealEvent::IdentityChecked(Err(e)) => Some(Error::Seal(e)),
        SealEvent::SealerStarted(Err(e)) => Some(Error::Seal(e)),
        SealEvent::PayloadSealed(Err(e)) => Some(Error::Seal(e)),
        _ => None,
    }
}

/// The state that follows when the step that is due has succeeded.
pub open spec fn seal_successor(state: SealState) -> SealState {
    match state {
        SealState::Start => SealState::IdentityBuilt,
        SealState::IdentityBuilt => SealState::Streaming,
        SealState::Streaming => SealState::PayloadWritten,
        SealState::PayloadWritten => SealState::EnvelopeReturned,
        SealState::EnvelopeReturned => SealState::EnvelopeReturned,
        SealState::Failed(e) => SealState::Failed(e),
    }
}

/// The state after an event. An event that does not answer the step that is
/// due changes nothing; a reported failure ends the call with that failure;
/// a success leads to the next state.
pub open spec fn seal_next(state: SealState, event: SealEvent) -> SealState {
    if !seal_answers(state, event) {
        state
    } else {
        match seal_failure(event) {
            Some(e) => SealState::Failed(e),
            None => seal_successor(state),
        }
    }
}

/// The state after a run of events, taken in order.
pub open spec fn seal_run(state: SealState, events: Seq<SealEvent>) -> SealState
    decreases events.len(),
{
    if events.len() == 0 {
        state
    } else {
        seal_run(seal_next(state, events[0]), events.drop_first())
    }
}

/// How many steps lie behind a state that is no failure.
pub open spec fn seal_progress(state: SealState) -> nat {
    match state {
        SealState::Start => 0,
        SealState::IdentityBuilt => 1,
        SealState::Streaming => 2,
        SealState::PayloadWritten => 3,
        SealState::EnvelopeReturned => 4,
        SealState::Failed(_) => 0,
    }
}

/// The state in which a call begins, and its first step.
pub fn seal_begin() -> (r: (SealState, SealAction))
    ensures
        r.0 == SealState::Start,
        r.1 == seal_pending(r.0),
{
    (SealState::Start, SealAction::BuildIdentity)
}

/// The step that is due in `state`.
pub fn seal_action(state: SealState) -> (action: SealAction)
    ensures
        action == seal_pending(state),
{
    match state {
        SealState::Start => SealAction::BuildIdentity,
        SealState::IdentityBuilt => SealAction::StartSealer,
        SealState::Streaming => SealAction::WritePayload,
        SealState::PayloadWritten => SealAction::CollectEnvelope,
        SealState::EnvelopeReturned => SealAction::Finished,
        SealState::Failed(e) => SealAction::Fail(e),
    }
}

/// Takes the outcome of a step and decides what follows: the new state and
/// the step that is due in it.
pub fn seal_step(state: SealState, event: SealEvent) -> (r: (SealState, SealAction))
    ensures
        r.0 == seal_next(state, event),
        r.1 == seal_pending(r.0),
{
    let next = match (state, event) {
        (SealState::Start, SealEvent::IdentityChecked(Ok(_))) => SealState::IdentityBuilt,
        (SealState::Start, SealEvent::IdentityChecked(Err(e))) => SealState::Failed(
            Error::Seal(e),
        ),
        (SealState::IdentityBuilt, SealEvent::SealerStarted(Ok(_))) => SealState::Streaming,
        (SealState::IdentityBuilt, SealEvent::SealerStarted(Err(e))) => SealState::Failed(
            Error::Seal(e),
        ),
        (SealState::Streaming, SealEvent::PayloadSealed(Ok(_))) => SealState::PayloadWritten,
        (SealState::Streaming, SealEvent::PayloadSealed(Err(e))) => SealState::Failed(
            Error::Seal(e),
        ),
        (SealState::PayloadWritten, SealEvent::EnvelopeCollected) => SealState::EnvelopeReturned,
        (unchanged, _) => unchanged,
    };
    (next, seal_action(next))
}

/// What ending a call in `state` hands out: the envelope in `store` where
/// the whole payload was sealed, the failure where the call has failed, and
/// nothing while steps are still due.
pub open spec fn seal_handout(state: SealState, store: Seq<u8>) -> Option<Result<Seq<u8>, Error>> {
    match state {
        SealState::PayloadWritten => Some(Ok(store)),
        SealState::Failed(e) => Some(Err(e)),
        _ => None,
    }
}

/// The bytes of a handout.
pub open spec fn envelope_view(r: Option<Result<Vec<u8>, Error>>) -> Option<Result<Seq<u8>, Error>> {
    match r {
        Some(Ok(bytes)) => Some(Ok(bytes@)),
        Some(Err(e)) => Some(Err(e)),
        None => None,
    }
}

/// Ends a call. In state `PayloadWritten` the buffer is read from its start
/// to its end and the envelope is handed out, whole; that is the step
/// `CollectEnvelope`, and the state that follows is `EnvelopeReturned`. In a
/// failed state the failure is handed out and the buffer is left alone, so
/// that no part of an envelope leaves it. In any other state nothing
/// happens.
pub fn seal_finish(state: SealState, sink: &mut Buf) -> (r: (
    SealState,
    Option<Result<Vec<u8>, Error>>,
))
    ensures
        envelope_view(r.1) == seal_handout(state, old(sink)@.store),
        r.0 == seal_next(state, SealEvent::EnvelopeCollected),
        final(sink)@ == (if state == SealState::PayloadWritten {
            old(sink)@.drained()
        } else {
            old(sink)@
        }),
{
    match state {
        SealState::PayloadWritten => {
            let envelope = sink.contents();
            (SealState::EnvelopeReturned, Some(Ok(envelope)))
        },
        SealState::Failed(e) => (state, Some(Err(e))),
        _ => (state, None),
    }
}

/// A failed call stays failed, with the failure it ended with, whatever is
/// reported afterwards.
pub proof fn lemma_seal_failure_is_final(e: Error, events: Seq<SealEvent>)
    ensures
        seal_run(SealState::Failed(e), events) == SealState::Failed(e),
    decreases events.len(),
{
    if events.len() > 0 {
        lemma_seal_failure_is_final(e, events.drop_first());
    }
}

/// A failure reported for the step that is due ends the call with exactly
/// that failure: none is dropped, and none is turned into another.
pub proof fn lemma_seal_reports_failure(state: SealState, event: SealEvent, e: SealError)
    requires
        seal_answers(state, event),
        seal_failure(event) == Some(Error::Seal(e)),
    ensures
        seal_next(state, event) == SealState::Failed(Error::Seal(e)),
        seal_pending(seal_next(state, event)) == SealAction::Fail(Error::Seal(e)),
{
}

/// Sealing never fails as a tag mismatch does: every failure of a call is
/// one that the engine reported.
pub proof fn lemma_seal_fails_with_engine_errors_only(events: Seq<SealEvent>)
    ensures
        seal_run(SealState::Start, events) != SealState::Failed(Error::Validation),
{
    lemma_seal_keeps_engine_errors(SealState::Start, events);
}

/// No run of events turns a state that is no tag mismatch into one.
proof fn lemma_seal_keeps_engine_errors(state: SealState, events: Seq<SealEvent>)
    requires
        state != SealState::Failed(Error::Validation),
    ensures
        seal_run(state, events) != SealState::Failed(Error::Validation),
    decreases events.len(),
{
    if events.len() > 0 {
        lemma_seal_keeps_engine_errors(seal_next(state, events[0]), events.drop_first());
    }
}

/// A step never leads back: an event either fails the call, or leaves the
/// state as it is, or moves it on by one step.
pub proof fn lemma_seal_moves_forward(state: SealState, event: SealEvent)
    requires
        !(state is Failed),
    ensures
        seal_next(state, event) is Failed || seal_next(state, event) == state || seal_progress(
            seal_next(state, event),
        ) == seal_progress(state) + 1,
{
}

/// From a state before the payload was written, a run of events reaches a
/// state past it only through a report that the payload was sealed.
proof fn lemma_seal_passes_payload(state: SealState, events: Seq<SealEvent>)
    requires
        !(state is Failed),
        seal_progress(state) <= 2,
        seal_progress(seal_run(state, events)) >= 3,
    ensures
        events.contains(SealEvent::PayloadSealed(Ok(()))),
    decreases events.len(),
{
    if events.len() > 0 {
        let next = seal_next(state, events[0]);
        let rest = events.drop_first();
        if next is Failed {
            lemma_seal_failure_is_final(next->Failed_0, rest);
        } else if seal_progress(next) >= 3 {
            assert(events[0] matches SealEvent::PayloadSealed(Ok(unit)) && unit == ());
            assert(events[0] == SealEvent::PayloadSealed(Ok(())));
        } else {
            lemma_seal_passes_payload(next, rest);
            let i = choose|i: int| 0 <= i < rest.len() && rest[i] == SealEvent::PayloadSealed(Ok(()));
            assert(events[i + 1] == SealEvent::PayloadSealed(Ok(())));
        }
    }
}

/// An envelope is handed out only whole: whatever events a call has seen,
/// if it hands an envelope out, one of them reported that the payload was
/// sealed.
pub proof fn lemma_envelope_needs_sealed_payload(events: Seq<SealEvent>, store: Seq<u8>)
    requires
        seal_handout(seal_run(SealState::Start, events), store) matches Some(Ok(_)),
    ensures
        events.contains(SealEvent::PayloadSealed(Ok(()))),
{
    lemma_seal_passes_payload(SealState::Start, events);
}

/// Where every step succeeds, the four reports lead from the start to the
/// envelope handed out, one state at a time.
pub proof fn lemma_seal_success_path()
    ensures
        seal_run(
            SealState::Start,
            seq![
                SealEvent::IdentityChecked(Ok(())),
                SealEvent::SealerStarted(Ok(())),
                SealEvent::PayloadSealed(Ok(())),
                SealEvent::EnvelopeCollected,
            ],
        ) == SealState::EnvelopeReturned,
{
    let events = seq![
        SealEvent::IdentityChecked(Ok(())),
        SealEvent::SealerStarted(Ok(())),
        SealEvent::PayloadSealed(Ok(())),
        SealEvent::EnvelopeCollected,
    ];
    reveal_with_fuel(seal_run, 5);
    let e1 = events.drop_first();
    let e2 = e1.drop_first();
    let e3 = e2.drop_first();
    let e4 = e3.drop_first();
    assert(e4.len() == 0);
}

} // verus!
