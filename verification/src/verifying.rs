//! The verifying pipeline as a state machine.
//!
//! A proof that fails its cryptographic check is a normal negative answer:
//! the run ends in `Done(false)`. Only malformed input and key-generation
//! failures end a run in `Failed`.

use crate::error::Error;
use vstd::prelude::*;

verus! {

/// Where a verifying run stands.
#[derive(Clone, Copy, Debug, PartialEq, Eq, Structural)]
pub enum VerifierState {
    /// Waiting for the circuit instance.
    AwaitCircuit,
    /// Waiting for the envelope to be decoded.
    AwaitEnvelope,
    /// Waiting for the commitment parameters to be read from their bytes.
    AwaitParams,
    /// Waiting for the verifying key.
    AwaitVerifyingKey,
    /// Waiting for the verification algorithm.
    AwaitVerdict,
    /// The proof was checked; the flag says whether it is valid.
    Done(bool),
    /// The run was aborted.
    Failed(Error),
}

/// The outcome of an action.
#[derive(Clone, Copy, Debug, PartialEq, Eq, Structural)]
pub enum VerifierEvent {
    /// The circuit instance exists.
    CircuitGenerated,
    /// Envelope decoding ended, with the error it gave if it failed.
    EnvelopeDecoded { failure: Option<Error> },
    /// Reading the commitment parameters from the envelope's bytes ended.
    ParamsLoaded { ok: bool },
    /// Verifying-key derivation ended.
    VerifyingKeyDerived { ok: bool },
    /// The verification algorithm ended; `ok` says whether it accepted.
    ProofChecked { ok: bool },
}

/// What the caller does next.
#[derive(Clone, Copy, Debug, PartialEq, Eq, Structural)]
pub enum VerifierAction {
    /// Obtain the circuit instance, from the same inputs as at proving time.
    GenerateCircuit,
    /// Read and decode the envelope.
    DecodeEnvelope,
    /// Read the commitment parameters from the envelope's first section.
    LoadParams,
    /// Derive the verifying key.
    DeriveVerifyingKey,
    /// Run single-proof verification over a fresh read transcript, against
    /// the public outputs stored in the envelope.
    CheckProof,
    /// Report whether the proof is valid.
    Report(bool),
    /// Give up with this error.
    Abort(Error),
    /// The run had already ended; nothing is done.
    Stop,
}

/// The state and action after a failure.
pub open spec fn verifier_fail(e: Error) -> (VerifierState, VerifierAction) {
    (VerifierState::Failed(e), VerifierAction::Abort(e))
}

/// The state and first action of a new run. Without stored parameters there
/// is nothing to verify against, and the run fails at once.
pub open spec fn verifier_initial(params_supplied: bool) -> (VerifierState, VerifierAction) {
    if params_supplied {
        (VerifierState::AwaitCircuit, VerifierAction::GenerateCircuit)
    } else {
        verifier_fail(Error::MalformedParameters)
    }
}

/// The transition relation. An event that arrives out of turn aborts the run
/// as malformed input; a run that has ended stays as it is.
pub open spec fn verifier_next(state: VerifierState, event: VerifierEvent) -> (
    VerifierState,
    VerifierAction,
) {
    match (state, event) {
        (VerifierState::Done(_), _) => (state, VerifierAction::Stop),
        (VerifierState::Failed(_), _) => (state, VerifierAction::Stop),
        (VerifierState::AwaitCircuit, VerifierEvent::CircuitGenerated) => (
            VerifierState::AwaitEnvelope,
            VerifierAction::DecodeEnvelope,
        ),
        (VerifierState::AwaitEnvelope, VerifierEvent::EnvelopeDecoded { failure }) => match failure {
            None => (VerifierState::AwaitParams, VerifierAction::LoadParams),
            Some(e) => verifier_fail(e),
        },
        (VerifierState::AwaitParams, VerifierEvent::ParamsLoaded { ok }) => if ok {
            (VerifierState::AwaitVerifyingKey, VerifierAction::DeriveVerifyingKey)
        } else {
            verifier_fail(Error::MalformedParameters)
        },
        (VerifierState::AwaitVerifyingKey, VerifierEvent::VerifyingKeyDerived { ok }) => if ok {
            (VerifierState::AwaitVerdict, VerifierAction::CheckProof)
        } else {
            verifier_fail(Error::KeygenFailure)
        },
        (VerifierState::AwaitVerdict, VerifierEvent::ProofChecked { ok }) => (
            VerifierState::Done(ok),
            VerifierAction::Report(ok),
        ),
        _ => verifier_fail(Error::MalformedParameters),
    }
}

/// The state a run is in after `events`, from the start.
pub open spec fn verifier_run(params_supplied: bool, events: Seq<VerifierEvent>) -> VerifierState
    decreases events.len(),
{
    if events.len() == 0 {
        verifier_initial(params_supplied).0
    } else {
        verifier_next(verifier_run(params_supplied, events.drop_last()), events.last()).0
    }
}

/// Whether `event` is what a run needs as its `i`-th event to reach a verdict.
pub open spec fn verifier_expects(i: int, event: VerifierEvent) -> bool {
    if i == 0 {
        event == VerifierEvent::CircuitGenerated
    } else if i == 1 {
        event == (VerifierEvent::EnvelopeDecoded { failure: None })
    } else if i == 2 {
        event == (VerifierEvent::ParamsLoaded { ok: true })
    } else if i == 3 {
        event == (VerifierEvent::VerifyingKeyDerived { ok: true })
    } else {
        event is ProofChecked
    }
}

/// The first `n` events are those a run needs, in order.
pub open spec fn verifier_on_track(events: Seq<VerifierEvent>, n: nat) -> bool {
    n <= events.len() && forall|i: int| 0 <= i < n ==> verifier_expects(i, #[trigger] events[i])
}

/// How many events a state that is still waiting has behind it.
pub open spec fn verifier_progress(state: VerifierState) -> nat {
    match state {
        VerifierState::AwaitCircuit => 0,
        VerifierState::AwaitEnvelope => 1,
        VerifierState::AwaitParams => 2,
        VerifierState::AwaitVerifyingKey => 3,
        _ => 4,
    }
}

impl VerifierState {
    /// The run has ended, with a verdict or with an error.
    pub open spec fn terminal(self) -> bool {
        self is Done || self is Failed
    }

    /// Whether the run has ended.
    pub fn is_terminal(&self) -> (b: bool)
        ensures
            b == self.terminal(),
    {
        match self {
            VerifierState::Done(_) => true,
            VerifierState::Failed(_) => true,
            _ => false,
        }
    }

    /// What a run in this state answers: the verdict, the error, or nothing
    /// while it is still under way.
    pub open spec fn outcome_spec(self) -> Option<Result<bool, Error>> {
        match self {
            VerifierState::Done(valid) => Some(Ok(valid)),
            VerifierState::Failed(e) => Some(Err(e)),
            _ => None,
        }
    }

    /// The answer of a run that has ended; `None` while it is under way.
    pub fn outcome(&self) -> (r: Option<Result<bool, Error>>)
        ensures
            r == self.outcome_spec(),
    {
        match self {
            VerifierState::Done(valid) => Some(Ok(*valid)),
            VerifierState::Failed(e) => Some(Err(*e)),
            _ => None,
        }
    }
}

fn fail(e: Error) -> (r: (VerifierState, VerifierAction))
    ensures
        r == verifier_fail(e),
{
    (VerifierState::Failed(e), VerifierAction::Abort(e))
}

/// Starts a verifying run.
pub fn verifier_start(params_supplied: bool) -> (r: (VerifierState, VerifierAction))
    ensures
        r == verifier_initial(params_supplied),
{
    if params_supplied {
        (VerifierState::AwaitCircuit, VerifierAction::GenerateCircuit)
    } else {
        fail(Error::MalformedParameters)
    }
}

/// Takes the outcome of the last action and decides the next one.
pub fn verifier_step(state: VerifierState, event: VerifierEvent) -> (r: (
    VerifierState,
    VerifierAction,
))
    ensures
        r == verifier_next(state, event),
{
    match state {
        VerifierState::Done(_) => (state, VerifierAction::Stop),
        VerifierState::Failed(_) => (state, VerifierAction::Stop),
        VerifierState::AwaitCircuit => match event {
            VerifierEvent::CircuitGenerated => (
                VerifierState::AwaitEnvelope,
                VerifierAction::DecodeEnvelope,
            ),
            _ => fail(Error::MalformedParameters),
        },
        VerifierState::AwaitEnvelope => match event {
            VerifierEvent::EnvelopeDecoded { failure: None } => (
                VerifierState::AwaitParams,
                VerifierAction::LoadParams,
            ),
            VerifierEvent::EnvelopeDecoded { failure: Some(e) } => fail(e),
            _ => fail(Error::MalformedParameters),
        },
        VerifierState::AwaitParams => match event {
            VerifierEvent::ParamsLoaded { ok: true } => (
                VerifierState::AwaitVerifyingKey,
                VerifierAction::DeriveVerifyingKey,
            ),
            _ => fail(Error::MalformedParameters),
        },
        VerifierState::AwaitVerifyingKey => match event {
            VerifierEvent::VerifyingKeyDerived { ok: true } => (
                VerifierState::AwaitVerdict,
                VerifierAction::CheckProof,
            ),
            VerifierEvent::VerifyingKeyDerived { ok: false } => fail(Error::KeygenFailure),
            _ => fail(Error::MalformedParameters),
        },
        VerifierState::AwaitVerdict => match event {
            VerifierEvent::ProofChecked { ok } => (
                VerifierState::Done(ok),
                VerifierAction::Report(ok),
            ),
            _ => fail(Error::MalformedParameters),
        },
    }
}

/// No retries: once a run has ended, no event changes its state or asks for
/// further work.
pub proof fn lemma_verifier_terminal_stays(state: VerifierState, event: VerifierEvent)
    requires
        state.terminal(),
    ensures
        verifier_next(state, event) == (state, VerifierAction::Stop),
{
}

/// A rejected proof is an answer, not an error: whatever the verification
/// algorithm says becomes the verdict, and the run does not fail.
pub proof fn lemma_verdict_is_not_an_error(ok: bool)
    ensures
        verifier_next(VerifierState::AwaitVerdict, VerifierEvent::ProofChecked { ok }) == (
            VerifierState::Done(ok),
            VerifierAction::Report(ok),
        ),
        VerifierState::Done(ok).outcome_spec() == Some(Ok::<bool, Error>(ok)),
{
}

/// A failed key derivation ends the run with `KeygenFailure`; it is never
/// reported as a negative verdict.
pub proof fn lemma_keygen_failure_is_an_error()
    ensures
        verifier_next(
            VerifierState::AwaitVerifyingKey,
            VerifierEvent::VerifyingKeyDerived { ok: false },
        ) == verifier_fail(Error::KeygenFailure),
        VerifierState::Failed(Error::KeygenFailure).outcome_spec() == Some(
            Err::<bool, Error>(Error::KeygenFailure),
        ),
{
}

/// Every state a run can reach is accounted for by its events: a run that is
/// still waiting has seen exactly the events that lead to its state, and a
/// run with a verdict was started with stored parameters, saw the envelope
/// decoded, the parameters loaded and the key derived, and its verdict is
/// what the verification algorithm said.
pub proof fn lemma_verifier_run_invariant(params_supplied: bool, events: Seq<VerifierEvent>)
    ensures
        ({
            let s = verifier_run(params_supplied, events);
            &&& s matches VerifierState::Done(valid) ==> params_supplied && verifier_on_track(
                events,
                5,
            ) && events[4] == (VerifierEvent::ProofChecked { ok: valid })
            &&& !s.terminal() ==> params_supplied && events.len() == verifier_progress(s)
                && verifier_on_track(events, events.len())
        }),
    decreases events.len(),
{
    if events.len() > 0 {
        let before = events.drop_last();
        lemma_verifier_run_invariant(params_supplied, before);
        let s0 = verifier_run(params_supplied, before);
        let s = verifier_run(params_supplied, events);
        assert(s == verifier_next(s0, events.last()).0);
        assert(forall|i: int| 0 <= i < before.len() ==> before[i] == events[i]);
        if !s0.terminal() && !(s is Failed) {
            assert(verifier_expects(before.len() as int, events.last()));
            assert(events[before.len() as int] == events.last());
            assert(verifier_on_track(events, events.len()));
        }
    }
}

} // verus!
