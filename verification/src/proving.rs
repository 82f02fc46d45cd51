//! The proving pipeline as a state machine.
//!
//! Proving alternates work that only the cryptographic backend can do with
//! decisions about what to do next. The decisions live here: the caller
//! performs the action it is handed, reports the outcome as an event, and is
//! told the next action. The pipeline is a single pass without retries; the
//! first failure ends it.

use crate::error::Error;
use vstd::prelude::*;

verus! {

/// How a proving run is set up.
#[derive(Clone, Copy, Debug, PartialEq, Eq, Structural)]
pub struct ProverConfig {
    /// Stored commitment parameters are at hand and are loaded instead of
    /// generating fresh ones.
    pub params_supplied: bool,
    /// The finished proof is verified locally before it is returned.
    pub self_check: bool,
}

impl Default for ProverConfig {
    /// Fresh parameters, self-check on.
    fn default() -> (c: ProverConfig)
        ensures
            c == (ProverConfig { params_supplied: false, self_check: true }),
    {
        ProverConfig { params_supplied: false, self_check: true }
    }
}

/// Where a proving run stands.
#[derive(Clone, Copy, Debug, PartialEq, Eq, Structural)]
pub enum ProverState {
    /// Waiting for the circuit instance.
    AwaitCircuit,
    /// Waiting for commitment parameters sized to exponent `k`.
    AwaitParams { k: u32 },
    /// Waiting for the verifying key.
    AwaitVerifyingKey { k: u32 },
    /// Waiting for the proving key.
    AwaitProvingKey { k: u32 },
    /// Waiting for the circuit's consistency check.
    AwaitCircuitCheck,
    /// Waiting for the proving algorithm.
    AwaitProof,
    /// Waiting for the local verification of the new proof.
    AwaitSelfCheck,
    /// The proof is complete and has been handed out.
    Done,
    /// The run was aborted.
    Failed(Error),
}

/// The outcome of an action.
#[derive(Clone, Copy, Debug, PartialEq, Eq, Structural)]
pub enum ProverEvent {
    /// The circuit instance exists; `k` is its trace-size exponent.
    CircuitGenerated { k: u32 },
    /// Parameters were loaded or generated; `ok` is false when a stored blob
    /// could not be read.
    ParamsReady { ok: bool },
    /// Verifying-key derivation ended.
    VerifyingKeyDerived { ok: bool },
    /// Proving-key derivation ended.
    ProvingKeyDerived { ok: bool },
    /// The circuit's consistency check ended.
    CircuitChecked { ok: bool },
    /// The proving algorithm ended.
    ProofCreated { ok: bool },
    /// Local verification of the new proof ended.
    SelfChecked { ok: bool },
}

/// What the caller does next.
#[derive(Clone, Copy, Debug, PartialEq, Eq, Structural)]
pub enum ProverAction {
    /// Obtain the circuit instance.
    GenerateCircuit,
    /// Read the stored commitment parameters.
    LoadParams,
    /// Generate fresh commitment parameters for exponent `k`.
    GenerateParams { k: u32 },
    /// Derive the verifying key.
    DeriveVerifyingKey,
    /// Derive the proving key from the verifying key.
    DeriveProvingKey,
    /// Evaluate the full trace for exponent `k` against the public outputs.
    CheckCircuit { k: u32 },
    /// Run the proving algorithm over a fresh transcript.
    CreateProof,
    /// Verify the new proof locally.
    SelfCheck,
    /// Hand out the proof and the envelope.
    ReturnProof,
    /// Give up with this error; no proof is handed out.
    Abort(Error),
    /// The run had already ended; nothing is done.
    Stop,
}

/// The state and action after a failure.
pub open spec fn prover_fail(e: Error) -> (ProverState, ProverAction) {
    (ProverState::Failed(e), ProverAction::Abort(e))
}

/// The state and first action of a new run.
pub open spec fn prover_initial() -> (ProverState, ProverAction) {
    (ProverState::AwaitCircuit, ProverAction::GenerateCircuit)
}

/// The transition relation: the state after `event` arrives in `state`, and
/// the action to take. An event that arrives out of turn aborts the run as a
/// proving failure; a run that has ended stays as it is.
pub open spec fn prover_next(cfg: ProverConfig, state: ProverState, event: ProverEvent) -> (
    ProverState,
    ProverAction,
) {
    match (state, event) {
        (ProverState::Done, _) => (state, ProverAction::Stop),
        (ProverState::Failed(_), _) => (state, ProverAction::Stop),
        (ProverState::AwaitCircuit, ProverEvent::CircuitGenerated { k }) => (
            ProverState::AwaitParams { k },
            if cfg.params_supplied {
                ProverAction::LoadParams
            } else {
                ProverAction::GenerateParams { k }
            },
        ),
        (ProverState::AwaitParams { k }, ProverEvent::ParamsReady { ok }) => if ok {
            (ProverState::AwaitVerifyingKey { k }, ProverAction::DeriveVerifyingKey)
        } else {
            prover_fail(Error::MalformedParameters)
        },
        (ProverState::AwaitVerifyingKey { k }, ProverEvent::VerifyingKeyDerived { ok }) => if ok {
            (ProverState::AwaitProvingKey { k }, ProverAction::DeriveProvingKey)
        } else {
            prover_fail(Error::KeygenFailure)
        },
        (ProverState::AwaitProvingKey { k }, ProverEvent::ProvingKeyDerived { ok }) => if ok {
            (ProverState::AwaitCircuitCheck, ProverAction::CheckCircuit { k })
        } else {
            prover_fail(Error::KeygenFailure)
        },
        (ProverState::AwaitCircuitCheck, ProverEvent::CircuitChecked { ok }) => if ok {
            (ProverState::AwaitProof, ProverAction::CreateProof)
        } else {
            prover_fail(Error::CircuitInconsistency)
        },
        (ProverState::AwaitProof, ProverEvent::ProofCreated { ok }) => if !ok {
            prover_fail(Error::ProvingFailure)
        } else if cfg.self_check {
            (ProverState::AwaitSelfCheck, ProverAction::SelfCheck)
        } else {
            (ProverState::Done, ProverAction::ReturnProof)
        },
        (ProverState::AwaitSelfCheck, ProverEvent::SelfChecked { ok }) => if ok {
            (ProverState::Done, ProverAction::ReturnProof)
        } else {
            prover_fail(Error::ProvingFailure)
        },
        _ => prover_fail(Error::ProvingFailure),
    }
}

/// The state a run is in after `events`, from the start.
pub open spec fn prover_run(cfg: ProverConfig, events: Seq<ProverEvent>) -> ProverState
    decreases events.len(),
{
    if events.len() == 0 {
        ProverState::AwaitCircuit
    } else {
        prover_next(cfg, prover_run(cfg, events.drop_last()), events.last()).0
    }
}

/// The number of events a successful run takes.
pub open spec fn prover_steps(cfg: ProverConfig) -> nat {
    if cfg.self_check {
        7
    } else {
        6
    }
}

/// Whether `event` is the success that a run needs as its `i`-th event.
pub open spec fn prover_expects(i: int, event: ProverEvent) -> bool {
    if i == 0 {
        event is CircuitGenerated
    } else if i == 1 {
        event == (ProverEvent::ParamsReady { ok: true })
    } else if i == 2 {
        event == (ProverEvent::VerifyingKeyDerived { ok: true })
    } else if i == 3 {
        event == (ProverEvent::ProvingKeyDerived { ok: true })
    } else if i == 4 {
        event == (ProverEvent::CircuitChecked { ok: true })
    } else if i == 5 {
        event == (ProverEvent::ProofCreated { ok: true })
    } else {
        event == (ProverEvent::SelfChecked { ok: true })
    }
}

/// The first `n` events are the successes a run needs, in order.
pub open spec fn prover_on_track(events: Seq<ProverEvent>, n: nat) -> bool {
    n <= events.len() && forall|i: int| 0 <= i < n ==> prover_expects(i, #[trigger] events[i])
}

/// How many successes a state that is still waiting has behind it.
pub open spec fn prover_progress(state: ProverState) -> nat {
    match state {
        ProverState::AwaitCircuit => 0,
        ProverState::AwaitParams { .. } => 1,
        ProverState::AwaitVerifyingKey { .. } => 2,
        ProverState::AwaitProvingKey { .. } => 3,
        ProverState::AwaitCircuitCheck => 4,
        ProverState::AwaitProof => 5,
        _ => 6,
    }
}

impl ProverState {
    /// The run has ended, with a proof or with an error.
    pub open spec fn terminal(self) -> bool {
        self is Done || self is Failed
    }

    /// Whether the run has ended.
    pub fn is_terminal(&self) -> (b: bool)
        ensures
            b == self.terminal(),
    {
        match self {
            ProverState::Done => true,
            ProverState::Failed(_) => true,
            _ => false,
        }
    }
}

/// Starts a proving run.
pub fn prover_start() -> (r: (ProverState, ProverAction))
    ensures
        r == prover_initial(),
{
    (ProverState::AwaitCircuit, ProverAction::GenerateCircuit)
}

fn fail(e: Error) -> (r: (ProverState, ProverAction))
    ensures
        r == prover_fail(e),
{
    (ProverState::Failed(e), ProverAction::Abort(e))
}

/// Takes the outcome of the last action and decides the next one.
pub fn prover_step(cfg: ProverConfig, state: ProverState, event: ProverEvent) -> (r: (
    ProverState,
    ProverAction,
))
    ensures
        r == prover_next(cfg, state, event),
{
    match state {
        ProverState::Done => (state, ProverAction::Stop),
        ProverState::Failed(_) => (state, ProverAction::Stop),
        ProverState::AwaitCircuit => match event {
            ProverEvent::CircuitGenerated { k } => {
                let action = if cfg.params_supplied {
                    ProverAction::LoadParams
                } else {
                    ProverAction::GenerateParams { k }
                };
                (ProverState::AwaitParams { k }, action)
            },
            _ => fail(Error::ProvingFailure),
        },
        ProverState::AwaitParams { k } => match event {
            ProverEvent::ParamsReady { ok: true } => (
                ProverState::AwaitVerifyingKey { k },
                ProverAction::DeriveVerifyingKey,
            ),
            ProverEvent::ParamsReady { ok: false } => fail(Error::MalformedParameters),
            _ => fail(Error::ProvingFailure),
        },
        ProverState::AwaitVerifyingKey { k } => match event {
            ProverEvent::VerifyingKeyDerived { ok: true } => (
                ProverState::AwaitProvingKey { k },
                ProverAction::DeriveProvingKey,
            ),
            ProverEvent::VerifyingKeyDerived { ok: false } => fail(Error::KeygenFailure),
            _ => fail(Error::ProvingFailure),
        },
        ProverState::AwaitProvingKey { k } => match event {
            ProverEvent::ProvingKeyDerived { ok: true } => (
                ProverState::AwaitCircuitCheck,
                ProverAction::CheckCircuit { k },
            ),
            ProverEvent::ProvingKeyDerived { ok: false } => fail(Error::KeygenFailure),
            _ => fail(Error::ProvingFailure),
        },
        ProverState::AwaitCircuitCheck => match event {
            ProverEvent::CircuitChecked { ok: true } => (
                ProverState::AwaitProof,
                ProverAction::CreateProof,
            ),
            ProverEvent::CircuitChecked { ok: false } => fail(Error::CircuitInconsistency),
            _ => fail(Error::ProvingFailure),
        },
        ProverState::AwaitProof => match event {
            ProverEvent::ProofCreated { ok: true } => {
                if cfg.self_check {
                    (ProverState::AwaitSelfCheck, ProverAction::SelfCheck)
                } else {
                    (ProverState::Done, ProverAction::ReturnProof)
                }
            },
            _ => fail(Error::ProvingFailure),
        },
        ProverState::AwaitSelfCheck => match event {
            ProverEvent::SelfChecked { ok: true } => (ProverState::Done, ProverAction::ReturnProof),
            _ => fail(Error::ProvingFailure),
        },
    }
}

/// No retries: once a run has ended, no event changes its state or asks for
/// further work.
pub proof fn lemma_prover_terminal_stays(cfg: ProverConfig, state: ProverState, event: ProverEvent)
    requires
        state.terminal(),
    ensures
        prover_next(cfg, state, event) == (state, ProverAction::Stop),
{
}

/// A proof is handed out only on the transition into `Done`, and a run is
/// aborted only on the transition into `Failed`, with that state's error.
pub proof fn lemma_prover_actions_match_states(
    cfg: ProverConfig,
    state: ProverState,
    event: ProverEvent,
)
    ensures
        prover_next(cfg, state, event).1 is ReturnProof <==> !state.terminal() && prover_next(
            cfg,
            state,
            event,
        ).0 is Done,
        prover_next(cfg, state, event).1 is Abort <==> !state.terminal() && prover_next(
            cfg,
            state,
            event,
        ).0 is Failed,
        prover_next(cfg, state, event).1 matches ProverAction::Abort(e) ==> prover_next(
            cfg,
            state,
            event,
        ).0 == ProverState::Failed(e),
{
}

/// Every state a run can reach is accounted for by its events: a run that is
/// still waiting has seen exactly the successes that lead to its state, and a
/// run that is done has seen every success a complete run needs.
pub proof fn lemma_prover_run_invariant(cfg: ProverConfig, events: Seq<ProverEvent>)
    ensures
        ({
            let s = prover_run(cfg, events);
            &&& s is Done ==> prover_on_track(events, prover_steps(cfg))
            &&& !s.terminal() ==> events.len() == prover_progress(s) && prover_on_track(
                events,
                events.len(),
            )
        }),
    decreases events.len(),
{
    if events.len() > 0 {
        let before = events.drop_last();
        lemma_prover_run_invariant(cfg, before);
        let s0 = prover_run(cfg, before);
        let s = prover_run(cfg, events);
        assert(s == prover_next(cfg, s0, events.last()).0);
        assert(forall|i: int| 0 <= i < before.len() ==> before[i] == events[i]);
        if !s0.terminal() && !(s is Failed) {
            assert(prover_expects(before.len() as int, events.last()));
            assert(events[before.len() as int] == events.last());
            assert(prover_on_track(events, events.len()));
        }
    }
}

/// No partial success: a run ends in `Done` only after the parameters were
/// obtained, both keys derived, the circuit found consistent, the proof
/// created and, where the self-check is on, the proof verified locally.
pub proof fn lemma_prover_done_is_complete(cfg: ProverConfig, events: Seq<ProverEvent>)
    requires
        prover_run(cfg, events) is Done,
    ensures
        events.len() >= prover_steps(cfg),
        events[0] is CircuitGenerated,
        events[1] == (ProverEvent::ParamsReady { ok: true }),
        events[2] == (ProverEvent::VerifyingKeyDerived { ok: true }),
        events[3] == (ProverEvent::ProvingKeyDerived { ok: true }),
        events[4] == (ProverEvent::CircuitChecked { ok: true }),
        events[5] == (ProverEvent::ProofCreated { ok: true }),
        cfg.self_check ==> events[6] == (ProverEvent::SelfChecked { ok: true }),
{
    lemma_prover_run_invariant(cfg, events);
    assert(prover_expects(0, events[0]));
    assert(prover_expects(1, events[1]));
    assert(prover_expects(2, events[2]));
    assert(prover_expects(3, events[3]));
    assert(prover_expects(4, events[4]));
    assert(prover_expects(5, events[5]));
    if cfg.self_check {
        assert(prover_expects(6, events[6]));
    }
}

} // verus!
