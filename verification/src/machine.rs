use vstd::prelude::*;

use crate::controller::{
    decoded_identifier, decoded_rule, judge, load_args, load_witness, verdict_for, verdict_of,
};
use crate::limits::Limits;
use crate::pricing::{calc_price_with_limits, price_for};
use crate::verdict::{Error, Verdict};

verus! {

/// Where a validation run stands. A run starts in `Start` and ends in `Done`.
///
/// A state that a run reaches carries a name of at least one character (see
/// `Phase::valid`). A state built by hand with an empty name is refused with
/// `MissingIdentifier` at its next transition.
#[derive(Debug, PartialEq, Eq)]
pub enum State {
    Start,
    ArgsLoaded { identifier: String },
    WitnessLoaded { identifier: String, rule: String },
    PriceComputed { price: i64 },
    Done(Verdict),
}

/// What the driver hands to the machine after doing what was asked of it.
#[derive(Debug, PartialEq, Eq)]
pub enum Event {
    /// The lock's argument bytes.
    Args(Vec<u8>),
    /// The lock field of the first witness, if it has one.
    WitnessLock(Option<Vec<u8>>),
    /// The go-ahead to price the name.
    Evaluate,
    /// The capacity that the output commits.
    Capacity(u64),
}

/// What the machine asks of the driver next.
#[derive(Clone, Copy, Debug, PartialEq, Eq, Structural)]
pub enum Action {
    ReadArgs,
    ReadWitnessLock,
    Evaluate,
    ReadCapacity,
    Stop(Verdict),
}

/// A state with its texts as sequences of characters.
pub enum Phase {
    Start,
    ArgsLoaded { identifier: Seq<char> },
    WitnessLoaded { identifier: Seq<char>, rule: Seq<char> },
    PriceComputed { price: i64 },
    Done(Verdict),
}

impl Phase {
    /// Whether the phase can stand in a run: the name it carries, if it
    /// carries one, has at least one character.
    pub open spec fn valid(self) -> bool {
        match self {
            Phase::ArgsLoaded { identifier } => identifier.len() > 0,
            Phase::WitnessLoaded { identifier, .. } => identifier.len() > 0,
            _ => true,
        }
    }
}

/// An event with its bytes as sequences.
pub enum Signal {
    Args(Seq<u8>),
    WitnessLock(Option<Seq<u8>>),
    Evaluate,
    Capacity(u64),
}

impl View for State {
    type V = Phase;

    open spec fn view(&self) -> Phase {
        match *self {
            State::Start => Phase::Start,
            State::ArgsLoaded { identifier } => Phase::ArgsLoaded { identifier: identifier@ },
            State::WitnessLoaded { identifier, rule } => Phase::WitnessLoaded { identifier: identifier@, rule: rule@ },
            State::PriceComputed { price } => Phase::PriceComputed { price },
            State::Done(verdict) => Phase::Done(verdict),
        }
    }
}

impl View for Event {
    type V = Signal;

    open spec fn view(&self) -> Signal {
        match *self {
            Event::Args(bytes) => Signal::Args(bytes@),
            Event::WitnessLock(Some(bytes)) => Signal::WitnessLock(Some(bytes@)),
            Event::WitnessLock(None) => Signal::WitnessLock(None),
            Event::Evaluate => Signal::Evaluate,
            Event::Capacity(capacity) => Signal::Capacity(capacity),
        }
    }
}

/// The transition function: the phase that follows `phase` on `signal`.
///
/// Each phase takes the one signal it asked for; any other leaves it as it
/// is. A failure goes to `Done` at once, and `Done` is left by no signal. A
/// phase that carries an empty name answers the signal it asked for with
/// `MissingIdentifier`.
pub open spec fn next_phase(phase: Phase, signal: Signal, limits: Limits) -> Phase {
    match (phase, signal) {
        (Phase::Start, Signal::Args(args)) => match decoded_identifier(args) {
            Ok(identifier) => Phase::ArgsLoaded { identifier },
            Err(kind) => Phase::Done(Verdict::Reject(kind)),
        },
        (Phase::ArgsLoaded { identifier }, Signal::WitnessLock(lock)) => if identifier.len() == 0 {
            Phase::Done(Verdict::Reject(Error::MissingIdentifier))
        } else {
            match decoded_rule(lock) {
                Ok(rule) => Phase::WitnessLoaded { identifier, rule },
                Err(kind) => Phase::Done(Verdict::Reject(kind)),
            }
        },
        (Phase::WitnessLoaded { identifier, rule }, Signal::Evaluate) => if identifier.len() == 0 {
            Phase::Done(Verdict::Reject(Error::MissingIdentifier))
        } else {
            match price_for(identifier, rule, limits) {
                Ok(price) => Phase::PriceComputed { price },
                Err(kind) => Phase::Done(Verdict::Reject(kind)),
            }
        },
        (Phase::PriceComputed { price }, Signal::Capacity(capacity)) => Phase::Done(verdict_for(price, capacity)),
        _ => phase,
    }
}

/// What a phase asks of the driver.
pub open spec fn request_of(phase: Phase) -> Action {
    match phase {
        Phase::Start => Action::ReadArgs,
        Phase::ArgsLoaded { .. } => Action::ReadWitnessLock,
        Phase::WitnessLoaded { .. } => Action::Evaluate,
        Phase::PriceComputed { .. } => Action::ReadCapacity,
        Phase::Done(verdict) => Action::Stop(verdict),
    }
}

/// The phase reached from `Start` by the four signals of a full run.
pub open spec fn full_run(args: Seq<u8>, lock: Option<Seq<u8>>, capacity: u64, limits: Limits) -> Phase {
    let loaded = next_phase(Phase::Start, Signal::Args(args), limits);
    let read = next_phase(loaded, Signal::WitnessLock(lock), limits);
    let priced = next_phase(read, Signal::Evaluate, limits);
    next_phase(priced, Signal::Capacity(capacity), limits)
}

/// What the driver is to do in `state`.
pub fn next_action(state: &State) -> (action: Action)
    ensures
        action == request_of(state@),
{
    match state {
        State::Start => Action::ReadArgs,
        State::ArgsLoaded { .. } => Action::ReadWitnessLock,
        State::WitnessLoaded { .. } => Action::Evaluate,
        State::PriceComputed { .. } => Action::ReadCapacity,
        State::Done(verdict) => Action::Stop(*verdict),
    }
}

/// Takes one transition of the machine.
pub fn step(state: State, event: Event, limits: &Limits) -> (next: State)
    ensures
        next@ == next_phase(state@, event@, *limits),
        state@.valid() ==> next@.valid(),
{
    match (state, event) {
        (State::Start, Event::Args(args)) => match load_args(args.as_slice()) {
            Ok(identifier) => State::ArgsLoaded { identifier: identifier.to_owned() },
            Err(kind) => State::Done(Verdict::Reject(kind)),
        },
        (State::ArgsLoaded { identifier }, Event::WitnessLock(lock)) => {
            if identifier.as_str().is_empty() {
                return State::Done(Verdict::Reject(Error::MissingIdentifier));
            }
            let decoded = match &lock {
                Some(bytes) => load_witness(Some(bytes.as_slice())),
                None => load_witness(None),
            };
            match decoded {
                Ok(rule) => State::WitnessLoaded { identifier, rule: rule.to_owned() },
                Err(kind) => State::Done(Verdict::Reject(kind)),
            }
        },
        (State::WitnessLoaded { identifier, rule }, Event::Evaluate) => {
            if identifier.as_str().is_empty() {
                return State::Done(Verdict::Reject(Error::MissingIdentifier));
            }
            match calc_price_with_limits(identifier.as_str(), rule.as_str(), limits) {
                Ok(price) => State::PriceComputed { price },
                Err(kind) => State::Done(Verdict::Reject(kind)),
            }
        },
        (State::PriceComputed { price }, Event::Capacity(capacity)) => State::Done(judge(price, capacity)),
        (state, _) => state,
    }
}

/// A finished run stays finished: no signal leaves `Done`, so nothing is
/// retried.
pub proof fn lemma_done_is_final(verdict: Verdict, signal: Signal, limits: Limits)
    ensures
        next_phase(Phase::Done(verdict), signal, limits) == Phase::Done(verdict),
{
}

/// A full run ends in `Done` with the verdict that `validate_with_limits`
/// returns on the same values, whichever transition fails.
pub proof fn lemma_full_run_is_verdict(args: Seq<u8>, lock: Option<Seq<u8>>, capacity: u64, limits: Limits)
    ensures
        full_run(args, lock, capacity, limits) == Phase::Done(verdict_of(args, lock, capacity, limits)),
{
}

/// A signal that the phase did not ask for changes nothing.
pub proof fn lemma_request_names_the_signal(phase: Phase, signal: Signal, limits: Limits)
    ensures
        next_phase(phase, signal, limits) != phase ==> (match request_of(phase) {
            Action::ReadArgs => signal is Args,
            Action::ReadWitnessLock => signal is WitnessLock,
            Action::Evaluate => signal is Evaluate,
            Action::ReadCapacity => signal is Capacity,
            Action::Stop(_) => false,
        }),
{
}

/// The name in a run is never empty: `Start` is valid, and every transition
/// from a valid phase reaches a valid phase, whatever the signal.
pub proof fn lemma_next_phase_keeps_valid(phase: Phase, signal: Signal, limits: Limits)
    requires
        phase.valid(),
    ensures
        Phase::Start.valid(),
        next_phase(phase, signal, limits).valid(),
{
}

/// A price is computed, and a spend accepted, only for a name of at least one
/// character: a phase with an empty name is answered with `MissingIdentifier`
/// or left as it is.
pub proof fn lemma_empty_name_is_refused(phase: Phase, signal: Signal, limits: Limits)
    requires
        !phase.valid(),
    ensures
        next_phase(phase, signal, limits) == phase || next_phase(phase, signal, limits) == Phase::Done(
            Verdict::Reject(Error::MissingIdentifier),
        ),
{
}

} // verus!
