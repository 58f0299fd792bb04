//! The concurrency protocol of the worker and the shutdown coordinator,
//! as a state machine over the counts it turns on: admission phase, queue
//! depth, in-flight dispatch tasks, engine liveness and the termination
//! signal.  The laws proved here are the shutdown guarantees.

use vstd::prelude::*;

verus! {

/// Termination state of the embedded engine: transitions run one way,
/// `Active` to `Closing` to `Terminated`.
#[derive(Clone, Copy, Debug, PartialEq, Eq, Structural)]
pub enum Phase {
    Active,
    Closing,
    Terminated,
}

/// Numeric rank of a phase, used to state that transitions are monotonic.
pub open spec fn phase_rank(p: Phase) -> int {
    match p {
        Phase::Active => 0,
        Phase::Closing => 1,
        Phase::Terminated => 2,
    }
}

/// How many envelopes the command queue holds at most.
pub const QDRANT_CHANNEL_BUFFER: usize = 1024;

/// The coarse state of the whole actor: the admission phase, how many
/// envelopes sit in the queue, how many dispatch tasks are in flight, whether
/// the engine still exists, and whether the termination signal has fired.
///
/// This is the concurrency protocol of the worker loop and the shutdown
/// coordinator, reduced to the counters it turns on.  The functional
/// behaviour of dispatch itself is modelled by the engine and the instance.
#[derive(Clone, Copy, Debug, PartialEq, Eq, Structural)]
pub struct ActorState {
    pub phase: Phase,
    pub queued: usize,
    pub in_flight: usize,
    pub engine_alive: bool,
    pub signal_fired: bool,
}

/// One thing that can happen to the actor.
#[derive(Clone, Copy, Debug, PartialEq, Eq, Structural)]
pub enum Event {
    /// A client tries to put an envelope on the queue.
    Submit,
    /// The last client handle is released, or terminate is called.
    Close,
    /// The worker takes an envelope off the queue and launches its dispatch
    /// task, which takes a reference to the engine.
    DispatchStart,
    /// A dispatch task delivers its reply and releases its engine reference.
    DispatchFinish,
    /// The shutdown coordinator destroys the engine.
    Teardown,
    /// The one-shot termination signal fires.
    Signal,
}

/// What one event did.
#[derive(Clone, Copy, Debug, PartialEq, Eq, Structural)]
pub enum StepOutcome {
    /// The event happened and the state moved.
    Applied,
    /// A submission was refused: admission has closed.
    Closed,
    /// A submission was refused for now: the queue is full.
    Full,
    /// The event is not enabled in this state and nothing happened.
    Blocked,
}

/// The number of live holders of the engine handle: the worker itself plus
/// one per dispatch task in flight, none once the engine is destroyed.
pub open spec fn live_holders(s: ActorState) -> int {
    if s.engine_alive {
        1 + s.in_flight as int
    } else {
        0
    }
}

/// The state the actor starts in: admission open, nothing queued or in
/// flight, the engine alive, the signal not yet fired.
pub open spec fn spec_init() -> ActorState {
    ActorState {
        phase: Phase::Active,
        queued: 0,
        in_flight: 0,
        engine_alive: true,
        signal_fired: false,
    }
}

/// The protocol itself: what each event does in each state.
///
/// - A submission is admitted only while the phase is `Active` and the queue
///   has room; once `Close` has happened it is refused, deterministically.
/// - `Close` moves `Active` to `Closing` and is idempotent afterwards.
/// - Dispatch starts only take queued envelopes while the engine is alive;
///   dispatch finishes only balance started tasks.
/// - `Teardown` is enabled only at quiescence: phase `Closing`, queue
///   drained, no dispatch task in flight — that is, the worker is the sole
///   holder of the engine.
/// - `Signal` fires only after teardown, and only once.
pub open spec fn spec_step(s: ActorState, e: Event) -> (ActorState, StepOutcome) {
    match e {
        Event::Submit => if s.phase != Phase::Active {
            (s, StepOutcome::Closed)
        } else if s.queued >= QDRANT_CHANNEL_BUFFER {
            (s, StepOutcome::Full)
        } else {
            (ActorState { queued: (s.queued + 1) as usize, ..s }, StepOutcome::Applied)
        },
        Event::Close => match s.phase {
            Phase::Active => (ActorState { phase: Phase::Closing, ..s }, StepOutcome::Applied),
            _ => (s, StepOutcome::Applied),
        },
        Event::DispatchStart => if s.queued > 0 && s.engine_alive && s.in_flight
            < usize::MAX {
            (
                ActorState {
                    queued: (s.queued - 1) as usize,
                    in_flight: (s.in_flight + 1) as usize,
                    ..s
                },
                StepOutcome::Applied,
            )
        } else {
            (s, StepOutcome::Blocked)
        },
        Event::DispatchFinish => if s.in_flight > 0 {
            (ActorState { in_flight: (s.in_flight - 1) as usize, ..s }, StepOutcome::Applied)
        } else {
            (s, StepOutcome::Blocked)
        },
        Event::Teardown => if s.phase == Phase::Closing && s.queued == 0 && s.in_flight == 0
            && s.engine_alive {
            (
                ActorState { phase: Phase::Terminated, engine_alive: false, ..s },
                StepOutcome::Applied,
            )
        } else {
            (s, StepOutcome::Blocked)
        },
        Event::Signal => if s.phase == Phase::Terminated && !s.signal_fired {
            (ActorState { signal_fired: true, ..s }, StepOutcome::Applied)
        } else {
            (s, StepOutcome::Blocked)
        },
    }
}

/// The protocol's invariant, preserved by every step from the initial
/// state: the engine exists exactly until `Terminated`; once terminated,
/// nothing is queued or in flight; the signal can only have fired after
/// termination; and the queue never exceeds its bound.
pub open spec fn inv(s: ActorState) -> bool {
    &&& s.engine_alive <==> s.phase != Phase::Terminated
    &&& s.phase == Phase::Terminated ==> s.queued == 0 && s.in_flight == 0
    &&& s.signal_fired ==> s.phase == Phase::Terminated
    &&& s.queued <= QDRANT_CHANNEL_BUFFER
}

/// The state after a whole run of events, applied left to right.
pub open spec fn spec_run(s: ActorState, events: Seq<Event>) -> ActorState
    decreases events.len(),
{
    if events.len() == 0 {
        s
    } else {
        spec_step(spec_run(s, events.drop_last()), events.last()).0
    }
}

/// The initial state satisfies the invariant.
pub proof fn lemma_init_inv()
    ensures
        inv(spec_init()),
{
}

/// Every step preserves the invariant.
pub proof fn lemma_step_preserves_inv(s: ActorState, e: Event)
    requires
        inv(s),
    ensures
        inv(spec_step(s, e).0),
{
}

/// Every run preserves the invariant.
pub proof fn lemma_run_preserves_inv(s: ActorState, events: Seq<Event>)
    requires
        inv(s),
    ensures
        inv(spec_run(s, events)),
    decreases events.len(),
{
    if events.len() > 0 {
        lemma_run_preserves_inv(s, events.drop_last());
        lemma_step_preserves_inv(spec_run(s, events.drop_last()), events.last());
    }
}

/// Law: the phase never moves backwards — `Active` to `Closing` to
/// `Terminated` is one-way.
pub proof fn lemma_phase_monotonic(s: ActorState, e: Event)
    ensures
        phase_rank(spec_step(s, e).0.phase) >= phase_rank(s.phase),
{
}

/// Law: once closing has begun, a submission deterministically fails as
/// closed — it is never admitted, and it never changes the state, so it can
/// never hang waiting for room.
pub proof fn lemma_no_admission_after_close(s: ActorState, e: Event)
    requires
        s.phase != Phase::Active,
    ensures
        spec_step(s, Event::Submit) == (s, StepOutcome::Closed),
        spec_step(s, e).0.phase != Phase::Active,
{
}

/// Law: the quiescence barrier — the engine is destroyed only by the
/// teardown step, and that step is enabled only when every queued envelope
/// has been dispatched and every dispatch task has delivered its reply, so
/// that the worker is the engine's sole holder.
pub proof fn lemma_teardown_requires_quiescence(s: ActorState, e: Event)
    requires
        inv(s),
        s.engine_alive,
        !spec_step(s, e).0.engine_alive,
    ensures
        e == Event::Teardown,
        s.phase == Phase::Closing,
        s.queued == 0,
        s.in_flight == 0,
        live_holders(s) == 1,
{
}

/// Law: the termination signal fires at most once — a second signal event
/// is refused and changes nothing.
pub proof fn lemma_signal_at_most_once(s: ActorState)
    requires
        s.signal_fired,
    ensures
        spec_step(s, Event::Signal) == (s, StepOutcome::Blocked),
{
}

/// Law: the termination signal fires only after engine teardown has
/// completed, and never unfires.  In any reachable state where the signal
/// has fired, the engine is gone and nothing is queued or in flight.
pub proof fn lemma_signal_after_teardown(s: ActorState, e: Event)
    requires
        inv(s),
    ensures
        !s.signal_fired && spec_step(s, e).0.signal_fired ==> e == Event::Signal && s.phase
            == Phase::Terminated && !s.engine_alive,
        s.signal_fired ==> spec_step(s, e).0.signal_fired,
        inv(s) && s.signal_fired ==> !s.engine_alive && s.queued == 0 && s.in_flight == 0,
{
}

/// Law: in any run from the initial state, if the signal is observed at the
/// end, every dispatch task that was ever started has delivered its reply —
/// the signal cannot outrun in-flight work.
pub proof fn lemma_signal_implies_drained(events: Seq<Event>)
    ensures
        spec_run(spec_init(), events).signal_fired ==> spec_run(
            spec_init(),
            events,
        ).in_flight == 0 && spec_run(spec_init(), events).queued == 0 && !spec_run(
            spec_init(),
            events,
        ).engine_alive,
{
    lemma_init_inv();
    lemma_run_preserves_inv(spec_init(), events);
}

/// How many times the termination signal actually fired during a run of
/// events: the steps where a signal event was applied, not refused.
pub open spec fn signals_fired(s: ActorState, events: Seq<Event>) -> nat
    decreases events.len(),
{
    if events.len() == 0 {
        0
    } else {
        signals_fired(s, events.drop_last()) + (if events.last() == Event::Signal && spec_step(
            spec_run(s, events.drop_last()),
            events.last(),
        ).1 == StepOutcome::Applied {
            1nat
        } else {
            0nat
        })
    }
}

/// Law: in any run, the termination signal fires exactly as often as the
/// final state records it — once if it is set at the end, never otherwise.
/// Together with the run from the initial state this says the signal fires
/// exactly once over the actor's whole life, at the step that sets it.
pub proof fn lemma_signal_exactly_once(s: ActorState, events: Seq<Event>)
    requires
        !s.signal_fired,
    ensures
        signals_fired(s, events) == (if spec_run(s, events).signal_fired {
            1nat
        } else {
            0nat
        }),
    decreases events.len(),
{
    if events.len() > 0 {
        lemma_signal_exactly_once(s, events.drop_last());
    }
}

/// The actor state as the worker tracks it at run time, stepping it as
/// events come in.  The exec machine is exactly the spec machine.
impl ActorState {
    /// The state the actor starts in.
    pub fn init() -> (r: ActorState)
        ensures
            r == spec_init(),
            inv(r),
    {
        ActorState {
            phase: Phase::Active,
            queued: 0,
            in_flight: 0,
            engine_alive: true,
            signal_fired: false,
        }
    }

    /// Applies one event, returning what it did.
    pub fn step(&mut self, e: Event) -> (r: StepOutcome)
        ensures
            (*final(self), r) == spec_step(*old(self), e),
            inv(*old(self)) ==> inv(*final(self)),
    {
        proof {
            if inv(*old(self)) {
                lemma_step_preserves_inv(*old(self), e);
            }
        }
        match e {
            Event::Submit => {
                if !matches!(self.phase, Phase::Active) {
                    StepOutcome::Closed
                } else if self.queued >= QDRANT_CHANNEL_BUFFER {
                    StepOutcome::Full
                } else {
                    self.queued = self.queued + 1;
                    StepOutcome::Applied
                }
            },
            Event::Close => {
                if matches!(self.phase, Phase::Active) {
                    self.phase = Phase::Closing;
                }
                StepOutcome::Applied
            },
            Event::DispatchStart => {
                if self.queued > 0 && self.engine_alive && self.in_flight < usize::MAX {
                    self.queued = self.queued - 1;
                    self.in_flight = self.in_flight + 1;
                    StepOutcome::Applied
                } else {
                    StepOutcome::Blocked
                }
            },
            Event::DispatchFinish => {
                if self.in_flight > 0 {
                    self.in_flight = self.in_flight - 1;
                    StepOutcome::Applied
                } else {
                    StepOutcome::Blocked
                }
            },
            Event::Teardown => {
                if matches!(self.phase, Phase::Closing) && self.queued == 0 && self.in_flight == 0
                    && self.engine_alive {
                    self.phase = Phase::Terminated;
                    self.engine_alive = false;
                    StepOutcome::Applied
                } else {
                    StepOutcome::Blocked
                }
            },
            Event::Signal => {
                if matches!(self.phase, Phase::Terminated) && !self.signal_fired {
                    self.signal_fired = true;
                    StepOutcome::Applied
                } else {
                    StepOutcome::Blocked
                }
            },
        }
    }

    /// Whether a waiter would observe termination now: non-fatal to ask
    /// early, it simply answers "not yet" until the signal has fired.
    pub fn terminated(&self) -> (r: bool)
        ensures
            r == self.signal_fired,
    {
        self.signal_fired
    }
}

} // verus!
