//! Handler bindings: what a handler does, and the two ways to bind one.
//!
//! A handler body is a list of steps. The meaning of a body is the spec
//! function `run`: it executes the steps in order against a model, each step
//! on the state that the one before it left, and stops at the first step that
//! panics. `HandlerBinding::invoke` is proved to do exactly that to the event
//! and the scope.

use crate::cell::CellId;
use crate::event::SubmitEvent;
use crate::scope::{lemma_texts_update, Model, Scope};
use crate::task::{pending, Job, TaskRecord};
use crate::text::{counted_message, format_count};
use vstd::prelude::*;

verus! {

/// One action of a handler body.
#[derive(Clone, Copy, Debug, PartialEq, Eq)]
pub enum Step {
    /// Raise the event's suppress-default flag.
    SuppressDefault,
    /// Read the counter cell and write back its value plus one.
    Increment { counter: CellId },
    /// Read the counter cell and write `prefix`, its numeral, `suffix` to the
    /// message cell.
    Report { counter: CellId, message: CellId, prefix: &'static str, suffix: &'static str },
    /// Hand `job` to the scheduler and go on without waiting for it.
    Spawn { job: Job },
}

/// Why a handler body panicked.
#[derive(Clone, Copy, Debug, PartialEq, Eq, Structural)]
pub enum PanicCause {
    /// A step named a cell that the scope does not hold.
    MissingCell,
    /// A counter that holds `u32::MAX` was to be incremented.
    CounterOverflow,
}

/// The unhandled error of a handler body: the position of the step that
/// panicked, and why.
#[derive(Clone, Copy, Debug, PartialEq, Eq, Structural)]
pub struct HandlerPanic {
    pub step: usize,
    pub cause: PanicCause,
}

/// Whether `step` panics on the state `m`, and why.
pub open spec fn step_fault(step: Step, m: Model) -> Option<PanicCause> {
    match step {
        Step::SuppressDefault => None,
        Step::Increment { counter } => {
            if counter@ >= m.counters.len() {
                Some(PanicCause::MissingCell)
            } else if m.counters[counter@ as int] == u32::MAX {
                Some(PanicCause::CounterOverflow)
            } else {
                None
            }
        },
        Step::Report { counter, message, prefix, suffix } => {
            if counter@ >= m.counters.len() || message@ >= m.messages.len() {
                Some(PanicCause::MissingCell)
            } else {
                None
            }
        },
        Step::Spawn { job } => None,
    }
}

/// The state that `step` leaves when it runs on `m` without a panic.
pub open spec fn step_effect(step: Step, m: Model) -> Model {
    match step {
        Step::SuppressDefault => Model { suppressed: true, ..m },
        Step::Increment { counter } => Model {
            counters: m.counters.update(counter@ as int, (m.counters[counter@ as int] + 1) as u32),
            ..m
        },
        Step::Report { counter, message, prefix, suffix } => Model {
            messages: m.messages.update(
                message@ as int,
                counted_message(prefix@, m.counters[counter@ as int] as nat, suffix@),
            ),
            ..m
        },
        Step::Spawn { job } => Model { tasks: m.tasks.push(pending(job)), ..m },
    }
}

/// How a run of a handler body ended: the state it left, and the panic that
/// stopped it, if one did.
#[verifier::ext_equal]
pub struct Run {
    pub model: Model,
    pub failure: Option<HandlerPanic>,
}

impl Run {
    /// What the handler's caller gets back.
    pub open spec fn result(self) -> Result<(), HandlerPanic> {
        match self.failure {
            None => Ok(()),
            Some(panic) => Err(panic),
        }
    }
}

/// The run of the steps of `steps` from position `at` on, starting in `m`.
/// A step that panics ends the run and leaves the state as the steps before
/// it made it.
pub open spec fn run_from(steps: Seq<Step>, at: nat, m: Model) -> Run
    decreases steps.len() - at,
{
    if at >= steps.len() {
        Run { model: m, failure: None }
    } else {
        match step_fault(steps[at as int], m) {
            Some(cause) => Run {
                model: m,
                failure: Some(HandlerPanic { step: at as usize, cause }),
            },
            None => run_from(steps, at + 1, step_effect(steps[at as int], m)),
        }
    }
}

/// The run of a whole handler body on `m`.
pub open spec fn run(steps: Seq<Step>, m: Model) -> Run {
    run_from(steps, 0, m)
}

/// How many times the run of `steps` from `at` on calls suppress-default
/// before it returns or panics.
pub open spec fn suppress_calls_from(steps: Seq<Step>, at: nat, m: Model) -> nat
    decreases steps.len() - at,
{
    if at >= steps.len() || step_fault(steps[at as int], m) is Some {
        0
    } else {
        let here: nat = if steps[at as int] is SuppressDefault {
            1
        } else {
            0
        };
        here + suppress_calls_from(steps, at + 1, step_effect(steps[at as int], m))
    }
}

/// How many times the run of a whole handler body on `m` calls
/// suppress-default.
pub open spec fn suppress_calls(steps: Seq<Step>, m: Model) -> nat {
    suppress_calls_from(steps, 0, m)
}

/// A handler bound to the submit event. The two variants are the two ways in
/// which user code gets bound: a closure written at the binding point, and a
/// handler object that a state holder built earlier. Both hold a body, and
/// `invoke` is the one operation on either.
#[derive(Clone, Debug, PartialEq, Eq)]
pub enum HandlerBinding {
    InlineClosure { body: Vec<Step> },
    BoundHandlerObject { body: Vec<Step> },
}

/// Reads the counter cell and writes back its value plus one: the step
/// `Increment` on a scope. A missing cell or a full counter is a panic, and
/// the scope stays as it was.
pub fn increment_counter(scope: &mut Scope, counter: CellId) -> (fault: Option<PanicCause>)
    ensures
        forall|flag: bool|
            fault == step_fault(Step::Increment { counter }, #[trigger] old(scope).model(flag)),
        fault is None ==> forall|flag: bool| #[trigger]
            final(scope).model(flag) == step_effect(
                Step::Increment { counter },
                old(scope).model(flag),
            ),
        fault is Some ==> *final(scope) == *old(scope),
{
    if !scope.counters.contains(counter) {
        return Some(PanicCause::MissingCell);
    }
    let current: u32 = *scope.counters.read(counter);
    if current == u32::MAX {
        return Some(PanicCause::CounterOverflow);
    }
    scope.counters.write(counter, current + 1);
    None
}

/// Reads the counter cell and writes `prefix`, its numeral, `suffix` to the
/// message cell: the step `Report` on a scope. A missing cell is a panic, and
/// the scope stays as it was.
pub fn report_count(
    scope: &mut Scope,
    counter: CellId,
    message: CellId,
    prefix: &'static str,
    suffix: &'static str,
) -> (fault: Option<PanicCause>)
    ensures
        forall|flag: bool|
            fault == step_fault(
                Step::Report { counter, message, prefix, suffix },
                #[trigger] old(scope).model(flag),
            ),
        fault is None ==> forall|flag: bool| #[trigger]
            final(scope).model(flag) == step_effect(
                Step::Report { counter, message, prefix, suffix },
                old(scope).model(flag),
            ),
        fault is Some ==> *final(scope) == *old(scope),
{
    if !scope.counters.contains(counter) || !scope.messages.contains(message) {
        return Some(PanicCause::MissingCell);
    }
    let count: u32 = *scope.counters.read(counter);
    let text = format_count(prefix, count, suffix);
    proof {
        lemma_texts_update(scope.messages@, message@ as int, text);
    }
    scope.messages.write(message, text);
    None
}

/// Hands `job` to the scheduler and returns at once: the step `Spawn` on a
/// scope. The handle is dropped; the spawning handler keeps no hold on the
/// task.
pub fn spawn_detached(scope: &mut Scope, job: Job)
    ensures
        forall|flag: bool| #[trigger]
            final(scope).model(flag) == step_effect(Step::Spawn { job }, old(scope).model(flag)),
{
    let _ = scope.scheduler.spawn(job);
}

fn exec_step<P>(step: &Step, event: &mut SubmitEvent<P>, scope: &mut Scope) -> (fault: Option<
    PanicCause,
>)
    ensures
        fault == step_fault(*step, old(scope).model(old(event).suppressed())),
        fault is None ==> final(scope).model(final(event).suppressed()) == step_effect(
            *step,
            old(scope).model(old(event).suppressed()),
        ),
        fault is Some ==> final(scope).model(final(event).suppressed()) == old(scope).model(
            old(event).suppressed(),
        ),
        final(event).data() == old(event).data(),
{
    match step {
        Step::SuppressDefault => {
            event.suppress_default();
            None
        },
        Step::Increment { counter } => increment_counter(scope, *counter),
        Step::Report { counter, message, prefix, suffix } => report_count(
            scope,
            *counter,
            *message,
            *prefix,
            *suffix,
        ),
        Step::Spawn { job } => {
            spawn_detached(scope, *job);
            None
        },
    }
}

impl HandlerBinding {
    /// The steps of the bound handler, whichever way it was bound.
    pub open spec fn body(&self) -> Seq<Step> {
        match self {
            HandlerBinding::InlineClosure { body } => body@,
            HandlerBinding::BoundHandlerObject { body } => body@,
        }
    }

    /// Binds `body` as a closure written at the binding point.
    pub fn inline_closure(body: Vec<Step>) -> (binding: Self)
        ensures
            binding is InlineClosure,
            binding.body() == body@,
    {
        HandlerBinding::InlineClosure { body }
    }

    /// Binds `body` as a handler object built ahead of the binding.
    pub fn bound_handler_object(body: Vec<Step>) -> (binding: Self)
        ensures
            binding is BoundHandlerObject,
            binding.body() == body@,
    {
        HandlerBinding::BoundHandlerObject { body }
    }

    /// The steps of the bound handler.
    pub fn steps(&self) -> (steps: &Vec<Step>)
        ensures
            steps@ == self.body(),
    {
        match self {
            HandlerBinding::InlineClosure { body } => body,
            HandlerBinding::BoundHandlerObject { body } => body,
        }
    }

    /// Runs the handler once, synchronously, on `event` and `scope`. What it
    /// does is the run of its body; the way it was bound plays no part. On a
    /// panic the event and the scope stay as the steps before the panic left
    /// them, and the panic is returned.
    pub fn invoke<P>(&self, event: &mut SubmitEvent<P>, scope: &mut Scope) -> (returned: Result<
        (),
        HandlerPanic,
    >)
        ensures
            final(scope).model(final(event).suppressed()) == run(
                self.body(),
                old(scope).model(old(event).suppressed()),
            ).model,
            returned == run(self.body(), old(scope).model(old(event).suppressed())).result(),
            final(event).data() == old(event).data(),
    {
        let steps = self.steps();
        let mut i: usize = 0;
        while i < steps.len()
            invariant
                i <= steps.len(),
                steps@ == self.body(),
                run_from(self.body(), i as nat, scope.model(event.suppressed())) == run(
                    self.body(),
                    old(scope).model(old(event).suppressed()),
                ),
                event.data() == old(event).data(),
            decreases steps.len() - i,
        {
            match exec_step(&steps[i], event, scope) {
                Some(cause) => {
                    return Err(HandlerPanic { step: i, cause });
                },
                None => {},
            }
            i += 1;
        }
        Ok(())
    }
}


/// A run only ever adds tasks: the tasks that existed keep their records, and
/// every task that the run spawned is pending when the run ends. The handler
/// gets control back from each spawn before any of the task's work is done.
pub proof fn lemma_run_spawns_pending(steps: Seq<Step>, at: nat, m: Model)
    ensures
        run_from(steps, at, m).model.tasks.len() >= m.tasks.len(),
        run_from(steps, at, m).model.tasks.subrange(0, m.tasks.len() as int) == m.tasks,
        forall|i: int|
            m.tasks.len() <= i < run_from(steps, at, m).model.tasks.len() ==> (#[trigger] run_from(
                steps,
                at,
                m,
            ).model.tasks[i]).state is Pending,
    decreases steps.len() - at,
{
    if at < steps.len() && step_fault(steps[at as int], m) is None {
        let next = step_effect(steps[at as int], m);
        lemma_run_spawns_pending(steps, at + 1, next);
        let end = run_from(steps, at + 1, next).model.tasks;
        assert(end.subrange(0, m.tasks.len() as int) =~= end.subrange(
            0,
            next.tasks.len() as int,
        ).subrange(0, m.tasks.len() as int));
        assert(next.tasks.subrange(0, m.tasks.len() as int) =~= m.tasks);
        assert forall|i: int| m.tasks.len() <= i < end.len() implies (#[trigger] end[i]).state is Pending by {
            if i < next.tasks.len() {
                assert(end[i] == end.subrange(0, next.tasks.len() as int)[i]);
            }
        }
    } else {
        assert(m.tasks.subrange(0, m.tasks.len() as int) =~= m.tasks);
    }
}

/// The flag at the end of a run is raised exactly if it was raised at the
/// start or the run called suppress-default at least once. Nothing lowers it.
pub proof fn lemma_run_flag(steps: Seq<Step>, at: nat, m: Model)
    ensures
        run_from(steps, at, m).model.suppressed == (m.suppressed || suppress_calls_from(
            steps,
            at,
            m,
        ) > 0),
    decreases steps.len() - at,
{
    if at < steps.len() && step_fault(steps[at as int], m) is None {
        lemma_run_flag(steps, at + 1, step_effect(steps[at as int], m));
    }
}

/// A run never reads the task records. Started on two states that differ in
/// nothing but their tasks, it calls suppress-default as often, panics alike,
/// and leaves the same flag, counters and messages.
pub proof fn lemma_run_ignores_tasks(steps: Seq<Step>, at: nat, m: Model, tasks: Seq<TaskRecord>)
    ensures
        ({
            let a = run_from(steps, at, m);
            let b = run_from(steps, at, Model { tasks, ..m });
            &&& b.failure == a.failure
            &&& b.model.suppressed == a.model.suppressed
            &&& b.model.counters == a.model.counters
            &&& b.model.messages == a.model.messages
            &&& suppress_calls_from(steps, at, Model { tasks, ..m }) == suppress_calls_from(
                steps,
                at,
                m,
            )
        }),
    decreases steps.len() - at,
{
    let m2 = Model { tasks, ..m };
    if at < steps.len() && step_fault(steps[at as int], m) is None {
        let next = step_effect(steps[at as int], m);
        let next2 = step_effect(steps[at as int], m2);
        assert(next2 == Model { tasks: next2.tasks, ..next });
        lemma_run_ignores_tasks(steps, at + 1, next, next2.tasks);
    }
}

/// Within one invocation a write is visible to the read that follows it: a
/// body that increments a counter and then reports it writes the numeral of
/// the incremented value, not of the value at the start.
pub proof fn lemma_report_reads_incremented_counter(
    counter: CellId,
    message: CellId,
    prefix: &'static str,
    suffix: &'static str,
    m: Model,
)
    requires
        counter@ < m.counters.len(),
        message@ < m.messages.len(),
        m.counters[counter@ as int] < u32::MAX,
    ensures
        ({
            let body = seq![
                Step::Increment { counter },
                Step::Report { counter, message, prefix, suffix },
            ];
            let end = run(body, m);
            &&& end.failure is None
            &&& end.model.counters[counter@ as int] == m.counters[counter@ as int] + 1
            &&& end.model.messages[message@ as int] == counted_message(
                prefix@,
                (m.counters[counter@ as int] + 1) as nat,
                suffix@,
            )
        }),
{
    reveal_with_fuel(run_from, 3);
}

} // verus!
