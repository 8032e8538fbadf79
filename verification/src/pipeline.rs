//! The dispatch pipeline: from a raised submit event to the decision on the
//! host's default action.
//!
//! One event passes through five phases. The handler runs once, in the step
//! from `Dispatching` to `Resolved`. The flag is read once, in the step from
//! `Resolved` to `Finalizing`, and the decision made in the step to `Done`
//! rests on that reading alone. The pipeline calls the bound handler through
//! `HandlerBinding::invoke` and never asks how it was bound.

use crate::event::SubmitEvent;
use crate::handler::{
    lemma_run_flag, lemma_run_ignores_tasks, lemma_run_spawns_pending, run, suppress_calls,
    HandlerBinding, HandlerPanic, Step,
};
use crate::scope::{Model, Scope};
use crate::task::{AsyncTaskHandle, TaskRecord};
use vstd::prelude::*;

verus! {

/// Where the dispatch of one event stands.
#[derive(Clone, Copy, Debug, PartialEq, Eq, Structural)]
pub enum Phase {
    /// The host has raised the event.
    Raised,
    /// The bound handler is about to run.
    Dispatching,
    /// The handler's synchronous body has returned or panicked.
    Resolved,
    /// The flag has been read.
    Finalizing,
    /// The decision on the default action has been made.
    Done,
}

impl Phase {
    /// The position of the phase in the order in which phases are passed.
    pub open spec fn rank(self) -> nat {
        match self {
            Phase::Raised => 0,
            Phase::Dispatching => 1,
            Phase::Resolved => 2,
            Phase::Finalizing => 3,
            Phase::Done => 4,
        }
    }
}

/// What the host does with its default action.
#[derive(Clone, Copy, Debug, PartialEq, Eq, Structural)]
pub enum DefaultAction {
    /// The host submits the form.
    Performed,
    /// The host does nothing further.
    Skipped,
}

/// The decision that follows from what the single reading of the flag saw.
pub open spec fn decide(observed: Option<bool>) -> DefaultAction {
    if observed == Some(true) {
        DefaultAction::Skipped
    } else {
        DefaultAction::Performed
    }
}

/// The state of one dispatch, as plain mathematics.
pub struct PipelineState<P> {
    pub phase: Phase,
    /// The event's flag as it stands.
    pub suppressed: bool,
    pub payload: P,
    /// How often the handler has been invoked for this event.
    pub handler_runs: nat,
    /// How often the flag has been read for the decision.
    pub flag_reads: nat,
    /// The panic of the handler, if it panicked.
    pub failure: Option<HandlerPanic>,
    /// The tasks that the handler spawned are those at the positions from
    /// `first_task` up to, not including, `next_task`.
    pub first_task: nat,
    pub next_task: nat,
    /// What the reading of the flag saw.
    pub observed: Option<bool>,
    /// The decision.
    pub action: Option<DefaultAction>,
}

impl<P> PipelineState<P> {
    /// The state of a dispatch when the host has just raised the event.
    pub open spec fn raised(suppressed: bool, payload: P) -> Self {
        PipelineState {
            phase: Phase::Raised,
            suppressed,
            payload,
            handler_runs: 0,
            flag_reads: 0,
            failure: None,
            first_task: 0,
            next_task: 0,
            observed: None,
            action: None,
        }
    }

    /// What holds of every dispatch in every phase. The handler has run once
    /// from `Resolved` on and not before; the flag has been read once from
    /// `Finalizing` on and not before; what was read is the flag as the
    /// handler left it; and the decision exists in `Done` only and follows
    /// from the reading.
    pub open spec fn wf(self) -> bool {
        &&& self.handler_runs == (if self.phase.rank() >= 2 {
            1nat
        } else {
            0nat
        })
        &&& self.flag_reads == (if self.phase.rank() >= 3 {
            1nat
        } else {
            0nat
        })
        &&& self.phase.rank() < 2 ==> self.failure is None && self.first_task == self.next_task
        &&& self.first_task <= self.next_task
        &&& self.observed == (if self.phase.rank() >= 3 {
            Some(self.suppressed)
        } else {
            None
        })
        &&& self.action == (if self.phase is Done {
            Some(decide(self.observed))
        } else {
            None
        })
    }

    /// The positions of the tasks that the host may start, in the order of
    /// spawning: none before the flag has been read, and from then on those
    /// that the handler spawned.
    pub open spec fn released(self) -> Seq<nat> {
        if self.phase.rank() >= 3 && self.first_task <= self.next_task {
            Seq::new((self.next_task - self.first_task) as nat, |i: int| (self.first_task + i) as nat)
        } else {
            Seq::empty()
        }
    }

    /// The state after one step of the pipeline. `before` is the model of
    /// the scope and the event as the step finds them; only the step out of
    /// `Dispatching` looks at it, and at `body`.
    pub open spec fn advanced(self, body: Seq<Step>, before: Model) -> Self {
        match self.phase {
            Phase::Raised => PipelineState { phase: Phase::Dispatching, ..self },
            Phase::Dispatching => {
                let out = run(body, before);
                PipelineState {
                    phase: Phase::Resolved,
                    suppressed: out.model.suppressed,
                    handler_runs: self.handler_runs + 1,
                    failure: out.failure,
                    first_task: before.tasks.len(),
                    next_task: out.model.tasks.len(),
                    ..self
                }
            },
            Phase::Resolved => PipelineState {
                phase: Phase::Finalizing,
                flag_reads: self.flag_reads + 1,
                observed: Some(self.suppressed),
                ..self
            },
            Phase::Finalizing => PipelineState {
                phase: Phase::Done,
                action: Some(decide(self.observed)),
                ..self
            },
            Phase::Done => self,
        }
    }

    /// The state in which the dispatch of an event ends: four steps on from
    /// `raised`.
    pub open spec fn dispatched(suppressed: bool, payload: P, body: Seq<Step>, before: Model) -> Self {
        let out = run(body, before);
        PipelineState {
            phase: Phase::Done,
            suppressed: out.model.suppressed,
            payload,
            handler_runs: 1,
            flag_reads: 1,
            failure: out.failure,
            first_task: before.tasks.len(),
            next_task: out.model.tasks.len(),
            observed: Some(out.model.suppressed),
            action: Some(decide(Some(out.model.suppressed))),
        }
    }
}

/// The model of the scope after one step of the pipeline: the handler's run
/// in the step out of `Dispatching`, no change in any other.
pub open spec fn scope_advanced(phase: Phase, body: Seq<Step>, before: Model) -> Model {
    if phase is Dispatching {
        run(body, before).model
    } else {
        before
    }
}

/// The dispatch of one event. Its view is a `PipelineState`.
#[derive(Debug)]
pub struct Pipeline<P> {
    phase: Phase,
    event: SubmitEvent<P>,
    handler_runs: u8,
    flag_reads: u8,
    failure: Option<HandlerPanic>,
    first_task: usize,
    next_task: usize,
    observed: Option<bool>,
    action: Option<DefaultAction>,
}

impl<P> View for Pipeline<P> {
    type V = PipelineState<P>;

    closed spec fn view(&self) -> PipelineState<P> {
        PipelineState {
            phase: self.phase,
            suppressed: self.event.suppressed(),
            payload: self.event.data(),
            handler_runs: self.handler_runs as nat,
            flag_reads: self.flag_reads as nat,
            failure: self.failure,
            first_task: self.first_task as nat,
            next_task: self.next_task as nat,
            observed: self.observed,
            action: self.action,
        }
    }
}

impl<P> Pipeline<P> {
    /// Takes an event that the host has raised.
    pub fn raise(event: SubmitEvent<P>) -> (pipeline: Self)
        ensures
            pipeline@ == PipelineState::raised(event.suppressed(), event.data()),
            pipeline@.wf(),
    {
        Pipeline {
            phase: Phase::Raised,
            event,
            handler_runs: 0,
            flag_reads: 0,
            failure: None,
            first_task: 0,
            next_task: 0,
            observed: None,
            action: None,
        }
    }

    /// Takes one step: out of `Raised` into `Dispatching`; out of
    /// `Dispatching`, by invoking the handler, into `Resolved`; out of
    /// `Resolved`, by reading the flag, into `Finalizing`; out of
    /// `Finalizing`, by deciding, into `Done`. In `Done` nothing is left to
    /// do: the call changes nothing and returns `false`.
    pub fn advance(&mut self, binding: &HandlerBinding, scope: &mut Scope) -> (moved: bool)
        requires
            old(self)@.wf(),
        ensures
            final(self)@ == old(self)@.advanced(
                binding.body(),
                old(scope).model(old(self)@.suppressed),
            ),
            final(self)@.wf(),
            final(scope).model(final(self)@.suppressed) == scope_advanced(
                old(self)@.phase,
                binding.body(),
                old(scope).model(old(self)@.suppressed),
            ),
            !(old(self)@.phase is Dispatching) ==> *final(scope) == *old(scope),
            moved == !(old(self)@.phase is Done),
    {
        match self.phase {
            Phase::Raised => {
                self.phase = Phase::Dispatching;
                true
            },
            Phase::Dispatching => {
                proof {
                    lemma_run_spawns_pending(
                        binding.body(),
                        0,
                        scope.model(self.event.suppressed()),
                    );
                }
                let first: usize = scope.scheduler.len();
                let returned = binding.invoke(&mut self.event, scope);
                self.failure =
                match returned {
                    Ok(_) => None,
                    Err(panic) => Some(panic),
                };
                self.first_task = first;
                self.next_task = scope.scheduler.len();
                self.handler_runs = self.handler_runs + 1;
                self.phase = Phase::Resolved;
                true
            },
            Phase::Resolved => {
                let flag = self.event.default_suppressed();
                self.flag_reads = self.flag_reads + 1;
                self.observed = Some(flag);
                self.phase = Phase::Finalizing;
                true
            },
            Phase::Finalizing => {
                let action = match self.observed {
                    Some(true) => DefaultAction::Skipped,
                    _ => DefaultAction::Performed,
                };
                self.action = Some(action);
                self.phase = Phase::Done;
                true
            },
            Phase::Done => false,
        }
    }

    /// The phase the dispatch is in.
    pub fn phase(&self) -> (phase: Phase)
        ensures
            phase == self@.phase,
    {
        self.phase
    }

    /// The event, with its flag as it stands.
    pub fn event(&self) -> (event: &SubmitEvent<P>)
        ensures
            event.suppressed() == self@.suppressed,
            event.data() == self@.payload,
    {
        &self.event
    }

    /// Gives the event back to the host and ends the dispatch.
    pub fn into_event(self) -> (event: SubmitEvent<P>)
        ensures
            event.suppressed() == self@.suppressed,
            event.data() == self@.payload,
    {
        self.event
    }

    /// What the reading of the flag saw; `None` before the flag was read.
    pub fn default_suppressed(&self) -> (observed: Option<bool>)
        ensures
            observed == self@.observed,
    {
        self.observed
    }

    /// The decision on the default action; `None` before `Done`.
    pub fn action(&self) -> (action: Option<DefaultAction>)
        ensures
            action == self@.action,
    {
        self.action
    }

    /// The handler's panic, for the host to report; `None` if the handler
    /// has not run or has returned.
    pub fn failure(&self) -> (failure: Option<HandlerPanic>)
        ensures
            failure == self@.failure,
    {
        self.failure
    }

    /// How often the handler has been invoked for this event.
    pub fn handler_runs(&self) -> (n: u8)
        ensures
            n as nat == self@.handler_runs,
    {
        self.handler_runs
    }

    /// How often the flag has been read for the decision.
    pub fn flag_reads(&self) -> (n: u8)
        ensures
            n as nat == self@.flag_reads,
    {
        self.flag_reads
    }

    /// The handles of the tasks that the host may start: those that the
    /// handler spawned, in the order of spawning, once the flag has been
    /// read, and none before.
    pub fn spawned(&self) -> (handles: Vec<AsyncTaskHandle>)
        ensures
            handles@.len() == self@.released().len(),
            forall|i: int|
                0 <= i < handles@.len() ==> (#[trigger] handles@[i])@ == self@.released()[i],
    {
        let mut handles: Vec<AsyncTaskHandle> = Vec::new();
        let read = match self.phase {
            Phase::Finalizing => true,
            Phase::Done => true,
            _ => false,
        };
        if read {
            let mut index: usize = self.first_task;
            while index < self.next_task
                invariant
                    self.first_task <= index,
                    self.first_task <= self.next_task ==> index <= self.next_task,
                    self.first_task > self.next_task ==> index == self.first_task,
                    handles@.len() == index - self.first_task,
                    forall|i: int|
                        0 <= i < handles@.len() ==> (#[trigger] handles@[i])@ == self.first_task
                            + i,
                decreases self.next_task - index,
            {
                handles.push(AsyncTaskHandle::at(index));
                index = index + 1;
            }
        }
        handles
    }
}

/// Dispatches one event: raises it, runs the bound handler once and
/// synchronously, reads the flag once after the handler has returned or
/// panicked, and decides. The result is the dispatch in `Done`; the handler's
/// effects are in `scope`. No spawned task has run when this returns.
pub fn dispatch<P>(binding: &HandlerBinding, event: SubmitEvent<P>, scope: &mut Scope) -> (done:
    Pipeline<P>)
    ensures
        done@ == PipelineState::dispatched(
            event.suppressed(),
            event.data(),
            binding.body(),
            old(scope).model(event.suppressed()),
        ),
        done@.wf(),
        final(scope).model(done@.suppressed) == run(
            binding.body(),
            old(scope).model(event.suppressed()),
        ).model,
{
    let mut pipeline = Pipeline::raise(event);
    pipeline.advance(binding, scope);
    pipeline.advance(binding, scope);
    pipeline.advance(binding, scope);
    pipeline.advance(binding, scope);
    pipeline
}

/// Every step of the pipeline keeps the dispatch well formed.
pub proof fn lemma_advance_keeps_wf<P>(state: PipelineState<P>, body: Seq<Step>, before: Model)
    requires
        state.wf(),
        before.suppressed == state.suppressed,
    ensures
        state.advanced(body, before).wf(),
{
    lemma_run_spawns_pending(body, 0, before);
}

/// The phases are passed in their order, one with each step, and `Done` is
/// final: a step in `Done` changes nothing, so nothing that happens after the
/// decision, such as a task that ends, can bring about a second reading of
/// the flag or a second decision.
pub proof fn lemma_phases_in_order<P>(state: PipelineState<P>, body: Seq<Step>, before: Model)
    ensures
        !(state.phase is Done) ==> state.advanced(body, before).phase.rank() == state.phase.rank()
            + 1,
        state.phase is Done ==> state.advanced(body, before) == state,
{
}

/// No step of the pipeline lowers the flag.
pub proof fn lemma_flag_never_lowered<P>(state: PipelineState<P>, body: Seq<Step>, before: Model)
    requires
        state.suppressed,
        before.suppressed == state.suppressed,
    ensures
        state.advanced(body, before).suppressed,
{
    lemma_run_flag(body, 0, before);
}

/// Four steps take a raised event to `Done`, and what they leave is
/// `PipelineState::dispatched`. The handler has then been invoked exactly
/// once and the flag read exactly once, after the handler's run.
pub proof fn lemma_four_steps_dispatch<P>(payload: P, body: Seq<Step>, before: Model)
    ensures
        ({
            let raised = PipelineState::raised(before.suppressed, payload);
            let dispatching = raised.advanced(body, before);
            let resolved = dispatching.advanced(body, before);
            let after = scope_advanced(dispatching.phase, body, before);
            let finalizing = resolved.advanced(body, after);
            let done = finalizing.advanced(body, after);
            &&& dispatching.phase is Dispatching
            &&& resolved.phase is Resolved
            &&& finalizing.phase is Finalizing
            &&& done == PipelineState::dispatched(before.suppressed, payload, body, before)
            &&& done.handler_runs == 1
            &&& done.flag_reads == 1
            &&& done.wf()
        }),
{
    lemma_run_spawns_pending(body, 0, before);
}

/// If the handler calls suppress-default before it returns or panics, once
/// or more often, the reading of the flag sees it raised and the default
/// action is skipped. The binding is any binding: a closure bound in place
/// and a handler object built ahead are treated alike.
pub proof fn lemma_suppress_call_is_observed<P>(binding: HandlerBinding, payload: P, before: Model)
    requires
        suppress_calls(binding.body(), before) >= 1,
    ensures
        ({
            let done = PipelineState::dispatched(
                before.suppressed,
                payload,
                binding.body(),
                before,
            );
            &&& done.suppressed
            &&& done.observed == Some(true)
            &&& done.action == Some(DefaultAction::Skipped)
        }),
{
    lemma_run_flag(binding.body(), 0, before);
}

/// If the flag is lowered when the event is raised and the handler never
/// calls suppress-default, the flag is still lowered after the dispatch, the
/// reading sees it lowered, and the default action is performed.
pub proof fn lemma_no_suppress_call_keeps_default<P>(
    binding: HandlerBinding,
    payload: P,
    before: Model,
)
    requires
        !before.suppressed,
        suppress_calls(binding.body(), before) == 0,
    ensures
        ({
            let done = PipelineState::dispatched(
                before.suppressed,
                payload,
                binding.body(),
                before,
            );
            &&& !done.suppressed
            &&& done.observed == Some(false)
            &&& done.action == Some(DefaultAction::Performed)
        }),
{
    lemma_run_flag(binding.body(), 0, before);
}

/// Two bindings of the same body, one a closure bound in place and one a
/// handler object built ahead, give the same dispatch and leave the same
/// state. Whether the default action is suppressed depends on the body alone.
pub proof fn lemma_binding_style_is_irrelevant<P>(
    inline: HandlerBinding,
    bound: HandlerBinding,
    payload: P,
    before: Model,
)
    requires
        inline is InlineClosure,
        bound is BoundHandlerObject,
        inline.body() == bound.body(),
    ensures
        PipelineState::dispatched(before.suppressed, payload, inline.body(), before)
            == PipelineState::dispatched(before.suppressed, payload, bound.body(), before),
        run(inline.body(), before) == run(bound.body(), before),
{
}

/// When a dispatch is done, every task that its handler spawned is still
/// pending, and every task that existed before stands as it stood: each spawn
/// gave control back to the handler before any work of the task was done, and
/// the pipeline waited for none of them.
pub proof fn lemma_spawned_tasks_are_pending<P>(payload: P, body: Seq<Step>, before: Model)
    ensures
        ({
            let done = PipelineState::dispatched(before.suppressed, payload, body, before);
            let after = run(body, before).model;
            &&& done.first_task == before.tasks.len()
            &&& done.next_task == after.tasks.len()
            &&& done.first_task <= done.next_task
            &&& done.released().len() == after.tasks.len() - before.tasks.len()
            &&& after.tasks.subrange(0, done.first_task as int) == before.tasks
            &&& forall|i: int|
                done.first_task <= i < done.next_task ==> (#[trigger] after.tasks[i]).state is Pending
            &&& forall|k: int|
                0 <= k < done.released().len() ==> after.tasks[(#[trigger] done.released()[k]) as int].state is Pending
        }),
{
    lemma_run_spawns_pending(body, 0, before);
}

/// How tasks have ended plays no part in a dispatch. Whatever the task
/// records are when an event is raised, be it that a task has failed, the
/// handler panics or returns alike, the same flag is read, and the same
/// decision is made.
pub proof fn lemma_task_outcomes_change_no_decision<P>(
    payload: P,
    body: Seq<Step>,
    before: Model,
    tasks: Seq<TaskRecord>,
)
    ensures
        ({
            let a = PipelineState::dispatched(before.suppressed, payload, body, before);
            let b = PipelineState::dispatched(
                before.suppressed,
                payload,
                body,
                Model { tasks, ..before },
            );
            &&& b.suppressed == a.suppressed
            &&& b.observed == a.observed
            &&& b.action == a.action
            &&& b.failure == a.failure
        }),
{
    lemma_run_ignores_tasks(body, 0, before, tasks);
}

} // verus!
