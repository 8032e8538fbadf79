//! The three demonstration forms and the handlers they bind.
//!
//! Each form owns a message cell and a submit counter. A submit increments
//! the counter and reports the new count in the message. The forms differ in
//! how the handler is bound, in whether it calls suppress-default, and in
//! whether it spawns the long-running task.

use crate::cell::CellId;
use crate::handler::{
    increment_counter, report_count, run, run_from, spawn_detached, step_effect, step_fault,
    HandlerBinding, HandlerPanic, PanicCause, Step,
};
use crate::pipeline::{DefaultAction, PipelineState};
use crate::scope::{lemma_texts_push, texts, Model, Scope};
use crate::task::{pending, Job};
use crate::text::counted_message;
use vstd::prelude::*;
use vstd::string::*;

verus! {

/// The body of a submit handler: suppress-default first, if the handler
/// calls it; then the increment and the report; then the spawn of the
/// long-running task, if the handler spawns it.
pub open spec fn submit_body(
    suppresses: bool,
    counter: CellId,
    message: CellId,
    prefix: &'static str,
    suffix: &'static str,
    spawns: bool,
) -> Seq<Step> {
    let head = if suppresses {
        seq![Step::SuppressDefault]
    } else {
        Seq::<Step>::empty()
    };
    let tail = if spawns {
        seq![Step::Spawn { job: Job::LongRunningTask }]
    } else {
        Seq::<Step>::empty()
    };
    head + seq![Step::Increment { counter }, Step::Report { counter, message, prefix, suffix }]
        + tail
}

/// The state that a submit handler leaves when nothing panics: the flag
/// raised if the handler suppresses, the counter one higher, the message
/// reporting the new count, and one more pending task if the handler spawns.
pub open spec fn submitted(
    suppresses: bool,
    counter: CellId,
    message: CellId,
    prefix: &'static str,
    suffix: &'static str,
    spawns: bool,
    m: Model,
) -> Model {
    let count = (m.counters[counter@ as int] + 1) as u32;
    Model {
        suppressed: m.suppressed || suppresses,
        counters: m.counters.update(counter@ as int, count),
        messages: m.messages.update(message@ as int, counted_message(prefix@, count as nat, suffix@)),
        tasks: if spawns {
            m.tasks.push(pending(Job::LongRunningTask))
        } else {
            m.tasks
        },
    }
}

/// What a submit handler does, case by case. With both cells in the scope
/// and the counter below `u32::MAX` it returns and leaves `submitted`. With
/// the counter cell missing or full it panics in the increment, having
/// changed nothing but the flag. With only the message cell missing it
/// panics in the report, the counter already incremented. A suppress-default
/// that the handler calls comes first, so it stands in every case.
pub proof fn lemma_submit_run(
    suppresses: bool,
    counter: CellId,
    message: CellId,
    prefix: &'static str,
    suffix: &'static str,
    spawns: bool,
    m: Model,
)
    ensures
        ({
            let end = run(submit_body(suppresses, counter, message, prefix, suffix, spawns), m);
            let first: usize = if suppresses {
                1
            } else {
                0
            };
            let flagged = Model { suppressed: m.suppressed || suppresses, ..m };
            if counter@ >= m.counters.len() {
                &&& end.failure == Some(
                    HandlerPanic { step: first, cause: PanicCause::MissingCell },
                )
                &&& end.model == flagged
            } else if m.counters[counter@ as int] == u32::MAX {
                &&& end.failure == Some(
                    HandlerPanic { step: first, cause: PanicCause::CounterOverflow },
                )
                &&& end.model == flagged
            } else if message@ >= m.messages.len() {
                &&& end.failure == Some(
                    HandlerPanic { step: (first + 1) as usize, cause: PanicCause::MissingCell },
                )
                &&& end.model == Model {
                    counters: m.counters.update(
                        counter@ as int,
                        (m.counters[counter@ as int] + 1) as u32,
                    ),
                    ..flagged
                }
            } else {
                &&& end.failure is None
                &&& end.model == submitted(suppresses, counter, message, prefix, suffix, spawns, m)
            }
        }),
{
    reveal_with_fuel(run_from, 5);
    let body = submit_body(suppresses, counter, message, prefix, suffix, spawns);
    let first: int = if suppresses {
        1
    } else {
        0
    };
    assert(body[first] == Step::Increment { counter });
    assert(body[first + 1] == Step::Report { counter, message, prefix, suffix });
    if suppresses {
        assert(body[0] == Step::SuppressDefault);
    }
    if spawns {
        assert(body.len() == first + 3);
        assert(body[first + 2] == Step::Spawn { job: Job::LongRunningTask });
    } else {
        assert(body.len() == first + 2);
    }
}

/// A handler whose body starts with suppress-default has the default action
/// skipped on every dispatch, also where a later step panics.
pub proof fn lemma_suppressing_submit_is_skipped<P>(
    counter: CellId,
    message: CellId,
    prefix: &'static str,
    suffix: &'static str,
    spawns: bool,
    payload: P,
    before: Model,
)
    ensures
        PipelineState::dispatched(
            before.suppressed,
            payload,
            submit_body(true, counter, message, prefix, suffix, spawns),
            before,
        ).action == Some(DefaultAction::Skipped),
{
    lemma_submit_run(true, counter, message, prefix, suffix, spawns, before);
}

/// A handler that does not call suppress-default has the default action
/// performed on every dispatch of an event that was raised with the flag
/// lowered, however the handler was bound.
pub proof fn lemma_plain_submit_is_performed<P>(
    counter: CellId,
    message: CellId,
    prefix: &'static str,
    suffix: &'static str,
    spawns: bool,
    payload: P,
    before: Model,
)
    requires
        !before.suppressed,
    ensures
        PipelineState::dispatched(
            before.suppressed,
            payload,
            submit_body(false, counter, message, prefix, suffix, spawns),
            before,
        ).action == Some(DefaultAction::Performed),
{
    lemma_submit_run(false, counter, message, prefix, suffix, spawns, before);
}

fn build_submit_body(
    suppresses: bool,
    counter: CellId,
    message: CellId,
    prefix: &'static str,
    suffix: &'static str,
    spawns: bool,
) -> (body: Vec<Step>)
    ensures
        body@ == submit_body(suppresses, counter, message, prefix, suffix, spawns),
{
    let mut body: Vec<Step> = Vec::new();
    if suppresses {
        body.push(Step::SuppressDefault);
    }
    body.push(Step::Increment { counter });
    body.push(Step::Report { counter, message, prefix, suffix });
    if spawns {
        body.push(Step::Spawn { job: Job::LongRunningTask });
    }
    body
}

fn create_form_cells(scope: &mut Scope, initial: &'static str) -> (cells: (CellId, CellId))
    ensures
        cells.0@ == old(scope).messages@.len(),
        cells.1@ == old(scope).counters@.len(),
        texts(final(scope).messages@) == texts(old(scope).messages@).push(initial@),
        final(scope).counters@ == old(scope).counters@.push(0u32),
        final(scope).scheduler@ == old(scope).scheduler@,
{
    let text = String::from_str(initial);
    proof {
        lemma_texts_push(scope.messages@, text);
    }
    let message = scope.messages.create(text);
    let submit_count = scope.counters.create(0);
    (message, submit_count)
}

/// The form whose handler is a handler object built by a method of the
/// state. It calls suppress-default and spawns the long-running task.
#[derive(Clone, Copy, Debug, PartialEq, Eq)]
pub struct ProblematicFormState {
    pub message: CellId,
    pub submit_count: CellId,
}

impl ProblematicFormState {
    /// The body of the form's submit handler.
    pub open spec fn body(&self) -> Seq<Step> {
        submit_body(
            true,
            self.submit_count,
            self.message,
            "Problematic form submitted ",
            " times - prevent_default() called but page may still reload!",
            true,
        )
    }

    /// Creates the form's cells in `scope`: the message, which starts as
    /// `"Ready to submit (problematic)"`, and the counter, which starts at 0.
    pub fn new(scope: &mut Scope) -> (state: Self)
        ensures
            state.message@ == old(scope).messages@.len(),
            state.submit_count@ == old(scope).counters@.len(),
            texts(final(scope).messages@) == texts(old(scope).messages@).push(
                "Ready to submit (problematic)"@,
            ),
            final(scope).counters@ == old(scope).counters@.push(0u32),
            final(scope).scheduler@ == old(scope).scheduler@,
    {
        let (message, submit_count) = create_form_cells(scope, "Ready to submit (problematic)");
        ProblematicFormState { message, submit_count }
    }

    /// Builds the handler object for the form's submit event. The handler
    /// holds the handles of the state's cells, not their values.
    pub fn handle_submit_problematic(&self) -> (binding: HandlerBinding)
        ensures
            binding is BoundHandlerObject,
            binding.body() == self.body(),
    {
        HandlerBinding::bound_handler_object(
            build_submit_body(
                true,
                self.submit_count,
                self.message,
                "Problematic form submitted ",
                " times - prevent_default() called but page may still reload!",
                true,
            ),
        )
    }
}

/// The form whose handler is a closure written at the binding point. The
/// closure calls `do_submit_working` and does not call suppress-default.
#[derive(Clone, Copy, Debug, PartialEq, Eq)]
pub struct WorkingFormState {
    pub message: CellId,
    pub submit_count: CellId,
}

impl WorkingFormState {
    /// The body of the form's submit handler: what `do_submit_working` does.
    pub open spec fn body(&self) -> Seq<Step> {
        submit_body(
            false,
            self.submit_count,
            self.message,
            "Working form submitted ",
            " times - no page reload!",
            true,
        )
    }

    /// Creates the form's cells in `scope`: the message, which starts as
    /// `"Ready to submit (working)"`, and the counter, which starts at 0.
    pub fn new(scope: &mut Scope) -> (state: Self)
        ensures
            state.message@ == old(scope).messages@.len(),
            state.submit_count@ == old(scope).counters@.len(),
            texts(final(scope).messages@) == texts(old(scope).messages@).push(
                "Ready to submit (working)"@,
            ),
            final(scope).counters@ == old(scope).counters@.push(0u32),
            final(scope).scheduler@ == old(scope).scheduler@,
    {
        let (message, submit_count) = create_form_cells(scope, "Ready to submit (working)");
        WorkingFormState { message, submit_count }
    }

    /// Counts the submit, reports the count and spawns the long-running
    /// task. It touches no event. What it does to the scope is the run of
    /// `body`, and a panic of that run is returned.
    pub fn do_submit_working(&self, scope: &mut Scope) -> (returned: Result<(), HandlerPanic>)
        ensures
            forall|flag: bool| #[trigger]
                final(scope).model(flag) == run(self.body(), old(scope).model(flag)).model,
            forall|flag: bool|
                returned == run(self.body(), #[trigger] old(scope).model(flag)).result(),
    {
        let ghost body = self.body();
        let ghost step0 = Step::Increment { counter: self.submit_count };
        let ghost step1 = Step::Report {
            counter: self.submit_count,
            message: self.message,
            prefix: "Working form submitted ",
            suffix: " times - no page reload!",
        };
        let ghost step2 = Step::Spawn { job: Job::LongRunningTask };
        proof {
            assert(body =~= seq![step0, step1, step2]);
            reveal_with_fuel(run_from, 4);
        }
        match increment_counter(scope, self.submit_count) {
            Some(cause) => {
                assert forall|flag: bool|
                    Err::<(), HandlerPanic>(HandlerPanic { step: 0, cause }) == run(
                        body,
                        #[trigger] old(scope).model(flag),
                    ).result() && scope.model(flag) == run(body, old(scope).model(flag)).model by {
                    assert(step_fault(step0, old(scope).model(flag)) == Some(cause));
                }
                return Err(HandlerPanic { step: 0, cause });
            },
            None => {},
        }
        let ghost counted = *scope;
        match report_count(
            scope,
            self.submit_count,
            self.message,
            "Working form submitted ",
            " times - no page reload!",
        ) {
            Some(cause) => {
                assert forall|flag: bool|
                    Err::<(), HandlerPanic>(HandlerPanic { step: 1, cause }) == run(
                        body,
                        #[trigger] old(scope).model(flag),
                    ).result() && scope.model(flag) == run(body, old(scope).model(flag)).model by {
                    assert(step_fault(step0, old(scope).model(flag)) is None);
                    assert(counted.model(flag) == step_effect(step0, old(scope).model(flag)));
                    assert(step_fault(step1, counted.model(flag)) == Some(cause));
                }
                return Err(HandlerPanic { step: 1, cause });
            },
            None => {},
        }
        let ghost reported = *scope;
        spawn_detached(scope, Job::LongRunningTask);
        assert forall|flag: bool|
            Ok::<(), HandlerPanic>(()) == run(body, #[trigger] old(scope).model(flag)).result()
                && scope.model(flag) == run(body, old(scope).model(flag)).model by {
            assert(step_fault(step0, old(scope).model(flag)) is None);
            assert(counted.model(flag) == step_effect(step0, old(scope).model(flag)));
            assert(step_fault(step1, counted.model(flag)) is None);
            assert(reported.model(flag) == step_effect(step1, counted.model(flag)));
            assert(scope.model(flag) == step_effect(step2, reported.model(flag)));
        }
        Ok(())
    }

    /// Binds the closure that the form writes at its submit event: a call of
    /// `do_submit_working` and nothing else.
    pub fn on_submit(&self) -> (binding: HandlerBinding)
        ensures
            binding is InlineClosure,
            binding.body() == self.body(),
    {
        HandlerBinding::inline_closure(
            build_submit_body(
                false,
                self.submit_count,
                self.message,
                "Working form submitted ",
                " times - no page reload!",
                true,
            ),
        )
    }
}

/// The form whose handler object calls suppress-default at once and spawns
/// nothing.
#[derive(Clone, Copy, Debug, PartialEq, Eq)]
pub struct DebugFormState {
    pub message: CellId,
    pub submit_count: CellId,
}

impl DebugFormState {
    /// The body of the form's submit handler.
    pub open spec fn body(&self) -> Seq<Step> {
        submit_body(
            true,
            self.submit_count,
            self.message,
            "Debug form submitted ",
            " times",
            false,
        )
    }

    /// Creates the form's cells in `scope`: the message, which starts as
    /// `"Ready to debug"`, and the counter, which starts at 0.
    pub fn new(scope: &mut Scope) -> (state: Self)
        ensures
            state.message@ == old(scope).messages@.len(),
            state.submit_count@ == old(scope).counters@.len(),
            texts(final(scope).messages@) == texts(old(scope).messages@).push("Ready to debug"@),
            final(scope).counters@ == old(scope).counters@.push(0u32),
            final(scope).scheduler@ == old(scope).scheduler@,
    {
        let (message, submit_count) = create_form_cells(scope, "Ready to debug");
        DebugFormState { message, submit_count }
    }

    /// Builds the handler object for the form's submit event.
    pub fn handle_submit_with_explicit_prevent(&self) -> (binding: HandlerBinding)
        ensures
            binding is BoundHandlerObject,
            binding.body() == self.body(),
    {
        HandlerBinding::bound_handler_object(
            build_submit_body(
                true,
                self.submit_count,
                self.message,
                "Debug form submitted ",
                " times",
                false,
            ),
        )
    }
}

} // verus!
