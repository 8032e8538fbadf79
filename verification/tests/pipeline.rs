use form_dispatch::cell::CellId;
use form_dispatch::event::SubmitEvent;
use form_dispatch::handler::{HandlerBinding, HandlerPanic, PanicCause, Step};
use form_dispatch::pipeline::{dispatch, DefaultAction, Phase, Pipeline};
use form_dispatch::scope::Scope;
use form_dispatch::task::{AsyncTaskHandle, Job, TaskState};

fn form_scope() -> (Scope, CellId, CellId) {
    let mut scope = Scope::new();
    let counter = scope.counters.create(0);
    let message = scope.messages.create(String::from("ready"));
    (scope, counter, message)
}

fn submit_steps(counter: CellId, message: CellId, suppress: bool) -> Vec<Step> {
    let mut steps = vec![
        Step::Increment { counter },
        Step::Report { counter, message, prefix: "submitted ", suffix: " times" },
    ];
    if suppress {
        steps.push(Step::SuppressDefault);
    }
    steps.push(Step::Spawn { job: Job::LongRunningTask });
    steps
}

#[test]
fn scenario_suppressing_handler_skips_the_default_action() {
    let (mut scope, counter, message) = form_scope();
    let binding = HandlerBinding::bound_handler_object(submit_steps(counter, message, true));
    let done = dispatch(&binding, SubmitEvent::new(()), &mut scope);
    assert_eq!(done.phase(), Phase::Done);
    assert_eq!(done.default_suppressed(), Some(true));
    assert!(done.event().default_suppressed());
    assert_eq!(done.action(), Some(DefaultAction::Skipped));
    assert_eq!(done.failure(), None);
    assert_eq!(*scope.counters.read(counter), 1);
    assert_eq!(scope.messages.read(message), "submitted 1 times");
    let spawned = done.spawned();
    assert_eq!(spawned, vec![AsyncTaskHandle::at(0)]);
    assert!(scope.scheduler.is_pending(spawned[0]));
    assert_eq!(scope.scheduler.settle(spawned[0], Ok(())), Ok(()));
    assert_eq!(
        scope.scheduler.get(spawned[0]).map(|record| record.state.clone()),
        Some(TaskState::Completed)
    );
    assert_eq!(done.default_suppressed(), Some(true));
    assert_eq!(done.action(), Some(DefaultAction::Skipped));
}

#[test]
fn scenario_plain_handler_has_the_default_action_performed() {
    let (mut scope, counter, message) = form_scope();
    let binding = HandlerBinding::bound_handler_object(submit_steps(counter, message, false));
    let done = dispatch(&binding, SubmitEvent::new(()), &mut scope);
    assert_eq!(done.default_suppressed(), Some(false));
    assert!(!done.event().default_suppressed());
    assert_eq!(done.action(), Some(DefaultAction::Performed));
    assert_eq!(done.failure(), None);
    assert_eq!(*scope.counters.read(counter), 1);
    assert_eq!(scope.messages.read(message), "submitted 1 times");
    assert_eq!(done.spawned(), vec![AsyncTaskHandle::at(0)]);
    assert!(scope.scheduler.is_pending(AsyncTaskHandle::at(0)));
}

#[test]
fn the_suppressing_scenario_holds_for_an_inline_closure_too() {
    let (mut scope, counter, message) = form_scope();
    let binding = HandlerBinding::inline_closure(submit_steps(counter, message, true));
    let done = dispatch(&binding, SubmitEvent::new(()), &mut scope);
    assert_eq!(done.default_suppressed(), Some(true));
    assert_eq!(done.action(), Some(DefaultAction::Skipped));
    assert_eq!(*scope.counters.read(counter), 1);
    assert_eq!(scope.messages.read(message), "submitted 1 times");
}

#[test]
fn the_plain_scenario_holds_for_an_inline_closure_too() {
    let (mut scope, counter, message) = form_scope();
    let binding = HandlerBinding::inline_closure(submit_steps(counter, message, false));
    let done = dispatch(&binding, SubmitEvent::new(()), &mut scope);
    assert_eq!(done.default_suppressed(), Some(false));
    assert_eq!(done.action(), Some(DefaultAction::Performed));
    assert_eq!(*scope.counters.read(counter), 1);
    assert_eq!(scope.messages.read(message), "submitted 1 times");
}

#[test]
fn one_step_at_a_time_passes_the_five_phases() {
    let (mut scope, counter, message) = form_scope();
    let binding = HandlerBinding::bound_handler_object(submit_steps(counter, message, true));
    let mut pipeline = Pipeline::raise(SubmitEvent::new(()));
    assert_eq!(pipeline.phase(), Phase::Raised);
    assert_eq!((pipeline.handler_runs(), pipeline.flag_reads()), (0, 0));

    assert!(pipeline.advance(&binding, &mut scope));
    assert_eq!(pipeline.phase(), Phase::Dispatching);
    assert_eq!((pipeline.handler_runs(), pipeline.flag_reads()), (0, 0));
    assert_eq!(*scope.counters.read(counter), 0);

    assert!(pipeline.advance(&binding, &mut scope));
    assert_eq!(pipeline.phase(), Phase::Resolved);
    assert_eq!((pipeline.handler_runs(), pipeline.flag_reads()), (1, 0));
    assert_eq!(*scope.counters.read(counter), 1);
    assert!(pipeline.event().default_suppressed());
    assert_eq!(pipeline.default_suppressed(), None);
    assert_eq!(pipeline.action(), None);
    assert_eq!(scope.scheduler.len(), 1);
    assert_eq!(pipeline.spawned(), vec![]);

    assert!(pipeline.advance(&binding, &mut scope));
    assert_eq!(pipeline.phase(), Phase::Finalizing);
    assert_eq!((pipeline.handler_runs(), pipeline.flag_reads()), (1, 1));
    assert_eq!(pipeline.default_suppressed(), Some(true));
    assert_eq!(pipeline.action(), None);
    assert_eq!(pipeline.spawned(), vec![AsyncTaskHandle::at(0)]);

    assert!(pipeline.advance(&binding, &mut scope));
    assert_eq!(pipeline.phase(), Phase::Done);
    assert_eq!((pipeline.handler_runs(), pipeline.flag_reads()), (1, 1));
    assert_eq!(pipeline.action(), Some(DefaultAction::Skipped));
    assert_eq!(*scope.counters.read(counter), 1);
}

#[test]
fn a_step_in_done_changes_nothing() {
    let (mut scope, counter, message) = form_scope();
    let binding = HandlerBinding::bound_handler_object(submit_steps(counter, message, false));
    let mut done = dispatch(&binding, SubmitEvent::new(()), &mut scope);
    assert!(!done.advance(&binding, &mut scope));
    assert!(!done.advance(&binding, &mut scope));
    assert_eq!(done.phase(), Phase::Done);
    assert_eq!((done.handler_runs(), done.flag_reads()), (1, 1));
    assert_eq!(done.action(), Some(DefaultAction::Performed));
    assert_eq!(*scope.counters.read(counter), 1);
    assert_eq!(scope.scheduler.len(), 1);
}

#[test]
fn the_handler_runs_once_and_the_flag_is_read_once() {
    let (mut scope, counter, message) = form_scope();
    let binding = HandlerBinding::inline_closure(submit_steps(counter, message, true));
    let done = dispatch(&binding, SubmitEvent::new(()), &mut scope);
    assert_eq!(done.handler_runs(), 1);
    assert_eq!(done.flag_reads(), 1);
}

#[test]
fn a_panic_after_the_suppress_call_keeps_the_flag_and_is_reported() {
    let mut scope = Scope::new();
    let counter = scope.counters.create(u32::MAX);
    let message = scope.messages.create(String::from("ready"));
    let binding = HandlerBinding::bound_handler_object(vec![
        Step::SuppressDefault,
        Step::Increment { counter },
        Step::Report { counter, message, prefix: "", suffix: "" },
        Step::Spawn { job: Job::LongRunningTask },
    ]);
    let done = dispatch(&binding, SubmitEvent::new(()), &mut scope);
    assert_eq!(
        done.failure(),
        Some(HandlerPanic { step: 1, cause: PanicCause::CounterOverflow })
    );
    assert_eq!(done.default_suppressed(), Some(true));
    assert_eq!(done.action(), Some(DefaultAction::Skipped));
    assert_eq!(scope.messages.read(message), "ready");
    assert_eq!(done.spawned(), vec![]);
}

#[test]
fn a_panic_before_the_suppress_call_leaves_the_flag_lowered() {
    let mut scope = Scope::new();
    let counter = scope.counters.create(u32::MAX);
    let binding = HandlerBinding::bound_handler_object(vec![
        Step::Increment { counter },
        Step::SuppressDefault,
    ]);
    let done = dispatch(&binding, SubmitEvent::new(()), &mut scope);
    assert_eq!(
        done.failure(),
        Some(HandlerPanic { step: 0, cause: PanicCause::CounterOverflow })
    );
    assert_eq!(done.default_suppressed(), Some(false));
    assert_eq!(done.action(), Some(DefaultAction::Performed));
    assert_eq!(done.phase(), Phase::Done);
}

#[test]
fn an_event_raised_with_the_flag_up_stays_suppressed() {
    let (mut scope, counter, message) = form_scope();
    let binding = HandlerBinding::inline_closure(submit_steps(counter, message, false));
    let mut event = SubmitEvent::new(());
    event.suppress_default();
    let done = dispatch(&binding, event, &mut scope);
    assert_eq!(done.default_suppressed(), Some(true));
    assert_eq!(done.action(), Some(DefaultAction::Skipped));
}

#[test]
fn suppressing_twice_is_observed_like_suppressing_once() {
    let (mut scope, _counter, _message) = form_scope();
    let binding =
        HandlerBinding::inline_closure(vec![Step::SuppressDefault, Step::SuppressDefault]);
    let done = dispatch(&binding, SubmitEvent::new(()), &mut scope);
    assert_eq!(done.default_suppressed(), Some(true));
    assert_eq!(done.action(), Some(DefaultAction::Skipped));
}

#[test]
fn an_empty_handler_has_the_default_action_performed() {
    let (mut scope, _counter, _message) = form_scope();
    let binding = HandlerBinding::bound_handler_object(vec![]);
    let done = dispatch(&binding, SubmitEvent::new(()), &mut scope);
    assert_eq!(done.default_suppressed(), Some(false));
    assert_eq!(done.action(), Some(DefaultAction::Performed));
    assert_eq!(done.spawned(), vec![]);
}

#[test]
fn every_spawned_task_is_pending_when_the_dispatch_returns() {
    let (mut scope, counter, message) = form_scope();
    let earlier = scope.scheduler.spawn(Job::LongRunningTask);
    assert_eq!(scope.scheduler.settle(earlier, Ok(())), Ok(()));
    let binding = HandlerBinding::inline_closure(vec![
        Step::Spawn { job: Job::LongRunningTask },
        Step::Increment { counter },
        Step::Spawn { job: Job::LongRunningTask },
        Step::Report { counter, message, prefix: "", suffix: "" },
        Step::Spawn { job: Job::LongRunningTask },
    ]);
    let done = dispatch(&binding, SubmitEvent::new(()), &mut scope);
    let spawned = done.spawned();
    assert_eq!(
        spawned,
        vec![AsyncTaskHandle::at(1), AsyncTaskHandle::at(2), AsyncTaskHandle::at(3)]
    );
    for handle in spawned {
        assert!(scope.scheduler.is_pending(handle));
    }
    assert!(!scope.scheduler.is_pending(earlier));
    assert_eq!(scope.messages.read(message), "1");
}

#[test]
fn a_task_failure_after_the_dispatch_alters_no_decision() {
    let (mut scope, counter, message) = form_scope();
    let binding = HandlerBinding::bound_handler_object(submit_steps(counter, message, true));
    let done = dispatch(&binding, SubmitEvent::new(()), &mut scope);
    let spawned = done.spawned();
    assert_eq!(scope.scheduler.settle(spawned[0], Err(String::from("remote call failed"))), Ok(()));
    assert_eq!(done.default_suppressed(), Some(true));
    assert_eq!(done.action(), Some(DefaultAction::Skipped));
    assert_eq!(done.failure(), None);
    assert!(done.into_event().default_suppressed());
    assert_eq!(*scope.counters.read(counter), 1);
    assert_eq!(scope.messages.read(message), "submitted 1 times");
}

#[test]
fn a_failed_task_does_not_disturb_the_next_dispatch() {
    let (mut scope, counter, message) = form_scope();
    let plain = HandlerBinding::inline_closure(submit_steps(counter, message, false));
    let first = dispatch(&plain, SubmitEvent::new(()), &mut scope);
    let spawned = first.spawned();
    assert_eq!(scope.scheduler.settle(spawned[0], Err(String::from("remote call failed"))), Ok(()));
    let second = dispatch(&plain, SubmitEvent::new(()), &mut scope);
    assert_eq!(second.failure(), None);
    assert_eq!(second.default_suppressed(), Some(false));
    assert_eq!(second.action(), Some(DefaultAction::Performed));
    assert_eq!(scope.messages.read(message), "submitted 2 times");
    assert_eq!(second.spawned(), vec![AsyncTaskHandle::at(1)]);
    assert!(scope.scheduler.is_pending(AsyncTaskHandle::at(1)));
}

#[test]
fn each_event_has_its_own_flag() {
    let (mut scope, counter, message) = form_scope();
    let suppressing = HandlerBinding::bound_handler_object(submit_steps(counter, message, true));
    let plain = HandlerBinding::bound_handler_object(submit_steps(counter, message, false));
    let first = dispatch(&suppressing, SubmitEvent::new(()), &mut scope);
    let second = dispatch(&plain, SubmitEvent::new(()), &mut scope);
    assert_eq!(first.action(), Some(DefaultAction::Skipped));
    assert_eq!(second.action(), Some(DefaultAction::Performed));
    assert_eq!(scope.messages.read(message), "submitted 2 times");
}

#[test]
fn the_payload_comes_back_with_the_event() {
    let (mut scope, counter, message) = form_scope();
    let binding = HandlerBinding::bound_handler_object(submit_steps(counter, message, true));
    let done = dispatch(&binding, SubmitEvent::new(String::from("data_a=hello")), &mut scope);
    assert_eq!(done.event().payload(), "data_a=hello");
    let event = done.into_event();
    assert!(event.default_suppressed());
    assert_eq!(event.into_payload(), "data_a=hello");
}
