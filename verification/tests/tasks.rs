use form_dispatch::task::{AsyncTaskHandle, Job, Scheduler, SettleError, TaskRecord, TaskState};

#[test]
fn a_new_scheduler_has_no_tasks() {
    let scheduler = Scheduler::new();
    assert_eq!(scheduler.len(), 0);
    assert_eq!(scheduler.get(AsyncTaskHandle::at(0)), None);
}

#[test]
fn a_spawned_task_is_pending() {
    let mut scheduler = Scheduler::new();
    let handle = scheduler.spawn(Job::LongRunningTask);
    assert!(scheduler.is_pending(handle));
    assert_eq!(
        scheduler.get(handle),
        Some(&TaskRecord { job: Job::LongRunningTask, state: TaskState::Pending })
    );
    assert_eq!(scheduler.len(), 1);
}

#[test]
fn handles_follow_the_order_of_spawning() {
    let mut scheduler = Scheduler::new();
    let first = scheduler.spawn(Job::LongRunningTask);
    let second = scheduler.spawn(Job::LongRunningTask);
    assert_eq!(first.index(), 0);
    assert_eq!(second.index(), 1);
    assert_eq!(first, AsyncTaskHandle::at(0));
    assert_ne!(first, second);
}

#[test]
fn a_task_that_ends_well_is_completed() {
    let mut scheduler = Scheduler::new();
    let handle = scheduler.spawn(Job::LongRunningTask);
    assert_eq!(scheduler.settle(handle, Ok(())), Ok(()));
    assert!(!scheduler.is_pending(handle));
    assert_eq!(scheduler.get(handle).map(|record| record.state.clone()), Some(TaskState::Completed));
}

#[test]
fn a_task_that_fails_keeps_its_reason() {
    let mut scheduler = Scheduler::new();
    let handle = scheduler.spawn(Job::LongRunningTask);
    assert_eq!(scheduler.settle(handle, Err(String::from("connection reset"))), Ok(()));
    assert_eq!(
        scheduler.get(handle),
        Some(&TaskRecord {
            job: Job::LongRunningTask,
            state: TaskState::Failed(String::from("connection reset")),
        })
    );
}

#[test]
fn settling_one_task_leaves_the_others_pending() {
    let mut scheduler = Scheduler::new();
    let first = scheduler.spawn(Job::LongRunningTask);
    let second = scheduler.spawn(Job::LongRunningTask);
    let third = scheduler.spawn(Job::LongRunningTask);
    assert_eq!(scheduler.settle(second, Err(String::from("timeout"))), Ok(()));
    assert!(scheduler.is_pending(first));
    assert!(!scheduler.is_pending(second));
    assert!(scheduler.is_pending(third));
    assert_eq!(scheduler.len(), 3);
}

#[test]
fn a_report_on_an_unknown_task_is_refused() {
    let mut scheduler = Scheduler::new();
    let _known = scheduler.spawn(Job::LongRunningTask);
    let unknown = AsyncTaskHandle::at(1);
    assert_eq!(scheduler.settle(unknown, Ok(())), Err(SettleError::UnknownTask));
    assert_eq!(scheduler.len(), 1);
    assert!(!scheduler.is_pending(unknown));
    assert_eq!(scheduler.get(unknown), None);
}

#[test]
fn a_second_report_is_refused_and_the_first_stands() {
    let mut scheduler = Scheduler::new();
    let handle = scheduler.spawn(Job::LongRunningTask);
    assert_eq!(scheduler.settle(handle, Err(String::from("first"))), Ok(()));
    assert_eq!(scheduler.settle(handle, Ok(())), Err(SettleError::AlreadySettled));
    assert_eq!(
        scheduler.settle(handle, Err(String::from("second"))),
        Err(SettleError::AlreadySettled)
    );
    assert_eq!(
        scheduler.get(handle).map(|record| record.state.clone()),
        Some(TaskState::Failed(String::from("first")))
    );
}

#[test]
fn the_long_running_task_takes_one_second() {
    assert_eq!(Job::LongRunningTask.duration_millis(), 1000);
}
