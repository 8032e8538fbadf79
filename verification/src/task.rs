//! The task scheduler: fire-and-forget jobs spawned from inside a handler.
//!
//! Spawning only records the job. Nothing of it runs while the handler does:
//! the host starts the recorded jobs after the dispatch has returned and
//! reports how each one ended with `Scheduler::settle`.

use vstd::prelude::*;

verus! {

/// What a spawned task is to run.
#[derive(Clone, Copy, Debug, PartialEq, Eq, Structural, Hash)]
pub enum Job {
    /// The long-running call to the remote collaborator.
    LongRunningTask,
}

impl Job {
    /// How long the job's work takes, in milliseconds: one second for the
    /// long-running call.
    pub fn duration_millis(&self) -> (millis: u64)
        ensures
            millis == 1000,
    {
        match self {
            Job::LongRunningTask => 1000,
        }
    }
}

/// How far a spawned task has come.
#[derive(Clone, Debug, PartialEq, Eq)]
pub enum TaskState {
    /// Spawned; its work has not ended.
    Pending,
    /// Its work ended well.
    Completed,
    /// Its work failed, for the reason given.
    Failed(String),
}

/// What the scheduler keeps of one task.
#[derive(Clone, Debug, PartialEq, Eq)]
pub struct TaskRecord {
    pub job: Job,
    pub state: TaskState,
}

/// The handle of one spawned task. Its view is the position of the task in
/// the scheduler, which is the order of spawning.
#[derive(Clone, Copy, Debug, PartialEq, Eq, Structural, Hash)]
pub struct AsyncTaskHandle {
    index: usize,
}

impl View for AsyncTaskHandle {
    type V = nat;

    closed spec fn view(&self) -> nat {
        self.index as nat
    }
}

impl AsyncTaskHandle {
    /// The position of the task in the scheduler.
    pub fn index(&self) -> (i: usize)
        ensures
            i as nat == self@,
    {
        self.index
    }

    /// The handle of the task at position `index`.
    pub fn at(index: usize) -> (handle: Self)
        ensures
            handle@ == index as nat,
    {
        AsyncTaskHandle { index }
    }
}

/// Why a report on a task was not taken.
#[derive(Clone, Copy, Debug, PartialEq, Eq, Structural)]
pub enum SettleError {
    /// The handle names no task of this scheduler.
    UnknownTask,
    /// The task has ended before; its state stands.
    AlreadySettled,
}

/// The state a task takes when its work has ended with `result`.
pub open spec fn settled_state(result: Result<(), String>) -> TaskState {
    match result {
        Ok(_) => TaskState::Completed,
        Err(reason) => TaskState::Failed(reason),
    }
}

/// A freshly spawned task.
pub open spec fn pending(job: Job) -> TaskRecord {
    TaskRecord { job, state: TaskState::Pending }
}

/// The scheduler. Its view is the sequence of task records in the order of
/// spawning.
#[derive(Debug)]
pub struct Scheduler {
    tasks: Vec<TaskRecord>,
}

impl View for Scheduler {
    type V = Seq<TaskRecord>;

    closed spec fn view(&self) -> Seq<TaskRecord> {
        self.tasks@
    }
}

impl Scheduler {
    /// Whether `handle` names a task of this scheduler.
    pub open spec fn has(&self, handle: AsyncTaskHandle) -> bool {
        handle@ < self@.len()
    }

    /// A scheduler without tasks.
    pub fn new() -> (scheduler: Self)
        ensures
            scheduler@ == Seq::<TaskRecord>::empty(),
    {
        Scheduler { tasks: Vec::new() }
    }

    /// The number of tasks spawned so far.
    pub fn len(&self) -> (n: usize)
        ensures
            n as nat == self@.len(),
    {
        self.tasks.len()
    }

    /// Records `job` as a pending task and returns at once. The tasks that
    /// exist keep their handles and their states.
    pub fn spawn(&mut self, job: Job) -> (handle: AsyncTaskHandle)
        ensures
            final(self)@ == old(self)@.push(pending(job)),
            handle@ == old(self)@.len(),
    {
        let index: usize = self.tasks.len();
        self.tasks.push(TaskRecord { job, state: TaskState::Pending });
        AsyncTaskHandle { index }
    }

    /// The record of the task `handle`, if there is such a task.
    pub fn get(&self, handle: AsyncTaskHandle) -> (record: Option<&TaskRecord>)
        ensures
            self.has(handle) ==> record == Some(&self@[handle@ as int]),
            !self.has(handle) ==> record is None,
    {
        if handle.index < self.tasks.len() {
            Some(&self.tasks[handle.index])
        } else {
            None
        }
    }

    /// Whether the task `handle` exists and its work has not ended.
    pub fn is_pending(&self, handle: AsyncTaskHandle) -> (b: bool)
        ensures
            b == (self.has(handle) && self@[handle@ as int].state is Pending),
    {
        if handle.index < self.tasks.len() {
            match &self.tasks[handle.index].state {
                TaskState::Pending => true,
                _ => false,
            }
        } else {
            false
        }
    }

    /// Takes the host's report that the work of `handle` has ended with
    /// `result`. A pending task becomes completed or failed; nothing else
    /// changes. A report on an unknown or an already settled task is refused
    /// and changes nothing.
    pub fn settle(&mut self, handle: AsyncTaskHandle, result: Result<(), String>) -> (taken: Result<
        (),
        SettleError,
    >)
        ensures
            !old(self).has(handle) ==> taken == Err::<(), SettleError>(SettleError::UnknownTask)
                && final(self)@ == old(self)@,
            old(self).has(handle) && !(old(self)@[handle@ as int].state is Pending) ==> taken
                == Err::<(), SettleError>(SettleError::AlreadySettled) && final(self)@ == old(
                self,
            )@,
            old(self).has(handle) && old(self)@[handle@ as int].state is Pending ==> taken == Ok::<
                (),
                SettleError,
            >(()) && final(self)@ == old(self)@.update(
                handle@ as int,
                TaskRecord { job: old(self)@[handle@ as int].job, state: settled_state(result) },
            ),
    {
        if handle.index >= self.tasks.len() {
            return Err(SettleError::UnknownTask);
        }
        let job = self.tasks[handle.index].job;
        let is_pending = match &self.tasks[handle.index].state {
            TaskState::Pending => true,
            _ => false,
        };
        if !is_pending {
            return Err(SettleError::AlreadySettled);
        }
        let state = match result {
            Ok(_) => TaskState::Completed,
            Err(reason) => TaskState::Failed(reason),
        };
        self.tasks[handle.index] = TaskRecord { job, state };
        Ok(())
    }
}

} // verus!
