//! Submit-event dispatch for form-like user interfaces.
//!
//! A handler bound to a submit event runs synchronously against a scope of
//! reactive cells. While it runs it may raise the event's suppress-default
//! flag and hand fire-and-forget jobs to the task scheduler. Once it has
//! returned, the pipeline reads the flag a single time and decides whether the
//! host's default action is performed or skipped.
//!
//! Every function is verified against a mathematical model of the scope and
//! of a handler's run; the laws that relate the components are stated as
//! public proof functions.

pub mod cell;
pub mod event;
pub mod forms;
pub mod handler;
pub mod pipeline;
pub mod scope;
pub mod task;
pub mod text;
