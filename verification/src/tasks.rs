//! The work of background tasks and workers: what runs off the JavaScript
//! thread, before the result is handed back to a callback.

use crate::text::concat3;
use vstd::prelude::*;
use vstd::string::*;

verus! {

/// A task that greets someone.
#[derive(Debug)]
pub struct SuccessTask {
    pub name: String,
}

impl SuccessTask {
    /// `Hello, <name>!`.
    pub fn perform(&self) -> (r: Result<String, String>)
        ensures
            r matches Ok(s) && s@ == "Hello, "@ + self.name@ + "!"@,
    {
        Ok(concat3("Hello, ", self.name.as_str(), "!"))
    }
}

/// A task that always fails.
#[derive(Debug)]
pub struct FailureTask;

impl FailureTask {
    /// The error `I am a failing task`.
    pub fn perform(&self) -> (r: Result<i32, String>)
        ensures
            r matches Err(e) && e@ == "I am a failing task"@,
    {
        Err(String::from_str("I am a failing task"))
    }
}

/// A task that computes a number.
#[derive(Debug)]
pub struct NumberTask;

impl NumberTask {
    /// `10 + 7`.
    pub fn perform(&self) -> (r: Result<i32, TaskError>)
        ensures
            r == Ok::<i32, TaskError>(17),
    {
        Ok(10 + 7)
    }
}

/// The error of a task or a worker.
#[derive(Debug, PartialEq, Eq, Structural)]
pub struct TaskError;

impl TaskError {
    /// The description of the error.
    pub fn description(&self) -> (s: &'static str)
        ensures
            s@ == "Oops"@,
    {
        "Oops"
    }
}

/// A message a worker emits.
#[derive(Debug)]
pub enum WorkerMessage {
    Event(String),
    Complete(String),
}

/// A worker that emits two events, then completes with what it was sent.
#[derive(Debug)]
pub struct SuccessWorker;

impl SuccessWorker {
    /// The messages emitted for the incoming event, in order.
    pub fn perform(&self, incoming: String) -> (r: Vec<WorkerMessage>)
        ensures
            r@.len() == 3,
            r@[0] matches WorkerMessage::Event(s) && s@ == "Hello"@,
            r@[1] matches WorkerMessage::Event(s) && s@ == "World"@,
            r@[2] matches WorkerMessage::Complete(s) && s@ == incoming@,
    {
        let mut r: Vec<WorkerMessage> = Vec::new();
        r.push(WorkerMessage::Event(String::from_str("Hello")));
        r.push(WorkerMessage::Event(String::from_str("World")));
        r.push(WorkerMessage::Complete(incoming));
        r
    }

    /// What the completion hands to JavaScript: the value the worker
    /// completed with, or the message of the error thrown.
    pub fn complete(&self, result: Result<String, TaskError>) -> (r: Result<String, &'static str>)
        ensures
            match result {
                Ok(v) => r matches Ok(s) && s@ == v@,
                Err(_) => r matches Err(m) && m@ == "Oops"@,
            },
    {
        match result {
            Ok(v) => Ok(v),
            Err(e) => Err(e.description()),
        }
    }

    /// The incoming event from the first argument of the call, which must
    /// be a string.
    pub fn on_incoming_event(argument: Option<String>) -> (r: Result<String, TaskError>)
        ensures
            match argument {
                Some(s) => r matches Ok(t) && t@ == s@,
                None => r is Err,
            },
    {
        match argument {
            Some(s) => Ok(s),
            None => Err(TaskError),
        }
    }
}

} // verus!
