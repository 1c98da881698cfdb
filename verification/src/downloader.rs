use crate::protocol::TaskPull;
use crate::queue;
use crate::response::Response;
use crossbeam::channel::{Receiver, Sender};
use vstd::prelude::*;
use vstd::string::StringExecFns;

verus! {

/// A request that could not be submitted: the task queue has no receiving end
/// left, so no engine will ever see it.
#[derive(Debug, PartialEq, Eq)]
pub struct SubmitError {
    /// The URL that was not taken.
    pub url: String,
}

impl SubmitError {
    /// What to tell the caller.
    pub fn message(&self) -> (text: String)
        ensures
            text@ == "Failed to send task"@,
    {
        String::from_str("Failed to send task")
    }
}

/// What a submission comes to, given what the task queue answered: success as
/// it is, and a URL that came back as the error that names it.
pub fn submission(sent: Result<(), String>) -> (r: Result<(), SubmitError>)
    ensures
        match sent {
            Ok(_) => r is Ok,
            Err(url) => r == Err::<(), SubmitError>(SubmitError { url }),
        },
{
    match sent {
        Ok(()) => Ok(()),
        Err(url) => Err(SubmitError { url }),
    }
}

/// The two queues between the callers and the engine, and the flag that keeps
/// the engine's loop going. Tasks go in as URLs; responses come out in the
/// order in which their transfers ended.
pub struct Downloader {
    task_sender: Sender<String>,
    task_receiver: Receiver<String>,
    response_sender: Sender<Response>,
    response_receiver: Receiver<Response>,
    running: bool,
}

impl Downloader {
    /// Whether the engine's loop is to go on.
    pub closed spec fn running(&self) -> bool {
        self.running
    }

    /// Two empty queues without a capacity limit, and the flag up.
    pub fn new() -> (downloader: Downloader)
        ensures
            downloader.running(),
    {
        let (task_sender, task_receiver) = queue::unbounded();
        let (response_sender, response_receiver) = queue::unbounded();
        Downloader { task_sender, task_receiver, response_sender, response_receiver, running: true }
    }

    /// Reads the running flag.
    pub fn is_running(&self) -> (running: bool)
        ensures
            running == self.running(),
    {
        self.running
    }

    /// Submits `url` for fetching. This never blocks. Whether the task is
    /// taken is for the queue to say; a task that is not taken comes back in
    /// the error.
    pub fn add_request(&self, url: &str) -> (r: Result<(), SubmitError>)
        ensures
            r matches Err(e) ==> e.url@ == url@,
    {
        submission(queue::send(&self.task_sender, url.to_owned()))
    }

    /// Pulls one task as `pull` says: at once, or waiting for the time it
    /// gives at most. `None` when no task came.
    pub fn get_task(&self, pull: TaskPull) -> (task: Option<String>) {
        match pull {
            TaskPull::NonBlocking => queue::try_recv(&self.task_receiver).message(),
            TaskPull::Blocking { timeout_ms } => queue::recv_timeout(
                &self.task_receiver,
                timeout_ms,
            ).message(),
        }
    }

    /// Pushes a response onto the response queue. This never blocks. A
    /// response that the queue does not take is not sent again: it comes back
    /// to the caller, unchanged.
    pub fn publish(&self, response: Response) -> (r: Result<(), Response>)
        ensures
            r matches Err(back) ==> back == response,
    {
        queue::send(&self.response_sender, response)
    }

    /// Waits for the next response, however long that takes. `None` only if
    /// the queue is empty and has no sending end left.
    pub fn get_response(&self) -> (response: Option<Response>) {
        queue::recv(&self.response_receiver).message()
    }

    /// Waits up to `timeout_ms` milliseconds for the next response. `None`
    /// means that none has come yet; whatever is published later stays queued
    /// for a later call.
    pub fn fetch(&self, timeout_ms: u64) -> (response: Option<Response>) {
        queue::recv_timeout(&self.response_receiver, timeout_ms).message()
    }
}

impl Clone for Downloader {
    /// Another handle on the same two queues, for a thread to take along so
    /// that it need not hold this one while it waits. The flag is copied as it
    /// stands.
    fn clone(&self) -> (other: Downloader)
        ensures
            other.running() == self.running(),
    {
        Downloader {
            task_sender: queue::clone_sender(&self.task_sender),
            task_receiver: queue::clone_receiver(&self.task_receiver),
            response_sender: queue::clone_sender(&self.response_sender),
            response_receiver: queue::clone_receiver(&self.response_receiver),
            running: self.running,
        }
    }
}

impl Drop for Downloader {
    /// Takes the running flag down as the downloader goes away.
    fn drop(&mut self)
        opens_invariants none
        no_unwind
    {
        self.running = false;
    }
}

} // verus!
