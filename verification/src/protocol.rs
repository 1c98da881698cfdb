use crate::fault::Fault;
use crate::response::{Outcome, OutcomeView};
use crate::table::{Finished, FinishedView};
use vstd::prelude::*;

verus! {

/// Longest time, in milliseconds, that an idle engine waits for a new task.
pub const IDLE_PULL_TIMEOUT_MS: u64 = 500;

/// Time, in milliseconds, that a busy engine waits for its transfers to become
/// ready before it looks for a new task again.
pub const READINESS_WAIT_MS: u64 = 10;

/// The two ways in which the engine looks for new tasks.
#[derive(Debug, Clone, Copy, PartialEq, Eq, Structural)]
pub enum Mode {
    /// Transfers are in progress: tasks are pulled without blocking.
    DrainingNewWork,
    /// The multiplexer reported no active transfer: the next pull may block.
    IdlePoll,
}

/// How one task is to be pulled from the task queue.
#[derive(Debug, Clone, Copy, PartialEq, Eq, Structural)]
pub enum TaskPull {
    /// Take a task if one is waiting, else go on at once.
    NonBlocking,
    /// Wait for a task, `timeout_ms` milliseconds at most.
    Blocking { timeout_ms: u64 },
}

/// The notice that the transfer under `token` is done, with how it ended.
#[derive(Debug, PartialEq, Eq)]
pub struct Completion {
    pub token: usize,
    pub outcome: Outcome,
}

/// Mathematical value of a [`Completion`].
pub struct CompletionView {
    pub token: usize,
    pub outcome: OutcomeView,
}

impl View for Completion {
    type V = CompletionView;

    open spec fn view(&self) -> CompletionView {
        CompletionView { token: self.token, outcome: self.outcome@ }
    }
}

/// The values of a sequence of completions, in the same order.
pub open spec fn completions_view(completions: Seq<Completion>) -> Seq<CompletionView> {
    completions.map_values(|c: Completion| c@)
}

/// The values of a sequence of finished transfers, in the same order.
pub open spec fn finished_view<H>(finished: Seq<Finished<H>>) -> Seq<FinishedView<H>> {
    finished.map_values(|f: Finished<H>| f@)
}

/// What the engine is told after it asked for something.
#[derive(Debug, PartialEq, Eq)]
pub enum Event<H> {
    /// Answer to [`Action::ReadRunningFlag`].
    RunningFlag(bool),
    /// Answer to [`Action::PullTask`]: the URL that was pulled, if any.
    Task(Option<String>),
    /// Answer to [`Action::Open`]: the transfer is in the multiplexer, which
    /// knows it by this handle.
    Opened(H),
    /// Answer to [`Action::Perform`]: how many transfers are still active.
    Performed { active: u32 },
    /// Answer to [`Action::Collect`]: the completion notices, in the order in
    /// which the multiplexer reported them.
    Completions(Vec<Completion>),
    /// Answer to [`Action::Publish`].
    Published,
    /// Answer to [`Action::Wait`].
    Waited,
}

/// Mathematical value of an [`Event`].
pub enum EventView<H> {
    RunningFlag(bool),
    Task(Option<Seq<char>>),
    Opened(H),
    Performed { active: u32 },
    Completions(Seq<CompletionView>),
    Published,
    Waited,
}

impl<H> View for Event<H> {
    type V = EventView<H>;

    open spec fn view(&self) -> EventView<H> {
        match *self {
            Event::RunningFlag(running) => EventView::RunningFlag(running),
            Event::Task(Some(url)) => EventView::Task(Some(url@)),
            Event::Task(None) => EventView::Task(None),
            Event::Opened(handle) => EventView::Opened(handle),
            Event::Performed { active } => EventView::Performed { active },
            Event::Completions(completions) => EventView::Completions(
                completions_view(completions@),
            ),
            Event::Published => EventView::Published,
            Event::Waited => EventView::Waited,
        }
    }
}

/// What the engine asks its driver to do next. The driver answers each action
/// with the event named in its description.
#[derive(Debug, PartialEq, Eq)]
pub enum Action<H> {
    /// Read the running flag; answer with [`Event::RunningFlag`].
    ReadRunningFlag,
    /// Pull one task from the task queue as `TaskPull` says; answer with
    /// [`Event::Task`].
    PullTask(TaskPull),
    /// Create a transfer for `url`, mark it with `token` and add it to the
    /// multiplexer; answer with [`Event::Opened`].
    Open { token: usize, url: String },
    /// Let the multiplexer advance every transfer once, without blocking;
    /// answer with [`Event::Performed`].
    Perform,
    /// Read every completion notice that the multiplexer holds; answer with
    /// [`Event::Completions`].
    Collect,
    /// For each item in order, take its handle out of the multiplexer and push
    /// its response onto the response queue; answer with [`Event::Published`].
    Publish(Vec<Finished<H>>),
    /// Wait until a transfer is ready, `timeout_ms` milliseconds at most;
    /// answer with [`Event::Waited`].
    Wait { timeout_ms: u64 },
    /// Leave the loop: the running flag was down.
    Stop,
    /// Leave the loop: the engine cannot go on.
    Fail(Fault),
}

/// Mathematical value of an [`Action`].
pub enum ActionView<H> {
    ReadRunningFlag,
    PullTask(TaskPull),
    Open { token: usize, url: Seq<char> },
    Perform,
    Collect,
    Publish(Seq<FinishedView<H>>),
    Wait { timeout_ms: u64 },
    Stop,
    Fail(Fault),
}

impl<H> View for Action<H> {
    type V = ActionView<H>;

    open spec fn view(&self) -> ActionView<H> {
        match *self {
            Action::ReadRunningFlag => ActionView::ReadRunningFlag,
            Action::PullTask(pull) => ActionView::PullTask(pull),
            Action::Open { token, url } => ActionView::Open { token, url: url@ },
            Action::Perform => ActionView::Perform,
            Action::Collect => ActionView::Collect,
            Action::Publish(finished) => ActionView::Publish(finished_view(finished@)),
            Action::Wait { timeout_ms } => ActionView::Wait { timeout_ms },
            Action::Stop => ActionView::Stop,
            Action::Fail(fault) => ActionView::Fail(fault),
        }
    }
}

/// How the next task is pulled in each mode: an idle engine may block for
/// [`IDLE_PULL_TIMEOUT_MS`], a busy one must not block.
pub open spec fn pull_policy(mode: Mode) -> TaskPull {
    match mode {
        Mode::DrainingNewWork => TaskPull::NonBlocking,
        Mode::IdlePoll => TaskPull::Blocking { timeout_ms: IDLE_PULL_TIMEOUT_MS },
    }
}

/// The mode after the multiplexer has reported `active` transfers still active.
pub open spec fn mode_after_perform(active: u32) -> Mode {
    if active == 0 {
        Mode::IdlePoll
    } else {
        Mode::DrainingNewWork
    }
}

} // verus!
