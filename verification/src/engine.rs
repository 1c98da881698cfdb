use crate::fault::Fault;
use crate::protocol::{
    completions_view, finished_view, mode_after_perform, pull_policy, Action, ActionView,
    Completion, CompletionView, Event, EventView, Mode, TaskPull, IDLE_PULL_TIMEOUT_MS,
    READINESS_WAIT_MS,
};
use crate::table::{CorrelationTable, Finished, FinishedView, TableView};
use vstd::prelude::*;

verus! {

/// Where the engine stands within one turn of its loop: which answer it is
/// waiting for.
#[derive(Debug, PartialEq, Eq)]
pub enum Phase {
    /// At the head of the loop, waiting for the running flag.
    Start,
    /// Waiting for the result of pulling a task.
    Pulling,
    /// Waiting for the handle of the transfer that is being created for `url`.
    Opening { url: String },
    /// Waiting for the multiplexer to have advanced the transfers.
    Performing,
    /// Waiting for the completion notices.
    Collecting,
    /// Waiting for the responses to be published. `fault` is what stopped the
    /// handling of the notices, if anything did.
    Publishing { fault: Option<Fault> },
    /// Waiting for the readiness wait to end.
    Waiting,
    /// Out of the loop, for good.
    Stopped,
}

/// Mathematical value of a [`Phase`].
pub enum PhaseView {
    Start,
    Pulling,
    Opening { url: Seq<char> },
    Performing,
    Collecting,
    Publishing { fault: Option<Fault> },
    Waiting,
    Stopped,
}

impl View for Phase {
    type V = PhaseView;

    open spec fn view(&self) -> PhaseView {
        match *self {
            Phase::Start => PhaseView::Start,
            Phase::Pulling => PhaseView::Pulling,
            Phase::Opening { url } => PhaseView::Opening { url: url@ },
            Phase::Performing => PhaseView::Performing,
            Phase::Collecting => PhaseView::Collecting,
            Phase::Publishing { fault } => PhaseView::Publishing { fault },
            Phase::Waiting => PhaseView::Waiting,
            Phase::Stopped => PhaseView::Stopped,
        }
    }
}

/// What handling a run of completion notices comes to.
pub struct Drained<H> {
    /// The table afterwards.
    pub table: TableView<H>,
    /// The transfers that were completed, in the order of their notices.
    pub finished: Seq<FinishedView<H>>,
    /// The fault at the first notice that could not be handled, if there is one.
    pub fault: Option<Fault>,
}

/// Handles `completions` in order against `table`: each notice completes its
/// transfer, and the first one that cannot be handled ends the run, with the
/// notices behind it left alone.
pub open spec fn drain<H>(table: TableView<H>, completions: Seq<CompletionView>) -> Drained<H>
    decreases completions.len(),
{
    if completions.len() == 0 {
        Drained { table, finished: Seq::empty(), fault: None }
    } else {
        let before = drain(table, completions.drop_last());
        let last = completions.last();
        if before.fault is Some {
            before
        } else {
            match before.table.completion(last.token, last.outcome) {
                Ok(finished) => Drained {
                    table: before.table.complete(last.token, last.outcome),
                    finished: before.finished.push(finished),
                    fault: None,
                },
                Err(fault) => Drained {
                    table: before.table,
                    finished: before.finished,
                    fault: Some(fault),
                },
            }
        }
    }
}

/// Mathematical value of an [`Engine`].
pub struct EngineView<H> {
    pub table: TableView<H>,
    pub mode: Mode,
    pub phase: PhaseView,
}

/// One step of the engine: its next value and what it asks for.
pub struct Step<H> {
    pub engine: EngineView<H>,
    pub action: ActionView<H>,
}

impl<H> EngineView<H> {
    /// The engine before its first turn: nothing in flight, not idle, at the
    /// head of the loop.
    pub open spec fn initial() -> EngineView<H> {
        EngineView {
            table: TableView::empty(),
            mode: Mode::DrainingNewWork,
            phase: PhaseView::Start,
        }
    }

    pub open spec fn well_formed(self) -> bool {
        self.table.well_formed()
    }

    /// The engine in another phase, all else the same.
    pub open spec fn at(self, phase: PhaseView) -> EngineView<H> {
        EngineView { table: self.table, mode: self.mode, phase }
    }

    /// The engine stopped, with `action` as its last word.
    pub open spec fn stop(self, action: ActionView<H>) -> Step<H> {
        Step { engine: self.at(PhaseView::Stopped), action }
    }

    /// What the engine does when told of `event`.
    pub open spec fn step(self, event: EventView<H>) -> Step<H> {
        match (self.phase, event) {
            (PhaseView::Start, EventView::RunningFlag(running)) => if running {
                Step {
                    engine: self.at(PhaseView::Pulling),
                    action: ActionView::PullTask(pull_policy(self.mode)),
                }
            } else {
                self.stop(ActionView::Stop)
            },
            (PhaseView::Pulling, EventView::Task(Some(url))) => match self.table.fresh_token() {
                Some(token) => Step {
                    engine: EngineView {
                        table: self.table,
                        mode: Mode::DrainingNewWork,
                        phase: PhaseView::Opening { url },
                    },
                    action: ActionView::Open { token, url },
                },
                None => self.stop(ActionView::Fail(Fault::TokensExhausted)),
            },
            (PhaseView::Pulling, EventView::Task(None)) => Step {
                engine: self.at(PhaseView::Performing),
                action: ActionView::Perform,
            },
            (PhaseView::Opening { url }, EventView::Opened(handle)) => {
                if self.table.has_token_left() {
                    Step {
                        engine: EngineView {
                            table: self.table.register(url, handle),
                            mode: self.mode,
                            phase: PhaseView::Performing,
                        },
                        action: ActionView::Perform,
                    }
                } else {
                    self.stop(ActionView::Fail(Fault::TokensExhausted))
                }
            },
            (PhaseView::Performing, EventView::Performed { active }) => Step {
                engine: EngineView {
                    table: self.table,
                    mode: mode_after_perform(active),
                    phase: PhaseView::Collecting,
                },
                action: ActionView::Collect,
            },
            (PhaseView::Collecting, EventView::Completions(completions)) => {
                let drained = drain(self.table, completions);
                Step {
                    engine: EngineView {
                        table: drained.table,
                        mode: self.mode,
                        phase: PhaseView::Publishing { fault: drained.fault },
                    },
                    action: ActionView::Publish(drained.finished),
                }
            },
            (PhaseView::Publishing { fault: Some(fault) }, EventView::Published) => self.stop(
                ActionView::Fail(fault),
            ),
            (PhaseView::Publishing { fault: None }, EventView::Published) => match self.mode {
                Mode::DrainingNewWork => Step {
                    engine: self.at(PhaseView::Waiting),
                    action: ActionView::Wait { timeout_ms: READINESS_WAIT_MS },
                },
                Mode::IdlePoll => Step {
                    engine: self.at(PhaseView::Start),
                    action: ActionView::ReadRunningFlag,
                },
            },
            (PhaseView::Waiting, EventView::Waited) => Step {
                engine: self.at(PhaseView::Start),
                action: ActionView::ReadRunningFlag,
            },
            (PhaseView::Stopped, _) => Step { engine: self, action: ActionView::Stop },
            _ => self.stop(ActionView::Fail(Fault::UnexpectedEvent)),
        }
    }
}

/// The decisions of the transfer loop. It performs no transfer itself: it is
/// told what happened and answers with what to do next. `H` is the type of the
/// handles by which the multiplexer knows its transfers.
pub struct Engine<H> {
    table: CorrelationTable<H>,
    mode: Mode,
    phase: Phase,
}

impl<H> View for Engine<H> {
    type V = EngineView<H>;

    closed spec fn view(&self) -> EngineView<H> {
        EngineView { table: self.table@, mode: self.mode, phase: self.phase@ }
    }
}

impl<H> Engine<H> {
    /// Every engine is well formed.
    pub proof fn lemma_well_formed(&self)
        ensures
            self@.well_formed(),
    {
        self.table.lemma_well_formed();
    }

    /// An engine before its first turn. The first event it expects is the
    /// running flag.
    pub fn new() -> (engine: Engine<H>)
        ensures
            engine@ == EngineView::<H>::initial(),
    {
        Engine { table: CorrelationTable::new(), mode: Mode::DrainingNewWork, phase: Phase::Start }
    }

    /// An engine before its first turn, over `table` in place of an empty one.
    pub fn with_table(table: CorrelationTable<H>) -> (engine: Engine<H>)
        ensures
            engine@ == (EngineView {
                table: table@,
                mode: Mode::DrainingNewWork,
                phase: PhaseView::Start,
            }),
    {
        Engine { table, mode: Mode::DrainingNewWork, phase: Phase::Start }
    }

    /// How the engine currently looks for new tasks.
    pub fn mode(&self) -> (mode: Mode)
        ensures
            mode == self@.mode,
    {
        self.mode
    }

    /// Which answer the engine is waiting for.
    pub fn phase(&self) -> (phase: &Phase)
        ensures
            phase@ == self@.phase,
    {
        &self.phase
    }

    /// The transfers in flight.
    pub fn table(&self) -> (table: &CorrelationTable<H>)
        ensures
            table@ == self@.table,
    {
        &self.table
    }

    /// Whether the engine has left its loop.
    pub fn is_stopped(&self) -> (stopped: bool)
        ensures
            stopped == (self@.phase is Stopped),
    {
        match &self.phase {
            Phase::Stopped => true,
            _ => false,
        }
    }

    /// Takes the phase out and leaves `Stopped` in its place.
    fn take_phase(&mut self) -> (phase: Phase)
        ensures
            phase == old(self).phase,
            final(self)@ == old(self)@.at(PhaseView::Stopped),
    {
        let mut phase = Phase::Stopped;
        std::mem::swap(&mut self.phase, &mut phase);
        phase
    }

    /// Takes one event and answers with the next action. An event that the
    /// engine did not ask for, and any fault, stops it.
    pub fn step(&mut self, event: Event<H>) -> (action: Action<H>)
        ensures
            old(self)@.well_formed(),
            final(self)@.well_formed(),
            final(self)@ == old(self)@.step(event@).engine,
            action@ == old(self)@.step(event@).action,
    {
        proof {
            self.table.lemma_well_formed();
        }
        let action = match self.take_phase() {
            Phase::Stopped => Action::Stop,
            Phase::Start => match event {
                Event::RunningFlag(true) => {
                    self.phase = Phase::Pulling;
                    Action::PullTask(task_pull(self.mode))
                },
                Event::RunningFlag(false) => Action::Stop,
                _ => Action::Fail(Fault::UnexpectedEvent),
            },
            Phase::Pulling => match event {
                Event::Task(Some(url)) => match self.table.fresh_token() {
                    Some(token) => {
                        self.mode = Mode::DrainingNewWork;
                        self.phase = Phase::Opening { url: url.clone() };
                        Action::Open { token, url }
                    },
                    None => Action::Fail(Fault::TokensExhausted),
                },
                Event::Task(None) => {
                    self.phase = Phase::Performing;
                    Action::Perform
                },
                _ => Action::Fail(Fault::UnexpectedEvent),
            },
            Phase::Opening { url } => match event {
                Event::Opened(handle) => match self.table.register(url, handle) {
                    Some(_) => {
                        self.phase = Phase::Performing;
                        Action::Perform
                    },
                    None => Action::Fail(Fault::TokensExhausted),
                },
                _ => Action::Fail(Fault::UnexpectedEvent),
            },
            Phase::Performing => match event {
                Event::Performed { active } => {
                    self.mode = if active == 0 {
                        Mode::IdlePoll
                    } else {
                        Mode::DrainingNewWork
                    };
                    self.phase = Phase::Collecting;
                    Action::Collect
                },
                _ => Action::Fail(Fault::UnexpectedEvent),
            },
            Phase::Collecting => match event {
                Event::Completions(completions) => {
                    let (finished, fault) = complete_all(&mut self.table, completions);
                    self.phase = Phase::Publishing { fault };
                    Action::Publish(finished)
                },
                _ => Action::Fail(Fault::UnexpectedEvent),
            },
            Phase::Publishing { fault } => match event {
                Event::Published => match fault {
                    Some(fault) => Action::Fail(fault),
                    None => match self.mode {
                        Mode::DrainingNewWork => {
                            self.phase = Phase::Waiting;
                            Action::Wait { timeout_ms: READINESS_WAIT_MS }
                        },
                        Mode::IdlePoll => {
                            self.phase = Phase::Start;
                            Action::ReadRunningFlag
                        },
                    },
                },
                _ => Action::Fail(Fault::UnexpectedEvent),
            },
            Phase::Waiting => match event {
                Event::Waited => {
                    self.phase = Phase::Start;
                    Action::ReadRunningFlag
                },
                _ => Action::Fail(Fault::UnexpectedEvent),
            },
        };
        proof {
            self.table.lemma_well_formed();
        }
        action
    }
}

/// How the next task is to be pulled in `mode`.
pub fn task_pull(mode: Mode) -> (pull: TaskPull)
    ensures
        pull == pull_policy(mode),
{
    match mode {
        Mode::DrainingNewWork => TaskPull::NonBlocking,
        Mode::IdlePoll => TaskPull::Blocking { timeout_ms: IDLE_PULL_TIMEOUT_MS },
    }
}

/// Completes the transfers that `completions` names, in order, until one
/// cannot be completed. Returns the finished transfers and that fault.
pub fn complete_all<H>(table: &mut CorrelationTable<H>, completions: Vec<Completion>) -> (r: (
    Vec<Finished<H>>,
    Option<Fault>,
))
    ensures
        old(table)@.well_formed(),
        final(table)@.well_formed(),
        final(table)@ == drain(old(table)@, completions_view(completions@)).table,
        finished_view(r.0@) == drain(old(table)@, completions_view(completions@)).finished,
        r.1 == drain(old(table)@, completions_view(completions@)).fault,
{
    let ghost start = table@;
    let ghost notices = completions_view(completions@);
    let mut finished: Vec<Finished<H>> = Vec::new();
    let mut fault: Option<Fault> = None;
    proof {
        table.lemma_well_formed();
        assert(finished_view(finished@) =~= Seq::<FinishedView<H>>::empty());
    }
    for completion in it: completions
        invariant
            start == old(table)@,
            start.well_formed(),
            table@.well_formed(),
            notices == completions_view(it.seq()),
            drain(start, notices.take(it.index() as int)) == (Drained {
                table: table@,
                finished: finished_view(finished@),
                fault,
            }),
    {
        let ghost i = it.index() as int;
        let ghost before = finished_view(finished@);
        assert(notices.take(i + 1).drop_last() =~= notices.take(i));
        if fault.is_none() {
            match table.complete(completion.token, completion.outcome) {
                Ok(done) => {
                    finished.push(done);
                    assert(finished_view(finished@) =~= before.push(done@));
                },
                Err(f) => {
                    fault = Some(f);
                },
            }
        }
    }
    assert(notices.take(notices.len() as int) =~= notices);
    (finished, fault)
}

} // verus!
