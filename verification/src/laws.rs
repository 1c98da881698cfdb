use crate::engine::{drain, EngineView, PhaseView};
use crate::protocol::{ActionView, CompletionView, EventView};
use crate::response::{OutcomeView, TRANSPORT_FAILURE};
use crate::table::{EntryView, FinishedView, TableView};
use vstd::prelude::*;

verus! {

/// The engine after it has been told of `events`, one after the other.
pub open spec fn run<H>(engine: EngineView<H>, events: Seq<EventView<H>>) -> EngineView<H>
    decreases events.len(),
{
    if events.len() == 0 {
        engine
    } else {
        run(engine, events.drop_last()).step(events.last()).engine
    }
}

/// `earlier` with the transfer that the step of `engine` on `event` enters
/// into the table, if it enters one: the URL that was pulled and the handle
/// that came for it, under the token that the transfer got.
pub open spec fn opened_by<H>(
    earlier: Map<usize, EntryView<H>>,
    engine: EngineView<H>,
    event: EventView<H>,
) -> Map<usize, EntryView<H>> {
    match (engine.phase, event) {
        (PhaseView::Opening { url }, EventView::Opened(handle)) => {
            if engine.table.has_token_left() {
                earlier.insert(engine.table.next_token as usize, EntryView { url, handle })
            } else {
                earlier
            }
        },
        _ => earlier,
    }
}

/// `earlier` with the finished transfers that `action` publishes, if any.
pub open spec fn published_by<H>(earlier: Seq<FinishedView<H>>, action: ActionView<H>) -> Seq<
    FinishedView<H>,
> {
    match action {
        ActionView::Publish(finished) => earlier + finished,
        _ => earlier,
    }
}

/// The transfers opened while the engine was told of `events`: the entry of
/// each, by token.
pub open spec fn opened<H>(engine: EngineView<H>, events: Seq<EventView<H>>) -> Map<
    usize,
    EntryView<H>,
>
    decreases events.len(),
{
    if events.len() == 0 {
        Map::empty()
    } else {
        opened_by(
            opened(engine, events.drop_last()),
            run(engine, events.drop_last()),
            events.last(),
        )
    }
}

/// The finished transfers published while the engine was told of `events`, in
/// order.
pub open spec fn published<H>(engine: EngineView<H>, events: Seq<EventView<H>>) -> Seq<
    FinishedView<H>,
>
    decreases events.len(),
{
    if events.len() == 0 {
        Seq::empty()
    } else {
        published_by(
            published(engine, events.drop_last()),
            run(engine, events.drop_last()).step(events.last()).action,
        )
    }
}

/// Whether the transfer under `token` is among `published`.
pub open spec fn answered<H>(published: Seq<FinishedView<H>>, token: usize) -> bool {
    exists|k: int| 0 <= k < published.len() && (#[trigger] published[k]).token == token
}

/// The books balance: the tokens opened are those below the next one; the
/// table holds each transfer in flight as it was opened; each published
/// response carries the URL that its transfer was opened with, comes with the
/// handle of that transfer, and that transfer has left the table; no transfer
/// was answered twice; each opened transfer is in flight or answered; and the
/// transfers answered and those in flight are as many as the tokens handed
/// out.
pub open spec fn balanced<H>(
    table: TableView<H>,
    opened: Map<usize, EntryView<H>>,
    published: Seq<FinishedView<H>>,
) -> bool {
    &&& table.well_formed()
    &&& forall|t: usize| #[trigger] opened.contains_key(t) <==> t < table.next_token
    &&& forall|t: usize| #[trigger]
        table.entries.contains_key(t) ==> table.entries[t] == opened[t]
    &&& forall|k: int|
        0 <= k < published.len() ==> {
            &&& opened.contains_key((#[trigger] published[k]).token)
            &&& published[k].response.url == opened[published[k].token].url
            &&& published[k].handle == opened[published[k].token].handle
            &&& !table.entries.contains_key(published[k].token)
        }
    &&& forall|j: int, k: int|
        0 <= j < k < published.len() ==> (#[trigger] published[j]).token != (
        #[trigger] published[k]).token
    &&& forall|t: usize| #[trigger]
        opened.contains_key(t) ==> table.entries.contains_key(t) || answered(published, t)
    &&& published.len() + table.entries.len() == table.next_token
}

proof fn lemma_complete_balanced<H>(
    table: TableView<H>,
    opened: Map<usize, EntryView<H>>,
    published: Seq<FinishedView<H>>,
    notice: CompletionView,
)
    requires
        balanced(table, opened, published),
    ensures
        match table.completion(notice.token, notice.outcome) {
            Ok(finished) => balanced(
                table.complete(notice.token, notice.outcome),
                opened,
                published.push(finished),
            ),
            Err(_) => table.complete(notice.token, notice.outcome) == table,
        },
{
    if let Ok(finished) = table.completion(notice.token, notice.outcome) {
        let after = table.complete(notice.token, notice.outcome);
        let more = published.push(finished);
        assert forall|t: usize| #[trigger] opened.contains_key(t) implies after.entries.contains_key(
            t,
        ) || answered(more, t) by {
            if t == notice.token {
                assert(more[published.len() as int].token == t);
            } else if !table.entries.contains_key(t) {
                let k = choose|k: int|
                    0 <= k < published.len() && (#[trigger] published[k]).token == t;
                assert(more[k].token == t);
            }
        }
    }
}

proof fn lemma_drain_balanced<H>(
    table: TableView<H>,
    opened: Map<usize, EntryView<H>>,
    published: Seq<FinishedView<H>>,
    notices: Seq<CompletionView>,
)
    requires
        balanced(table, opened, published),
    ensures
        balanced(drain(table, notices).table, opened, published + drain(table, notices).finished),
    decreases notices.len(),
{
    if notices.len() > 0 {
        let before = drain(table, notices.drop_last());
        lemma_drain_balanced(table, opened, published, notices.drop_last());
        if before.fault is None {
            lemma_complete_balanced(
                before.table,
                opened,
                published + before.finished,
                notices.last(),
            );
        }
    }
}

/// One step keeps the books balanced, once what it opens and what it
/// publishes is entered in them.
proof fn lemma_step_balanced<H>(
    engine: EngineView<H>,
    event: EventView<H>,
    opened: Map<usize, EntryView<H>>,
    published: Seq<FinishedView<H>>,
)
    requires
        balanced(engine.table, opened, published),
    ensures
        balanced(
            engine.step(event).engine.table,
            opened_by(opened, engine, event),
            published_by(published, engine.step(event).action),
        ),
{
    if let (PhaseView::Collecting, EventView::Completions(notices)) = (engine.phase, event) {
        lemma_drain_balanced(engine.table, opened, published, notices);
    }
}

/// Whatever the engine is told from its start on, the books balance.
pub proof fn lemma_run_balanced<H>(events: Seq<EventView<H>>)
    ensures
        balanced(
            run(EngineView::initial(), events).table,
            opened(EngineView::initial(), events),
            published(EngineView::initial(), events),
        ),
    decreases events.len(),
{
    if events.len() > 0 {
        lemma_run_balanced(events.drop_last());
        lemma_step_balanced(
            run(EngineView::initial(), events.drop_last()),
            events.last(),
            opened(EngineView::initial(), events.drop_last()),
            published(EngineView::initial(), events.drop_last()),
        );
    }
}

/// After any run of events, the transfers in the table are those that the
/// multiplexer still holds: the ones that were opened and have not been
/// published. Each stands in the table as it was opened.
pub proof fn lemma_table_mirrors_open_transfers<H>(events: Seq<EventView<H>>, token: usize)
    ensures
        ({
            let table = run(EngineView::initial(), events).table;
            let opened = opened(EngineView::initial(), events);
            let published = published(EngineView::initial(), events);
            &&& table.entries.contains_key(token) <==> opened.contains_key(token) && !answered(
                published,
                token,
            )
            &&& table.entries.contains_key(token) ==> table.entries[token] == opened[token]
        }),
{
    lemma_run_balanced(events);
}

/// After any run of events, the responses published and the transfers still in
/// flight are together as many as the transfers opened: none was dropped and
/// none was made up.
pub proof fn lemma_responses_add_up<H>(events: Seq<EventView<H>>)
    ensures
        ({
            let table = run(EngineView::initial(), events).table;
            let published = published(EngineView::initial(), events);
            published.len() + table.entries.len() == table.next_token
        }),
{
    lemma_run_balanced(events);
}

/// Each published response carries the URL that its transfer was opened with,
/// and comes with the handle of that transfer: no run of events makes the
/// engine answer one request with the URL or the handle of another.
pub proof fn lemma_response_carries_opened_url<H>(events: Seq<EventView<H>>, k: int)
    requires
        0 <= k < published(EngineView::initial(), events).len(),
    ensures
        ({
            let opened = opened(EngineView::initial(), events);
            let item = published(EngineView::initial(), events)[k];
            &&& opened.contains_key(item.token)
            &&& item.response.url == opened[item.token].url
            &&& item.handle == opened[item.token].handle
        }),
{
    lemma_run_balanced(events);
}

/// After any run of events, each transfer that was opened is either still in
/// flight or has been answered, never both, and it has been answered at most
/// once.
pub proof fn lemma_one_response_per_transfer<H>(events: Seq<EventView<H>>, token: usize)
    requires
        opened(EngineView::initial(), events).contains_key(token),
    ensures
        ({
            let table = run(EngineView::initial(), events).table;
            let responses = published(EngineView::initial(), events);
            &&& table.entries.contains_key(token) != answered(responses, token)
            &&& forall|j: int, k: int|
                0 <= j < responses.len() && 0 <= k < responses.len() && (
                #[trigger] responses[j]).token == token && (#[trigger] responses[k]).token
                    == token ==> j == k
        }),
{
    lemma_run_balanced(events);
}

/// A task that the engine pulls while a token is left is opened at once under
/// the next token and with the URL that was pulled. Once its handle has come,
/// it is in flight under that token, with that URL and that handle, and
/// nothing else in the table has changed.
pub proof fn lemma_pulled_task_is_opened<H>(engine: EngineView<H>, url: Seq<char>, handle: H)
    requires
        engine.well_formed(),
        engine.phase == PhaseView::Pulling,
        engine.table.has_token_left(),
    ensures
        ({
            let token = engine.table.next_token as usize;
            let pulled = engine.step(EventView::Task(Some(url)));
            let entered = pulled.engine.step(EventView::Opened(handle));
            &&& pulled.action == ActionView::<H>::Open { token, url }
            &&& entered.action == ActionView::<H>::Perform
            &&& entered.engine.table.entries.contains_key(token)
            &&& entered.engine.table.entries[token] == EntryView { url, handle }
            &&& entered.engine.table.entries.remove(token) == engine.table.entries
        }),
{
}

/// The token under which the engine opens a transfer was never used before,
/// in whatever run of events: not by a transfer that is still in flight, and
/// not by one that has been answered.
pub proof fn lemma_opened_token_is_new<H>(events: Seq<EventView<H>>, event: EventView<H>)
    ensures
        ({
            let engine = run(EngineView::initial(), events);
            engine.step(event).action matches ActionView::Open { token, .. } ==> {
                &&& !opened(EngineView::initial(), events).contains_key(token)
                &&& !engine.table.entries.contains_key(token)
                &&& !answered(published(EngineView::initial(), events), token)
            }
        }),
{
    lemma_run_balanced(events);
}

/// The response of a completed transfer reports how the transfer ended: the
/// sentinel and no data after a transport failure; otherwise the status of the
/// server as it is, whatever its class, which is never the sentinel, and the
/// body as collected.
pub proof fn lemma_response_reports_outcome<H>(
    table: TableView<H>,
    token: usize,
    outcome: OutcomeView,
)
    requires
        table.entries.contains_key(token),
    ensures
        match outcome {
            OutcomeView::TransportFailed => {
                &&& table.completion(token, outcome) matches Ok(finished)
                &&& finished.response.url == table.entries[token].url
                &&& finished.response.status_code == TRANSPORT_FAILURE
                &&& finished.response.data == Seq::<u8>::empty()
            },
            OutcomeView::Delivered { status, body } => {
                &&& table.completion(token, outcome) matches Ok(finished)
                &&& finished.response.url == table.entries[token].url
                &&& finished.response.status_code == status
                &&& finished.response.status_code != TRANSPORT_FAILURE
                &&& finished.response.data == body
            },
            OutcomeView::StatusMissing => table.completion(token, outcome) is Err,
        },
{
}

/// One round trip: a transfer to register, and how it ends.
pub struct Round<H> {
    pub url: Seq<char>,
    pub handle: H,
    pub outcome: OutcomeView,
}

/// The table after each of `rounds` was registered and completed before the
/// next one was registered.
pub open spec fn churn<H>(table: TableView<H>, rounds: Seq<Round<H>>) -> TableView<H>
    decreases rounds.len(),
{
    if rounds.len() == 0 {
        table
    } else {
        let before = churn(table, rounds.drop_last());
        let last = rounds.last();
        before.register(last.url, last.handle).complete(before.next_token as usize, last.outcome)
    }
}

/// A token that `register` hands out belongs to no transfer in flight.
pub proof fn lemma_fresh_token_not_in_flight<H>(table: TableView<H>)
    requires
        table.well_formed(),
    ensures
        table.fresh_token() matches Some(token) ==> !table.entries.contains_key(token),
{
}

/// Registering a transfer and completing it leaves the table with the entries
/// it had before. The response carries the URL that was registered, and the
/// handle that was registered comes back with it.
pub proof fn lemma_round_trip_leaves_no_entry<H>(table: TableView<H>, round: Round<H>)
    requires
        table.well_formed(),
        table.has_token_left(),
        round.outcome !is StatusMissing,
    ensures
        ({
            let token = table.next_token as usize;
            let registered = table.register(round.url, round.handle);
            &&& table.fresh_token() == Some(token)
            &&& registered.completion(token, round.outcome) matches Ok(finished)
            &&& finished.token == token
            &&& finished.response.url == round.url
            &&& finished.handle == round.handle
            &&& registered.complete(token, round.outcome).entries == table.entries
            &&& registered.complete(token, round.outcome).next_token == table.next_token + 1
            &&& registered.complete(token, round.outcome).well_formed()
        }),
{
}

/// Any number of round trips, one after the other, leaves the table with the
/// entries it had before the first: from an empty table, an empty one. Each
/// round used a token of its own.
pub proof fn lemma_churn_leaves_no_entry<H>(table: TableView<H>, rounds: Seq<Round<H>>)
    requires
        table.well_formed(),
        table.next_token + rounds.len() <= usize::MAX,
        forall|i: int| 0 <= i < rounds.len() ==> (#[trigger] rounds[i]).outcome !is StatusMissing,
    ensures
        churn(table, rounds).entries == table.entries,
        churn(table, rounds).next_token == table.next_token + rounds.len(),
        churn(table, rounds).well_formed(),
    decreases rounds.len(),
{
    if rounds.len() > 0 {
        let earlier = rounds.drop_last();
        lemma_churn_leaves_no_entry(table, earlier);
        lemma_round_trip_leaves_no_entry(churn(table, earlier), rounds.last());
    }
}

} // verus!
