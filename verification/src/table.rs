use crate::fault::Fault;
use crate::response::{Outcome, OutcomeView, Response, ResponseView};
use std::collections::HashMap;
use vstd::prelude::*;

verus! {

broadcast use vstd::std_specs::hash::group_hash_axioms;

/// What the table keeps of one transfer in flight: the URL that was submitted
/// and the handle by which the multiplexer knows the transfer.
pub struct Entry<H> {
    pub url: String,
    pub handle: H,
}

/// Mathematical value of an [`Entry`].
pub struct EntryView<H> {
    pub url: Seq<char>,
    pub handle: H,
}

impl<H> View for Entry<H> {
    type V = EntryView<H>;

    open spec fn view(&self) -> EntryView<H> {
        EntryView { url: self.url@, handle: self.handle }
    }
}

/// A transfer that has left the table: its response, to be published, and its
/// handle, given back so that it can leave the multiplexer.
#[derive(Debug, PartialEq, Eq)]
pub struct Finished<H> {
    pub token: usize,
    pub response: Response,
    pub handle: H,
}

/// Mathematical value of a [`Finished`].
pub struct FinishedView<H> {
    pub token: usize,
    pub response: ResponseView,
    pub handle: H,
}

impl<H> View for Finished<H> {
    type V = FinishedView<H>;

    open spec fn view(&self) -> FinishedView<H> {
        FinishedView { token: self.token, response: self.response@, handle: self.handle }
    }
}

/// Mathematical value of a [`CorrelationTable`]: the entry of each transfer in
/// flight, by token, and the token that the next transfer will get.
pub struct TableView<H> {
    pub entries: Map<usize, EntryView<H>>,
    pub next_token: nat,
}

impl<H> TableView<H> {
    /// The table before any transfer was registered.
    pub open spec fn empty() -> TableView<H> {
        TableView { entries: Map::empty(), next_token: 0 }
    }

    /// Tokens are handed out in increasing order, so every token in flight
    /// lies below the next one.
    pub open spec fn well_formed(self) -> bool {
        &&& self.next_token <= usize::MAX
        &&& self.entries.dom().finite()
        &&& forall|t: usize| self.entries.contains_key(t) ==> t < self.next_token
    }

    /// Whether a further transfer can still get a token of its own.
    pub open spec fn has_token_left(self) -> bool {
        self.next_token < usize::MAX
    }

    /// The token that `register` hands out, if one is left.
    pub open spec fn fresh_token(self) -> Option<usize> {
        if self.has_token_left() {
            Some(self.next_token as usize)
        } else {
            None
        }
    }

    /// The table after `register(url, handle)`.
    pub open spec fn register(self, url: Seq<char>, handle: H) -> TableView<H> {
        if self.has_token_left() {
            TableView {
                entries: self.entries.insert(
                    self.next_token as usize,
                    EntryView { url, handle },
                ),
                next_token: self.next_token + 1,
            }
        } else {
            self
        }
    }

    /// What `complete(token, outcome)` returns.
    pub open spec fn completion(self, token: usize, outcome: OutcomeView) -> Result<
        FinishedView<H>,
        Fault,
    > {
        if !self.entries.contains_key(token) {
            Err(Fault::UnknownToken { token })
        } else {
            let entry = self.entries[token];
            match outcome {
                OutcomeView::Delivered { status, body } => Ok(
                    FinishedView {
                        token,
                        response: ResponseView::delivered(entry.url, status, body),
                        handle: entry.handle,
                    },
                ),
                OutcomeView::StatusMissing => Err(Fault::StatusMissing { token }),
                OutcomeView::TransportFailed => Ok(
                    FinishedView {
                        token,
                        response: ResponseView::transport_failed(entry.url),
                        handle: entry.handle,
                    },
                ),
            }
        }
    }

    /// The table after `complete(token, outcome)`: the entry leaves exactly
    /// when a response is produced.
    pub open spec fn complete(self, token: usize, outcome: OutcomeView) -> TableView<H> {
        if self.completion(token, outcome) is Ok {
            TableView { entries: self.entries.remove(token), next_token: self.next_token }
        } else {
            self
        }
    }
}

/// The transfers in flight: for each token handed out and not yet completed,
/// the URL that was submitted and the handle of the transfer. `H` is the type
/// of those handles; the table stores them and gives them back, no more.
pub struct CorrelationTable<H> {
    entries: HashMap<usize, Entry<H>>,
    next_token: usize,
}

impl<H> View for CorrelationTable<H> {
    type V = TableView<H>;

    closed spec fn view(&self) -> TableView<H> {
        TableView {
            entries: Map::new(
                |t: usize| self.entries@.contains_key(t) && t < self.next_token,
                |t: usize| self.entries@[t]@,
            ),
            next_token: self.next_token as nat,
        }
    }
}

impl<H> CorrelationTable<H> {
    #[verifier::type_invariant]
    spec fn inv(&self) -> bool {
        forall|t: usize| self.entries@.contains_key(t) ==> t < self.next_token
    }

    /// Every table is well formed: what the type keeps of its values shows in
    /// the value of each.
    pub proof fn lemma_well_formed(&self)
        ensures
            self@.well_formed(),
    {
        vstd::set_lib::lemma_set_subset_finite(self.entries@.dom(), self@.entries.dom());
    }

    /// A table with no transfer in flight, whose first token is 0.
    pub fn new() -> (table: CorrelationTable<H>)
        ensures
            table@ == TableView::<H>::empty(),
    {
        let table = CorrelationTable { entries: HashMap::new(), next_token: 0 };
        assert(table@.entries =~= Map::<usize, EntryView<H>>::empty());
        table
    }

    /// A table with no transfer in flight, whose first token is `first_token`.
    pub fn starting_at(first_token: usize) -> (table: CorrelationTable<H>)
        ensures
            table@ == (TableView::<H> { entries: Map::empty(), next_token: first_token as nat }),
    {
        let table = CorrelationTable { entries: HashMap::new(), next_token: first_token };
        assert(table@.entries =~= Map::<usize, EntryView<H>>::empty());
        table
    }

    /// Number of transfers in flight.
    pub fn len(&self) -> (n: usize)
        ensures
            n == self@.entries.len(),
    {
        proof {
            use_type_invariant(self);
            assert(self@.entries.dom() =~= self.entries@.dom());
        }
        self.entries.len()
    }

    /// Whether no transfer is in flight.
    pub fn is_empty(&self) -> (b: bool)
        ensures
            b == (self@.entries.len() == 0),
    {
        self.len() == 0
    }

    /// Whether `token` belongs to a transfer in flight.
    pub fn contains(&self, token: usize) -> (b: bool)
        ensures
            b == self@.entries.contains_key(token),
    {
        proof {
            use_type_invariant(self);
        }
        self.entries.contains_key(&token)
    }

    /// URL of the transfer in flight under `token`.
    pub fn url(&self, token: usize) -> (url: Option<&str>)
        ensures
            match url {
                Some(url) => self@.entries.contains_key(token) && url@ == self@.entries[token].url,
                None => !self@.entries.contains_key(token),
            },
    {
        proof {
            use_type_invariant(self);
        }
        match self.entries.get(&token) {
            Some(entry) => Some(entry.url.as_str()),
            None => None,
        }
    }

    /// Handle of the transfer in flight under `token`.
    pub fn handle(&self, token: usize) -> (handle: Option<&H>)
        ensures
            match handle {
                Some(handle) => self@.entries.contains_key(token) && *handle
                    == self@.entries[token].handle,
                None => !self@.entries.contains_key(token),
            },
    {
        proof {
            use_type_invariant(self);
        }
        match self.entries.get(&token) {
            Some(entry) => Some(&entry.handle),
            None => None,
        }
    }

    /// The token that the next registered transfer gets.
    pub fn next_token(&self) -> (t: usize)
        ensures
            t == self@.next_token,
    {
        self.next_token
    }

    /// The token that `register` would hand out now, if one is left.
    pub fn fresh_token(&self) -> (token: Option<usize>)
        ensures
            token == self@.fresh_token(),
    {
        if self.next_token == usize::MAX {
            None
        } else {
            Some(self.next_token)
        }
    }

    /// Moves the map out, leaving an empty one in its place.
    fn take_entries(&mut self) -> (entries: HashMap<usize, Entry<H>>)
        ensures
            entries@ == old(self).entries@,
            final(self).entries@ == Map::<usize, Entry<H>>::empty(),
            final(self).next_token == old(self).next_token,
    {
        let mut entries = HashMap::new();
        std::mem::swap(&mut self.entries, &mut entries);
        entries
    }

    /// Takes the entry of `token` out of the table.
    fn release(&mut self, token: usize) -> (entry: Entry<H>)
        requires
            old(self)@.entries.contains_key(token),
        ensures
            entry@ == old(self)@.entries[token],
            final(self)@.entries == old(self)@.entries.remove(token),
            final(self)@.next_token == old(self)@.next_token,
    {
        proof {
            use_type_invariant(&*self);
        }
        let mut entries = self.take_entries();
        let entry = entries.remove(&token).unwrap();
        self.entries = entries;
        entry
    }

    /// Enters a transfer for `url`, known to the multiplexer by `handle`, and
    /// returns its token: the next one in order, which no transfer in flight
    /// holds. `None`, with nothing changed, once every token has been handed
    /// out.
    pub fn register(&mut self, url: String, handle: H) -> (token: Option<usize>)
        ensures
            old(self)@.well_formed(),
            final(self)@.well_formed(),
            token == old(self)@.fresh_token(),
            final(self)@ == old(self)@.register(url@, handle),
            token matches Some(t) ==> !old(self)@.entries.contains_key(t),
    {
        proof {
            use_type_invariant(&*self);
            self.lemma_well_formed();
        }
        if self.next_token == usize::MAX {
            return None;
        }
        let token = self.next_token;
        let mut entries = self.take_entries();
        entries.insert(token, Entry { url, handle });
        self.next_token = token + 1;
        self.entries = entries;
        proof {
            self.lemma_well_formed();
            assert(self@.entries =~= old(self)@.entries.insert(
                token,
                EntryView { url: url@, handle },
            ));
        }
        Some(token)
    }

    /// Ends the transfer under `token`: builds its response, which carries the
    /// URL that was registered under that token, and gives its handle back.
    /// The entry leaves the table exactly when a response is returned.
    pub fn complete(&mut self, token: usize, outcome: Outcome) -> (r: Result<Finished<H>, Fault>)
        ensures
            old(self)@.well_formed(),
            final(self)@.well_formed(),
            final(self)@ == old(self)@.complete(token, outcome@),
            match r {
                Ok(finished) => old(self)@.completion(token, outcome@) == Ok::<
                    FinishedView<H>,
                    Fault,
                >(finished@),
                Err(fault) => old(self)@.completion(token, outcome@) == Err::<
                    FinishedView<H>,
                    Fault,
                >(fault),
            },
    {
        proof {
            use_type_invariant(&*self);
            self.lemma_well_formed();
        }
        if !self.entries.contains_key(&token) {
            return Err(Fault::UnknownToken { token });
        }
        let r = match outcome {
            Outcome::StatusMissing => Err(Fault::StatusMissing { token }),
            Outcome::Delivered { status, body } => {
                let entry = self.release(token);
                Ok(
                    Finished {
                        token,
                        response: Response::delivered(entry.url, status, body),
                        handle: entry.handle,
                    },
                )
            },
            Outcome::TransportFailed => {
                let entry = self.release(token);
                Ok(
                    Finished {
                        token,
                        response: Response::transport_failed(entry.url),
                        handle: entry.handle,
                    },
                )
            },
        };
        proof {
            self.lemma_well_formed();
        }
        r
    }
}

} // verus!
