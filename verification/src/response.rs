use vstd::prelude::*;

verus! {

/// Status code of a response whose transfer failed below HTTP. It is negative,
/// so no status that a server reports can be mistaken for it.
pub const TRANSPORT_FAILURE: i64 = -1;

/// How one transfer ended, as read from its handle after the multiplexer has
/// reported it done.
#[derive(Debug, PartialEq, Eq)]
pub enum Outcome {
    /// The transport succeeded. `status` is what the server reported, whatever
    /// its class, and `body` is what was collected.
    Delivered { status: u32, body: Vec<u8> },
    /// The transport succeeded, but no final status could be read.
    StatusMissing,
    /// The transfer failed below HTTP: name resolution, connection, TLS, timeout.
    TransportFailed,
}

/// Mathematical value of an [`Outcome`].
pub enum OutcomeView {
    Delivered { status: u32, body: Seq<u8> },
    StatusMissing,
    TransportFailed,
}

impl View for Outcome {
    type V = OutcomeView;

    open spec fn view(&self) -> OutcomeView {
        match *self {
            Outcome::Delivered { status, body } => OutcomeView::Delivered { status, body: body@ },
            Outcome::StatusMissing => OutcomeView::StatusMissing,
            Outcome::TransportFailed => OutcomeView::TransportFailed,
        }
    }
}

impl OutcomeView {
    /// How a transfer ended, from what its handle shows: whether the transport
    /// succeeded, the final status if one can be read, and the body collected.
    /// After a transport failure neither status nor body counts.
    pub open spec fn read(transport_ok: bool, status: Option<u32>, body: Seq<u8>) -> OutcomeView {
        if !transport_ok {
            OutcomeView::TransportFailed
        } else {
            match status {
                Some(status) => OutcomeView::Delivered { status, body },
                None => OutcomeView::StatusMissing,
            }
        }
    }
}

impl Outcome {
    /// Reads the outcome of a transfer off what its handle shows.
    pub fn read(transport_ok: bool, status: Option<u32>, body: Vec<u8>) -> (outcome: Outcome)
        ensures
            outcome@ == OutcomeView::read(transport_ok, status, body@),
    {
        if !transport_ok {
            Outcome::TransportFailed
        } else {
            match status {
                Some(status) => Outcome::Delivered { status, body },
                None => Outcome::StatusMissing,
            }
        }
    }
}

/// Mathematical value of a [`Response`].
pub struct ResponseView {
    pub url: Seq<char>,
    pub status_code: int,
    pub data: Seq<u8>,
}

impl ResponseView {
    /// The response of a transfer for `url` whose server answered with `status`.
    pub open spec fn delivered(url: Seq<char>, status: u32, body: Seq<u8>) -> ResponseView {
        ResponseView { url, status_code: status as int, data: body }
    }

    /// The response of a transfer for `url` that failed below HTTP.
    pub open spec fn transport_failed(url: Seq<char>) -> ResponseView {
        ResponseView { url, status_code: TRANSPORT_FAILURE as int, data: Seq::empty() }
    }

    /// What every response satisfies: a failure carries the sentinel and no
    /// data, anything else carries a status that a server can report.
    pub open spec fn well_formed(self) -> bool {
        if self.status_code == TRANSPORT_FAILURE {
            self.data.len() == 0
        } else {
            0 <= self.status_code <= u32::MAX
        }
    }
}

/// The result of one transfer, handed to whoever polls for it.
#[derive(Debug, PartialEq, Eq)]
pub struct Response {
    url: String,
    status_code: i64,
    data: Vec<u8>,
}

impl View for Response {
    type V = ResponseView;

    closed spec fn view(&self) -> ResponseView {
        ResponseView { url: self.url@, status_code: self.status_code as int, data: self.data@ }
    }
}

impl Response {
    #[verifier::type_invariant]
    spec fn inv(&self) -> bool {
        self@.well_formed()
    }

    /// Response of a transfer that reached the server: the status is kept as
    /// reported, with no reading of its class.
    pub fn delivered(url: String, status: u32, body: Vec<u8>) -> (r: Response)
        ensures
            r@ == ResponseView::delivered(url@, status, body@),
    {
        Response { url, status_code: status as i64, data: body }
    }

    /// Response of a transfer that failed below HTTP: the sentinel status and
    /// no data.
    pub fn transport_failed(url: String) -> (r: Response)
        ensures
            r@ == ResponseView::transport_failed(url@),
    {
        Response { url, status_code: TRANSPORT_FAILURE, data: Vec::new() }
    }

    /// URL of the request that this response answers.
    pub fn url(&self) -> (u: &str)
        ensures
            u@ == self@.url,
    {
        self.url.as_str()
    }

    /// Status that the server reported, or [`TRANSPORT_FAILURE`].
    pub fn status_code(&self) -> (c: i64)
        ensures
            c == self@.status_code,
            self@.well_formed(),
    {
        proof {
            use_type_invariant(self);
        }
        self.status_code
    }

    /// Body as received; empty after a transport failure.
    pub fn data(&self) -> (d: &Vec<u8>)
        ensures
            d@ == self@.data,
            self@.well_formed(),
    {
        proof {
            use_type_invariant(self);
        }
        &self.data
    }

    /// Whether the transfer failed below HTTP.
    pub fn is_transport_failure(&self) -> (b: bool)
        ensures
            b == (self@.status_code == TRANSPORT_FAILURE),
            b ==> self@.data.len() == 0,
    {
        proof {
            use_type_invariant(self);
        }
        self.status_code == TRANSPORT_FAILURE
    }
}

} // verus!
