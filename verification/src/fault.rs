use vstd::prelude::*;

verus! {

/// An internal condition that stops the engine. None of them is the failure of
/// a single transfer: that is reported as a response.
#[derive(Debug, Clone, Copy, PartialEq, Eq, Structural)]
pub enum Fault {
    /// A completion named a token that has no entry in the correlation table.
    UnknownToken { token: usize },
    /// A transfer was reported done, its transport succeeded, and no final
    /// status could be read from it.
    StatusMissing { token: usize },
    /// Every token has been handed out: no further transfer can be told apart.
    TokensExhausted,
    /// The engine was told of something it had not asked for.
    UnexpectedEvent,
}

} // verus!
