use vstd::prelude::*;

verus! {

#[verifier::external_type_specification]
#[verifier::external_body]
#[verifier::reject_recursive_types(T)]
pub struct ExSender<T>(crossbeam::channel::Sender<T>);

#[verifier::external_type_specification]
#[verifier::external_body]
#[verifier::reject_recursive_types(T)]
pub struct ExReceiver<T>(crossbeam::channel::Receiver<T>);

/// What one attempt to receive from a queue came to.
pub(crate) enum Received<T> {
    /// A message arrived.
    Message(T),
    /// No message arrived: none was waiting, or none came in time.
    Nothing,
    /// No message will arrive any more: the queue is empty and has no sending
    /// end left.
    Disconnected,
}

impl<T> Received<T> {
    /// The message, if one arrived. A queue that will never deliver again is
    /// not told apart from one that has not delivered yet.
    pub(crate) fn message(self) -> (m: Option<T>)
        ensures
            m == match self {
                Received::Message(msg) => Some(msg),
                Received::Nothing => None,
                Received::Disconnected => None,
            },
    {
        match self {
            Received::Message(msg) => Some(msg),
            Received::Nothing => None,
            Received::Disconnected => None,
        }
    }
}

/// `crossbeam::channel::unbounded`: the two ends of a new queue without a
/// capacity limit. Nothing is claimed of them.
#[verifier::external_body]
pub(crate) fn unbounded<T>() -> (ends: (
    crossbeam::channel::Sender<T>,
    crossbeam::channel::Receiver<T>,
)) {
    crossbeam::channel::unbounded()
}

/// `Clone::clone` of `crossbeam::channel::Sender`: one more sending end of the
/// same queue. Nothing is claimed of it.
#[verifier::external_body]
pub(crate) fn clone_sender<T>(sender: &crossbeam::channel::Sender<T>) -> (other:
    crossbeam::channel::Sender<T>) {
    sender.clone()
}

/// `Clone::clone` of `crossbeam::channel::Receiver`: one more receiving end of
/// the same queue. Nothing is claimed of it.
#[verifier::external_body]
pub(crate) fn clone_receiver<T>(receiver: &crossbeam::channel::Receiver<T>) -> (other:
    crossbeam::channel::Receiver<T>) {
    receiver.clone()
}

/// `crossbeam::channel::Sender::send`. Whether the message is taken depends on
/// whether a receiving end is still alive, so success is not promised. The
/// one claim: a message that is not taken comes back as it was.
#[verifier::external_body]
pub(crate) fn send<T>(sender: &crossbeam::channel::Sender<T>, msg: T) -> (r: Result<(), T>)
    ensures
        r matches Err(back) ==> back == msg,
{
    match sender.send(msg) {
        Ok(()) => Ok(()),
        Err(crossbeam::channel::SendError(back)) => Err(back),
    }
}

/// `crossbeam::channel::Receiver::recv`: waits until a message arrives or the
/// queue is empty with no sending end left. What arrives depends on the other
/// threads, so nothing is claimed of the result.
#[verifier::external_body]
pub(crate) fn recv<T>(receiver: &crossbeam::channel::Receiver<T>) -> (r: Received<T>) {
    match receiver.recv() {
        Ok(msg) => Received::Message(msg),
        Err(crossbeam::channel::RecvError) => Received::Disconnected,
    }
}

/// `crossbeam::channel::Receiver::try_recv`: takes a message if one is
/// waiting, without blocking. Nothing is claimed of the result.
#[verifier::external_body]
pub(crate) fn try_recv<T>(receiver: &crossbeam::channel::Receiver<T>) -> (r: Received<T>) {
    match receiver.try_recv() {
        Ok(msg) => Received::Message(msg),
        Err(crossbeam::channel::TryRecvError::Empty) => Received::Nothing,
        Err(crossbeam::channel::TryRecvError::Disconnected) => Received::Disconnected,
    }
}

/// `crossbeam::channel::Receiver::recv_timeout` with a timeout of `timeout_ms`
/// milliseconds: waits until a message arrives, the time is over, or the queue
/// is empty with no sending end left. Nothing is claimed of the result.
#[verifier::external_body]
pub(crate) fn recv_timeout<T>(receiver: &crossbeam::channel::Receiver<T>, timeout_ms: u64) -> (r:
    Received<T>) {
    match receiver.recv_timeout(std::time::Duration::from_millis(timeout_ms)) {
        Ok(msg) => Received::Message(msg),
        Err(crossbeam::channel::RecvTimeoutError::Timeout) => Received::Nothing,
        Err(crossbeam::channel::RecvTimeoutError::Disconnected) => Received::Disconnected,
    }
}

} // verus!
