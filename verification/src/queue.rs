//! The unbounded FIFO task channel: one producing endpoint held by the
//! pool, consuming endpoints cloned into every worker. The channel itself
//! comes from `crossbeam_channel`; these are its trusted declarations.

use vstd::prelude::*;
use crate::thread_pool::worker::Task;

verus! {

#[verifier::external_type_specification]
#[verifier::external_body]
#[verifier::reject_recursive_types(T)]
pub struct ExSender<T>(crossbeam_channel::Sender<T>);

#[verifier::external_type_specification]
#[verifier::external_body]
#[verifier::reject_recursive_types(T)]
pub struct ExReceiver<T>(crossbeam_channel::Receiver<T>);

/// Relies on `crossbeam_channel::unbounded`: a FIFO queue with no capacity
/// bound; sending never blocks, messages arrive in send order.
#[verifier::external_body]
pub(crate) fn channel_endpoints<T>() -> (endpoints: (
    crossbeam_channel::Sender<T>,
    crossbeam_channel::Receiver<T>,
))
{
    crossbeam_channel::unbounded()
}

/// Relies on `crossbeam_channel::Sender::send` on an unbounded channel: it
/// never blocks and fails only when every receiving endpoint has been
/// dropped. Losing the queue endpoint is a programmer error the pool
/// treats as fatal, so this sender panics then instead of discarding the
/// job.
#[verifier::external_body]
pub(crate) fn send_job(sender: &crossbeam_channel::Sender<Task>, msg: Task) {
    sender.send(msg).expect("Error while sending job to thread worker")
}

/// Relies on `crossbeam_channel::Sender::send` on an unbounded channel:
/// the exit sentinel carries no user data, so neither the send nor the
/// disposal of a rejected sentinel — possible only once every receiver is
/// gone — can unwind.
#[verifier::external_body]
pub(crate) fn send_exit(sender: &crossbeam_channel::Sender<Task>, msg: Task)
    requires
        msg is Break,
    opens_invariants none
    no_unwind
{
    let _ = sender.send(msg);
}

/// Relies on `crossbeam_channel::Receiver::recv`: blocks until a message is
/// available and returns it, or returns nothing once the channel is empty
/// and every sending endpoint has been dropped.
#[verifier::external_body]
pub(crate) fn recv_msg<T>(receiver: &crossbeam_channel::Receiver<T>) -> (msg: Option<T>) {
    receiver.recv().ok()
}

/// Relies on `Clone for crossbeam_channel::Receiver`: the clone consumes
/// from the same shared queue as the original.
#[verifier::external_body]
pub(crate) fn clone_receiver<T>(receiver: &crossbeam_channel::Receiver<T>) -> (other:
    crossbeam_channel::Receiver<T>)
{
    receiver.clone()
}

} // verus!
