//! Trusted declarations for the outbound channel type.
//!
//! Each connection's outbound queue is a bounded multi-producer,
//! single-consumer channel from tokio. The library holds the two halves
//! as opaque values: the registry keeps each peer's sending half, the
//! per-peer writer loop outside the library drains the receiving half.
//! Enqueueing and draining are asynchronous and happen outside the
//! library; only creating a channel and duplicating a sending handle are
//! done here.

use crate::event::ChatEvent;
use std::sync::Arc;
use vstd::prelude::*;

verus! {

/// tokio's bounded mpsc sending half, declared so the registry can hold
/// and hand out values of it; the library never looks inside one.
#[verifier::external_type_specification]
#[verifier::external_body]
#[verifier::reject_recursive_types(T)]
pub struct ExSender<T>(tokio::sync::mpsc::Sender<T>);

/// tokio's bounded mpsc receiving half, declared so a freshly created
/// one can be returned to the caller that spawns the writer loop.
#[verifier::external_type_specification]
#[verifier::external_body]
#[verifier::reject_recursive_types(T)]
pub struct ExReceiver<T>(tokio::sync::mpsc::Receiver<T>);

/// Whether these two halves belong to one and the same channel: what a
/// producer enqueues, and nothing else, is what the paired consumer
/// drains, in FIFO order.
pub uninterp spec fn outbound_pair(
    tx: tokio::sync::mpsc::Sender<Arc<ChatEvent>>,
    rx: tokio::sync::mpsc::Receiver<Arc<ChatEvent>>,
) -> bool;

/// The capacity the bounded queue behind this sending half was created
/// with: the most events that can sit in it undrained before an enqueue
/// suspends.
pub uninterp spec fn outbound_capacity(tx: tokio::sync::mpsc::Sender<Arc<ChatEvent>>) -> usize;

/// Relies on `tokio::sync::mpsc::channel`: it returns the producing and
/// consuming halves of one fresh bounded FIFO queue of the given
/// capacity. It panics when `buffer` is zero or exceeds tokio's permit
/// cap of `usize::MAX >> 3`, so those inputs are excluded here.
#[verifier::external_body]
pub(crate) fn new_outbound_channel(buffer: usize) -> (r: (
    tokio::sync::mpsc::Sender<Arc<ChatEvent>>,
    tokio::sync::mpsc::Receiver<Arc<ChatEvent>>,
))
    requires
        1 <= buffer <= usize::MAX >> 3,
    ensures
        outbound_pair(r.0, r.1),
        outbound_capacity(r.0) == buffer,
{
    tokio::sync::mpsc::channel(buffer)
}

/// Relies on `<tokio::sync::mpsc::Sender as Clone>::clone`: the clone is
/// another sending handle of the same channel, interchangeable with the
/// handle it was made from, so it is modeled as the same value.
pub assume_specification<T>[ <tokio::sync::mpsc::Sender<T> as Clone>::clone ](
    s: &tokio::sync::mpsc::Sender<T>,
) -> (r: tokio::sync::mpsc::Sender<T>)
    ensures
        r == *s,
;

} // verus!
