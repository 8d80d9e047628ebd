//! Channels between tasks.
//!
//! Items travel through bounded channels of `crossfire`, one receiver each, and
//! of tokio's `broadcast`, every subscriber served. What a channel answers depends
//! on what other tasks do with it; receiving waits, and is the caller's part.
use crossfire::mpsc::Array;
use crossfire::{AsyncRx, MTx, TrySendError};
use tokio::sync::broadcast::error::TryRecvError;
use tokio::sync::broadcast::{Receiver, Sender};
use vstd::prelude::*;

verus! {

/// A `crossfire::MTx` over a bounded array, the sending side of a channel.
#[verifier::external_body]
#[verifier::reject_recursive_types(T)]
struct QueueTx<T: 'static> {
    tx: MTx<Array<T>>,
}

/// A `crossfire::AsyncRx` over a bounded array, the receiving side of a channel.
#[verifier::external_body]
#[verifier::reject_recursive_types(T)]
pub struct MpscReceiver<T: 'static> {
    pub rx: AsyncRx<Array<T>>,
}

/// `tokio::sync::broadcast::Sender`, the sending side of a broadcast.
#[verifier::external_type_specification]
#[verifier::external_body]
#[verifier::reject_recursive_types(T)]
pub struct ExSender<T>(tokio::sync::broadcast::Sender<T>);

/// `tokio::sync::broadcast::Receiver`, a subscription to a broadcast.
#[verifier::external_type_specification]
#[verifier::external_body]
#[verifier::reject_recursive_types(T)]
pub struct ExReceiver<T>(tokio::sync::broadcast::Receiver<T>);

/// `tokio::sync::broadcast::error::TryRecvError`, why there is no item now.
#[verifier::external_type_specification]
#[verifier::external_body]
pub struct ExTryRecvError(tokio::sync::broadcast::error::TryRecvError);

/// `broadcast::Sender::subscribe` adds a subscriber.
pub assume_specification<T>[ tokio::sync::broadcast::Sender::<T>::subscribe ](
    s: &tokio::sync::broadcast::Sender<T>,
) -> (r: tokio::sync::broadcast::Receiver<T>)
;

/// `broadcast::Receiver::try_recv` gives the next item, if there is one. Whether
/// there is depends on other tasks.
pub assume_specification<T: Clone>[ tokio::sync::broadcast::Receiver::<T>::try_recv ](
    rx: &mut tokio::sync::broadcast::Receiver<T>,
) -> (r: Result<T, tokio::sync::broadcast::error::TryRecvError>)
;

/// `broadcast::channel` opens a broadcast. It panics on a capacity of 0 and on
/// one above half the address space.
pub assume_specification<T: Clone>[ tokio::sync::broadcast::channel::<T> ](capacity: usize) -> (r: (
    tokio::sync::broadcast::Sender<T>,
    tokio::sync::broadcast::Receiver<T>,
))
    requires
        0 < capacity <= usize::MAX / 2,
;

/// `<broadcast::Sender as Clone>::clone` adds a sender to the broadcast.
pub assume_specification<T>[ <tokio::sync::broadcast::Sender<T> as Clone>::clone ](
    s: &tokio::sync::broadcast::Sender<T>,
) -> (r: tokio::sync::broadcast::Sender<T>)
;

/// `broadcast::Receiver::resubscribe` adds a subscriber that sees what is sent
/// from now on.
pub assume_specification<T: Clone>[ tokio::sync::broadcast::Receiver::<T>::resubscribe ](
    rx: &tokio::sync::broadcast::Receiver<T>,
) -> (r: tokio::sync::broadcast::Receiver<T>)
;

/// What a bounded channel answered to an item.
#[derive(Clone, Copy, Debug, PartialEq, Eq, Structural)]
pub enum TrySend {
    Sent,
    Full,
    Disconnected,
}

/// `crossfire::Tx::try_send`, its answer without the item handed back. The answer
/// depends on what other tasks do.
#[verifier::external_body]
fn try_send<T: 'static>(queue: &QueueTx<T>, item: T) -> (r: TrySend) {
    match queue.tx.try_send(item) {
        Ok(()) => TrySend::Sent,
        Err(TrySendError::Full(_)) => TrySend::Full,
        Err(TrySendError::Disconnected(_)) => TrySend::Disconnected,
    }
}

/// `crossfire::mpsc::bounded_blocking_async` opens a bounded channel; a capacity
/// of 0 is taken as 1. One of 2^31 or more panics: `ArrayQueueMpsc::new`, which makes
/// the queue, asserts that it is less, on every platform.
#[verifier::external_body]
fn bounded<T: 'static>(capacity: usize) -> (r: (QueueTx<T>, MpscReceiver<T>))
    requires
        capacity < 0x8000_0000,
{
    let (tx, rx) = crossfire::mpsc::bounded_blocking_async(capacity);
    (QueueTx { tx }, MpscReceiver { rx })
}

/// `<MTx as Clone>::clone` adds a sender to the channel.
#[verifier::external_body]
fn clone_sender<T: 'static>(queue: &QueueTx<T>) -> (r: QueueTx<T>) {
    QueueTx { tx: queue.tx.clone() }
}

/// `broadcast::Sender::send` hands the item to every subscriber and says how many
/// there are, or `None` without any. How many there are depends on other tasks.
#[verifier::external_body]
fn broadcast_send<T>(tx: &Sender<T>, item: T) -> (r: Option<usize>) {
    tx.send(item).ok()
}

/// Why an item was not sent.
#[derive(Clone, Copy, Debug, PartialEq, Eq, Structural)]
pub enum SendError {
    /// The channel is at capacity.
    Full,
    /// The other side is gone.
    Closed,
}

/// What an answer means to the sender.
pub open spec fn sent(answer: TrySend) -> Result<(), SendError> {
    match answer {
        TrySend::Sent => Ok(()),
        TrySend::Full => Err(SendError::Full),
        TrySend::Disconnected => Err(SendError::Closed),
    }
}

/// What an answer means to the sender: a full channel calls for backpressure, a
/// channel without its receiver is closed.
pub fn send_result(answer: TrySend) -> (r: Result<(), SendError>)
    ensures
        r == sent(answer),
{
    match answer {
        TrySend::Sent => Ok(()),
        TrySend::Full => Err(SendError::Full),
        TrySend::Disconnected => Err(SendError::Closed),
    }
}

/// Sending side of a bounded channel.
#[verifier::reject_recursive_types(T)]
pub struct MpscSender<T: 'static> {
    inner: QueueTx<T>,
    queue: String,
    live_id: Option<String>,
}

impl<T: 'static> MpscSender<T> {
    /// The queue the sender feeds.
    pub closed spec fn queue_name(&self) -> Seq<char> {
        self.queue@
    }

    /// The stream the sender belongs to.
    pub closed spec fn stream(&self) -> Option<Seq<char>> {
        match self.live_id {
            Some(s) => Some(s@),
            None => None,
        }
    }

    /// Whether the channel may give an answer to an item.
    pub closed spec fn may_answer(&self, item: T, answer: TrySend) -> bool {
        call_ensures(try_send::<T>, (&self.inner, item), answer)
    }

    /// Whether two senders feed the same channel through the same handle.
    pub closed spec fn same_handle(&self, other: Self) -> bool {
        self.inner == other.inner
    }

    /// Whether a sender may be what cloning this one gives.
    pub closed spec fn may_clone_to(&self, other: Self) -> bool {
        call_ensures(clone_sender::<T>, (&self.inner,), other.inner)
    }

    /// The sender, marked as belonging to a stream.
    pub fn with_live_id(self, live_id: &str) -> (r: Self)
        ensures
            r.same_handle(self),
            r.queue_name() == self.queue_name(),
            r.stream() == Some(live_id@),
    {
        MpscSender { inner: self.inner, queue: self.queue, live_id: Some(live_id.to_owned()) }
    }

    /// Sends an item without waiting. `Full` when the channel is at capacity, so
    /// the caller can apply backpressure or retry; `Closed` when the receiver is
    /// gone.
    pub fn send(&self, item: T) -> (r: Result<(), SendError>)
        ensures
            exists|answer: TrySend| #[trigger] self.may_answer(item, answer) && r == sent(answer),
    {
        let answer = try_send(&self.inner, item);
        assert(self.may_answer(item, answer));
        send_result(answer)
    }

    /// The queue the sender feeds, for log messages.
    pub fn queue(&self) -> (r: &str)
        ensures
            r@ == self.queue_name(),
    {
        self.queue.as_str()
    }

    /// The stream the sender belongs to, for log messages.
    pub fn live_id(&self) -> (r: Option<&str>)
        ensures
            match self.stream() {
                Some(s) => r matches Some(x) && x@ == s,
                None => r is None,
            },
    {
        match &self.live_id {
            Some(s) => Some(s.as_str()),
            None => None,
        }
    }
}

impl<T: 'static> Clone for MpscSender<T> {
    /// Another sender of the same channel.
    fn clone(&self) -> (r: Self)
        ensures
            self.may_clone_to(r),
            r.queue_name() == self.queue_name(),
            r.stream() == self.stream(),
    {
        MpscSender {
            inner: clone_sender(&self.inner),
            queue: self.queue.clone(),
            live_id: match &self.live_id {
                Some(s) => Some(s.clone()),
                None => None,
            },
        }
    }
}

/// The stream name of a channel.
pub open spec fn opt_text(s: Option<&str>) -> Option<Seq<char>> {
    match s {
        Some(x) => Some(x@),
        None => None,
    }
}

fn own_text(s: Option<&str>) -> (r: Option<String>)
    ensures
        match s {
            Some(x) => r matches Some(y) && y@ == x@,
            None => r is None,
        },
{
    match s {
        Some(x) => Some(x.to_owned()),
        None => None,
    }
}

/// Whether sender and receiver may be what opening a channel of a capacity gives.
pub closed spec fn may_open<T: 'static>(
    capacity: usize,
    tx: MpscSender<T>,
    rx: MpscReceiver<T>,
) -> bool {
    call_ensures(bounded::<T>, (capacity,), (tx.inner, rx))
}

/// Opens a bounded channel.
pub fn mpsc<T: 'static>(queue: &str, live_id: Option<&str>, capacity: usize) -> (r: (
    MpscSender<T>,
    MpscReceiver<T>,
))
    requires
        capacity < 0x8000_0000,
    ensures
        may_open(capacity, r.0, r.1),
        r.0.queue_name() == queue@,
        r.0.stream() == opt_text(live_id),
{
    let (tx, rx) = bounded(capacity);
    (MpscSender { inner: tx, queue: queue.to_owned(), live_id: own_text(live_id) }, rx)
}

/// What the number of subscribers reached means to the sender.
pub open spec fn broadcast_sent(receivers: Option<usize>) -> Result<usize, SendError> {
    match receivers {
        Some(n) => Ok(n),
        None => Err(SendError::Closed),
    }
}

/// What the number of subscribers reached means to the sender: without any the
/// broadcast is closed.
pub fn broadcast_result(receivers: Option<usize>) -> (r: Result<usize, SendError>)
    ensures
        r == broadcast_sent(receivers),
{
    match receivers {
        Some(n) => Ok(n),
        None => Err(SendError::Closed),
    }
}

/// Sending side of a broadcast.
#[verifier::reject_recursive_types(T)]
pub struct BroadcastSender<T> {
    inner: Sender<T>,
    queue: String,
    live_id: Option<String>,
}

/// A subscription to a broadcast.
#[verifier::reject_recursive_types(T)]
pub struct BroadcastReceiver<T> {
    pub inner: Receiver<T>,
}

impl<T> BroadcastSender<T> {
    /// The queue the sender feeds.
    pub closed spec fn queue_name(&self) -> Seq<char> {
        self.queue@
    }

    /// The stream the sender belongs to.
    pub closed spec fn stream(&self) -> Option<Seq<char>> {
        match self.live_id {
            Some(s) => Some(s@),
            None => None,
        }
    }

    /// Whether an item may reach this many subscribers.
    pub closed spec fn may_reach(&self, item: T, receivers: Option<usize>) -> bool {
        call_ensures(broadcast_send::<T>, (&self.inner, item), receivers)
    }

    /// Whether a subscription may be what subscribing to this broadcast gives.
    pub closed spec fn may_subscribe(&self, sub: BroadcastReceiver<T>) -> bool {
        call_ensures(Sender::<T>::subscribe, (&self.inner,), sub.inner)
    }

    /// Whether a sender may be what cloning this one gives.
    pub closed spec fn may_clone_to(&self, other: Self) -> bool {
        cloned(self.inner, other.inner)
    }

    /// Sends an item to all subscribers without waiting, and says how many there
    /// are. Without any the broadcast is closed; it is never full.
    pub fn send(&self, item: T) -> (r: Result<usize, SendError>)
        ensures
            exists|receivers: Option<usize>| #[trigger]
                self.may_reach(item, receivers) && r == broadcast_sent(receivers),
    {
        let receivers = broadcast_send(&self.inner, item);
        assert(self.may_reach(item, receivers));
        broadcast_result(receivers)
    }

    /// Subscribes to the broadcast.
    pub fn subscribe(&self) -> (r: BroadcastReceiver<T>)
        ensures
            self.may_subscribe(r),
    {
        BroadcastReceiver { inner: self.inner.subscribe() }
    }
}

/// The item a subscription gave. Items missed, and a closed broadcast, give none.
pub open spec fn received<T>(answer: Result<T, TryRecvError>) -> Option<T> {
    match answer {
        Ok(item) => Some(item),
        Err(_) => None,
    }
}

/// The item a subscription gave. Items missed, and a closed broadcast, give none.
pub fn recv_result<T>(answer: Result<T, TryRecvError>) -> (r: Option<T>)
    ensures
        r == received(answer),
{
    match answer {
        Ok(item) => Some(item),
        Err(_) => None,
    }
}

impl<T: Clone> BroadcastReceiver<T> {
    /// Whether a subscription may be what resubscribing gives.
    pub closed spec fn may_resubscribe(&self, sub: Self) -> bool {
        call_ensures(Receiver::<T>::resubscribe, (&self.inner,), sub.inner)
    }

    /// The next item, if there is one now.
    pub fn try_recv(&mut self) -> (r: Option<T>)
        ensures
            exists|sub: &mut Receiver<T>, answer: Result<T, TryRecvError>| #[trigger]
                call_ensures(Receiver::<T>::try_recv, (sub,), answer) && *sub == old(self).inner
                    && *final(sub) == final(self).inner && r == received(answer),
    {
        let answer = self.inner.try_recv();
        recv_result(answer)
    }
}

impl<T> Clone for BroadcastSender<T> {
    /// Another sender of the same broadcast.
    fn clone(&self) -> (r: Self)
        ensures
            self.may_clone_to(r),
            r.queue_name() == self.queue_name(),
            r.stream() == self.stream(),
    {
        BroadcastSender {
            inner: self.inner.clone(),
            queue: self.queue.clone(),
            live_id: match &self.live_id {
                Some(s) => Some(s.clone()),
                None => None,
            },
        }
    }
}

impl<T: Clone> Clone for BroadcastReceiver<T> {
    /// A subscription of its own, to what is sent from now on.
    fn clone(&self) -> (r: Self)
        ensures
            self.may_resubscribe(r),
    {
        BroadcastReceiver { inner: self.inner.resubscribe() }
    }
}

/// What waiting for a broadcast item gave.
#[derive(Clone, Copy, Debug, PartialEq, Eq, Structural)]
pub enum BroadcastWait {
    /// An item.
    Item,
    /// This many items were missed.
    Lagged(u64),
    /// All senders are gone.
    Closed,
}

/// What a subscriber does next.
#[derive(Clone, Copy, Debug, PartialEq, Eq, Structural)]
pub enum BroadcastAction {
    /// Hand the item out.
    Deliver,
    /// Wait again.
    WaitAgain,
    /// End: there will be no more items.
    End,
}

/// What a subscriber does next: missed items are skipped.
pub fn after_wait(wait: BroadcastWait) -> (r: BroadcastAction)
    ensures
        r == match wait {
            BroadcastWait::Item => BroadcastAction::Deliver,
            BroadcastWait::Lagged(_) => BroadcastAction::WaitAgain,
            BroadcastWait::Closed => BroadcastAction::End,
        },
{
    match wait {
        BroadcastWait::Item => BroadcastAction::Deliver,
        BroadcastWait::Lagged(_) => BroadcastAction::WaitAgain,
        BroadcastWait::Closed => BroadcastAction::End,
    }
}

/// The capacity a broadcast is opened with: 0 is taken as 1.
pub open spec fn broadcast_capacity(capacity: usize) -> usize {
    if capacity == 0 {
        1
    } else {
        capacity
    }
}

/// Whether sender and subscription may be what opening a broadcast of a capacity
/// gives.
pub closed spec fn may_open_broadcast<T: Clone>(
    capacity: usize,
    tx: BroadcastSender<T>,
    rx: BroadcastReceiver<T>,
) -> bool {
    call_ensures(tokio::sync::broadcast::channel::<T>, (capacity,), (tx.inner, rx.inner))
}

/// Opens a broadcast.
pub fn broadcast<T: Clone>(queue: &str, live_id: Option<&str>, capacity: usize) -> (r: (
    BroadcastSender<T>,
    BroadcastReceiver<T>,
))
    requires
        capacity <= usize::MAX / 2,
    ensures
        may_open_broadcast(broadcast_capacity(capacity), r.0, r.1),
        r.0.queue_name() == queue@,
        r.0.stream() == opt_text(live_id),
{
    let effective: usize = if capacity == 0 {
        1
    } else {
        capacity
    };
    let (tx, rx) = tokio::sync::broadcast::channel(effective);
    (
        BroadcastSender { inner: tx, queue: queue.to_owned(), live_id: own_text(live_id) },
        BroadcastReceiver { inner: rx },
    )
}

/// The sender learns what became of its item: it went in, the channel was full, or the
/// receiver is gone.
pub proof fn law_answers_keep_their_meaning(answer: TrySend)
    ensures
        sent(answer) is Ok <==> answer == TrySend::Sent,
        sent(answer) == Err::<(), SendError>(SendError::Full) <==> answer == TrySend::Full,
        sent(answer) == Err::<(), SendError>(SendError::Closed) <==> answer
            == TrySend::Disconnected,
{
}

/// A broadcast tells how many subscribers an item reached, and is closed without any.
pub proof fn law_broadcasts_count_subscribers(receivers: Option<usize>)
    ensures
        broadcast_sent(receivers) matches Ok(n) ==> receivers == Some(n),
        receivers is Some ==> broadcast_sent(receivers) is Ok,
        receivers is None ==> broadcast_sent(receivers) == Err::<usize, SendError>(
            SendError::Closed,
        ),
{
}

/// A subscription gives the item that there is, and nothing where there is none.
pub proof fn law_items_are_handed_out<T>(answer: Result<T, TryRecvError>)
    ensures
        answer matches Ok(item) ==> received(answer) == Some(item),
        answer is Err ==> received(answer) is None,
{
}

/// A broadcast has the capacity asked for, and room for one item at least.
pub proof fn law_broadcast_capacity(capacity: usize)
    ensures
        broadcast_capacity(capacity) >= 1,
        capacity >= 1 ==> broadcast_capacity(capacity) == capacity,
        capacity == 0 ==> broadcast_capacity(capacity) == 1,
{
}

/// A subscriber hands out items, passes over what it missed, and ends with the senders.
pub proof fn law_subscribers_pass_over_missed_items(missed: u64, r: BroadcastAction)
    ensures
        call_ensures(after_wait, (BroadcastWait::Item,), r) ==> r == BroadcastAction::Deliver,
        call_ensures(after_wait, (BroadcastWait::Lagged(missed),), r) ==> r
            == BroadcastAction::WaitAgain,
        call_ensures(after_wait, (BroadcastWait::Closed,), r) ==> r == BroadcastAction::End,
{
}

} // verus!
