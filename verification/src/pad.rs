//! Pads: the connections between pipeline nodes, and the demand for their items.
use crate::channel::{may_open, mpsc, sent, MpscReceiver, MpscSender, SendError, TrySend};
use std::sync::atomic::{AtomicUsize, Ordering};
use std::sync::Arc;
use vstd::prelude::*;

verus! {

/// `<Arc as Clone>::clone` shares the value.
#[verifier::external_body]
fn share<X>(a: &Arc<X>) -> (r: Arc<X>)
    ensures
        r == *a,
{
    Arc::clone(a)
}

/// `AtomicUsize::fetch_sub` takes one away from a shared count. It neither panics
/// nor waits, so a destructor may call it.
#[verifier::external_body]
fn take_one(count: &AtomicUsize)
    opens_invariants none
    no_unwind
{
    count.fetch_sub(1, Ordering::Release);
}

/// Whether there is demand, by how many handles there are.
pub open spec fn wanted(always_wanted: bool, handles: usize) -> bool {
    always_wanted || handles > 0
}

/// Whether there is demand, by how many handles there are.
pub fn demand_for(always_wanted: bool, handles: usize) -> (r: bool)
    ensures
        r == wanted(always_wanted, handles),
{
    always_wanted || handles > 0
}

/// Tracks downstream demand from sinks.
///
/// A signal made by `new` is wanted while at least one handle exists. One made by
/// `new_always_wanted` is wanted always, for sinks that must run permanently.
pub struct DemandSignal {
    count: Arc<AtomicUsize>,
    always_wanted: bool,
}

/// A downstream consumer's demand. Cloning adds to the signal's count, dropping
/// takes away from it.
pub struct DemandHandle {
    count: Arc<AtomicUsize>,
    /// Whether the handle belongs to no signal; its count is then left alone.
    detached: bool,
}

impl DemandSignal {
    /// Whether the signal is wanted without handles.
    pub closed spec fn is_permanent(&self) -> bool {
        self.always_wanted
    }

    /// Whether the signal's count may be one made with this many handles.
    pub closed spec fn may_start_with(&self, handles: usize) -> bool {
        call_ensures(AtomicUsize::new, (handles,), *self.count)
    }

    /// A signal that counts handles. It has none yet.
    pub fn new() -> (r: Self)
        ensures
            !r.is_permanent(),
            r.may_start_with(0),
    {
        DemandSignal { count: Arc::new(AtomicUsize::new(0)), always_wanted: false }
    }

    /// A signal that is wanted with or without handles.
    pub fn new_always_wanted() -> (r: Self)
        ensures
            r.is_permanent(),
            r.may_start_with(1),
    {
        DemandSignal { count: Arc::new(AtomicUsize::new(1)), always_wanted: true }
    }

    /// Whether reading the signal's count may give this many handles.
    pub closed spec fn may_count(&self, handles: usize) -> bool {
        call_ensures(AtomicUsize::load, (&*self.count, Ordering::Acquire), handles)
    }

    /// Whether there is at least one handle, or the signal is wanted always.
    ///
    /// Handles come and go in other tasks; of a signal that counts them the answer
    /// is what the count was when it was read.
    pub fn is_wanted(&self) -> (r: bool)
        ensures
            self.is_permanent() ==> r,
            !self.is_permanent() ==> exists|handles: usize| #[trigger]
                self.may_count(handles) && r == wanted(false, handles),
    {
        if self.always_wanted {
            return true;
        }
        let handles: usize = self.count.load(Ordering::Acquire);
        assert(self.may_count(handles));
        demand_for(false, handles)
    }

    /// A handle on this signal. While any handle exists the signal is wanted.
    pub fn new_handle(&self) -> (r: DemandHandle)
        ensures
            !r.is_detached(),
            r.counts_for(*self),
            r.was_added(),
    {
        DemandHandle::from_signal(share(&self.count))
    }
}

impl Default for DemandSignal {
    fn default() -> (r: Self)
        ensures
            !r.is_permanent(),
            r.may_start_with(0),
    {
        DemandSignal::new()
    }
}

impl Clone for DemandSignal {
    /// Another view of the same signal.
    fn clone(&self) -> (r: Self)
        ensures
            r == *self,
    {
        DemandSignal { count: share(&self.count), always_wanted: self.always_wanted }
    }
}

impl DemandHandle {
    /// Whether the handle belongs to no signal.
    pub closed spec fn is_detached(&self) -> bool {
        self.detached
    }

    /// Whether the handle is counted by a signal.
    pub closed spec fn counts_for(&self, signal: DemandSignal) -> bool {
        self.count == signal.count
    }

    /// Whether one was added to the count.
    pub closed spec fn was_added(&self) -> bool {
        exists|before: usize| #[trigger]
            call_ensures(AtomicUsize::fetch_add, (&*self.count, 1usize, Ordering::Release), before)
    }

    /// Whether one was taken away from the count.
    pub closed spec fn was_taken(&self) -> bool {
        call_ensures(take_one, (&*self.count,), ())
    }

    /// A handle on a signal's count.
    fn from_signal(count: Arc<AtomicUsize>) -> (r: Self)
        ensures
            !r.is_detached(),
            r.count == count,
            r.was_added(),
    {
        let _before: usize = count.fetch_add(1, Ordering::Release);
        DemandHandle { count, detached: false }
    }

    /// A handle on no signal. Cloning and dropping it changes no count.
    pub fn empty() -> (r: Self)
        ensures
            r.is_detached(),
    {
        DemandHandle { count: Arc::new(AtomicUsize::new(0)), detached: true }
    }
}

impl Clone for DemandHandle {
    fn clone(&self) -> (r: Self)
        ensures
            r.is_detached() == self.is_detached(),
            forall|signal: DemandSignal| #[trigger]
                r.counts_for(signal) == self.counts_for(signal),
            !self.is_detached() ==> r.was_added(),
    {
        if !self.detached {
            let _before: usize = self.count.fetch_add(1, Ordering::Release);
        }
        DemandHandle { count: share(&self.count), detached: self.detached }
    }
}

impl Drop for DemandHandle {
    /// Takes the handle away from its signal's count.
    fn drop(&mut self)
        ensures
            !old(self).is_detached() ==> old(self).was_taken(),
        opens_invariants none
        no_unwind
    {
        if !self.detached {
            take_one(&self.count);
        }
    }
}

impl DemandSignal {
    /// Whether one was added to the signal's count.
    pub closed spec fn was_raised(&self) -> bool {
        exists|before: usize| #[trigger]
            call_ensures(AtomicUsize::fetch_add, (&*self.count, 1usize, Ordering::Release), before)
    }

    /// Whether one was taken away from the signal's count.
    pub closed spec fn was_lowered(&self) -> bool {
        call_ensures(take_one, (&*self.count,), ())
    }
}

/// A handle works on the count of its signal, and of each clone of it: what making
/// the handle adds there, dropping it takes away there.
pub proof fn law_handle_works_on_its_signal(handle: DemandHandle, signal: DemandSignal)
    requires
        handle.counts_for(signal),
    ensures
        handle.was_added() == signal.was_raised(),
        handle.was_taken() == signal.was_lowered(),
{
}

/// What happens to the handles of a signal.
pub enum HandleEvent {
    /// A handle was made, or cloned from another.
    Made { detached: bool },
    /// A handle was dropped.
    Dropped { detached: bool },
}

/// What an event does to the signal's count: a detached handle leaves it alone.
pub open spec fn count_change(event: HandleEvent) -> int {
    match event {
        HandleEvent::Made { detached } => if detached {
            0
        } else {
            1
        },
        HandleEvent::Dropped { detached } => if detached {
            0
        } else {
            -1
        },
    }
}

/// The count after a run of events.
pub open spec fn count_after(start: int, events: Seq<HandleEvent>) -> int
    decreases events.len(),
{
    if events.len() == 0 {
        start
    } else {
        count_after(start, events.drop_last()) + count_change(events.last())
    }
}

/// How many handles of the signal a run of events has made.
pub open spec fn made(events: Seq<HandleEvent>) -> nat {
    events.filter(|e: HandleEvent| e == HandleEvent::Made { detached: false }).len()
}

/// How many handles of the signal a run of events has dropped.
pub open spec fn dropped(events: Seq<HandleEvent>) -> nat {
    events.filter(|e: HandleEvent| e == HandleEvent::Dropped { detached: false }).len()
}

/// The count is the start and the handles that live: those made and not dropped.
/// Detached handles, in whatever number and order, do not show in it.
pub proof fn law_count_is_live_handles(start: int, events: Seq<HandleEvent>)
    ensures
        count_after(start, events) == start + made(events) - dropped(events),
    decreases events.len(),
{
    reveal(Seq::filter);
    if events.len() > 0 {
        law_count_is_live_handles(start, events.drop_last());
    }
}

/// A signal made by `new` is wanted exactly while a handle lives; one that is
/// wanted always is wanted whatever its count.
pub proof fn law_wanted_while_handles_live(events: Seq<HandleEvent>, handles: usize)
    requires
        handles == count_after(0, events),
    ensures
        wanted(false, handles) <==> made(events) > dropped(events),
        wanted(true, handles),
{
    law_count_is_live_handles(0, events);
}

/// Making a handle and dropping it gives the demand back: the signal is wanted in
/// between, and afterwards as it was before.
pub proof fn law_demand_is_given_back(always_wanted: bool, handles: usize)
    requires
        handles < usize::MAX,
    ensures
        ({
            let made = seq![HandleEvent::Made { detached: false }];
            let both = made.push(HandleEvent::Dropped { detached: false });
            &&& wanted(always_wanted, count_after(handles as int, made) as usize)
            &&& wanted(always_wanted, count_after(handles as int, both) as usize) == wanted(
                always_wanted,
                handles,
            )
        }),
{
    reveal_with_fuel(count_after, 3);
    let made = seq![HandleEvent::Made { detached: false }];
    let both = made.push(HandleEvent::Dropped { detached: false });
    assert(made.drop_last() =~= Seq::empty());
    assert(both.drop_last() =~= made);
}

/// Where the items of a pad go.
#[verifier::reject_recursive_types(T)]
enum PadSenderBackend<T: 'static, H> {
    /// To a handler, called on `send`. Both nodes run in the same task.
    Direct { handler: Arc<H> },
    /// Into a channel, to another task.
    Channel { tx: MpscSender<T> },
}

/// Where the items of a pad come from.
#[verifier::reject_recursive_types(T)]
enum PadReceiverBackend<T: 'static> {
    /// From the handler given to `new_direct`.
    Direct,
    /// From a channel.
    Channel { rx: MpscReceiver<T> },
}

/// Sender side of a pad, owned by the upstream node. `H` handles items of a direct
/// pad.
#[verifier::reject_recursive_types(T)]
pub struct PadSender<T: 'static, H> {
    inner: PadSenderBackend<T, H>,
    demand: DemandSignal,
}

/// Receiver side of a pad, owned by the downstream node.
#[verifier::reject_recursive_types(T)]
pub struct PadReceiver<T: 'static> {
    inner: PadReceiverBackend<T>,
    demand: DemandSignal,
}

impl<T: 'static, H> PadSender<T, H> {
    /// Whether items go to a handler.
    pub closed spec fn is_direct(&self) -> bool {
        self.inner is Direct
    }

    /// The handler of a direct pad.
    pub closed spec fn handler(&self) -> H {
        *self.inner->handler
    }

    /// The demand for the pad's items.
    pub closed spec fn signal(&self) -> DemandSignal {
        self.demand
    }

    /// The sender of a pad that is not direct.
    pub closed spec fn channel(&self) -> MpscSender<T> {
        self.inner->tx
    }
}

impl<T: 'static, H: Fn(T)> PadSender<T, H> {
    /// A pad whose items are passed to a handler.
    pub fn new_direct(on_item: H) -> (r: (Self, PadReceiver<T>))
        ensures
            r.0.is_direct(),
            r.0.handler() == on_item,
            r.1.is_direct(),
            !r.0.signal().is_permanent(),
            r.0.signal().may_start_with(0),
            r.1.signal() == r.0.signal(),
    {
        let demand = DemandSignal::new();
        let sender = PadSender {
            inner: PadSenderBackend::Direct { handler: Arc::new(on_item) },
            demand: demand.clone(),
        };
        let receiver = PadReceiver { inner: PadReceiverBackend::Direct, demand };
        (sender, receiver)
    }

    /// A pad whose items go through a channel.
    pub fn new_channel(capacity: usize) -> (r: (Self, PadReceiver<T>))
        requires
            capacity < 0x8000_0000,
        ensures
            !r.0.is_direct(),
            !r.1.is_direct(),
            may_open(capacity, r.0.channel(), r.1.channel()),
            !r.0.signal().is_permanent(),
            r.0.signal().may_start_with(0),
            r.1.signal() == r.0.signal(),
    {
        let (tx, rx) = mpsc("pad", None, capacity);
        let demand = DemandSignal::new();
        let sender = PadSender {
            inner: PadSenderBackend::Channel { tx },
            demand: demand.clone(),
        };
        let receiver = PadReceiver { inner: PadReceiverBackend::Channel { rx }, demand };
        (sender, receiver)
    }

    /// Sends an item downstream: a direct pad calls its handler and succeeds, a
    /// channel answers by its state.
    pub fn send(&self, item: T) -> (r: Result<(), SendError>)
        requires
            self.is_direct() ==> call_requires(self.handler(), (item,)),
        ensures
            self.is_direct() ==> r is Ok && call_ensures(self.handler(), (item,), ()),
            !self.is_direct() ==> exists|answer: TrySend| #[trigger]
                self.channel().may_answer(item, answer) && r == sent(answer),
    {
        match &self.inner {
            PadSenderBackend::Direct { handler } => {
                let f: &H = &**handler;
                f(item);
                Ok(())
            },
            PadSenderBackend::Channel { tx } => {
                let r = tx.send(item);
                assert(self.channel() == *tx);
                r
            },
        }
    }

    /// The demand for the pad's items, shared with the receiver.
    pub fn demand(&self) -> (r: &DemandSignal)
        ensures
            *r == self.signal(),
    {
        &self.demand
    }
}

impl<T: 'static, H> Clone for PadSender<T, H> {
    fn clone(&self) -> (r: Self)
        ensures
            r.is_direct() == self.is_direct(),
            self.is_direct() ==> r.handler() == self.handler(),
            !self.is_direct() ==> self.channel().may_clone_to(r.channel()),
            r.signal() == self.signal(),
    {
        let inner = match &self.inner {
            PadSenderBackend::Direct { handler } => PadSenderBackend::Direct {
                handler: share(handler),
            },
            PadSenderBackend::Channel { tx } => PadSenderBackend::Channel { tx: tx.clone() },
        };
        PadSender { inner, demand: self.demand.clone() }
    }
}

impl<T: 'static> PadReceiver<T> {
    /// Whether items go to a handler.
    pub closed spec fn is_direct(&self) -> bool {
        self.inner is Direct
    }

    /// The demand for the pad's items.
    pub closed spec fn signal(&self) -> DemandSignal {
        self.demand
    }

    /// The channel of a pad that is not direct.
    pub closed spec fn channel(&self) -> MpscReceiver<T> {
        self.inner->rx
    }

    /// The channel that items come from, or `None` on a direct pad, whose items go
    /// to its handler.
    pub fn into_channel(self) -> (r: Option<MpscReceiver<T>>)
        ensures
            r == if self.is_direct() {
                None
            } else {
                Some(self.channel())
            },
    {
        match self.inner {
            PadReceiverBackend::Direct => None,
            PadReceiverBackend::Channel { rx } => Some(rx),
        }
    }
}

/// Whether a processor does work, by default: some output is wanted.
pub fn any_wanted(demands: &[bool]) -> (r: bool)
    ensures
        r == demands@.contains(true),
{
    let mut i: usize = 0;
    while i < demands.len()
        invariant
            i <= demands@.len(),
            forall|k: int| 0 <= k < i ==> !(#[trigger] demands@[k]),
        decreases demands@.len() - i,
    {
        if demands[i] {
            assert(demands@[i as int]);
            return true;
        }
        i = i + 1;
    }
    false
}

/// There is demand exactly where it is permanent or a handle exists.
pub proof fn law_demand_by_handles(always_wanted: bool, handles: usize)
    ensures
        handles > 0 ==> wanted(always_wanted, handles),
        always_wanted ==> wanted(always_wanted, handles),
        !always_wanted && handles == 0 ==> !wanted(always_wanted, handles),
{
}

} // verus!
