//! Bounded, ordered event channels fed from native callbacks. A send never
//! waits: an event that finds the channel full or closed is dropped.
use vstd::prelude::*;

use crate::error::SpxError;
use std::collections::VecDeque;

verus! {

/// Capacity of an event channel when the caller names none.
pub const DEFAULT_CH_BUFF_SIZE: usize = 5;

/// What a channel holds: the events not yet received, in the order they were
/// sent, its capacity, and whether its sending side is still open.
pub struct ChannelModel<T> {
    pub items: Seq<T>,
    pub capacity: nat,
    pub open: bool,
}

/// Whether a send into `m` is accepted.
pub open spec fn accepts<T>(m: ChannelModel<T>) -> bool {
    m.open && m.items.len() < m.capacity
}

/// The channel after a send of `item`: appended if accepted, unchanged if not.
pub open spec fn model_send<T>(m: ChannelModel<T>, item: T) -> ChannelModel<T> {
    if accepts(m) {
        ChannelModel { items: m.items.push(item), ..m }
    } else {
        m
    }
}

/// The channel after sending `xs` in order, with nothing received meanwhile.
pub open spec fn model_send_all<T>(m: ChannelModel<T>, xs: Seq<T>) -> ChannelModel<T>
    decreases xs.len(),
{
    if xs.len() == 0 {
        m
    } else {
        model_send(model_send_all(m, xs.drop_last()), xs.last())
    }
}

/// How many of `xs` are dropped when they are sent in order into `m`.
pub open spec fn model_drops<T>(m: ChannelModel<T>, xs: Seq<T>) -> nat
    decreases xs.len(),
{
    if xs.len() == 0 {
        0
    } else {
        model_drops(m, xs.drop_last()) + if accepts(model_send_all(m, xs.drop_last())) {
            0nat
        } else {
            1nat
        }
    }
}

/// Why a send was refused; the event comes back.
#[derive(Debug, PartialEq, Eq)]
pub enum TrySendError<T> {
    Full(T),
    Disconnected(T),
}

/// What a receive found.
#[derive(Debug, PartialEq, Eq)]
pub enum TryRecv<T> {
    /// The oldest event not yet received.
    Item(T),
    /// Nothing now; more may come.
    Empty,
    /// Nothing now, and the sending side is closed: nothing more will come.
    Closed,
}

/// What became of one native callback's event.
#[derive(Debug, Clone, Copy, PartialEq, Eq, Structural)]
pub enum DispatchOutcome {
    Delivered,
    /// The event could not be built from its native handle.
    DroppedInvalid(SpxError),
    /// The channel was full.
    DroppedFull,
    /// The channel's sending side was closed.
    DroppedClosed,
}

/// What became of an event, and the event itself if it was built but refused.
pub struct Dispatched<T> {
    pub outcome: DispatchOutcome,
    pub refused: Option<T>,
}

/// A bounded first-in first-out channel of events.
pub struct EventChannel<T> {
    queue: VecDeque<T>,
    capacity: usize,
    open: bool,
}

impl<T> View for EventChannel<T> {
    type V = ChannelModel<T>;

    closed spec fn view(&self) -> ChannelModel<T> {
        ChannelModel { items: self.queue@, capacity: self.capacity as nat, open: self.open }
    }
}

impl<T> EventChannel<T> {
    pub closed spec fn wf(&self) -> bool {
        self.queue@.len() <= self.capacity
    }

    /// An open, empty channel that holds at most `capacity` events.
    pub fn new(capacity: usize) -> (r: EventChannel<T>)
        ensures
            r.wf(),
            r@ == (ChannelModel::<T> { items: Seq::empty(), capacity: capacity as nat, open: true }),
    {
        EventChannel { queue: VecDeque::new(), capacity, open: true }
    }

    pub fn capacity(&self) -> (r: usize)
        ensures
            r == self@.capacity,
    {
        self.capacity
    }

    /// The number of events waiting to be received.
    pub fn len(&self) -> (r: usize)
        ensures
            r == self@.items.len(),
    {
        self.queue.len()
    }

    pub fn is_open(&self) -> (r: bool)
        ensures
            r == self@.open,
    {
        self.open
    }

    /// Sends without waiting: the event is appended when the channel is open
    /// and not full, and handed back otherwise.
    pub fn try_send(&mut self, item: T) -> (r: Result<(), TrySendError<T>>)
        requires
            old(self).wf(),
        ensures
            final(self).wf(),
            final(self)@ == model_send(old(self)@, item),
            r is Ok <==> accepts(old(self)@),
            !old(self)@.open ==> r == Err::<(), TrySendError<T>>(TrySendError::Disconnected(item)),
            old(self)@.open && !accepts(old(self)@) ==> r == Err::<(), TrySendError<T>>(
                TrySendError::Full(item),
            ),
    {
        if !self.open {
            Err(TrySendError::Disconnected(item))
        } else if self.queue.len() >= self.capacity {
            Err(TrySendError::Full(item))
        } else {
            self.queue.push_back(item);
            Ok(())
        }
    }

    /// Receives the oldest waiting event, if any.
    pub fn try_recv(&mut self) -> (r: TryRecv<T>)
        requires
            old(self).wf(),
        ensures
            final(self).wf(),
            final(self)@.capacity == old(self)@.capacity,
            final(self)@.open == old(self)@.open,
            old(self)@.items.len() > 0 ==> {
                &&& r == TryRecv::Item(old(self)@.items[0])
                &&& final(self)@.items == old(self)@.items.drop_first()
            },
            old(self)@.items.len() == 0 ==> final(self)@.items == old(self)@.items,
            old(self)@.items.len() == 0 && old(self)@.open ==> r is Empty,
            old(self)@.items.len() == 0 && !old(self)@.open ==> r is Closed,
    {
        match self.queue.pop_front() {
            Some(x) => TryRecv::Item(x),
            None => {
                if self.open {
                    TryRecv::Empty
                } else {
                    TryRecv::Closed
                }
            },
        }
    }

    /// Closes the sending side. Events already sent can still be received.
    pub fn close(&mut self)
        requires
            old(self).wf(),
        ensures
            final(self).wf(),
            final(self)@ == (ChannelModel { open: false, ..old(self)@ }),
    {
        self.open = false;
    }
}

/// Delivers one event built by a native callback: an event that could not be
/// built, or that finds the channel full or closed, is dropped, and the
/// outcome says why. Nothing here waits.
pub fn deliver<T>(channel: &mut EventChannel<T>, event: Result<T, SpxError>) -> (r: Dispatched<T>)
    requires
        old(channel).wf(),
    ensures
        final(channel).wf(),
        match event {
            Ok(e) => {
                &&& final(channel)@ == model_send(old(channel)@, e)
                &&& (accepts(old(channel)@) ==> r.outcome is Delivered && r.refused is None)
                &&& (!old(channel)@.open ==> r.outcome is DroppedClosed && r.refused == Some(e))
                &&& (old(channel)@.open && !accepts(old(channel)@) ==> r.outcome is DroppedFull
                    && r.refused == Some(e))
            },
            Err(e) => {
                &&& final(channel)@ == old(channel)@
                &&& r.outcome == DispatchOutcome::DroppedInvalid(e)
                &&& r.refused is None
            },
        },
{
    match event {
        Ok(e) => match channel.try_send(e) {
            Ok(()) => Dispatched { outcome: DispatchOutcome::Delivered, refused: None },
            Err(TrySendError::Full(x)) => Dispatched { outcome: DispatchOutcome::DroppedFull, refused: Some(x) },
            Err(TrySendError::Disconnected(x)) => Dispatched {
                outcome: DispatchOutcome::DroppedClosed,
                refused: Some(x),
            },
        },
        Err(e) => Dispatched { outcome: DispatchOutcome::DroppedInvalid(e), refused: None },
    }
}

/// The capacity of a channel asked for with `buff_size`.
pub fn channel_capacity(buff_size: Option<usize>) -> (r: usize)
    ensures
        r == match buff_size {
            Some(n) => n,
            None => DEFAULT_CH_BUFF_SIZE,
        },
{
    match buff_size {
        Some(n) => n,
        None => DEFAULT_CH_BUFF_SIZE,
    }
}

/// The registration of one event class: at most one channel at a time.
pub struct EventBridge<T> {
    channel: Option<EventChannel<T>>,
}

impl<T> EventBridge<T> {
    /// The registered channel's state, if a channel is registered.
    pub closed spec fn current(&self) -> Option<ChannelModel<T>> {
        match self.channel {
            Some(c) => Some(c@),
            None => None,
        }
    }

    /// A registered channel is open: closing goes with deregistering.
    pub closed spec fn wf(&self) -> bool {
        self.channel matches Some(c) ==> c.wf() && c@.open
    }

    /// A bridge with nothing registered.
    pub fn new() -> (r: EventBridge<T>)
        ensures
            r.wf(),
            r.current() is None,
    {
        EventBridge { channel: None }
    }

    /// Whether a channel is registered, so that the native callback is to be
    /// installed (and not cleared).
    pub fn is_connected(&self) -> (r: bool)
        ensures
            r == self.current() is Some,
    {
        self.channel.is_some()
    }

    /// Registers a new, empty channel of the given capacity. A channel that
    /// was registered before is replaced: it comes back closed, with the
    /// events it still held, so that its reader sees the end of the stream.
    pub fn register(&mut self, capacity: usize) -> (r: Option<EventChannel<T>>)
        requires
            old(self).wf(),
        ensures
            final(self).wf(),
            final(self).current() == Some(
                ChannelModel::<T> { items: Seq::empty(), capacity: capacity as nat, open: true },
            ),
            match old(self).current() {
                Some(m) => r matches Some(c) && c.wf() && c@ == (ChannelModel { open: false, ..m }),
                None => r is None,
            },
    {
        let old_channel = self.deregister();
        self.channel = Some(EventChannel::new(capacity));
        old_channel
    }

    /// Removes the registered channel, if any, and hands it back closed.
    pub fn deregister(&mut self) -> (r: Option<EventChannel<T>>)
        requires
            old(self).wf(),
        ensures
            final(self).wf(),
            final(self).current() is None,
            match old(self).current() {
                Some(m) => r matches Some(c) && c.wf() && c@ == (ChannelModel { open: false, ..m }),
                None => r is None,
            },
    {
        match self.channel.take() {
            Some(mut c) => {
                c.close();
                Some(c)
            },
            None => None,
        }
    }

    /// Delivers one event from the native callback into the registered
    /// channel. With no channel registered the event is dropped as if the
    /// channel were closed.
    pub fn dispatch(&mut self, event: Result<T, SpxError>) -> (r: Dispatched<T>)
        requires
            old(self).wf(),
        ensures
            final(self).wf(),
            match old(self).current() {
                Some(m) => match event {
                    Ok(e) => {
                        &&& final(self).current() == Some(model_send(m, e))
                        &&& m.open
                        &&& (accepts(m) ==> r.outcome is Delivered && r.refused is None)
                        &&& (!accepts(m) ==> r.outcome is DroppedFull && r.refused == Some(e))
                    },
                    Err(e) => {
                        &&& final(self).current() == Some(m)
                        &&& r.outcome == DispatchOutcome::DroppedInvalid(e)
                        &&& r.refused is None
                    },
                },
                None => {
                    &&& final(self).current() is None
                    &&& (event matches Err(e) ==> r.outcome == DispatchOutcome::DroppedInvalid(e)
                        && r.refused is None)
                    &&& (event matches Ok(e) ==> r.outcome is DroppedClosed && r.refused == Some(e))
                },
            },
    {
        match &mut self.channel {
            Some(c) => deliver(c, event),
            None => match event {
                Ok(e) => Dispatched { outcome: DispatchOutcome::DroppedClosed, refused: Some(e) },
                Err(e) => Dispatched { outcome: DispatchOutcome::DroppedInvalid(e), refused: None },
            },
        }
    }

    /// Receives the oldest waiting event of the registered channel. With no
    /// channel registered the stream has ended.
    pub fn try_recv(&mut self) -> (r: TryRecv<T>)
        requires
            old(self).wf(),
        ensures
            final(self).wf(),
            match old(self).current() {
                Some(m) => final(self).current() matches Some(m2) && {
                    &&& m2.capacity == m.capacity
                    &&& m2.open == m.open
                    &&& (m.items.len() > 0 ==> r == TryRecv::Item(m.items[0]) && m2.items
                        == m.items.drop_first())
                    &&& (m.items.len() == 0 ==> m2.items == m.items && r is Empty)
                },
                None => final(self).current() is None && r is Closed,
            },
    {
        match &mut self.channel {
            Some(c) => c.try_recv(),
            None => TryRecv::Closed,
        }
    }
}

/// Sending `xs` into an open, empty channel of capacity `k`, with nothing
/// received meanwhile, keeps the first `k` of them in order and drops the
/// rest.
pub proof fn lemma_send_all_keeps_first<T>(k: nat, xs: Seq<T>)
    ensures
        model_send_all(ChannelModel::<T> { items: Seq::empty(), capacity: k, open: true }, xs).items
            == xs.take(if xs.len() <= k { xs.len() as int } else { k as int }),
        model_send_all(ChannelModel::<T> { items: Seq::empty(), capacity: k, open: true }, xs).open,
        model_send_all(ChannelModel::<T> { items: Seq::empty(), capacity: k, open: true }, xs).capacity == k,
        model_drops(ChannelModel::<T> { items: Seq::empty(), capacity: k, open: true }, xs)
            == if xs.len() <= k { 0 } else { (xs.len() - k) as nat },
    decreases xs.len(),
{
        if xs.len() == 0 {
        assert(xs.take(0) =~= Seq::<T>::empty());
    } else {
        let init = xs.drop_last();
        lemma_send_all_keeps_first::<T>(k, init);
        if init.len() < k {
            assert(xs.take(xs.len() as int) =~= init.take(init.len() as int).push(xs.last()));
        } else {
            assert(xs.take(k as int) =~= init.take(k as int));
        }
    }
}

/// A channel of capacity `k` that receives `k + 1` events before anyone reads
/// it keeps exactly the first `k`, in order, and drops exactly one.
pub proof fn lemma_overflow_drops_one<T>(k: nat, xs: Seq<T>)
    requires
        xs.len() == k + 1,
    ensures
        model_send_all(ChannelModel::<T> { items: Seq::empty(), capacity: k, open: true }, xs).items
            == xs.take(k as int),
        model_drops(ChannelModel::<T> { items: Seq::empty(), capacity: k, open: true }, xs) == 1,
{
    lemma_send_all_keeps_first::<T>(k, xs);
}

/// A closed channel accepts nothing more: every later send is dropped.
pub proof fn lemma_closed_accepts_nothing<T>(m: ChannelModel<T>, xs: Seq<T>)
    requires
        !m.open,
    ensures
        model_send_all(m, xs) == m,
        model_drops(m, xs) == xs.len(),
    decreases xs.len(),
{
    if xs.len() > 0 {
        lemma_closed_accepts_nothing(m, xs.drop_last());
    }
}

} // verus!
