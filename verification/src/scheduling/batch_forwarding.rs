//! Groups a stream of items into batches by size or elapsed time.
//!
//! The forwarder itself never waits and never sends. A driver owns the two
//! channels and the clock: it feeds each thing that happens to
//! [`BatchForwarder::step`] as a [`BatchEvent`] and carries out the
//! [`BatchAction`] that comes back.

use std::time::Duration;
use vstd::prelude::*;

verus! {

/// Something that happened to the driver of a [`BatchForwarder`].
pub enum BatchEvent<T> {
    /// The input produced an item.
    Received(T),
    /// The input is closed and drained.
    InputClosed,
    /// The timer of the open batch ran out.
    TimedOut,
    /// The consumer of the output has gone away.
    OutputClosed,
}

/// What the driver of a [`BatchForwarder`] has to do next.
pub enum BatchAction<T> {
    /// Go on waiting for input; a running timer keeps running.
    Continue,
    /// A batch was opened: start its timer with this duration, then wait for
    /// input.
    StartTimer(Duration),
    /// Stop the timer and send this batch. If the send fails, report
    /// [`BatchEvent::OutputClosed`]; otherwise wait for input.
    Send(Vec<T>),
    /// Leave the loop.
    Exit,
}

/// The mathematical content of a [`BatchAction`].
pub enum BatchActionView<T> {
    Continue,
    StartTimer(Duration),
    Send(Seq<T>),
    Exit,
}

impl<T> View for BatchAction<T> {
    type V = BatchActionView<T>;

    open spec fn view(&self) -> BatchActionView<T> {
        match *self {
            BatchAction::Continue => BatchActionView::Continue,
            BatchAction::StartTimer(d) => BatchActionView::StartTimer(d),
            BatchAction::Send(batch) => BatchActionView::Send(batch@),
            BatchAction::Exit => BatchActionView::Exit,
        }
    }
}

/// The mathematical content of a [`BatchForwarder`].
pub struct BatchState<T> {
    /// The items of the open batch, oldest first; empty when none is open.
    pub batch: Seq<T>,
    /// How long a batch may stay open.
    pub batch_duration: Duration,
    /// How many items make a batch full.
    pub max_size: nat,
    /// Whether the forwarder has left its loop.
    pub stopped: bool,
}

impl<T> BatchState<T> {
    /// A batch is never empty once sent, so the limit is at least one, and an
    /// open batch is always short of it.
    pub open spec fn wf(self) -> bool {
        &&& self.max_size >= 1
        &&& self.batch.len() < self.max_size
        &&& self.stopped ==> self.batch.len() == 0
    }

    /// The state before anything has happened.
    pub open spec fn initial(batch_duration: Duration, max_size: nat) -> BatchState<T> {
        BatchState { batch: Seq::empty(), batch_duration, max_size, stopped: false }
    }

    /// The state after `event`, and the action that answers it.
    pub open spec fn step(self, event: BatchEvent<T>) -> (BatchState<T>, BatchActionView<T>) {
        if self.stopped {
            (self, BatchActionView::Exit)
        } else {
            match event {
                BatchEvent::Received(item) => {
                    if self.batch.len() + 1 >= self.max_size {
                        (
                            BatchState { batch: Seq::empty(), ..self },
                            BatchActionView::Send(self.batch.push(item)),
                        )
                    } else if self.batch.len() == 0 {
                        (
                            BatchState { batch: seq![item], ..self },
                            BatchActionView::StartTimer(self.batch_duration),
                        )
                    } else {
                        (
                            BatchState { batch: self.batch.push(item), ..self },
                            BatchActionView::Continue,
                        )
                    }
                },
                BatchEvent::TimedOut => {
                    if self.batch.len() > 0 {
                        (
                            BatchState { batch: Seq::empty(), ..self },
                            BatchActionView::Send(self.batch),
                        )
                    } else {
                        (self, BatchActionView::Continue)
                    }
                },
                BatchEvent::InputClosed => {
                    if self.batch.len() > 0 {
                        (
                            BatchState { batch: Seq::empty(), stopped: true, ..self },
                            BatchActionView::Send(self.batch),
                        )
                    } else {
                        (BatchState { stopped: true, ..self }, BatchActionView::Exit)
                    }
                },
                BatchEvent::OutputClosed => (
                    BatchState { batch: Seq::empty(), stopped: true, ..self },
                    BatchActionView::Exit,
                ),
            }
        }
    }

    /// The state after all of `events`, in order.
    pub open spec fn after(self, events: Seq<BatchEvent<T>>) -> BatchState<T>
        decreases events.len(),
    {
        if events.len() == 0 {
            self
        } else {
            self.step(events[0]).0.after(events.drop_first())
        }
    }

    /// The batches that the driver is told to send while `events` happen, in
    /// the order in which it is told.
    pub open spec fn sent(self, events: Seq<BatchEvent<T>>) -> Seq<Seq<T>>
        decreases events.len(),
    {
        if events.len() == 0 {
            Seq::empty()
        } else {
            let (next, action) = self.step(events[0]);
            let rest = next.sent(events.drop_first());
            match action {
                BatchActionView::Send(batch) => seq![batch] + rest,
                _ => rest,
            }
        }
    }
}

/// The items that `events` bring in before the input closes.
pub open spec fn items_received<T>(events: Seq<BatchEvent<T>>) -> Seq<T>
    decreases events.len(),
{
    if events.len() == 0 {
        Seq::empty()
    } else {
        match events[0] {
            BatchEvent::Received(item) => seq![item] + items_received(events.drop_first()),
            BatchEvent::InputClosed => Seq::empty(),
            _ => items_received(events.drop_first()),
        }
    }
}

/// Whether the consumer of the output stays for the whole of `events`.
pub open spec fn output_stays_open<T>(events: Seq<BatchEvent<T>>) -> bool {
    forall|i: int| 0 <= i < events.len() ==> !(#[trigger] events[i] is OutputClosed)
}

/// One event for each of `items`, in order.
pub open spec fn arrivals<T>(items: Seq<T>) -> Seq<BatchEvent<T>> {
    Seq::new(items.len(), |i: int| BatchEvent::Received(items[i]))
}

/// `items` cut into runs of `size`, the last of which may be shorter.
pub open spec fn chunks<T>(items: Seq<T>, size: nat) -> Seq<Seq<T>>
    decreases items.len(),
{
    if items.len() == 0 || size == 0 {
        Seq::empty()
    } else if items.len() <= size {
        seq![items]
    } else {
        seq![items.take(size as int)] + chunks(items.skip(size as int), size)
    }
}

/// All the items of `batches`, in order.
pub open spec fn concat<T>(batches: Seq<Seq<T>>) -> Seq<T>
    decreases batches.len(),
{
    if batches.len() == 0 {
        Seq::empty()
    } else {
        batches[0] + concat(batches.drop_first())
    }
}

/// A step keeps a well-formed state well-formed.
pub proof fn lemma_step_keeps_wf<T>(state: BatchState<T>, event: BatchEvent<T>)
    requires
        state.wf(),
    ensures
        state.step(event).0.wf(),
        state.step(event).0.max_size == state.max_size,
        state.step(event).0.batch_duration == state.batch_duration,
{
}

/// Every batch that is sent holds at least one item and at most `max_size`,
/// and one that an arriving item completes holds exactly `max_size`.
pub proof fn lemma_sent_batches_are_bounded<T>(state: BatchState<T>, events: Seq<BatchEvent<T>>)
    requires
        state.wf(),
    ensures
        forall|i: int|
            0 <= i < state.sent(events).len() ==> 1 <= (#[trigger] state.sent(events)[i]).len()
                <= state.max_size,
        forall|event: BatchEvent<T>|
            event is Received ==> (#[trigger] state.step(event).1 matches BatchActionView::Send(
                batch,
            ) ==> batch.len() == state.max_size),
    decreases events.len(),
{
    if events.len() > 0 {
        let (next, action) = state.step(events[0]);
        let rest = next.sent(events.drop_first());
        lemma_step_keeps_wf(state, events[0]);
        lemma_sent_batches_are_bounded(next, events.drop_first());
        assert forall|i: int| 0 <= i < state.sent(events).len() implies 1 <= (
        #[trigger] state.sent(events)[i]).len() <= state.max_size by {
            if action is Send && i > 0 {
                assert(state.sent(events)[i] == rest[i - 1]);
            }
        }
    }
}

/// While the consumer of the output stays, nothing is lost and nothing
/// changes place: the batches sent so far, followed by the open batch, are
/// the items that came in, in the order in which they came. Once the input
/// has closed no batch is open, so the last batch, however short, has been
/// sent.
pub proof fn lemma_nothing_is_lost<T>(state: BatchState<T>, events: Seq<BatchEvent<T>>)
    requires
        state.wf(),
        !state.stopped,
        output_stays_open(events),
    ensures
        concat(state.sent(events)) + state.after(events).batch == state.batch + items_received(
            events,
        ),
        state.after(events).stopped ==> concat(state.sent(events)) == state.batch
            + items_received(events),
    decreases events.len(),
{
    if events.len() > 0 {
        let (next, action) = state.step(events[0]);
        let rest = events.drop_first();
        lemma_step_keeps_wf(state, events[0]);
        if next.stopped {
            lemma_stopped_sends_nothing(next, rest);
            if state.batch.len() > 0 {
                assert(state.sent(events).drop_first() =~= Seq::<Seq<T>>::empty());
            }
        } else {
            assert forall|i: int| 0 <= i < rest.len() implies !(#[trigger] rest[i]
                is OutputClosed) by {
                assert(rest[i] == events[i + 1]);
            }
            lemma_nothing_is_lost(next, rest);
            if let BatchActionView::Send(batch) = action {
                assert((seq![batch] + next.sent(rest)).drop_first() =~= next.sent(rest));
            }
        }
        lemma_after_keeps_wf(state, events);
    }
}

/// A run of steps keeps a well-formed state well-formed.
pub proof fn lemma_after_keeps_wf<T>(state: BatchState<T>, events: Seq<BatchEvent<T>>)
    requires
        state.wf(),
    ensures
        state.after(events).wf(),
        state.after(events).max_size == state.max_size,
        state.after(events).batch_duration == state.batch_duration,
    decreases events.len(),
{
    if events.len() > 0 {
        lemma_step_keeps_wf(state, events[0]);
        lemma_after_keeps_wf(state.step(events[0]).0, events.drop_first());
    }
}

/// A forwarder that has left its loop stays out of it and sends nothing.
pub proof fn lemma_stopped_sends_nothing<T>(state: BatchState<T>, events: Seq<BatchEvent<T>>)
    requires
        state.stopped,
    ensures
        state.sent(events) == Seq::<Seq<T>>::empty(),
        state.after(events) == state,
    decreases events.len(),
{
    if events.len() > 0 {
        lemma_stopped_sends_nothing(state, events.drop_first());
    }
}

/// Once the consumer of the output has gone away nothing more is sent,
/// whatever comes in: the open batch is dropped and the forwarder has left
/// its loop.
pub proof fn lemma_closed_output_ends_it<T>(state: BatchState<T>, events: Seq<BatchEvent<T>>)
    requires
        events.len() > 0,
        events[0] is OutputClosed,
    ensures
        state.sent(events) == Seq::<Seq<T>>::empty(),
        state.after(events).stopped,
        state.step(events[0]).1 is Exit,
{
    let next = state.step(events[0]).0;
    lemma_stopped_sends_nothing(next, events.drop_first());
}

/// With no timer running out and the consumer staying, items that arrive
/// and are followed by the closing of the input leave in runs of exactly
/// `max_size`, but for the last run, which holds what is left.
pub proof fn lemma_untimed_input_is_chunked<T>(state: BatchState<T>, items: Seq<T>)
    requires
        state.wf(),
        !state.stopped,
    ensures
        state.sent(arrivals(items).push(BatchEvent::InputClosed)) == chunks(
            state.batch + items,
            state.max_size,
        ),
    decreases items.len(),
{
    let events = arrivals(items).push(BatchEvent::InputClosed);
    let all = state.batch + items;
    if items.len() == 0 {
        lemma_stopped_sends_nothing(state.step(events[0]).0, events.drop_first());
    } else {
        let item = items[0];
        let tail = items.drop_first();
        assert(events.drop_first() =~= arrivals(tail).push(BatchEvent::InputClosed));
        let next = state.step(events[0]).0;
        lemma_step_keeps_wf(state, events[0]);
        lemma_untimed_input_is_chunked(next, tail);
        if state.batch.len() + 1 >= state.max_size {
            let full = state.batch.push(item);
            if tail.len() == 0 {
                assert(all =~= full);
            } else {
                assert(all.take(state.max_size as int) =~= full);
                assert(all.skip(state.max_size as int) =~= tail);
            }
        } else {
            assert(next.batch + tail =~= all);
        }
    }
}

/// The timer of a batch: it is started, with `batch_duration`, by the item
/// that opens the batch; nothing starts it again while the batch is open; and
/// when it runs out the batch is sent at once.
pub proof fn lemma_open_batch_is_timed<T>(state: BatchState<T>, event: BatchEvent<T>)
    requires
        state.wf(),
        !state.stopped,
    ensures
        (state.batch.len() == 0 && state.max_size > 1 && event is Received) ==> state.step(
            event,
        ).1 == BatchActionView::<T>::StartTimer(state.batch_duration),
        state.batch.len() > 0 ==> !(state.step(event).1 is StartTimer),
        (state.batch.len() > 0 && event is TimedOut) ==> state.step(event).1
            == BatchActionView::Send(state.batch),
{
}

/// An event and the time at which it happens, on a clock that the driver
/// reads.
pub struct Timed<T> {
    pub at: nat,
    pub event: BatchEvent<T>,
}

/// A batch that was sent, with the time at which its first item arrived and
/// the time at which it was sent.
pub struct SentAt<T> {
    pub opened_at: nat,
    pub sent_at: nat,
    pub batch: Seq<T>,
}

impl<T> BatchState<T> {
    /// When the batch that is open after an event at `now` was opened:
    /// just now, if none was open before.
    pub open spec fn opened(self, opened_at: nat, now: nat) -> nat {
        if self.batch.len() == 0 {
            now
        } else {
            opened_at
        }
    }

    /// The batches that are sent while `events` happen, each with the time
    /// at which it was opened and the time at which it was sent. `opened_at`
    /// is the time at which the batch that is open at first was opened.
    pub open spec fn sent_at(self, opened_at: nat, events: Seq<Timed<T>>) -> Seq<SentAt<T>>
        decreases events.len(),
    {
        if events.len() == 0 {
            Seq::empty()
        } else {
            let now = events[0].at;
            let (next, action) = self.step(events[0].event);
            let opened = self.opened(opened_at, now);
            let rest = next.sent_at(opened, events.drop_first());
            match action {
                BatchActionView::Send(batch) => seq![
                    SentAt { opened_at: opened, sent_at: now, batch },
                ] + rest,
                _ => rest,
            }
        }
    }

    /// Whether the driver is punctual: while a batch is open, whatever
    /// happens next happens no later than `wait` after the batch was opened.
    /// A timer of that length, started when the batch is opened, makes it so.
    pub open spec fn punctual(self, opened_at: nat, wait: nat, events: Seq<Timed<T>>) -> bool
        decreases events.len(),
    {
        events.len() > 0 ==> {
            let now = events[0].at;
            &&& self.batch.len() > 0 ==> now <= opened_at + wait
            &&& self.step(events[0].event).0.punctual(
                self.opened(opened_at, now),
                wait,
                events.drop_first(),
            )
        }
    }
}

/// With a punctual driver no batch waits longer than `wait`: every batch is
/// sent no later than `wait` after its first item arrived, however few items
/// it holds by then.
pub proof fn lemma_no_batch_waits_longer<T>(
    state: BatchState<T>,
    opened_at: nat,
    wait: nat,
    events: Seq<Timed<T>>,
)
    requires
        state.wf(),
        state.punctual(opened_at, wait, events),
    ensures
        forall|i: int|
            0 <= i < state.sent_at(opened_at, events).len() ==> (#[trigger] state.sent_at(
                opened_at,
                events,
            )[i]).sent_at <= state.sent_at(opened_at, events)[i].opened_at + wait,
    decreases events.len(),
{
    if events.len() > 0 {
        let now = events[0].at;
        let (next, action) = state.step(events[0].event);
        let opened = state.opened(opened_at, now);
        let rest = next.sent_at(opened, events.drop_first());
        lemma_step_keeps_wf(state, events[0].event);
        lemma_no_batch_waits_longer(next, opened, wait, events.drop_first());
        assert forall|i: int| 0 <= i < state.sent_at(opened_at, events).len() implies (
        #[trigger] state.sent_at(opened_at, events)[i]).sent_at <= state.sent_at(
            opened_at,
            events,
        )[i].opened_at + wait by {
            if action is Send && i > 0 {
                assert(state.sent_at(opened_at, events)[i] == rest[i - 1]);
            }
        }
    }
}

/// The clock changes nothing about what is sent: the batches sent while
/// timed events happen are those sent while the same events happen untimed.
pub proof fn lemma_clock_changes_no_batch<T>(
    state: BatchState<T>,
    opened_at: nat,
    events: Seq<Timed<T>>,
)
    ensures
        state.sent_at(opened_at, events).map_values(|sent: SentAt<T>| sent.batch) == state.sent(
            events.map_values(|timed: Timed<T>| timed.event),
        ),
    decreases events.len(),
{
    let untimed = events.map_values(|timed: Timed<T>| timed.event);
    if events.len() > 0 {
        let next = state.step(events[0].event).0;
        let opened = state.opened(opened_at, events[0].at);
        assert(untimed.drop_first() =~= events.drop_first().map_values(
            |timed: Timed<T>| timed.event,
        ));
        lemma_clock_changes_no_batch(next, opened, events.drop_first());
    }
}

/// Collects items into batches of at most `max_size`, each sent no later than
/// `batch_duration` after its first item arrived.
pub struct BatchForwarder<T> {
    batch: Vec<T>,
    batch_duration: Duration,
    max_size: usize,
    stopped: bool,
}

impl<T> View for BatchForwarder<T> {
    type V = BatchState<T>;

    closed spec fn view(&self) -> BatchState<T> {
        BatchState {
            batch: self.batch@,
            batch_duration: self.batch_duration,
            max_size: self.max_size as nat,
            stopped: self.stopped,
        }
    }
}

impl<T> BatchForwarder<T> {
    #[verifier::type_invariant]
    spec fn inv(self) -> bool {
        self@.wf()
    }

    /// A forwarder with no batch open.
    pub fn new(batch_duration: Duration, max_size: usize) -> (forwarder: Self)
        requires
            max_size >= 1,
        ensures
            forwarder@ == BatchState::<T>::initial(batch_duration, max_size as nat),
            forwarder@.wf(),
    {
        BatchForwarder { batch: Vec::new(), batch_duration, max_size, stopped: false }
    }

    /// How many items the open batch holds.
    pub fn pending(&self) -> (n: usize)
        ensures
            n == self@.batch.len(),
            n < self@.max_size,
    {
        proof {
            use_type_invariant(self);
        }
        self.batch.len()
    }

    /// Whether the forwarder has left its loop.
    pub fn is_stopped(&self) -> (stopped: bool)
        ensures
            stopped == self@.stopped,
    {
        self.stopped
    }

    /// Takes in one event and says what to do about it.
    ///
    /// An item that fills the batch has it sent at once; with a limit of one
    /// that is every item. The first item of a longer batch starts the timer.
    /// When the timer runs out or the input closes, what has been collected
    /// is sent. When the output closes, the forwarder stops and sends nothing
    /// more.
    pub fn step(&mut self, event: BatchEvent<T>) -> (action: BatchAction<T>)
        ensures
            (final(self)@, action@) == old(self)@.step(event),
            final(self)@.wf(),
    {
        proof {
            use_type_invariant(&*self);
        }
        if self.stopped {
            return BatchAction::Exit;
        }
        match event {
            BatchEvent::Received(item) => {
                if self.batch.len() + 1 >= self.max_size {
                    let mut full = self.take_batch();
                    full.push(item);
                    BatchAction::Send(full)
                } else if self.batch.len() == 0 {
                    self.push_item(item);
                    assert(self.batch@ =~= seq![item]);
                    BatchAction::StartTimer(self.batch_duration)
                } else {
                    self.push_item(item);
                    BatchAction::Continue
                }
            },
            BatchEvent::TimedOut => {
                if self.batch.len() > 0 {
                    BatchAction::Send(self.take_batch())
                } else {
                    BatchAction::Continue
                }
            },
            BatchEvent::InputClosed => {
                if self.batch.len() > 0 {
                    let last = self.take_batch();
                    self.stopped = true;
                    BatchAction::Send(last)
                } else {
                    self.stopped = true;
                    BatchAction::Exit
                }
            },
            BatchEvent::OutputClosed => {
                let _ = self.take_batch();
                self.stopped = true;
                BatchAction::Exit
            },
        }
    }

    /// Hands out the open batch and leaves none open.
    fn take_batch(&mut self) -> (batch: Vec<T>)
        ensures
            batch@ == old(self).batch@,
            final(self).batch@ == Seq::<T>::empty(),
            final(self).batch_duration == old(self).batch_duration,
            final(self).max_size == old(self).max_size,
            final(self).stopped == old(self).stopped,
    {
        proof {
            use_type_invariant(&*self);
        }
        let mut batch = Vec::new();
        std::mem::swap(&mut self.batch, &mut batch);
        batch
    }

    /// Adds an item to a batch that it does not fill.
    fn push_item(&mut self, item: T)
        requires
            old(self).batch@.len() + 1 < old(self).max_size,
            !old(self).stopped,
        ensures
            final(self).batch@ == old(self).batch@.push(item),
            final(self).batch_duration == old(self).batch_duration,
            final(self).max_size == old(self).max_size,
            final(self).stopped == old(self).stopped,
    {
        proof {
            use_type_invariant(&*self);
        }
        let mut batch = Vec::new();
        std::mem::swap(&mut self.batch, &mut batch);
        batch.push(item);
        self.batch = batch;
    }
}

/// Taking one more event at the end of a run adds what that event's step
/// sends, and nothing else.
pub proof fn lemma_sent_push<T>(
    state: BatchState<T>,
    events: Seq<BatchEvent<T>>,
    event: BatchEvent<T>,
)
    ensures
        state.after(events.push(event)) == state.after(events).step(event).0,
        state.sent(events.push(event)) == state.sent(events) + (match state.after(events).step(
            event,
        ).1 {
            BatchActionView::Send(batch) => seq![batch],
            _ => Seq::empty(),
        }),
    decreases events.len(),
{
    if events.len() == 0 {
        let one = events.push(event);
        let next = state.step(event).0;
        assert(next.sent(one.drop_first()) == Seq::<Seq<T>>::empty());
        assert(next.after(one.drop_first()) == next);
    } else {
        let next = state.step(events[0]).0;
        assert(events.push(event).drop_first() =~= events.drop_first().push(event));
        lemma_sent_push(next, events.drop_first(), event);
    }
}

/// The batches as sequences.
pub open spec fn batches_view<T>(batches: Seq<Vec<T>>) -> Seq<Seq<T>> {
    batches.map_values(|batch: Vec<T>| batch@)
}

/// Runs a forwarder over a recorded sequence of events and returns the
/// batches that it has sent, in order.
pub fn batch_forward<T>(events: Vec<BatchEvent<T>>, batch_duration: Duration, max_size: usize) -> (sent:
    Vec<Vec<T>>)
    requires
        max_size >= 1,
    ensures
        batches_view(sent@) == BatchState::<T>::initial(batch_duration, max_size as nat).sent(
            events@,
        ),
{
    let ghost start = BatchState::<T>::initial(batch_duration, max_size as nat);
    let ghost all = events@;
    let mut forwarder = BatchForwarder::new(batch_duration, max_size);
    let mut sent: Vec<Vec<T>> = Vec::new();
    for event in it: events
        invariant
            it.seq() == all,
            forwarder@ == start.after(all.take(it.index() as int)),
            batches_view(sent@) == start.sent(all.take(it.index() as int)),
    {
        let ghost done = all.take(it.index() as int);
        proof {
            lemma_sent_push(start, done, event);
            assert(all.take(it.index() + 1) =~= done.push(event));
        }
        if let BatchAction::Send(batch) = forwarder.step(event) {
            sent.push(batch);
        }
    }
    assert(all.take(all.len() as int) =~= all);
    sent
}

} // verus!
