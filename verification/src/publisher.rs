//! The dispatcher: a table of subscribers per event, and the fan-out of a
//! published event into one job per subscriber.

use crate::event::Event;
use crate::message_bus::{
    lemma_after_steps, lemma_queue_all, BusState, MessageBus, SubmissionAfterShutdown, WorkerStep,
};
use std::collections::HashMap;
use vstd::prelude::*;

verus! {

/// One delivery: the subscriber to invoke and the event to invoke it with.
/// Whoever is handed a job owns both and invokes the subscriber once.
#[derive(Debug, PartialEq, Eq)]
pub struct Job<S> {
    pub subscriber: S,
    pub event: Event,
}

/// The jobs that publishing `event` makes for `subscribers`: one for each, in
/// their order.
pub open spec fn fan_out<S>(subscribers: Seq<S>, event: Event) -> Seq<Job<S>> {
    Seq::new(subscribers.len(), |i: int| Job { subscriber: subscribers[i], event })
}

/// The mathematical state of a publisher.
#[verifier::ext_equal]
pub struct PublisherState<S> {
    /// For each event that was ever subscribed to or published, its
    /// subscribers in the order of their registration.
    pub subscriptions: Map<Event, Seq<S>>,
    /// The state of the queue that the jobs go to.
    pub bus: BusState<Job<S>>,
}

impl<S> PublisherState<S> {
    /// The state of a fresh publisher: no entry in the table, an open and
    /// empty queue.
    pub open spec fn new() -> Self {
        PublisherState { subscriptions: Map::empty(), bus: BusState::new() }
    }

    /// The subscribers of `event` in the order of their registration; none
    /// where the table has no entry for it.
    pub open spec fn subscribers(self, event: Event) -> Seq<S> {
        if self.subscriptions.contains_key(event) {
            self.subscriptions[event]
        } else {
            Seq::empty()
        }
    }

    /// The state after registering `subscriber` for `event`: it comes behind
    /// the subscribers that `event` already had, and nothing else changes.
    pub open spec fn subscribe(self, event: Event, subscriber: S) -> Self {
        PublisherState {
            subscriptions: self.subscriptions.insert(
                event,
                self.subscribers(event).push(subscriber),
            ),
            bus: self.bus,
        }
    }

    /// The state after registering `subscribers` for `event` one by one,
    /// first to last.
    pub open spec fn subscribe_all(self, event: Event, subscribers: Seq<S>) -> Self
        decreases subscribers.len(),
    {
        if subscribers.len() == 0 {
            self
        } else {
            self.subscribe_all(event, subscribers.drop_last()).subscribe(
                event,
                subscribers.last(),
            )
        }
    }

    /// The state after publishing `event`: the table has an entry for it, and
    /// an open queue holds, behind what was pending, one job per subscriber.
    pub open spec fn notify(self, event: Event) -> Self {
        PublisherState {
            subscriptions: self.subscriptions.insert(event, self.subscribers(event)),
            bus: if self.bus.closed {
                self.bus
            } else {
                BusState {
                    pending: self.bus.pending + fan_out(self.subscribers(event), event),
                    closed: self.bus.closed,
                }
            },
        }
    }

    /// What publishing `event` reports: the first job as the error where the
    /// queue is shut and there is a subscriber, success otherwise.
    pub open spec fn notify_result(self, event: Event) -> Result<
        (),
        SubmissionAfterShutdown<Job<S>>,
    > {
        if self.bus.closed && self.subscribers(event).len() > 0 {
            Err(
                SubmissionAfterShutdown {
                    job: Job { subscriber: self.subscribers(event)[0], event },
                },
            )
        } else {
            Ok(())
        }
    }

    /// The state after the worker asked for its next step.
    pub open spec fn after_step(self) -> Self {
        PublisherState { subscriptions: self.subscriptions, bus: self.bus.after_step() }
    }

    /// The state after shutdown.
    pub open spec fn shutdown(self) -> Self {
        PublisherState { subscriptions: self.subscriptions, bus: self.bus.shutdown() }
    }
}

/// The key under which the table files an event.
spec fn key_of(event: Event) -> u8 {
    match event {
        Event::SomeEvent => 0,
        Event::AnotherEvent => 1,
    }
}

fn key(event: Event) -> (k: u8)
    ensures
        k == key_of(event),
{
    match event {
        Event::SomeEvent => 0,
        Event::AnotherEvent => 1,
    }
}

/// A table of subscribers per event together with the queue that their jobs
/// go to.
pub struct Publisher<S> {
    bus: MessageBus<Job<S>>,
    subscriptions: HashMap<u8, Vec<S>>,
}

impl<S> View for Publisher<S> {
    type V = PublisherState<S>;

    closed spec fn view(&self) -> PublisherState<S> {
        PublisherState {
            subscriptions: Map::new(
                |event: Event| self.subscriptions@.contains_key(key_of(event)),
                |event: Event| self.subscriptions@[key_of(event)]@,
            ),
            bus: self.bus@,
        }
    }
}

impl<S: Copy> Publisher<S> {
    /// Makes a publisher without subscribers, with an open and empty queue.
    pub fn new() -> (publisher: Self)
        ensures
            publisher@ == PublisherState::<S>::new(),
    {
        Publisher { bus: MessageBus::new(), subscriptions: HashMap::new() }
    }

    /// Registers `subscriber` for `event_type`, behind the subscribers that
    /// the event already has. Nothing is checked for duplicates: a subscriber
    /// registered twice is there twice.
    pub fn subscribe(&mut self, event_type: Event, subscriber: S)
        ensures
            final(self)@ == old(self)@.subscribe(event_type, subscriber),
    {
        let registered = self.subscriptions.entry(key(event_type)).or_insert(Vec::new());
        registered.push(subscriber);
    }

    /// Publishes `event`: puts one job per subscriber of the event on the
    /// queue, in the order of their registration, and runs none of them. An
    /// event without subscribers gets an empty entry in the table and puts
    /// nothing on the queue. On a shut queue the first job comes back in the
    /// error and nothing is put on the queue.
    pub fn notify(&mut self, event: Event) -> (result: Result<
        (),
        SubmissionAfterShutdown<Job<S>>,
    >)
        ensures
            final(self)@ == old(self)@.notify(event),
            result == old(self)@.notify_result(event),
    {
        let key = key(event);
        self.subscriptions.entry(key).or_insert(Vec::new());
        if let Some(subscribers) = self.subscriptions.get(&key) {
            let mut i: usize = 0;
            while i < subscribers.len()
                invariant
                    i <= subscribers.len(),
                    subscribers@ == old(self)@.subscribers(event),
                    self@.subscriptions == old(self)@.notify(event).subscriptions,
                    i > 0 ==> !old(self)@.bus.closed,
                    self@.bus.closed == old(self)@.bus.closed,
                    self@.bus.pending == old(self)@.bus.pending + fan_out(
                        subscribers@.take(i as int),
                        event,
                    ),
                decreases subscribers.len() - i,
            {
                let job = Job { subscriber: subscribers[i], event };
                match self.bus.queue(job) {
                    Ok(()) => {},
                    Err(rejected) => {
                        return Err(rejected);
                    },
                }
                i += 1;
            }
        }
        Ok(())
    }

    /// Tells the worker what to do next, and takes the job that it hands out
    /// off the queue. The table stays as it is.
    pub fn next_step(&mut self) -> (step: WorkerStep<Job<S>>)
        ensures
            step == old(self)@.bus.next_step(),
            final(self)@ == old(self)@.after_step(),
    {
        self.bus.next_step()
    }

    /// Shuts the queue. What is pending stays pending; the table stays as it
    /// is.
    pub fn shutdown(&mut self)
        ensures
            final(self)@ == old(self)@.shutdown(),
    {
        self.bus.shutdown()
    }
}

/// Registering `subscribers` one by one puts them, in their order, behind
/// the subscribers that the event already had, and touches neither the
/// subscribers of another event nor the queue.
pub proof fn lemma_subscribe_all<S>(start: PublisherState<S>, event: Event, subscribers: Seq<S>)
    ensures
        start.subscribe_all(event, subscribers).subscribers(event) == start.subscribers(event)
            + subscribers,
        forall|other: Event|
            other != event ==> #[trigger] start.subscribe_all(event, subscribers).subscribers(
                other,
            ) == start.subscribers(other),
        start.subscribe_all(event, subscribers).bus == start.bus,
    decreases subscribers.len(),
{
    if subscribers.len() > 0 {
        lemma_subscribe_all(start, event, subscribers.drop_last());
        let earlier = start.subscribe_all(event, subscribers.drop_last());
        assert forall|other: Event| other != event implies #[trigger] earlier.subscribe(
            event,
            subscribers.last(),
        ).subscribers(other) == start.subscribers(other) by {
            assert(earlier.subscribers(other) == start.subscribers(other));
        }
    }
}

/// Publishing is submitting. What publishing an event does to the queue is
/// what submitting its jobs one by one does, first subscriber first.
pub proof fn law_notify_submits_each_job<S>(state: PublisherState<S>, event: Event)
    ensures
        state.notify(event).bus == state.bus.queue_all(fan_out(state.subscribers(event), event)),
{
    lemma_queue_all(state.bus, fan_out(state.subscribers(event), event));
}

/// Fan-out follows registration. When subscribers are registered for an
/// event one after another and the event is then published on an open
/// queue, the worker is told to run what was pending before and then one job
/// for each subscriber of the event, earlier registrations first.
pub proof fn law_fan_out_order<S>(start: PublisherState<S>, event: Event, subscribers: Seq<S>)
    requires
        !start.bus.closed,
    ensures
        start.subscribe_all(event, subscribers).notify(event).bus.pending == start.bus.pending
            + fan_out(start.subscribers(event) + subscribers, event),
        forall|k: nat|
            k < start.subscribe_all(event, subscribers).notify(event).bus.pending.len()
                ==> #[trigger] start.subscribe_all(event, subscribers).notify(
                event,
            ).bus.after_steps(k).next_step() == WorkerStep::Run(
                start.subscribe_all(event, subscribers).notify(event).bus.pending[k as int],
            ),
{
    lemma_subscribe_all(start, event, subscribers);
    let published = start.subscribe_all(event, subscribers).notify(event);
    assert forall|k: nat| k < published.bus.pending.len() implies #[trigger] published.bus.after_steps(
        k,
    ).next_step() == WorkerStep::Run(published.bus.pending[k as int]) by {
        lemma_after_steps(published.bus, k);
    }
}

/// No subscribers, no jobs. Publishing an event that has no subscriber
/// succeeds, on a shut queue too, and leaves the queue and every event's
/// subscribers as they were.
pub proof fn law_no_subscribers_no_jobs<S>(state: PublisherState<S>, event: Event)
    requires
        state.subscribers(event).len() == 0,
    ensures
        state.notify_result(event) == Ok::<(), SubmissionAfterShutdown<Job<S>>>(()),
        state.notify(event).bus == state.bus,
        forall|other: Event| #[trigger]
            state.notify(event).subscribers(other) == state.subscribers(other),
{
}

/// Publishing runs nothing. When publishing returns, no job has left the
/// queue: what was pending before is still pending, in the same places, and
/// on an open queue every job of this call is pending behind it.
pub proof fn law_notify_runs_nothing<S>(state: PublisherState<S>, event: Event)
    ensures
        state.notify(event).bus.pending.take(state.bus.pending.len() as int)
            == state.bus.pending,
        !state.bus.closed ==> state.notify(event).bus.pending.skip(
            state.bus.pending.len() as int,
        ) == fan_out(state.subscribers(event), event),
        state.bus.closed ==> state.notify(event).bus == state.bus,
{
}

/// Registered twice, invoked twice. A subscriber registered twice for an
/// event gets two jobs each time the event is published, behind the jobs of
/// the subscribers registered before it.
pub proof fn law_duplicate_registration<S>(state: PublisherState<S>, event: Event, subscriber: S)
    requires
        !state.bus.closed,
    ensures
        state.subscribe(event, subscriber).subscribe(event, subscriber).notify(event).bus.pending
            == state.bus.pending + fan_out(state.subscribers(event), event) + seq![
            (Job { subscriber, event }),
            (Job { subscriber, event }),
        ],
{
}

/// Subscriptions only grow, each event on its own. Registering a subscriber
/// appends it to its event's subscribers and leaves those of every other
/// event alone; publishing and the worker's steps change no event's
/// subscribers.
pub proof fn law_subscriptions_are_append_only<S>(
    state: PublisherState<S>,
    event: Event,
    subscriber: S,
)
    ensures
        state.subscribe(event, subscriber).subscribers(event) == state.subscribers(event).push(
            subscriber,
        ),
        forall|other: Event|
            other != event ==> #[trigger] state.subscribe(event, subscriber).subscribers(other)
                == state.subscribers(other),
        forall|other: Event| #[trigger]
            state.notify(event).subscribers(other) == state.subscribers(other),
        forall|other: Event| #[trigger]
            state.after_step().subscribers(other) == state.subscribers(other),
        forall|other: Event| #[trigger]
            state.shutdown().subscribers(other) == state.subscribers(other),
{
}

/// Earlier publication, earlier jobs. On an open queue the jobs of one
/// publication all come before the jobs of the next.
pub proof fn law_notify_order_across_calls<S>(
    state: PublisherState<S>,
    first: Event,
    second: Event,
)
    requires
        !state.bus.closed,
    ensures
        state.notify(first).notify(second).bus.pending == state.bus.pending + fan_out(
            state.subscribers(first),
            first,
        ) + fan_out(state.subscribers(second), second),
{
}

} // verus!
