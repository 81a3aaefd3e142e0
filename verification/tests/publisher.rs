use event_bus::{Event, Job, Publisher, SubmissionAfterShutdown, WorkerStep};
use std::cell::{Cell, RefCell};
use std::collections::HashMap;

type Subscriber = fn(Event);

fn some_subscriber(event: Event) {
    println!("I am some subscriber handling event {:?}!", event)
}

fn another_subscriber(event: Event) {
    println!("I am another subscriber handling event {:?}!", event)
}

fn third_subscriber(event: Event) {
    println!("I am the third subscriber, handling event: {:?}", event)
}

fn job(subscriber: u32, event: Event) -> WorkerStep<Job<u32>> {
    WorkerStep::Run(Job { subscriber, event })
}

/// Takes jobs off the publisher's queue until the worker would wait or
/// leave, and returns the subscribers and events of the jobs in their order.
fn drain(publisher: &mut Publisher<u32>) -> Vec<(u32, Event)> {
    let mut ran: Vec<(u32, Event)> = Vec::new();
    while let WorkerStep::Run(job) = publisher.next_step() {
        ran.push((job.subscriber, job.event));
    }
    ran
}

#[test]
fn notifies_subscribers() {
    let _subscriptions: HashMap<Event, Vec<Subscriber>> = HashMap::new();
    let mut publisher: Publisher<Subscriber> = Publisher::new();

    publisher.subscribe(Event::SomeEvent, some_subscriber);
    publisher.subscribe(Event::SomeEvent, another_subscriber);
    publisher.subscribe(Event::SomeEvent, third_subscriber);

    assert!(publisher.notify(Event::SomeEvent).is_ok());

    publisher.shutdown();
    let mut invoked: usize = 0;
    loop {
        match publisher.next_step() {
            WorkerStep::Run(job) => {
                assert_eq!(job.event, Event::SomeEvent);
                (job.subscriber)(job.event);
                invoked += 1;
            }
            WorkerStep::Wait => unreachable!(),
            WorkerStep::Exit => break,
        }
    }
    assert_eq!(invoked, 3);
}

#[test]
fn fan_out_follows_registration_order() {
    let mut publisher: Publisher<u32> = Publisher::new();
    publisher.subscribe(Event::SomeEvent, 1);
    publisher.subscribe(Event::SomeEvent, 2);
    publisher.subscribe(Event::SomeEvent, 3);
    assert_eq!(publisher.notify(Event::SomeEvent), Ok(()));
    assert_eq!(publisher.next_step(), job(1, Event::SomeEvent));
    assert_eq!(publisher.next_step(), job(2, Event::SomeEvent));
    assert_eq!(publisher.next_step(), job(3, Event::SomeEvent));
    assert_eq!(publisher.next_step(), WorkerStep::Wait);
}

#[test]
fn fresh_publisher_has_nothing_to_do() {
    let mut publisher: Publisher<u32> = Publisher::new();
    assert_eq!(publisher.next_step(), WorkerStep::Wait);
}

#[test]
fn notify_without_subscribers_submits_nothing() {
    let mut publisher: Publisher<u32> = Publisher::new();
    assert_eq!(publisher.notify(Event::SomeEvent), Ok(()));
    assert_eq!(publisher.next_step(), WorkerStep::Wait);

    publisher.subscribe(Event::SomeEvent, 1);
    assert_eq!(publisher.notify(Event::AnotherEvent), Ok(()));
    assert_eq!(publisher.next_step(), WorkerStep::Wait);
}

#[test]
fn notify_without_subscribers_succeeds_after_shutdown() {
    let mut publisher: Publisher<u32> = Publisher::new();
    publisher.subscribe(Event::SomeEvent, 1);
    publisher.shutdown();
    assert_eq!(publisher.notify(Event::AnotherEvent), Ok(()));
    assert_eq!(publisher.next_step(), WorkerStep::Exit);
}

#[test]
fn notify_after_shutdown_hands_the_first_job_back() {
    let mut publisher: Publisher<u32> = Publisher::new();
    publisher.subscribe(Event::AnotherEvent, 7);
    publisher.subscribe(Event::AnotherEvent, 8);
    publisher.shutdown();
    assert_eq!(
        publisher.notify(Event::AnotherEvent),
        Err(SubmissionAfterShutdown { job: Job { subscriber: 7, event: Event::AnotherEvent } })
    );
    assert_eq!(publisher.next_step(), WorkerStep::Exit);
}

#[test]
fn notify_runs_no_subscriber() {
    let mut publisher: Publisher<u32> = Publisher::new();
    publisher.subscribe(Event::SomeEvent, 1);
    publisher.subscribe(Event::SomeEvent, 2);
    assert_eq!(publisher.notify(Event::SomeEvent), Ok(()));
    assert_eq!(publisher.notify(Event::SomeEvent), Ok(()));
    // Both publications returned, and all four jobs are still waiting.
    assert_eq!(
        drain(&mut publisher),
        vec![
            (1, Event::SomeEvent),
            (2, Event::SomeEvent),
            (1, Event::SomeEvent),
            (2, Event::SomeEvent)
        ]
    );
}

#[test]
fn subscriber_registered_twice_is_invoked_twice() {
    let mut publisher: Publisher<u32> = Publisher::new();
    publisher.subscribe(Event::SomeEvent, 4);
    publisher.subscribe(Event::SomeEvent, 4);
    assert_eq!(publisher.notify(Event::SomeEvent), Ok(()));
    assert_eq!(drain(&mut publisher), vec![(4, Event::SomeEvent), (4, Event::SomeEvent)]);
    assert_eq!(publisher.notify(Event::SomeEvent), Ok(()));
    assert_eq!(drain(&mut publisher), vec![(4, Event::SomeEvent), (4, Event::SomeEvent)]);
}

#[test]
fn duplicate_keeps_its_places_among_other_subscribers() {
    let mut publisher: Publisher<u32> = Publisher::new();
    publisher.subscribe(Event::SomeEvent, 1);
    publisher.subscribe(Event::SomeEvent, 2);
    publisher.subscribe(Event::SomeEvent, 1);
    assert_eq!(publisher.notify(Event::SomeEvent), Ok(()));
    assert_eq!(
        drain(&mut publisher),
        vec![(1, Event::SomeEvent), (2, Event::SomeEvent), (1, Event::SomeEvent)]
    );
}

#[test]
fn subscribers_hear_only_their_event() {
    let mut publisher: Publisher<u32> = Publisher::new();
    publisher.subscribe(Event::SomeEvent, 1);
    publisher.subscribe(Event::AnotherEvent, 2);
    publisher.subscribe(Event::SomeEvent, 3);
    assert_eq!(publisher.notify(Event::AnotherEvent), Ok(()));
    assert_eq!(drain(&mut publisher), vec![(2, Event::AnotherEvent)]);
    assert_eq!(publisher.notify(Event::SomeEvent), Ok(()));
    assert_eq!(drain(&mut publisher), vec![(1, Event::SomeEvent), (3, Event::SomeEvent)]);
}

#[test]
fn subscriptions_are_append_only() {
    let mut publisher: Publisher<u32> = Publisher::new();
    publisher.subscribe(Event::SomeEvent, 1);
    assert_eq!(publisher.notify(Event::SomeEvent), Ok(()));
    assert_eq!(drain(&mut publisher), vec![(1, Event::SomeEvent)]);
    // Publishing, serving the queue and further registrations take no
    // subscriber away and move none.
    publisher.subscribe(Event::SomeEvent, 2);
    publisher.subscribe(Event::AnotherEvent, 9);
    assert_eq!(publisher.notify(Event::SomeEvent), Ok(()));
    assert_eq!(drain(&mut publisher), vec![(1, Event::SomeEvent), (2, Event::SomeEvent)]);
    publisher.subscribe(Event::SomeEvent, 3);
    assert_eq!(publisher.notify(Event::SomeEvent), Ok(()));
    assert_eq!(
        drain(&mut publisher),
        vec![(1, Event::SomeEvent), (2, Event::SomeEvent), (3, Event::SomeEvent)]
    );
}

#[test]
fn earlier_publication_comes_first() {
    let mut publisher: Publisher<u32> = Publisher::new();
    publisher.subscribe(Event::SomeEvent, 1);
    publisher.subscribe(Event::AnotherEvent, 2);
    publisher.subscribe(Event::SomeEvent, 3);
    assert_eq!(publisher.notify(Event::SomeEvent), Ok(()));
    assert_eq!(publisher.notify(Event::AnotherEvent), Ok(()));
    assert_eq!(publisher.notify(Event::SomeEvent), Ok(()));
    assert_eq!(
        drain(&mut publisher),
        vec![
            (1, Event::SomeEvent),
            (3, Event::SomeEvent),
            (2, Event::AnotherEvent),
            (1, Event::SomeEvent),
            (3, Event::SomeEvent)
        ]
    );
}

#[test]
fn subscriber_registered_after_publication_misses_it() {
    let mut publisher: Publisher<u32> = Publisher::new();
    publisher.subscribe(Event::SomeEvent, 1);
    assert_eq!(publisher.notify(Event::SomeEvent), Ok(()));
    publisher.subscribe(Event::SomeEvent, 2);
    assert_eq!(drain(&mut publisher), vec![(1, Event::SomeEvent)]);
}

#[test]
fn shutdown_drains_published_jobs() {
    let mut publisher: Publisher<u32> = Publisher::new();
    publisher.subscribe(Event::SomeEvent, 1);
    publisher.subscribe(Event::SomeEvent, 2);
    assert_eq!(publisher.notify(Event::SomeEvent), Ok(()));
    publisher.shutdown();
    assert_eq!(publisher.next_step(), job(1, Event::SomeEvent));
    assert_eq!(publisher.next_step(), job(2, Event::SomeEvent));
    assert_eq!(publisher.next_step(), WorkerStep::Exit);
}

#[test]
fn subscribers_with_state_are_invoked_in_registration_order() {
    let log: RefCell<Vec<(char, Event)>> = RefCell::new(Vec::new());
    let a = |event: Event| log.borrow_mut().push(('a', event));
    let b = |event: Event| log.borrow_mut().push(('b', event));
    let c = |event: Event| log.borrow_mut().push(('c', event));

    let mut publisher: Publisher<&dyn Fn(Event)> = Publisher::new();
    publisher.subscribe(Event::SomeEvent, &a);
    publisher.subscribe(Event::SomeEvent, &b);
    publisher.subscribe(Event::SomeEvent, &c);
    publisher.subscribe(Event::AnotherEvent, &c);
    assert!(publisher.notify(Event::SomeEvent).is_ok());
    assert!(publisher.notify(Event::AnotherEvent).is_ok());
    assert!(log.borrow().is_empty());

    while let WorkerStep::Run(job) = publisher.next_step() {
        (job.subscriber)(job.event);
    }
    assert_eq!(
        *log.borrow(),
        vec![
            ('a', Event::SomeEvent),
            ('b', Event::SomeEvent),
            ('c', Event::SomeEvent),
            ('c', Event::AnotherEvent)
        ]
    );
}

#[test]
fn notify_returns_before_any_subscriber_runs() {
    // The subscriber must not run before it is given the go-ahead. Had the
    // publication run it, it would have found the go-ahead missing.
    let go_ahead: Cell<bool> = Cell::new(false);
    let finished: Cell<u32> = Cell::new(0);
    let subscriber = |_event: Event| {
        assert!(go_ahead.get());
        finished.set(finished.get() + 1);
    };

    let mut publisher = Publisher::new();
    publisher.subscribe(Event::SomeEvent, &subscriber);
    assert!(publisher.notify(Event::SomeEvent).is_ok());
    assert_eq!(finished.get(), 0);

    go_ahead.set(true);
    while let WorkerStep::Run(job) = publisher.next_step() {
        (job.subscriber)(job.event);
    }
    assert_eq!(finished.get(), 1);
}
