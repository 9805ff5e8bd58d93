use std::time::{Duration, Instant};

use termion::event::{Event as TermEvent, Key};
use tui_events::queue::{
    after_send, event_queue, offer_input, push_tick, ProducerAction, SendOutcome, QUEUE_CAPACITY,
};
use tui_events::{Event, Events};

fn key(c: char) -> TermEvent {
    TermEvent::Key(Key::Char(c))
}

#[test]
fn policy_stops_only_on_disconnect() {
    assert_eq!(after_send(SendOutcome::Delivered), ProducerAction::Continue);
    assert_eq!(after_send(SendOutcome::Full), ProducerAction::Continue);
    assert_eq!(after_send(SendOutcome::Disconnected), ProducerAction::Stop);
}

#[test]
fn queue_has_capacity_one() {
    assert_eq!(QUEUE_CAPACITY, 1);
    let (tx, rx) = event_queue();
    assert_eq!(rx.capacity(), Some(1));
    assert_eq!(tx.capacity(), Some(1));
}

#[test]
fn input_is_delivered_to_an_empty_queue() {
    let (events, tx) = Events::with_queue();
    assert_eq!(
        offer_input(&tx, key('a')),
        (SendOutcome::Delivered, ProducerAction::Continue)
    );
    match events.next() {
        Ok(Event::Input(ev)) => assert_eq!(ev, key('a')),
        _ => panic!("expected the input event"),
    }
}

#[test]
fn input_to_a_full_queue_is_dropped() {
    let (events, tx) = Events::with_queue();
    assert_eq!(offer_input(&tx, key('a')).0, SendOutcome::Delivered);
    assert_eq!(
        offer_input(&tx, key('b')),
        (SendOutcome::Full, ProducerAction::Continue)
    );
    drop(tx);
    match events.next() {
        Ok(Event::Input(ev)) => assert_eq!(ev, key('a')),
        _ => panic!("expected the first input event"),
    }
    assert!(events.next().is_err());
}

#[test]
fn flood_of_hundred_inputs_leaves_one() {
    let (events, tx) = Events::with_queue();
    for i in 0..100u8 {
        let (outcome, action) = offer_input(&tx, TermEvent::Key(Key::F(i)));
        assert_eq!(action, ProducerAction::Continue);
        if i == 0 {
            assert_eq!(outcome, SendOutcome::Delivered);
        } else {
            assert_eq!(outcome, SendOutcome::Full);
        }
    }
    drop(tx);
    match events.next() {
        Ok(Event::Input(ev)) => assert_eq!(ev, TermEvent::Key(Key::F(0))),
        _ => panic!("expected the first event of the burst"),
    }
    assert!(events.next().is_err());
}

#[test]
fn alternating_producer_and_consumer_lose_nothing() {
    let (events, tx) = Events::with_queue();
    for c in ['x', 'y', 'z'] {
        assert_eq!(offer_input(&tx, key(c)).0, SendOutcome::Delivered);
        match events.next() {
            Ok(Event::Input(ev)) => assert_eq!(ev, key(c)),
            _ => panic!("expected the event just offered"),
        }
    }
}

#[test]
fn tick_is_delivered() {
    let (events, tx) = Events::with_queue();
    assert_eq!(push_tick(&tx), (SendOutcome::Delivered, ProducerAction::Continue));
    assert!(matches!(events.next(), Ok(Event::Tick)));
}

#[test]
fn buffered_tick_survives_input_burst() {
    let (events, tx) = Events::with_queue();
    assert_eq!(push_tick(&tx).0, SendOutcome::Delivered);
    for c in ['a', 'b', 'c'] {
        assert_eq!(offer_input(&tx, key(c)), (SendOutcome::Full, ProducerAction::Continue));
    }
    assert!(matches!(events.next(), Ok(Event::Tick)));
}

#[test]
fn dropped_receiver_stops_both_producers() {
    let (events, tx) = Events::with_queue();
    drop(events);
    assert_eq!(
        offer_input(&tx, key('a')),
        (SendOutcome::Disconnected, ProducerAction::Stop)
    );
    assert_eq!(push_tick(&tx), (SendOutcome::Disconnected, ProducerAction::Stop));
}

#[test]
fn dropped_receiver_stops_tick_on_full_queue() {
    let (events, tx) = Events::with_queue();
    assert_eq!(push_tick(&tx).0, SendOutcome::Delivered);
    drop(events);
    assert_eq!(push_tick(&tx), (SendOutcome::Disconnected, ProducerAction::Stop));
}

#[test]
fn next_without_producers_is_terminal() {
    let (events, tx) = Events::with_queue();
    drop(tx);
    assert!(events.next().is_err());
    assert!(events.next().is_err());
}

#[test]
fn ticks_arrive_at_the_tick_rate() {
    let (events, tx) = Events::with_queue();
    let rate = Duration::from_millis(50);
    let start = Instant::now();
    for _ in 0..5 {
        assert_eq!(push_tick(&tx), (SendOutcome::Delivered, ProducerAction::Continue));
        assert!(matches!(events.next(), Ok(Event::Tick)));
        sleep_for(rate);
    }
    let elapsed = start.elapsed();
    assert!(elapsed >= Duration::from_millis(250));
    assert!(elapsed < Duration::from_millis(2000));
}

fn sleep_for(d: Duration) {
    let until = Instant::now() + d;
    while Instant::now() < until {}
}
