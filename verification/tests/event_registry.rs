use std::any::Any;
use std::sync::atomic::{AtomicU64, AtomicUsize, Ordering};
use std::sync::{Arc, Mutex};

use cna::resource::{EventArgs, EventHandlers};

type Handler = Arc<dyn Fn(&dyn Any, EventArgs) + Send + Sync>;

/// Delivers one event the way a resource does: the handlers registered
/// through the cutoff are taken out of the registry first, then invoked
/// with the registry released. Answers whether any handler panicked; a
/// test cannot contain a panic, so a panicking handler unwinds through
/// here and fails the test, and an emission that returns had none.
fn emit_through(events: &Mutex<EventHandlers<Handler>>, sender: &dyn Any, args: EventArgs, cutoff: u64) -> bool {
    let handlers = events.lock().expect("registry").handlers_through(cutoff);
    for handler in handlers {
        handler(sender, args);
    }
    false
}

fn emit(events: &Mutex<EventHandlers<Handler>>, sender: &dyn Any, args: EventArgs) -> bool {
    emit_through(events, sender, args, u64::MAX)
}

#[test]
fn event_registry_preserves_order_removal_and_self_removal() {
    let events: Arc<Mutex<EventHandlers<Handler>>> = Arc::new(Mutex::new(EventHandlers::default()));
    let order = Arc::new(Mutex::new(Vec::new()));

    let first_order = Arc::clone(&order);
    let first = events.lock().expect("registry").add(Arc::new(move |_: &dyn Any, _: EventArgs| {
        first_order.lock().expect("order").push(1);
    }));
    let second_order = Arc::clone(&order);
    let calls = Arc::new(AtomicUsize::new(0));
    let self_registration = Arc::new(AtomicU64::new(0));
    let weak_events = Arc::downgrade(&events);
    let handler_calls = Arc::clone(&calls);
    let handler_registration = Arc::clone(&self_registration);
    let second = events.lock().expect("registry").add(Arc::new(move |_: &dyn Any, _: EventArgs| {
        second_order.lock().expect("order").push(2);
        handler_calls.fetch_add(1, Ordering::Relaxed);
        if let Some(events) = weak_events.upgrade() {
            events.lock().expect("registry").remove(handler_registration.load(Ordering::Relaxed));
        }
    }));
    self_registration.store(second, Ordering::Relaxed);

    assert!(!emit(&events, &(), EventArgs));
    assert_eq!(*order.lock().expect("order"), [1, 2]);
    assert_eq!(calls.load(Ordering::Relaxed), 1);
    assert!(events.lock().expect("registry").remove(first));
    assert!(!events.lock().expect("registry").remove(first));
    assert!(!emit(&events, &(), EventArgs));
    assert_eq!(calls.load(Ordering::Relaxed), 1);
}

#[test]
fn registrations_start_at_one_and_count_up() {
    let mut events: EventHandlers<u32> = EventHandlers::new();
    assert!(events.is_empty());
    assert_eq!(events.registration_cutoff(), 0);
    assert_eq!(events.add(10), 1);
    assert_eq!(events.add(20), 2);
    assert_eq!(events.registration_cutoff(), 2);
    assert!(!events.is_empty());
}

#[test]
fn removing_what_an_add_answered_restores_the_registry() {
    let mut events: EventHandlers<u32> = EventHandlers::new();
    events.add(10);
    let before = events.registrations_through(u64::MAX);
    let added = events.add(20);
    assert!(events.remove(added));
    assert_eq!(events.registrations_through(u64::MAX), before);
    assert!(!events.remove(added));
}

#[test]
fn emission_through_a_cutoff_skips_later_handlers() {
    let mut events: EventHandlers<u32> = EventHandlers::new();
    events.add(10);
    events.add(20);
    let cutoff = events.registration_cutoff();
    events.add(30);
    assert_eq!(events.handlers_through(cutoff), vec![10, 20]);
    assert_eq!(events.handlers_through(events.registration_cutoff()), vec![10, 20, 30]);
    assert_eq!(events.registrations_through(cutoff), vec![1, 2]);
}

#[test]
fn emission_reaches_handlers_in_order_after_a_removal() {
    let mut events: EventHandlers<u32> = EventHandlers::new();
    let a = events.add(1);
    events.add(2);
    events.add(3);
    assert!(events.remove(a));
    assert_eq!(events.handlers_through(u64::MAX), vec![2, 3]);
}

#[test]
fn registrations_are_never_handed_out_twice() {
    let mut events: EventHandlers<u32> = EventHandlers::new();
    let a = events.add(1);
    let b = events.add(2);
    assert!(events.remove(a));
    assert!(events.remove(b));
    let c = events.add(3);
    assert_eq!((a, b, c), (1, 2, 3));
    assert!(!events.remove(a));
    assert_eq!(events.registrations_through(u64::MAX), vec![3]);
}
