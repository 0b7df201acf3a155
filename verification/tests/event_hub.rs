use herdr_fleet::api::event_hub::{EventHub, MAX_EVENTS};
use herdr_fleet::api::schema::{EventData, EventEnvelope};

fn envelope() -> EventEnvelope {
    EventEnvelope {
        data: EventData::PaneFocused {
            pane_id: "p_1_1".to_owned(),
            workspace_id: "ws_1".to_owned(),
        },
    }
}

#[test]
fn events_after_reports_no_loss_within_the_buffer() {
    let mut hub = EventHub::default();
    for _ in 0..10 {
        hub.push(envelope());
    }
    let (events, lost) = hub.events_after_with_loss(4);
    assert_eq!(events.len(), 6);
    assert!(!lost, "cursor 4 is still inside the buffer");

    // A cursor exactly at the oldest retained event minus one is fine.
    let (events, lost) = hub.events_after_with_loss(0);
    assert_eq!(events.len(), 10);
    assert!(!lost);

    // An empty hub never reports loss.
    let empty = EventHub::default();
    let (events, lost) = empty.events_after_with_loss(0);
    assert!(events.is_empty());
    assert!(!lost);
}

#[test]
fn ring_overflow_past_the_cursor_reports_loss() {
    let mut hub = EventHub::default();
    for _ in 0..(MAX_EVENTS + 8) {
        hub.push(envelope());
    }
    // Oldest retained sequence is 9; a cursor of 3 missed events 4..=8.
    let (events, lost) = hub.events_after_with_loss(3);
    assert_eq!(events.len(), MAX_EVENTS);
    assert!(lost, "overflowed events must be reported as lost");

    // A cursor at or past the drop boundary sees no loss.
    let (_, lost) = hub.events_after_with_loss(8);
    assert!(!lost);
}

#[test]
fn sequences_are_contiguous_and_a_current_reader_gets_each_event() {
    let mut hub = EventHub::new();
    assert_eq!(hub.current_sequence(), 0);
    hub.push(envelope());
    hub.push(envelope());
    assert_eq!(hub.current_sequence(), 2);
    let events = hub.events_after(1);
    assert_eq!(events.len(), 1);
    assert_eq!(events[0].0, 2);
    assert!(hub.events_after(2).is_empty());
    assert!(hub.events_after(u64::MAX).is_empty());
    let all: Vec<u64> = hub.events_after(0).iter().map(|e| e.0).collect();
    assert_eq!(all, vec![1, 2]);
}

#[test]
fn catalog_clients_are_counted_until_released() {
    let mut hub = EventHub::new();
    assert_eq!(hub.catalog_client_count(), 0);
    let first = hub.register_catalog_client();
    let second = hub.register_catalog_client();
    assert_eq!(hub.catalog_client_count(), 2);
    hub.release_catalog_client(first);
    assert_eq!(hub.catalog_client_count(), 1);
    hub.release_catalog_client(second);
    assert_eq!(hub.catalog_client_count(), 0);
}
