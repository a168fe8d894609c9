use overseer_core::bus::{active_after_phase, SubscriberSet};
use overseer_core::cursor::EventCursor;
use overseer_core::events::{EventRegistry, EventType};

#[test]
fn cursor_starts_at_zero_and_advances_past_max() {
    let mut c = EventCursor::new();
    assert_eq!(c.next_id, 0);
    c.advance(&vec![1, 3, 2]);
    assert_eq!(c.next_id, 4);
}

#[test]
fn cursor_unchanged_on_empty_poll() {
    let mut c = EventCursor::new();
    c.advance(&vec![7]);
    assert_eq!(c.next_id, 8);
    c.advance(&vec![]);
    assert_eq!(c.next_id, 8);
}

#[test]
fn cursor_resets_and_advances_on_regression() {
    // ids [5, 6, 7] polled while the cursor stands at 10: the id
    // sequence restarted, so the cursor resets and lands at 8 within
    // the same poll
    let mut c = EventCursor::new();
    c.advance(&vec![9]);
    assert_eq!(c.next_id, 10);
    c.advance(&vec![5, 6, 7]);
    assert_eq!(c.next_id, 8);
}

#[test]
fn cursor_is_monotonic_without_regression() {
    let mut c = EventCursor::new();
    let mut last = c.next_id;
    for batch in [vec![0, 1], vec![2], vec![2, 5], vec![5]] {
        c.advance(&batch);
        assert!(c.next_id >= last);
        last = c.next_id;
    }
    assert_eq!(c.next_id, 6);
}

#[test]
fn cursor_saturates_at_type_maximum() {
    let mut c = EventCursor::new();
    c.advance(&vec![u32::MAX as u64]);
    assert_eq!(c.next_id, u32::MAX);
    c.advance(&vec![u64::from(u32::MAX) + 10]);
    assert_eq!(c.next_id, u32::MAX);
}

#[test]
fn map_uri_maps_known_topics() {
    assert_eq!(EventRegistry::map_uri("/lol-gameflow/v1/session"), EventType::GameflowSession);
    assert_eq!(EventRegistry::map_uri("/lol-gameflow/v1/gameflow-phase"), EventType::GameflowPhase);
    assert_eq!(
        EventRegistry::map_uri("/lol-champ-select/v1/session"),
        EventType::ChampSelectSession
    );
    assert_eq!(
        EventRegistry::map_uri("/riot-messaging-service/v1/message/parties/v1/notifications"),
        EventType::PartiesNotification
    );
    assert_eq!(
        EventRegistry::map_uri("/riot-messaging-service/v1/message/teambuilder/v1/tbdGameDtoV1"),
        EventType::TeambuilderTBDGame
    );
}

#[test]
fn map_uri_is_total_over_unknown_topics() {
    assert_eq!(EventRegistry::map_uri("/lol-lobby/v2/lobby"), EventType::Unknown);
    assert_eq!(EventRegistry::map_uri(""), EventType::Unknown);
}

#[test]
fn subscriber_set_keeps_registration_order() {
    let mut s = SubscriberSet::new();
    let a = s.subscribe();
    let b = s.subscribe();
    let c = s.subscribe();
    assert_eq!(s.handles(), &vec![a, b, c]);
    assert_eq!(s.len(), 3);
    assert!(a < b && b < c);
}

#[test]
fn subscriber_set_removes_only_the_given_handle() {
    let mut s = SubscriberSet::new();
    let a = s.subscribe();
    let b = s.subscribe();
    let c = s.subscribe();
    s.unsubscribe(b);
    assert_eq!(s.handles(), &vec![a, c]);
    // removing an unknown handle changes nothing
    s.unsubscribe(b);
    assert_eq!(s.handles(), &vec![a, c]);
    // handles are never reused
    let d = s.subscribe();
    assert!(d > c);
}

#[test]
fn activation_flag_follows_gameflow_phases() {
    assert!(active_after_phase("Loading", false));
    assert!(active_after_phase("GameStart", false));
    assert!(active_after_phase("InProgress", false));
    assert!(!active_after_phase("PreEndOfGame", true));
    assert!(!active_after_phase("EndOfGame", true));
    assert!(!active_after_phase("WaitingForStats", true));
}

#[test]
fn activation_flag_unchanged_on_other_phases() {
    assert!(active_after_phase("Lobby", true));
    assert!(!active_after_phase("Lobby", false));
    assert!(active_after_phase("ChampSelect", true));
}
