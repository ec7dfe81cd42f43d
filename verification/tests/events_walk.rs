use portal2_sdk::entities::{EntityIterState, EntityQuery};
use portal2_sdk::game_events::EventRegistry;

#[test]
fn first_listen_asks_the_engine() {
    let mut r = EventRegistry::new();
    let (a, first) = r.listen("player_spawn");
    assert!(first);
    let (b, again) = r.listen("player_spawn");
    assert!(!again);
    assert_ne!(a, b);
    assert_eq!(r.listeners("player_spawn"), vec![a, b]);
    assert!(r.listeners("portal_fired").is_empty());
}

#[test]
fn unlisten_drops_one_listener_everywhere() {
    let mut r = EventRegistry::new();
    let (a, _) = r.listen("player_spawn");
    let (b, _) = r.listen("player_spawn");
    let (c, _) = r.listen("portal_fired");
    r.unlisten(a);
    assert_eq!(r.listeners("player_spawn"), vec![b]);
    assert_eq!(r.listeners("portal_fired"), vec![c]);
    r.unlisten(b);
    assert!(r.listeners("player_spawn").is_empty());
    // The event stays known: the engine is not asked again.
    let (_, first) = r.listen("player_spawn");
    assert!(!first);
}

#[test]
fn unlisten_all_forgets_the_event() {
    let mut r = EventRegistry::new();
    let (a, _) = r.listen("portal_fired");
    let (b, _) = r.listen("portal_fired");
    let (c, _) = r.listen("player_spawn");
    assert_eq!(r.unlisten_all("portal_fired"), vec![a, b]);
    assert!(r.listeners("portal_fired").is_empty());
    assert_eq!(r.listeners("player_spawn"), vec![c]);
    let (_, first) = r.listen("portal_fired");
    assert!(first);
    assert!(r.unlisten_all("never_listened").is_empty());
}

#[test]
fn clear_drops_everything_ids_keep_counting() {
    let mut r = EventRegistry::new();
    let (a, _) = r.listen("x");
    r.clear();
    assert!(r.listeners("x").is_empty());
    let (b, first) = r.listen("x");
    assert!(first);
    assert_ne!(a, b);
}

#[test]
fn listen_then_unlisten_restores() {
    let mut r = EventRegistry::new();
    let (a, _) = r.listen("e");
    let (b, _) = r.listen("e");
    r.unlisten(b);
    assert_eq!(r.listeners("e"), vec![a]);
}

#[test]
fn entity_walk_over_three_entities() {
    let mut w = EntityIterState::new();
    assert_eq!(w.next_query(), EntityQuery::First);
    w.record(true);
    assert_eq!(w.next_query(), EntityQuery::Next);
    w.record(true);
    assert_eq!(w.next_query(), EntityQuery::Next);
    w.record(true);
    assert_eq!(w.next_query(), EntityQuery::Next);
    w.record(false);
    assert_eq!(w.next_query(), EntityQuery::Finished);
    assert_eq!(w.next_query(), EntityQuery::Finished);
}

#[test]
fn entity_walk_over_empty_list() {
    let mut w = EntityIterState::new();
    assert_eq!(w.next_query(), EntityQuery::First);
    w.record(false);
    assert_eq!(w.next_query(), EntityQuery::Finished);
    assert_eq!(w.next_query(), EntityQuery::Finished);
}

#[test]
fn resumed_walk_asks_for_next() {
    let mut w = EntityIterState::resume_after();
    assert_eq!(w.next_query(), EntityQuery::Next);
    w.record(false);
    assert_eq!(w.next_query(), EntityQuery::Finished);
}

#[test]
fn dropped_ids_are_not_handed_out_again() {
    let mut r = EventRegistry::new();
    let (a, _) = r.listen("e");
    r.unlisten(a);
    let (b, _) = r.listen("e");
    assert_ne!(a, b);
    assert_eq!(r.unlisten_all("e"), vec![b]);
    let (c, _) = r.listen("e");
    assert_ne!(c, a);
    assert_ne!(c, b);
}
