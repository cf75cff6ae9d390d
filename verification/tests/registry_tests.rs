use chat::UserPermissionLevel;
use chat::dispatcher::Event;
use chat::dispatcher::handle_event;
use chat::parser::EventType;
use chat::registry::Registry;
use chat::server::ingest_line;

#[test]
fn new_registry_is_empty_with_capacity() {
    let registry = Registry::new();
    assert_eq!(registry.session_count(), 0);
    assert!(registry.has_capacity());
    assert!(registry.get(0).is_none());
}

#[test]
fn registered_sessions_keep_registration_order() {
    let mut registry = Registry::new();
    let a = registry.register();
    let b = registry.register();
    let c = registry.register();
    assert_eq!(registry.session_count(), 3);
    assert_eq!(registry.id_at(0), a);
    assert_eq!(registry.id_at(1), b);
    assert_eq!(registry.id_at(2), c);
}

#[test]
fn remove_of_missing_id_is_silent() {
    let mut registry = Registry::new();
    let a = registry.register();
    registry.remove(a.wrapping_add(100));
    assert_eq!(registry.session_count(), 1);
    registry.remove(a);
    assert_eq!(registry.session_count(), 0);
}

#[test]
fn find_index_by_name_returns_first_match() {
    let mut registry = Registry::new();
    let _a = registry.register();
    let b = registry.register();
    let _c = registry.register();
    let out = handle_event(
        &mut registry,
        &Event { sender: b, event_type: Some(EventType::SetUsername("Bea".to_string())) },
    );
    assert_eq!(out.len(), 1);
    assert_eq!(registry.find_index_by_name("Bea"), Some(1));
    assert_eq!(registry.find_index_by_name("Nobody"), None);
}

#[test]
fn broadcast_frames_each_line_once() {
    let mut registry = Registry::new();
    let a = registry.register();
    let b = registry.register();
    let out = registry.broadcast("news");
    assert_eq!(out.len(), 2);
    assert_eq!(out[0].target, a);
    assert_eq!(out[1].target, b);
    assert_eq!(out[0].text, "news\n");
    assert_eq!(out[1].text, "news\n");
}

#[test]
fn private_response_to_missing_session_is_a_no_op() {
    let mut registry = Registry::new();
    let a = registry.register();
    registry.remove(a);
    let out = registry.private_response(a, "late reply");
    assert!(out.is_empty());
}

#[test]
fn private_response_targets_exactly_one_session() {
    let mut registry = Registry::new();
    let _a = registry.register();
    let b = registry.register();
    let out = registry.private_response(b, "just for you");
    assert_eq!(out.len(), 1);
    assert_eq!(out[0].target, b);
    assert_eq!(out[0].text, "just for you\n");
}

#[test]
fn event_with_no_payload_is_a_no_op_step() {
    let mut registry = Registry::new();
    let a = registry.register();
    let out = handle_event(&mut registry, &Event { sender: a, event_type: None });
    assert!(out.is_empty());
    assert_eq!(registry.session_count(), 1);
}

#[test]
fn ingest_blank_line_yields_no_event() {
    assert!(ingest_line(7, String::new()).is_none());
}

#[test]
fn ingest_tags_event_with_sender() {
    let ev = ingest_line(7, "hello".to_string()).unwrap();
    assert_eq!(ev.sender, 7);
    assert_eq!(ev.event_type, Some(EventType::SendMessage("hello".to_string())));
}

#[test]
fn first_session_on_an_emptied_registry_is_owner_again() {
    let mut registry = Registry::new();
    let a = registry.register();
    registry.remove(a);
    let b = registry.register();
    assert_eq!(
        registry.get(b).unwrap().user.permission_level,
        UserPermissionLevel::Owner
    );
}
