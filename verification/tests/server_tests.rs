use chat::UserPermissionLevel;
use chat::broadcast::Delivery;
use chat::server::Server;

/// Feed one line from `sender` and dispatch the event it produced (if any).
fn drive(server: &mut Server, sender: u64, line: &str) -> Vec<Delivery> {
    server.input_line(sender, line.to_string());
    server.step()
}

fn targets(out: &[Delivery]) -> Vec<u64> {
    out.iter().map(|d| d.target).collect()
}

#[test]
fn first_connector_is_owner_second_is_not() {
    let mut server = Server::new();
    let a = server.connect();
    let b = server.connect();
    assert_eq!(
        server.registry().get(a).unwrap().user.permission_level,
        UserPermissionLevel::Owner
    );
    assert_eq!(
        server.registry().get(b).unwrap().user.permission_level,
        UserPermissionLevel::NoPerm
    );
}

#[test]
fn session_identifiers_are_never_reused() {
    let mut server = Server::new();
    let a = server.connect();
    server.disconnect(a);
    let b = server.connect();
    assert_ne!(a, b);
    assert!(server.registry().get(a).is_none());
    assert!(server.registry().get(b).is_some());
}

#[test]
fn message_without_username_is_not_broadcast() {
    let mut server = Server::new();
    let a = server.connect();
    let b = server.connect();
    let out = drive(&mut server, b, "hello");
    // exactly one private reply, to the sender only
    assert_eq!(targets(&out), vec![b]);
    assert_eq!(
        out[0].text,
        "before sending messages set a username with /username [name]\n"
    );
    // and the other session saw nothing, state unchanged
    assert!(server.registry().get(a).unwrap().user.username.is_none());
    assert!(server.registry().get(b).unwrap().user.username.is_none());
}

#[test]
fn set_username_confirms_privately() {
    let mut server = Server::new();
    let a = server.connect();
    let out = drive(&mut server, a, "/username Alice");
    assert_eq!(targets(&out), vec![a]);
    assert_eq!(out[0].text, "username set!\n");
    assert_eq!(
        server.registry().get(a).unwrap().user.username.as_deref(),
        Some("Alice")
    );
}

#[test]
fn set_username_twice_keeps_only_the_last_name() {
    let mut server = Server::new();
    let a = server.connect();
    drive(&mut server, a, "/username Alice");
    drive(&mut server, a, "/username Alicia");
    let session = server.registry().get(a).unwrap();
    assert_eq!(session.user.username.as_deref(), Some("Alicia"));
    // no residual state from the prior name: the rest of the session is as
    // if only the second command had run
    assert_eq!(session.user.permission_level, UserPermissionLevel::Owner);
    assert_eq!(server.registry().session_count(), 1);
}

#[test]
fn named_message_is_broadcast_to_everyone_including_sender() {
    let mut server = Server::new();
    let a = server.connect();
    let b = server.connect();
    drive(&mut server, a, "/username Alice");
    let out = drive(&mut server, a, "hello");
    assert_eq!(targets(&out), vec![a, b]);
    for d in &out {
        assert_eq!(d.text, "Alice: hello\n");
    }
}

#[test]
fn setmod_from_unprivileged_sender_is_rejected() {
    let mut server = Server::new();
    let a = server.connect();
    let b = server.connect();
    drive(&mut server, a, "/username Alice");
    let out = drive(&mut server, b, "/setmod Alice");
    assert_eq!(targets(&out), vec![b]);
    assert_eq!(out[0].text, "insufficient permissions\n");
    // no permission level changed anywhere
    assert_eq!(
        server.registry().get(a).unwrap().user.permission_level,
        UserPermissionLevel::Owner
    );
    assert_eq!(
        server.registry().get(b).unwrap().user.permission_level,
        UserPermissionLevel::NoPerm
    );
}

#[test]
fn setmod_by_owner_raises_target_to_moderator() {
    let mut server = Server::new();
    let a = server.connect();
    let b = server.connect();
    drive(&mut server, b, "/username Bob");
    let out = drive(&mut server, a, "/setmod Bob");
    assert_eq!(targets(&out), vec![a]);
    assert_eq!(out[0].text, "permissions set!\n");
    assert_eq!(
        server.registry().get(b).unwrap().user.permission_level,
        UserPermissionLevel::Mod
    );
}

#[test]
fn setmod_does_not_demote_the_owner() {
    let mut server = Server::new();
    let a = server.connect();
    drive(&mut server, a, "/username Alice");
    let out = drive(&mut server, a, "/setmod Alice");
    assert_eq!(out[0].text, "permissions set!\n");
    // a level is only ever raised: the owner stays the owner
    assert_eq!(
        server.registry().get(a).unwrap().user.permission_level,
        UserPermissionLevel::Owner
    );
}

#[test]
fn setmod_unknown_target_is_reported() {
    let mut server = Server::new();
    let a = server.connect();
    let out = drive(&mut server, a, "/setmod Nobody");
    assert_eq!(targets(&out), vec![a]);
    assert_eq!(out[0].text, "couldn't find user\n");
}

#[test]
fn setmod_first_matching_name_wins() {
    let mut server = Server::new();
    let a = server.connect();
    let b = server.connect();
    let c = server.connect();
    drive(&mut server, b, "/username Twin");
    drive(&mut server, c, "/username Twin");
    let out = drive(&mut server, a, "/setmod Twin");
    assert_eq!(out[0].text, "permissions set!\n");
    assert_eq!(
        server.registry().get(b).unwrap().user.permission_level,
        UserPermissionLevel::Mod
    );
    assert_eq!(
        server.registry().get(c).unwrap().user.permission_level,
        UserPermissionLevel::NoPerm
    );
}

#[test]
fn blank_line_produces_nothing() {
    let mut server = Server::new();
    let a = server.connect();
    server.input_line(a, String::new());
    assert_eq!(server.pending_events(), 0);
    let out = server.step();
    assert!(out.is_empty());
    assert_eq!(server.registry().session_count(), 1);
    assert!(server.registry().get(a).unwrap().user.username.is_none());
}

#[test]
fn disconnected_session_receives_no_further_broadcast() {
    let mut server = Server::new();
    let a = server.connect();
    let b = server.connect();
    let c = server.connect();
    drive(&mut server, a, "/username Alice");
    // the middle session drops mid-stream; its events are gone with it
    server.disconnect(b);
    assert!(server.registry().get(b).is_none());
    let out = drive(&mut server, a, "still here?");
    assert_eq!(targets(&out), vec![a, c]);
    for d in &out {
        assert_eq!(d.text, "Alice: still here?\n");
    }
}

#[test]
fn message_from_departed_sender_is_attributed_to_unknown() {
    let mut server = Server::new();
    let a = server.connect();
    let b = server.connect();
    server.input_line(a, "ghost message".to_string());
    server.disconnect(a);
    let out = server.step();
    assert_eq!(targets(&out), vec![b]);
    assert_eq!(out[0].text, "Unknown: ghost message\n");
}

#[test]
fn protocol_error_is_replied_privately() {
    let mut server = Server::new();
    let a = server.connect();
    let b = server.connect();
    let out = drive(&mut server, b, "/frobnicate");
    assert_eq!(targets(&out), vec![b]);
    assert_eq!(out[0].text, "unknown command\n");
    assert_eq!(server.registry().session_count(), 2);
    let _ = a;
}

#[test]
fn kick_removes_the_target() {
    let mut server = Server::new();
    let a = server.connect();
    let b = server.connect();
    drive(&mut server, b, "/username Bob");
    let out = drive(&mut server, a, "/kick Bob");
    assert_eq!(targets(&out), vec![a]);
    assert_eq!(out[0].text, "user kicked!\n");
    assert!(server.registry().get(b).is_none());
    assert_eq!(server.registry().session_count(), 1);
}

#[test]
fn kick_from_unprivileged_sender_is_rejected() {
    let mut server = Server::new();
    let a = server.connect();
    let b = server.connect();
    drive(&mut server, a, "/username Alice");
    let out = drive(&mut server, b, "/kick Alice");
    assert_eq!(targets(&out), vec![b]);
    assert_eq!(out[0].text, "insufficient permissions\n");
    assert_eq!(server.registry().session_count(), 2);
}

#[test]
fn kick_unknown_target_is_reported() {
    let mut server = Server::new();
    let a = server.connect();
    let out = drive(&mut server, a, "/kick Nobody");
    assert_eq!(out[0].text, "couldn't find user\n");
}

#[test]
fn setown_from_non_owner_is_rejected() {
    let mut server = Server::new();
    let a = server.connect();
    let b = server.connect();
    drive(&mut server, a, "/username Alice");
    let out = drive(&mut server, b, "/setown Alice");
    assert_eq!(targets(&out), vec![b]);
    assert_eq!(out[0].text, "insufficient permissions\n");
    assert_eq!(
        server.registry().get(a).unwrap().user.permission_level,
        UserPermissionLevel::Owner
    );
}

#[test]
fn setown_by_owner_reports_ownership_fixed() {
    let mut server = Server::new();
    let a = server.connect();
    let b = server.connect();
    drive(&mut server, b, "/username Bob");
    let out = drive(&mut server, a, "/setown Bob");
    assert_eq!(targets(&out), vec![a]);
    assert_eq!(out[0].text, "ownership cannot be transferred\n");
    assert_eq!(
        server.registry().get(b).unwrap().user.permission_level,
        UserPermissionLevel::NoPerm
    );
}

#[test]
fn setown_unknown_target_is_reported() {
    let mut server = Server::new();
    let a = server.connect();
    let out = drive(&mut server, a, "/setown Nobody");
    assert_eq!(out[0].text, "couldn't find user\n");
}

#[test]
fn exit_removes_the_issuing_session_silently() {
    let mut server = Server::new();
    let a = server.connect();
    let b = server.connect();
    let out = drive(&mut server, b, "/exit");
    assert!(out.is_empty());
    assert!(server.registry().get(b).is_none());
    assert!(server.registry().get(a).is_some());
}

#[test]
fn events_of_one_session_dispatch_in_input_order() {
    let mut server = Server::new();
    let a = server.connect();
    server.input_line(a, "/username First".to_string());
    server.input_line(a, "/username Second".to_string());
    assert_eq!(server.pending_events(), 2);
    server.step();
    server.step();
    assert_eq!(server.pending_events(), 0);
    assert_eq!(
        server.registry().get(a).unwrap().user.username.as_deref(),
        Some("Second")
    );
}
