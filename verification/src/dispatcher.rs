//! Dispatcher / permission engine: the single serialized consumer of parsed
//! events.
//!
//! One call of [`handle_event`] performs one state-machine step: it applies
//! the permission check the event requires, mutates session state (display
//! name, permission level, removal), and returns the outbound writes the
//! step produces. The whole step is pinned down by [`spec_dispatch`].
//!
//! Where the wire protocol leaves a command's server-side effect open, this
//! dispatcher's policy is: `/setown` is accepted only from the owner and
//! then reports that ownership, being assigned once and irrevocably, cannot
//! be transferred; `/kick` is gated like `/setmod` and removes the first
//! session whose display name matches; `/exit` removes the issuing session.
//! None of the three is silently ignored.

use crate::UserPermissionLevel;
use crate::broadcast::Delivery;
use crate::broadcast::DeliverySpec;
use crate::broadcast::broadcast_out;
use crate::broadcast::no_deliveries;
use crate::broadcast::private_out;
use crate::parser::EventType;
use crate::parser::EventTypeSpec;
use crate::registry::Registry;
use crate::registry::SessionSpec;
use crate::registry::first_id_match;
use crate::registry::first_name_match;
use vstd::prelude::*;
use vstd::string::*;

verus! {

/// A queued instruction: the originating session's identifier and the
/// parsed payload, if the line carried one. A payload of `None` (a blank
/// input line) makes the dispatch step a no-op.
pub struct Event {
    pub sender: u64,
    pub event_type: Option<EventType>,
}

/// Mathematical model of an [`Event`].
pub ghost struct EventSpec {
    pub sender: u64,
    pub payload: Option<EventTypeSpec>,
}

impl DeepView for Event {
    type V = EventSpec;

    open spec fn deep_view(&self) -> EventSpec {
        EventSpec { sender: self.sender, payload: self.event_type.deep_view() }
    }
}

/// What one dispatch step leaves behind: the sessions after the step, and
/// the outbound writes it produced.
pub ghost struct StepResult {
    pub sessions: Seq<SessionSpec>,
    pub out: Seq<DeliverySpec>,
}

/// The broadcast chat line for a message: `"{name}: {content}"`.
pub open spec fn chat_line(name: Seq<char>, content: Seq<char>) -> Seq<char> {
    name + ": "@ + content
}

/// Whether `sender` may use the moderation commands: its permission level
/// is not `NoPerm`. A sender that is no longer registered passes the check;
/// its private responses fall away at delivery anyway.
pub open spec fn can_moderate(ss: Seq<SessionSpec>, sender: u64) -> bool {
    match first_id_match(ss, sender) {
        Option::None => true,
        Option::Some(i) => ss[i].permission_level != UserPermissionLevel::NoPerm,
    }
}

/// Whether `sender` is registered and holds `Owner`.
pub open spec fn is_owner(ss: Seq<SessionSpec>, sender: u64) -> bool {
    match first_id_match(ss, sender) {
        Option::None => false,
        Option::Some(i) => ss[i].permission_level == UserPermissionLevel::Owner,
    }
}

/// The `SendMessage` step: with a display name (a sender that has
/// disconnected is shown as `Unknown`), broadcast the attributed line to
/// every session; without one, privately tell the sender to set a name
/// first, and broadcast nothing.
pub open spec fn spec_send_message(ss: Seq<SessionSpec>, sender: u64, content: Seq<char>) -> StepResult {
    let name = match first_id_match(ss, sender) {
        Option::None => Option::Some("Unknown"@),
        Option::Some(i) => ss[i].username,
    };
    match name {
        Option::Some(n) => StepResult { sessions: ss, out: broadcast_out(ss, chat_line(n, content)) },
        Option::None => StepResult {
            sessions: ss,
            out: private_out(ss, sender, "before sending messages set a username with /username [name]"@),
        },
    }
}

/// The `SetUsername` step: unconditionally set the sender's display name
/// (names need not be unique), then confirm privately.
pub open spec fn spec_set_username(ss: Seq<SessionSpec>, sender: u64, name: Seq<char>) -> StepResult {
    match first_id_match(ss, sender) {
        Option::None => StepResult { sessions: ss, out: Seq::<DeliverySpec>::empty() },
        Option::Some(i) => {
            let ss2 = ss.update(
                i,
                SessionSpec {
                    id: ss[i].id,
                    username: Option::Some(name),
                    permission_level: ss[i].permission_level,
                },
            );
            StepResult { sessions: ss2, out: private_out(ss2, sender, "username set!"@) }
        },
    }
}

/// The `SetModerator` step: gated on the sender's permission level; on
/// success the first session named `target` is raised from `NoPerm` to
/// `Mod` (a level is only ever raised, so `Mod` and `Owner` stay as they
/// are).
pub open spec fn spec_set_moderator(ss: Seq<SessionSpec>, sender: u64, target: Seq<char>) -> StepResult {
    if !can_moderate(ss, sender) {
        StepResult { sessions: ss, out: private_out(ss, sender, "insufficient permissions"@) }
    } else {
        match first_name_match(ss, target) {
            Option::None => StepResult { sessions: ss, out: private_out(ss, sender, "couldn't find user"@) },
            Option::Some(j) => {
                let ss2 = if ss[j].permission_level == UserPermissionLevel::NoPerm {
                    ss.update(
                        j,
                        SessionSpec {
                            id: ss[j].id,
                            username: ss[j].username,
                            permission_level: UserPermissionLevel::Mod,
                        },
                    )
                } else {
                    ss
                };
                StepResult { sessions: ss2, out: private_out(ss2, sender, "permissions set!"@) }
            },
        }
    }
}

/// The `SetOwner` step: only the owner may issue it, and ownership is
/// assigned once and never transferred, so even the owner is only told so;
/// no session state changes.
pub open spec fn spec_set_owner(ss: Seq<SessionSpec>, sender: u64, target: Seq<char>) -> StepResult {
    if !is_owner(ss, sender) {
        StepResult { sessions: ss, out: private_out(ss, sender, "insufficient permissions"@) }
    } else {
        match first_name_match(ss, target) {
            Option::None => StepResult { sessions: ss, out: private_out(ss, sender, "couldn't find user"@) },
            Option::Some(_) => StepResult {
                sessions: ss,
                out: private_out(ss, sender, "ownership cannot be transferred"@),
            },
        }
    }
}

/// The `Kick` step: gated like `SetModerator`; on success the first session
/// named `target` is removed, and the sender is told so (a sender that
/// kicked itself gets no reply: it is gone).
pub open spec fn spec_kick(ss: Seq<SessionSpec>, sender: u64, target: Seq<char>) -> StepResult {
    if !can_moderate(ss, sender) {
        StepResult { sessions: ss, out: private_out(ss, sender, "insufficient permissions"@) }
    } else {
        match first_name_match(ss, target) {
            Option::None => StepResult { sessions: ss, out: private_out(ss, sender, "couldn't find user"@) },
            Option::Some(j) => {
                let ss2 = ss.remove(j);
                StepResult { sessions: ss2, out: private_out(ss2, sender, "user kicked!"@) }
            },
        }
    }
}

/// The `Exit` step: the issuing session is removed; no reply is produced
/// (its addressee is gone).
pub open spec fn spec_exit(ss: Seq<SessionSpec>, sender: u64) -> StepResult {
    match first_id_match(ss, sender) {
        Option::None => StepResult { sessions: ss, out: Seq::<DeliverySpec>::empty() },
        Option::Some(i) => StepResult { sessions: ss.remove(i), out: Seq::<DeliverySpec>::empty() },
    }
}

/// One dispatch step, over the mathematical model: the sessions after the
/// event is applied, and the outbound writes produced. An `Error` payload
/// is always delivered privately to its sender, never broadcast.
pub open spec fn spec_dispatch(ss: Seq<SessionSpec>, sender: u64, ev: Option<EventTypeSpec>) -> StepResult {
    match ev {
        Option::None => StepResult { sessions: ss, out: Seq::<DeliverySpec>::empty() },
        Option::Some(e) => match e {
            EventTypeSpec::SendMessage(content) => spec_send_message(ss, sender, content),
            EventTypeSpec::SetUsername(name) => spec_set_username(ss, sender, name),
            EventTypeSpec::SetModerator(target) => spec_set_moderator(ss, sender, target),
            EventTypeSpec::SetOwner(target) => spec_set_owner(ss, sender, target),
            EventTypeSpec::Kick(target) => spec_kick(ss, sender, target),
            EventTypeSpec::Exit => spec_exit(ss, sender),
            EventTypeSpec::Error(text) => StepResult { sessions: ss, out: private_out(ss, sender, text) },
        },
    }
}

fn do_send_message(registry: &Registry, sender: u64, content: &String) -> (out: Vec<Delivery>)
    ensures
        out.deep_view() == spec_send_message(registry@, sender, content@).out,
{
    let name_opt: Option<String> = match registry.find_index_by_id(sender) {
        Option::None => Option::Some(String::from_str("Unknown")),
        Option::Some(i) => match &registry.session_at(i).user.username {
            Option::None => Option::None,
            Option::Some(u) => Option::Some(u.clone()),
        },
    };
    match name_opt {
        Option::Some(name) => {
            let line = name.concat(": ").concat(content.as_str());
            registry.broadcast(line.as_str())
        },
        Option::None => registry.private_response(
            sender,
            "before sending messages set a username with /username [name]",
        ),
    }
}

fn do_set_username(registry: &mut Registry, sender: u64, name: String) -> (out: Vec<Delivery>)
    requires
        old(registry).wf(),
    ensures
        final(registry).wf(),
        final(registry).can_register() == old(registry).can_register(),
        final(registry)@ == spec_set_username(old(registry)@, sender, name@).sessions,
        out.deep_view() == spec_set_username(old(registry)@, sender, name@).out,
{
    match registry.find_index_by_id(sender) {
        Option::None => no_deliveries(),
        Option::Some(i) => {
            registry.set_username_at(i, name);
            registry.private_response(sender, "username set!")
        },
    }
}

fn do_set_moderator(registry: &mut Registry, sender: u64, target: &String) -> (out: Vec<Delivery>)
    requires
        old(registry).wf(),
    ensures
        final(registry).wf(),
        final(registry).can_register() == old(registry).can_register(),
        final(registry)@ == spec_set_moderator(old(registry)@, sender, target@).sessions,
        out.deep_view() == spec_set_moderator(old(registry)@, sender, target@).out,
{
    let permitted = match registry.find_index_by_id(sender) {
        Option::None => true,
        Option::Some(i) => {
            let level = registry.session_at(i).user.permission_level;
            !(level == UserPermissionLevel::NoPerm)
        },
    };
    if !permitted {
        return registry.private_response(sender, "insufficient permissions");
    }
    match registry.find_index_by_name(target.as_str()) {
        Option::None => registry.private_response(sender, "couldn't find user"),
        Option::Some(j) => {
            let level = registry.session_at(j).user.permission_level;
            if level == UserPermissionLevel::NoPerm {
                registry.set_permission_at(j, UserPermissionLevel::Mod);
            }
            registry.private_response(sender, "permissions set!")
        },
    }
}

fn do_set_owner(registry: &Registry, sender: u64, target: &String) -> (out: Vec<Delivery>)
    ensures
        out.deep_view() == spec_set_owner(registry@, sender, target@).out,
{
    let owner = match registry.find_index_by_id(sender) {
        Option::None => false,
        Option::Some(i) => {
            let level = registry.session_at(i).user.permission_level;
            level == UserPermissionLevel::Owner
        },
    };
    if !owner {
        return registry.private_response(sender, "insufficient permissions");
    }
    match registry.find_index_by_name(target.as_str()) {
        Option::None => registry.private_response(sender, "couldn't find user"),
        Option::Some(_) => registry.private_response(sender, "ownership cannot be transferred"),
    }
}

fn do_kick(registry: &mut Registry, sender: u64, target: &String) -> (out: Vec<Delivery>)
    requires
        old(registry).wf(),
    ensures
        final(registry).wf(),
        final(registry).can_register() == old(registry).can_register(),
        final(registry)@ == spec_kick(old(registry)@, sender, target@).sessions,
        out.deep_view() == spec_kick(old(registry)@, sender, target@).out,
{
    let permitted = match registry.find_index_by_id(sender) {
        Option::None => true,
        Option::Some(i) => {
            let level = registry.session_at(i).user.permission_level;
            !(level == UserPermissionLevel::NoPerm)
        },
    };
    if !permitted {
        return registry.private_response(sender, "insufficient permissions");
    }
    match registry.find_index_by_name(target.as_str()) {
        Option::None => registry.private_response(sender, "couldn't find user"),
        Option::Some(j) => {
            registry.remove_at(j);
            registry.private_response(sender, "user kicked!")
        },
    }
}

fn do_exit(registry: &mut Registry, sender: u64) -> (out: Vec<Delivery>)
    requires
        old(registry).wf(),
    ensures
        final(registry).wf(),
        final(registry).can_register() == old(registry).can_register(),
        final(registry)@ == spec_exit(old(registry)@, sender).sessions,
        out.deep_view() == spec_exit(old(registry)@, sender).out,
{
    match registry.find_index_by_id(sender) {
        Option::None => (),
        Option::Some(i) => registry.remove_at(i),
    }
    no_deliveries()
}

/// Apply one queued event to the registry and return the outbound writes
/// the step produces, exactly as [`spec_dispatch`] describes. No input
/// aborts the step: protocol and authorization failures become private
/// replies to the issuer, and no other session is affected by them.
pub fn handle_event(registry: &mut Registry, event: &Event) -> (out: Vec<Delivery>)
    requires
        old(registry).wf(),
    ensures
        final(registry).wf(),
        final(registry).can_register() == old(registry).can_register(),
        final(registry)@ == spec_dispatch(
            old(registry)@,
            event.sender,
            event.event_type.deep_view(),
        ).sessions,
        out.deep_view() == spec_dispatch(
            old(registry)@,
            event.sender,
            event.event_type.deep_view(),
        ).out,
{
    let sender = event.sender;
    match &event.event_type {
        Option::None => no_deliveries(),
        Option::Some(et) => match et {
            EventType::SendMessage(content) => do_send_message(registry, sender, content),
            EventType::SetUsername(name) => do_set_username(registry, sender, name.clone()),
            EventType::SetModerator(target) => do_set_moderator(registry, sender, target),
            EventType::SetOwner(target) => do_set_owner(registry, sender, target),
            EventType::Kick(target) => do_kick(registry, sender, target),
            EventType::Exit => do_exit(registry, sender),
            EventType::Error(text) => registry.private_response(sender, text.as_str()),
        },
    }
}

} // verus!
