//! Laws of the event pipeline, stated and proved over the dispatch model.
//!
//! Each proof function here records one protocol-level guarantee that spans
//! more than a single function's contract; together with the contracts of
//! [`crate::dispatcher::handle_event`] and [`crate::registry::Registry`]
//! they carry the guarantee over to the executable code.

use crate::UserPermissionLevel;
use crate::broadcast::broadcast_out;
use crate::broadcast::framed;
use crate::broadcast::private_out;
use crate::parser::EventTypeSpec;
use crate::dispatcher::can_moderate;
use crate::dispatcher::spec_dispatch;
use crate::registry::SessionSpec;
use crate::registry::first_id_match;
use crate::registry::first_name_match;
use crate::registry::ids_unique;
use crate::registry::lemma_first_id_match_at;
use crate::registry::lemma_first_id_match_props;
use crate::registry::lemma_first_name_match_props;
use vstd::prelude::*;

verus! {

/// No two sessions hold `Owner` at once.
pub open spec fn at_most_one_owner(ss: Seq<SessionSpec>) -> bool {
    forall|i: int, j: int|
        0 <= i < ss.len() && 0 <= j < ss.len() && i != j ==> !(ss[i].permission_level
            == UserPermissionLevel::Owner && ss[j].permission_level
            == UserPermissionLevel::Owner)
}

/// A non-empty line that does not start with the command prefix always
/// parses to `SendMessage`, carrying the line verbatim: nothing is trimmed
/// beyond the delimiter the reader already removed.
pub proof fn lemma_plain_line_parses_verbatim(line: Seq<char>)
    requires
        line.len() > 0,
        line[0] != '/',
    ensures
        crate::parser::spec_parse(line) == Some(EventTypeSpec::SendMessage(line)),
{
}

/// A recognized command that needs an argument but got none (no space
/// follows the command token) always parses to the exact documented usage
/// error for that command.
pub proof fn lemma_missing_argument_gives_usage_error(line: Seq<char>)
    requires
        line.len() > 1,
        line[0] == '/',
        crate::parser::find_space(line, 1) == line.len(),
    ensures
        line.subrange(1, line.len() as int) == "username"@ ==> crate::parser::spec_parse(line)
            == Some(EventTypeSpec::Error("correct usage: /username [name]"@)),
        line.subrange(1, line.len() as int) == "setmod"@ ==> crate::parser::spec_parse(line)
            == Some(EventTypeSpec::Error("correct usage: /setmod [target]"@)),
        line.subrange(1, line.len() as int) == "setown"@ ==> crate::parser::spec_parse(line)
            == Some(EventTypeSpec::Error("correct usage: /setown [target]"@)),
        line.subrange(1, line.len() as int) == "kick"@ ==> crate::parser::spec_parse(line)
            == Some(EventTypeSpec::Error("correct usage: /kick [target]"@)),
{
    reveal_strlit("username");
    reveal_strlit("setmod");
    reveal_strlit("setown");
    reveal_strlit("kick");
    assert("username"@.len() == 8);
    assert("setmod"@.len() == 6);
    assert("setown"@.len() == 6);
    assert("kick"@.len() == 4);
    assert("setmod"@[3] == 'm');
    assert("setown"@[3] == 'o');
    assert("setmod"@ != "setown"@);
}

/// A blank line produces no event at all: nothing is queued, so nothing is
/// dispatched, delivered or replied to.
pub proof fn lemma_blank_line_produces_no_event()
    ensures
        crate::parser::spec_parse(Seq::<char>::empty()) is None,
{
}

/// A chat message from a session that has a display name is broadcast to
/// every registered session — the sender included; echo is the specified
/// behaviour — as the attributed line `"{name}: {content}"`, and changes
/// no session state.
pub proof fn lemma_named_message_broadcast_to_all(
    ss: Seq<SessionSpec>,
    sender: u64,
    name: Seq<char>,
    content: Seq<char>,
)
    requires
        first_id_match(ss, sender) matches Some(i) && ss[i].username == Option::Some(name),
    ensures
        spec_dispatch(ss, sender, Some(EventTypeSpec::SendMessage(content))).sessions == ss,
        spec_dispatch(ss, sender, Some(EventTypeSpec::SendMessage(content))).out.len()
            == ss.len(),
        forall|k: int|
            0 <= k < ss.len() ==> #[trigger] spec_dispatch(
                ss,
                sender,
                Some(EventTypeSpec::SendMessage(content)),
            ).out[k] == (crate::broadcast::DeliverySpec {
                target: ss[k].id,
                text: framed(crate::dispatcher::chat_line(name, content)),
            }),
{
}

/// A chat message from a session with no display name never reaches the
/// broadcaster: the step changes no session, and produces exactly one
/// delivery — the private reminder, addressed to the sender.
pub proof fn lemma_unnamed_sender_not_broadcast(
    ss: Seq<SessionSpec>,
    sender: u64,
    content: Seq<char>,
)
    requires
        first_id_match(ss, sender) matches Some(i) && ss[i].username is None,
    ensures
        spec_dispatch(ss, sender, Some(EventTypeSpec::SendMessage(content))).sessions == ss,
        spec_dispatch(ss, sender, Some(EventTypeSpec::SendMessage(content))).out.len() == 1,
        spec_dispatch(ss, sender, Some(EventTypeSpec::SendMessage(content))).out[0].target
            == sender,
        spec_dispatch(ss, sender, Some(EventTypeSpec::SendMessage(content))).out[0].text
            == framed("before sending messages set a username with /username [name]"@),
{
}

/// Setting a display name is last-writer-wins: dispatching one
/// `SetUsername` and then another leaves exactly the sessions that
/// dispatching the second alone would leave — nothing of the first name
/// remains.
pub proof fn lemma_set_username_last_wins(
    ss: Seq<SessionSpec>,
    sender: u64,
    n1: Seq<char>,
    n2: Seq<char>,
)
    ensures
        spec_dispatch(
            spec_dispatch(ss, sender, Some(EventTypeSpec::SetUsername(n1))).sessions,
            sender,
            Some(EventTypeSpec::SetUsername(n2)),
        ).sessions == spec_dispatch(ss, sender, Some(EventTypeSpec::SetUsername(n2))).sessions,
{
    lemma_first_id_match_props(ss, sender);
    match first_id_match(ss, sender) {
        Option::None => {
        },
        Option::Some(i) => {
            let ss1 = spec_dispatch(ss, sender, Some(EventTypeSpec::SetUsername(n1))).sessions;
            assert(forall|k: int| 0 <= k < ss1.len() ==> ss1[k].id == ss[k].id);
            lemma_first_id_match_at(ss1, sender, i);
            let twice = spec_dispatch(ss1, sender, Some(EventTypeSpec::SetUsername(n2))).sessions;
            let once = spec_dispatch(ss, sender, Some(EventTypeSpec::SetUsername(n2))).sessions;
            assert(twice =~= once);
        },
    }
}

/// `SetModerator` from a sender at `NoPerm` always fails with the
/// "insufficient permissions" private reply, and no session's state — in
/// particular no permission level — changes.
pub proof fn lemma_setmod_without_permission_rejected(
    ss: Seq<SessionSpec>,
    sender: u64,
    target: Seq<char>,
)
    requires
        first_id_match(ss, sender) matches Some(i) && ss[i].permission_level
            == UserPermissionLevel::NoPerm,
    ensures
        spec_dispatch(ss, sender, Some(EventTypeSpec::SetModerator(target))).sessions == ss,
        spec_dispatch(ss, sender, Some(EventTypeSpec::SetModerator(target))).out == private_out(
            ss,
            sender,
            "insufficient permissions"@,
        ),
{
}

/// Once a session is removed, a broadcast over the remaining sessions
/// writes nothing to it: no delivery targets the removed identifier.
pub proof fn lemma_removed_session_receives_nothing(
    ss: Seq<SessionSpec>,
    i: int,
    text: Seq<char>,
)
    requires
        ids_unique(ss),
        0 <= i < ss.len(),
    ensures
        forall|k: int|
            0 <= k < broadcast_out(ss.remove(i), text).len() ==> broadcast_out(
                ss.remove(i),
                text,
            )[k].target != ss[i].id,
{
    ss.remove_ensures(i);
    assert forall|k: int| 0 <= k < broadcast_out(ss.remove(i), text).len() implies broadcast_out(
        ss.remove(i),
        text,
    )[k].target != ss[i].id by {
        if k < i {
            assert(ss.remove(i)[k] == ss[k]);
        } else {
            assert(ss.remove(i)[k] == ss[k + 1]);
        }
    }
}

proof fn lemma_owner_pointwise(ss: Seq<SessionSpec>, ss2: Seq<SessionSpec>)
    requires
        ss2.len() == ss.len(),
        forall|k: int|
            0 <= k < ss2.len() ==> (ss2[k].permission_level == UserPermissionLevel::Owner
                ==> ss[k].permission_level == UserPermissionLevel::Owner),
        at_most_one_owner(ss),
    ensures
        at_most_one_owner(ss2),
{
}

proof fn lemma_owner_remove(ss: Seq<SessionSpec>, j: int)
    requires
        at_most_one_owner(ss),
        0 <= j < ss.len(),
    ensures
        at_most_one_owner(ss.remove(j)),
{
    ss.remove_ensures(j);
    let ss2 = ss.remove(j);
    assert forall|a: int, b: int|
        0 <= a < ss2.len() && 0 <= b < ss2.len() && a != b implies !(ss2[a].permission_level
        == UserPermissionLevel::Owner && ss2[b].permission_level
        == UserPermissionLevel::Owner) by {
        let a0 = if a < j { a } else { a + 1 };
        let b0 = if b < j { b } else { b + 1 };
        assert(ss2[a] == ss[a0]);
        assert(ss2[b] == ss[b0]);
    }
}

/// Dispatching any event never creates a second owner: a step never raises
/// any session to `Owner`, so a state with at most one owner steps to a
/// state with at most one owner.
pub proof fn lemma_dispatch_preserves_single_owner(
    ss: Seq<SessionSpec>,
    sender: u64,
    ev: Option<EventTypeSpec>,
)
    requires
        at_most_one_owner(ss),
    ensures
        at_most_one_owner(spec_dispatch(ss, sender, ev).sessions),
{
    let ss2 = spec_dispatch(ss, sender, ev).sessions;
    match ev {
        Option::None => {
        },
        Option::Some(e) => match e {
            EventTypeSpec::SetUsername(_) => {
                match first_id_match(ss, sender) {
                    Option::None => {
                    },
                    Option::Some(i) => {
                        lemma_first_id_match_props(ss, sender);
                        lemma_owner_pointwise(ss, ss2);
                    },
                }
            },
            EventTypeSpec::SetModerator(target) => {
                if can_moderate(ss, sender) {
                    match first_name_match(ss, target) {
                        Option::None => {
                        },
                        Option::Some(j) => {
                            lemma_first_name_match_props(ss, target);
                            lemma_owner_pointwise(ss, ss2);
                        },
                    }
                }
            },
            EventTypeSpec::Kick(target) => {
                if can_moderate(ss, sender) {
                    match first_name_match(ss, target) {
                        Option::None => {
                        },
                        Option::Some(j) => {
                            lemma_first_name_match_props(ss, target);
                            lemma_owner_remove(ss, j);
                        },
                    }
                }
            },
            EventTypeSpec::Exit => {
                match first_id_match(ss, sender) {
                    Option::None => {
                    },
                    Option::Some(i) => {
                        lemma_first_id_match_props(ss, sender);
                        lemma_owner_remove(ss, i);
                    },
                }
            },
            _ => {
            },
        },
    }
}

/// Permission levels are only ever raised, never revoked: every session
/// still present after a dispatch step carries its old permission level,
/// except that a step may have raised one session from `NoPerm` to `Mod`.
/// (A session may instead be gone entirely: `Kick` and `Exit` remove.)
pub proof fn lemma_permissions_never_revoked(
    ss: Seq<SessionSpec>,
    sender: u64,
    ev: Option<EventTypeSpec>,
)
    ensures
        forall|k: int|
            0 <= k < spec_dispatch(ss, sender, ev).sessions.len() ==> exists|j: int|
                0 <= j < ss.len() && ss[j].id == (#[trigger] spec_dispatch(
                    ss,
                    sender,
                    ev,
                ).sessions[k]).id && (spec_dispatch(ss, sender, ev).sessions[k].permission_level
                    == ss[j].permission_level || (ss[j].permission_level
                    == UserPermissionLevel::NoPerm && spec_dispatch(
                    ss,
                    sender,
                    ev,
                ).sessions[k].permission_level == UserPermissionLevel::Mod)),
{
    let ss2 = spec_dispatch(ss, sender, ev).sessions;
    assert forall|k: int| #![trigger ss2[k]] 0 <= k < ss2.len() implies exists|j: int|
        0 <= j < ss.len() && (#[trigger] ss[j]).id == ss2[k].id && (ss2[k].permission_level
            == ss[j].permission_level || (ss[j].permission_level == UserPermissionLevel::NoPerm
            && ss2[k].permission_level == UserPermissionLevel::Mod)) by {
        match ev {
            Option::Some(EventTypeSpec::SetUsername(_)) => {
                lemma_first_id_match_props(ss, sender);
            },
            Option::Some(EventTypeSpec::SetModerator(target)) => {
                lemma_first_name_match_props(ss, target);
            },
            Option::Some(EventTypeSpec::Kick(target)) => {
                lemma_first_name_match_props(ss, target);
                if can_moderate(ss, sender) {
                    match first_name_match(ss, target) {
                        Option::Some(j0) => {
                            ss.remove_ensures(j0);
                        },
                        Option::None => {
                        },
                    }
                }
            },
            Option::Some(EventTypeSpec::Exit) => {
                lemma_first_id_match_props(ss, sender);
                match first_id_match(ss, sender) {
                    Option::Some(i0) => {
                        ss.remove_ensures(i0);
                    },
                    Option::None => {
                    },
                }
            },
            _ => {
            },
        }
        let w = witness_index(ss, sender, ev, k);
        assert(0 <= w < ss.len() && ss[w].id == ss2[k].id && (ss2[k].permission_level
            == ss[w].permission_level || (ss[w].permission_level == UserPermissionLevel::NoPerm
            && ss2[k].permission_level == UserPermissionLevel::Mod)));
    }
}

/// The index in `ss` of the session that position `k` of the stepped state
/// came from: positions shift only when a step removed a session.
spec fn witness_index(ss: Seq<SessionSpec>, sender: u64, ev: Option<EventTypeSpec>, k: int) -> int {
    match ev {
        Option::Some(EventTypeSpec::Kick(target)) => {
            if can_moderate(ss, sender) {
                match first_name_match(ss, target) {
                    Option::Some(j0) => if k < j0 {
                        k
                    } else {
                        k + 1
                    },
                    Option::None => k,
                }
            } else {
                k
            }
        },
        Option::Some(EventTypeSpec::Exit) => {
            match first_id_match(ss, sender) {
                Option::Some(i0) => if k < i0 {
                    k
                } else {
                    k + 1
                },
                Option::None => k,
            }
        },
        _ => k,
    }
}

/// Registration never creates a second owner either: the first session
/// ever registered holds `Owner`, and every later one starts at `NoPerm`.
pub proof fn lemma_register_preserves_single_owner(ss: Seq<SessionSpec>, s: SessionSpec)
    requires
        at_most_one_owner(ss),
        s.permission_level == (if ss.len() == 0 {
            UserPermissionLevel::Owner
        } else {
            UserPermissionLevel::NoPerm
        }),
    ensures
        at_most_one_owner(ss.push(s)),
{
    let ss2 = ss.push(s);
    assert(forall|k: int| 0 <= k < ss.len() ==> ss2[k] == ss[k]);
    assert(ss2[ss.len() as int] == s);
}

} // verus!
