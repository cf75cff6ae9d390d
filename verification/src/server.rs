//! The assembled server core: registry, event queue and dispatcher behind
//! one exclusion boundary.
//!
//! All mutation — registration, line ingest, dispatch steps, disconnects —
//! goes through `&mut self` on a single [`Server`] value, so a caller that
//! serializes access to it (a mutex, an actor, a single-owner loop) gets
//! the ordering the protocol asks for: events of one session are dispatched
//! in the order its lines arrived, and one dispatch step at a time mutates
//! session state. The caller performs the socket reads and writes; the core
//! only turns lines into events and events into deliveries.

use crate::broadcast::Delivery;
use crate::dispatcher::Event;
use crate::dispatcher::EventSpec;
use crate::dispatcher::handle_event;
use crate::dispatcher::spec_dispatch;
use crate::parser::parse_event_type;
use crate::parser::spec_parse;
use crate::registry::Registry;
use crate::registry::SessionSpec;
use crate::registry::first_id_match;
use crate::UserPermissionLevel;
use vstd::prelude::*;

verus! {

/// Turn one raw line read from session `sender` into a queued event. A
/// blank line produces no event at all; every other line produces exactly
/// one, carrying what the line parses to.
pub fn ingest_line(sender: u64, line: String) -> (r: Option<Event>)
    ensures
        r.deep_view() == (match spec_parse(line@) {
            Option::None => Option::<EventSpec>::None,
            Option::Some(p) => Option::Some(
                (EventSpec { sender, payload: Option::Some(p) }),
            ),
        }),
{
    match parse_event_type(line) {
        Option::None => Option::None,
        Option::Some(et) => Option::Some(Event { sender, event_type: Option::Some(et) }),
    }
}

/// The server core: the session registry and the ordered queue of events
/// awaiting dispatch.
pub struct Server {
    registry: Registry,
    events: Vec<Event>,
}

impl Server {
    /// The registered sessions, in registration order.
    pub closed spec fn sessions(&self) -> Seq<SessionSpec> {
        self.registry@
    }

    /// The queued events, oldest first.
    pub closed spec fn queue(&self) -> Seq<EventSpec> {
        self.events.deep_view()
    }

    pub closed spec fn wf(&self) -> bool {
        self.registry.wf()
    }

    /// The identifier counter has not run out.
    pub closed spec fn can_accept(&self) -> bool {
        self.registry.can_register()
    }

    /// A server with no sessions and no queued events.
    pub fn new() -> (s: Server)
        ensures
            s.wf(),
            s.can_accept(),
            s.sessions() == Seq::<SessionSpec>::empty(),
            s.queue() == Seq::<EventSpec>::empty(),
    {
        let s = Server { registry: Registry::new(), events: Vec::new() };
        proof {
            assert(s.sessions() =~= Seq::<SessionSpec>::empty());
            assert(s.queue() =~= Seq::<EventSpec>::empty());
        }
        s
    }

    /// A shared borrow of the registry, for lookups.
    pub fn registry(&self) -> (r: &Registry)
        ensures
            r@ == self.sessions(),
    {
        &self.registry
    }

    /// True when another session can still be accepted.
    pub fn has_capacity(&self) -> (b: bool)
        ensures
            b == self.can_accept(),
    {
        self.registry.has_capacity()
    }

    /// Accept a new connection: register a session and return its fresh
    /// identifier. The first session ever accepted holds `Owner`.
    pub fn connect(&mut self) -> (id: u64)
        requires
            old(self).wf(),
            old(self).can_accept(),
        ensures
            final(self).wf(),
            first_id_match(old(self).sessions(), id) is None,
            final(self).sessions() == old(self).sessions().push(
                (SessionSpec {
                    id,
                    username: Option::None,
                    permission_level: if old(self).sessions().len() == 0 {
                        UserPermissionLevel::Owner
                    } else {
                        UserPermissionLevel::NoPerm
                    },
                }),
            ),
            final(self).queue() == old(self).queue(),
    {
        self.registry.register()
    }

    /// Drop the session with identifier `id`, as when its connection closes
    /// or errors; if it is already gone, nothing changes.
    pub fn disconnect(&mut self, id: u64)
        requires
            old(self).wf(),
        ensures
            final(self).wf(),
            final(self).can_accept() == old(self).can_accept(),
            final(self).sessions() == (match first_id_match(old(self).sessions(), id) {
                Option::None => old(self).sessions(),
                Option::Some(i) => old(self).sessions().remove(i),
            }),
            final(self).queue() == old(self).queue(),
    {
        self.registry.remove(id);
    }

    /// Ingest one raw line from session `sender`: parse it and append the
    /// resulting event, if any, to the queue. Session state never changes
    /// here; a blank line leaves the queue unchanged too.
    pub fn input_line(&mut self, sender: u64, line: String)
        requires
            old(self).wf(),
        ensures
            final(self).wf(),
            final(self).can_accept() == old(self).can_accept(),
            final(self).sessions() == old(self).sessions(),
            final(self).queue() == (match spec_parse(line@) {
                Option::None => old(self).queue(),
                Option::Some(p) => old(self).queue().push(
                    (EventSpec { sender, payload: Option::Some(p) }),
                ),
            }),
    {
        let ghost prev = self.queue();
        match ingest_line(sender, line) {
            Option::None => (),
            Option::Some(ev) => {
                self.events.push(ev);
                proof {
                    assert(self.queue() =~= prev.push(self.events@.last().deep_view()));
                }
            },
        }
    }

    /// How many events await dispatch.
    pub fn pending_events(&self) -> (n: usize)
        ensures
            n == self.queue().len(),
    {
        self.events.len()
    }

    /// Dispatch the oldest queued event, if there is one: apply it to the
    /// sessions and return the outbound writes it produces. With an empty
    /// queue nothing changes and nothing is written.
    pub fn step(&mut self) -> (out: Vec<Delivery>)
        requires
            old(self).wf(),
        ensures
            final(self).wf(),
            final(self).can_accept() == old(self).can_accept(),
            old(self).queue().len() == 0 ==> {
                &&& final(self).sessions() == old(self).sessions()
                &&& final(self).queue() == old(self).queue()
                &&& out.deep_view().len() == 0
            },
            old(self).queue().len() > 0 ==> {
                &&& final(self).queue() == old(self).queue().drop_first()
                &&& final(self).sessions() == spec_dispatch(
                    old(self).sessions(),
                    old(self).queue()[0].sender,
                    old(self).queue()[0].payload,
                ).sessions
                &&& out.deep_view() == spec_dispatch(
                    old(self).sessions(),
                    old(self).queue()[0].sender,
                    old(self).queue()[0].payload,
                ).out
            },
    {
        if self.events.len() == 0 {
            crate::broadcast::no_deliveries()
        } else {
            let ghost prev = self.queue();
            let ev = self.events.remove(0);
            proof {
                assert(ev.deep_view() == prev[0]);
                assert(self.queue() =~= prev.drop_first());
            }
            handle_event(&mut self.registry, &ev)
        }
    }
}

} // verus!
