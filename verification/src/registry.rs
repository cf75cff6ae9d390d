//! Connection registry: the live set of connected sessions, in registration
//! order, keyed by a unique session identifier.
//!
//! The registry hands out the identifiers itself, counting upward, so an
//! identifier is never reused. The first session ever registered receives the
//! `Owner` permission level; every later one starts at `NoPerm`. Lookup by a
//! missing identifier is a normal, silent outcome, never a failure.

use crate::User;
use crate::UserPermissionLevel;
use vstd::prelude::*;

verus! {

/// One connected client's registry entry: its identifier and its user state.
pub struct Session {
    pub id: u64,
    pub user: User,
}

/// Mathematical model of a [`Session`].
pub ghost struct SessionSpec {
    pub id: u64,
    pub username: Option<Seq<char>>,
    pub permission_level: UserPermissionLevel,
}

impl DeepView for Session {
    type V = SessionSpec;

    open spec fn deep_view(&self) -> SessionSpec {
        SessionSpec {
            id: self.id,
            username: self.user.username.deep_view(),
            permission_level: self.user.permission_level,
        }
    }
}

/// The index of the first session whose identifier is `id`, if any.
pub open spec fn first_id_match(ss: Seq<SessionSpec>, id: u64) -> Option<int>
    decreases ss.len(),
{
    if ss.len() == 0 {
        Option::None
    } else {
        match first_id_match(ss.drop_last(), id) {
            Option::Some(i) => Option::Some(i),
            Option::None => if ss.last().id == id {
                Option::Some(ss.len() - 1)
            } else {
                Option::None
            },
        }
    }
}

/// The index of the first session whose display name equals `name`, if any.
/// Display names are not unique; the first match, in registration order,
/// wins.
pub open spec fn first_name_match(ss: Seq<SessionSpec>, name: Seq<char>) -> Option<int>
    decreases ss.len(),
{
    if ss.len() == 0 {
        Option::None
    } else {
        match first_name_match(ss.drop_last(), name) {
            Option::Some(i) => Option::Some(i),
            Option::None => if ss.last().username == Option::Some(name) {
                Option::Some(ss.len() - 1)
            } else {
                Option::None
            },
        }
    }
}

/// No two sessions share an identifier.
pub open spec fn ids_unique(ss: Seq<SessionSpec>) -> bool {
    forall|i: int, j: int| 0 <= i < j < ss.len() ==> ss[i].id != ss[j].id
}

pub proof fn lemma_first_id_match_none(ss: Seq<SessionSpec>, id: u64)
    requires
        forall|i: int| 0 <= i < ss.len() ==> ss[i].id != id,
    ensures
        first_id_match(ss, id) is None,
    decreases ss.len(),
{
    if ss.len() > 0 {
        lemma_first_id_match_none(ss.drop_last(), id);
    }
}

pub proof fn lemma_first_id_match_at(ss: Seq<SessionSpec>, id: u64, i: int)
    requires
        0 <= i < ss.len(),
        ss[i].id == id,
        forall|j: int| 0 <= j < i ==> ss[j].id != id,
    ensures
        first_id_match(ss, id) == Option::Some(i),
    decreases ss.len(),
{
    if i == ss.len() - 1 {
        lemma_first_id_match_none(ss.drop_last(), id);
    } else {
        lemma_first_id_match_at(ss.drop_last(), id, i);
    }
}

pub proof fn lemma_first_id_match_props(ss: Seq<SessionSpec>, id: u64)
    ensures
        match first_id_match(ss, id) {
            Option::None => forall|i: int| 0 <= i < ss.len() ==> ss[i].id != id,
            Option::Some(i) => 0 <= i < ss.len() && ss[i].id == id && (forall|j: int|
                0 <= j < i ==> ss[j].id != id),
        },
    decreases ss.len(),
{
    if ss.len() > 0 {
        let prefix = ss.drop_last();
        lemma_first_id_match_props(prefix, id);
        assert(forall|k: int| 0 <= k < prefix.len() ==> prefix[k] == ss[k]);
    }
}

pub proof fn lemma_first_name_match_none(ss: Seq<SessionSpec>, name: Seq<char>)
    requires
        forall|i: int| 0 <= i < ss.len() ==> ss[i].username != Option::Some(name),
    ensures
        first_name_match(ss, name) is None,
    decreases ss.len(),
{
    if ss.len() > 0 {
        lemma_first_name_match_none(ss.drop_last(), name);
    }
}

pub proof fn lemma_first_name_match_at(ss: Seq<SessionSpec>, name: Seq<char>, i: int)
    requires
        0 <= i < ss.len(),
        ss[i].username == Option::Some(name),
        forall|j: int| 0 <= j < i ==> ss[j].username != Option::Some(name),
    ensures
        first_name_match(ss, name) == Option::Some(i),
    decreases ss.len(),
{
    if i == ss.len() - 1 {
        lemma_first_name_match_none(ss.drop_last(), name);
    } else {
        lemma_first_name_match_at(ss.drop_last(), name, i);
    }
}

pub proof fn lemma_first_name_match_props(ss: Seq<SessionSpec>, name: Seq<char>)
    ensures
        match first_name_match(ss, name) {
            Option::None => forall|i: int|
                0 <= i < ss.len() ==> ss[i].username != Option::Some(name),
            Option::Some(i) => 0 <= i < ss.len() && ss[i].username == Option::Some(name) && (
            forall|j: int| 0 <= j < i ==> ss[j].username != Option::Some(name)),
        },
    decreases ss.len(),
{
    if ss.len() > 0 {
        let prefix = ss.drop_last();
        lemma_first_name_match_props(prefix, name);
        assert(forall|k: int| 0 <= k < prefix.len() ==> prefix[k] == ss[k]);
    }
}

/// The live set of connected sessions, in registration order.
pub struct Registry {
    sessions: Vec<Session>,
    next_id: u64,
}

impl View for Registry {
    type V = Seq<SessionSpec>;

    closed spec fn view(&self) -> Seq<SessionSpec> {
        self.sessions.deep_view()
    }
}

impl Registry {
    /// Well-formed: identifiers are pairwise distinct, and all of them were
    /// handed out by the internal counter.
    pub closed spec fn wf(&self) -> bool {
        &&& ids_unique(self@)
        &&& forall|i: int| 0 <= i < self@.len() ==> self@[i].id < self.next_id
    }

    /// The identifier counter has not run out.
    pub closed spec fn can_register(&self) -> bool {
        self.next_id < u64::MAX
    }

    pub proof fn lemma_wf_ids_unique(&self)
        requires
            self.wf(),
        ensures
            ids_unique(self@),
    {
    }

    /// An empty registry.
    pub fn new() -> (r: Registry)
        ensures
            r@ =~= Seq::<SessionSpec>::empty(),
            r.wf(),
            r.can_register(),
    {
        let r = Registry { sessions: Vec::new(), next_id: 0 };
        proof {
            assert(r@ =~= Seq::<SessionSpec>::empty());
        }
        r
    }

    /// True when another session can still be registered.
    pub fn has_capacity(&self) -> (r: bool)
        ensures
            r == self.can_register(),
    {
        self.next_id < u64::MAX
    }

    /// How many sessions are currently registered.
    pub fn session_count(&self) -> (n: usize)
        ensures
            n == self@.len(),
    {
        self.sessions.len()
    }

    /// The identifier of the session at position `i`, in registration order.
    pub fn id_at(&self, i: usize) -> (id: u64)
        requires
            i < self@.len(),
        ensures
            id == self@[i as int].id,
    {
        self.sessions[i].id
    }

    /// A shared borrow of the session at position `i`.
    pub fn session_at(&self, i: usize) -> (s: &Session)
        requires
            i < self@.len(),
        ensures
            s.deep_view() == self@[i as int],
    {
        &self.sessions[i]
    }

    /// Register a new session and return its identifier, which no session
    /// has ever held before. The new session has no display name; it holds
    /// `Owner` exactly when the registry was empty, and `NoPerm` otherwise.
    pub fn register(&mut self) -> (id: u64)
        requires
            old(self).wf(),
            old(self).can_register(),
        ensures
            final(self).wf(),
            first_id_match(old(self)@, id) is None,
            final(self)@ == old(self)@.push(
                (SessionSpec {
                    id,
                    username: Option::None,
                    permission_level: if old(self)@.len() == 0 {
                        UserPermissionLevel::Owner
                    } else {
                        UserPermissionLevel::NoPerm
                    },
                }),
            ),
    {
        let id = self.next_id;
        self.next_id = self.next_id + 1;
        let permission_level = if self.sessions.len() == 0 {
            UserPermissionLevel::Owner
        } else {
            UserPermissionLevel::NoPerm
        };
        let ghost prev = self@;
        self.sessions.push(Session { id, user: User { username: Option::None, permission_level } });
        proof {
            assert(self@ =~= prev.push(
                SessionSpec {
                    id,
                    username: Option::None,
                    permission_level: if prev.len() == 0 {
                        UserPermissionLevel::Owner
                    } else {
                        UserPermissionLevel::NoPerm
                    },
                },
            ));
            lemma_first_id_match_none(prev, id);
        }
        id
    }

    /// The position of the session with identifier `id`, if it is present.
    pub fn find_index_by_id(&self, id: u64) -> (r: Option<usize>)
        ensures
            match r {
                Option::None => first_id_match(self@, id) is None,
                Option::Some(i) => i < self@.len() && first_id_match(self@, id) == Option::Some(
                    i as int,
                ),
            },
    {
        let n = self.sessions.len();
        let mut i: usize = 0;
        while i < n
            invariant
                i <= n,
                n == self@.len(),
                forall|j: int| 0 <= j < i ==> self@[j].id != id,
            decreases n - i,
        {
            if self.sessions[i].id == id {
                proof {
                    lemma_first_id_match_at(self@, id, i as int);
                }
                return Option::Some(i);
            }
            i = i + 1;
        }
        proof {
            lemma_first_id_match_none(self@, id);
        }
        Option::None
    }

    /// The position of the first session, in registration order, whose
    /// display name equals `name`, if any.
    pub fn find_index_by_name(&self, name: &str) -> (r: Option<usize>)
        ensures
            match r {
                Option::None => first_name_match(self@, name@) is None,
                Option::Some(i) => i < self@.len() && first_name_match(self@, name@)
                    == Option::Some(i as int),
            },
    {
        let n = self.sessions.len();
        let mut i: usize = 0;
        while i < n
            invariant
                i <= n,
                n == self@.len(),
                forall|j: int| 0 <= j < i ==> self@[j].username != Option::Some(name@),
            decreases n - i,
        {
            let matches_name = match &self.sessions[i].user.username {
                Option::Some(u) => crate::parser::str_eq(u.as_str(), name),
                Option::None => false,
            };
            if matches_name {
                proof {
                    lemma_first_name_match_at(self@, name@, i as int);
                }
                return Option::Some(i);
            }
            i = i + 1;
        }
        proof {
            lemma_first_name_match_none(self@, name@);
        }
        Option::None
    }

    /// The session with identifier `id`, or nothing if it has disconnected.
    pub fn get(&self, id: u64) -> (r: Option<&Session>)
        ensures
            match r {
                Option::None => first_id_match(self@, id) is None,
                Option::Some(s) => (first_id_match(self@, id) matches Option::Some(i)
                    && s.deep_view() == self@[i]),
            },
    {
        match self.find_index_by_id(id) {
            Option::None => Option::None,
            Option::Some(i) => Option::Some(&self.sessions[i]),
        }
    }

    /// Remove the session at position `i`; later sessions keep their order.
    pub fn remove_at(&mut self, i: usize)
        requires
            old(self).wf(),
            i < old(self)@.len(),
        ensures
            final(self).wf(),
            final(self).can_register() == old(self).can_register(),
            final(self)@ == old(self)@.remove(i as int),
    {
        let ghost prev = self@;
        self.sessions.remove(i);
        proof {
            assert(self@ =~= prev.remove(i as int));
        }
    }

    /// Remove the session with identifier `id`; if no session holds it, the
    /// registry is unchanged (a missing id is a silent outcome).
    pub fn remove(&mut self, id: u64)
        requires
            old(self).wf(),
        ensures
            final(self).wf(),
            final(self).can_register() == old(self).can_register(),
            final(self)@ == (match first_id_match(old(self)@, id) {
                Option::None => old(self)@,
                Option::Some(i) => old(self)@.remove(i),
            }),
    {
        match self.find_index_by_id(id) {
            Option::None => (),
            Option::Some(i) => self.remove_at(i),
        }
    }

    /// Set the display name of the session at position `i`.
    pub fn set_username_at(&mut self, i: usize, name: String)
        requires
            old(self).wf(),
            i < old(self)@.len(),
        ensures
            final(self).wf(),
            final(self).can_register() == old(self).can_register(),
            final(self)@ == old(self)@.update(
                i as int,
                (SessionSpec {
                    id: old(self)@[i as int].id,
                    username: Option::Some(name@),
                    permission_level: old(self)@[i as int].permission_level,
                }),
            ),
    {
        let ghost prev = self@;
        self.sessions[i].user.username = Option::Some(name);
        proof {
            assert(self@ =~= prev.update(
                i as int,
                SessionSpec {
                    id: prev[i as int].id,
                    username: self@[i as int].username,
                    permission_level: prev[i as int].permission_level,
                },
            ));
        }
    }

    /// Set the permission level of the session at position `i`.
    pub fn set_permission_at(&mut self, i: usize, level: UserPermissionLevel)
        requires
            old(self).wf(),
            i < old(self)@.len(),
        ensures
            final(self).wf(),
            final(self).can_register() == old(self).can_register(),
            final(self)@ == old(self)@.update(
                i as int,
                (SessionSpec {
                    id: old(self)@[i as int].id,
                    username: old(self)@[i as int].username,
                    permission_level: level,
                }),
            ),
    {
        let ghost prev = self@;
        self.sessions[i].user.permission_level = level;
        proof {
            assert(self@ =~= prev.update(
                i as int,
                SessionSpec {
                    id: prev[i as int].id,
                    username: prev[i as int].username,
                    permission_level: level,
                },
            ));
        }
    }
}

} // verus!
