//! Sessions: the live state of one whiteboard, the connections attached to
//! it and the changes still to be stored; and the registry of sessions.

use vstd::prelude::*;
use std::collections::HashMap;
use crate::ids::{ClientIdType, WhiteboardIdType};
use crate::listing::{is_listing, keys_of};
use crate::messages::{diffs_view, summaries_view, WhiteboardDiff, WhiteboardDiffSpec};
use crate::users::{UserSummary, UserSummarySpec, WhiteboardPermissionEnum};
use crate::whiteboard::{Whiteboard, WhiteboardSpec};

verus! {

broadcast use vstd::std_specs::hash::group_hash_axioms;

/// The live state of one whiteboard.
#[derive(Clone, Debug)]
pub struct SharedWhiteboardEntry {
    pub whiteboard: Whiteboard,
    pub whiteboard_id: WhiteboardIdType,
    /// The user behind each connection that has logged in.
    pub active_clients: HashMap<ClientIdType, UserSummary>,
    /// The changes committed in memory and not yet handed to the store,
    /// oldest first.
    pub diffs: Vec<WhiteboardDiff>,
}

pub struct SharedWhiteboardEntrySpec {
    pub whiteboard: WhiteboardSpec,
    pub whiteboard_id: WhiteboardIdType,
    pub active_clients: Map<ClientIdType, UserSummarySpec>,
    pub diffs: Seq<WhiteboardDiffSpec>,
}

/// The views of the users of a map of connections, key by key.
pub open spec fn clients_view(clients: Map<ClientIdType, UserSummary>) -> Map<
    ClientIdType,
    UserSummarySpec,
> {
    clients.map_values(|u: UserSummary| u@)
}

impl View for SharedWhiteboardEntry {
    type V = SharedWhiteboardEntrySpec;

    open spec fn view(&self) -> SharedWhiteboardEntrySpec {
        SharedWhiteboardEntrySpec {
            whiteboard: self.whiteboard@,
            whiteboard_id: self.whiteboard_id,
            active_clients: clients_view(self.active_clients@),
            diffs: diffs_view(self.diffs@),
        }
    }
}

/// Whether `users` is a presence list of the connections `active`: every
/// user behind a connection appears, whatever the number of that user's
/// connections, under one entry; and every entry is the summary of a
/// connection. Which of a user's connections gives the entry, and the order
/// of the entries, are left open.
pub open spec fn is_presence_list(
    users: Seq<UserSummarySpec>,
    active: Map<ClientIdType, UserSummarySpec>,
) -> bool {
    &&& forall|i: int, j: int|
        0 <= i < j < users.len() ==> (#[trigger] users[i]).user_id != (#[trigger] users[j]).user_id
    &&& forall|i: int| 0 <= i < users.len() ==> is_connected(active, #[trigger] users[i])
    &&& forall|c: ClientIdType| #[trigger]
        active.contains_key(c) ==> lists_user(users, active[c].user_id)
}

/// Whether `user` is the summary of one of the connections `active`.
pub open spec fn is_connected(active: Map<ClientIdType, UserSummarySpec>, user: UserSummarySpec) -> bool {
    exists|c: ClientIdType| #[trigger] active.contains_key(c) && active[c] == user
}

/// Whether `users` has an entry for the user `user_id`.
pub open spec fn lists_user(users: Seq<UserSummarySpec>, user_id: Seq<char>) -> bool {
    exists|i: int| 0 <= i < users.len() && (#[trigger] users[i]).user_id == user_id
}

fn has_user(users: &Vec<UserSummary>, user_id: &String) -> (r: bool)
    ensures
        r == lists_user(summaries_view(users@), user_id@),
{
    let n: usize = users.len();
    let mut i: usize = 0;
    while i < n
        invariant
            n == users@.len(),
            i <= n,
            forall|j: int| 0 <= j < i ==> (#[trigger] summaries_view(users@)[j]).user_id != user_id@,
        decreases n - i,
    {
        if users[i].user_id == *user_id {
            assert(summaries_view(users@)[i as int].user_id == user_id@);
            return true;
        }
        i = i + 1;
    }
    false
}

impl SharedWhiteboardEntry {
    /// A fresh session for `whiteboard`: no connection, no pending change.
    pub fn new(whiteboard: Whiteboard) -> (r: SharedWhiteboardEntry)
        ensures
            r@ == (SharedWhiteboardEntrySpec {
                whiteboard: whiteboard@,
                whiteboard_id: whiteboard.id,
                active_clients: Map::empty(),
                diffs: Seq::empty(),
            }),
    {
        let whiteboard_id = whiteboard.id;
        let r = SharedWhiteboardEntry {
            whiteboard,
            whiteboard_id,
            active_clients: HashMap::new(),
            diffs: Vec::new(),
        };
        assert(r@.active_clients =~= Map::empty());
        assert(r@.diffs =~= Seq::empty());
        r
    }

    /// Records that the connection `client_id` belongs to `identity`.
    pub fn register_connection(&mut self, client_id: ClientIdType, identity: UserSummary)
        ensures
            final(self)@ == (SharedWhiteboardEntrySpec {
                active_clients: old(self)@.active_clients.insert(client_id, identity@),
                ..old(self)@
            }),
    {
        let ghost before = self.active_clients@;
        self.active_clients.insert(client_id, identity);
        assert(clients_view(self.active_clients@) =~= clients_view(before).insert(
            client_id,
            identity@,
        ));
    }

    /// The users behind the session's connections, each once.
    pub fn active_users(&self) -> (r: Vec<UserSummary>)
        ensures
            is_presence_list(summaries_view(r@), self@.active_clients),
    {
        let keys = keys_of(&self.active_clients);
        let mut out: Vec<UserSummary> = Vec::new();
        let n: usize = keys.len();
        let mut i: usize = 0;
        let ghost active = self@.active_clients;
        assert(active.dom() =~= self.active_clients@.dom());
        while i < n
            invariant
                n == keys@.len(),
                i <= n,
                active == self@.active_clients,
                is_listing(keys@, active.dom()),
                forall|a: int, b: int|
                    0 <= a < b < out@.len() ==> (#[trigger] summaries_view(out@)[a]).user_id != (
                    #[trigger] summaries_view(out@)[b]).user_id,
                forall|a: int|
                    0 <= a < out@.len() ==> is_connected(
                        active,
                        #[trigger] summaries_view(out@)[a],
                    ),
                forall|j: int|
                    0 <= j < i ==> lists_user(
                        summaries_view(out@),
                        (#[trigger] active[keys@[j]]).user_id,
                    ),
            decreases n - i,
        {
            let k: ClientIdType = keys[i];
            assert(keys@.to_set().contains(keys@[i as int]));
            assert(active.contains_key(k));
            let ghost out_before = summaries_view(out@);
            match self.active_clients.get(&k) {
                Some(user) => {
                    assert(user@ == active[k]);
                    if !has_user(&out, &user.user_id) {
                        out.push(user.duplicate());
                        proof {
                            let now = summaries_view(out@);
                            assert(now =~= out_before.push(user@));
                            assert forall|a: int| 0 <= a < now.len() implies is_connected(
                                active,
                                #[trigger] now[a],
                            ) by {
                                if a < out_before.len() {
                                    assert(now[a] == out_before[a]);
                                } else {
                                    assert(active.contains_key(k) && active[k] == now[a]);
                                }
                            }
                            assert forall|j: int| 0 <= j <= i implies lists_user(
                                now,
                                (#[trigger] active[keys@[j]]).user_id,
                            ) by {
                                if j < i {
                                    let a = choose|a: int|
                                        0 <= a < out_before.len() && (#[trigger] out_before[a]).user_id
                                            == active[keys@[j]].user_id;
                                    assert(now[a].user_id == active[keys@[j]].user_id);
                                } else {
                                    assert(now[now.len() - 1].user_id == active[k].user_id);
                                }
                            }
                            assert forall|a: int, b: int| 0 <= a < b < now.len() implies (
                            #[trigger] now[a]).user_id != (#[trigger] now[b]).user_id by {
                                if b < out_before.len() {
                                    assert(now[a] == out_before[a] && now[b] == out_before[b]);
                                } else {
                                    assert(now[a] == out_before[a]);
                                }
                            }
                        }
                    }
                },
                None => {
                    assert(false);
                },
            }
            i = i + 1;
        }
        proof {
            let users = summaries_view(out@);
            assert forall|c: ClientIdType| #[trigger] active.contains_key(c) implies lists_user(
                users,
                active[c].user_id,
            ) by {
                assert(keys@.to_set().contains(c));
                let j = choose|j: int| 0 <= j < keys@.len() && keys@[j] == c;
                assert(lists_user(users, active[keys@[j]].user_id));
            }
        }
        out
    }

    /// Forgets the connection `client_id` and returns the users behind the
    /// connections that remain, each once.
    pub fn deregister_connection(&mut self, client_id: ClientIdType) -> (r: Vec<UserSummary>)
        ensures
            final(self)@ == (SharedWhiteboardEntrySpec {
                active_clients: old(self)@.active_clients.remove(client_id),
                ..old(self)@
            }),
            is_presence_list(summaries_view(r@), final(self)@.active_clients),
    {
        let ghost before = self.active_clients@;
        self.active_clients.remove(&client_id);
        assert(clients_view(self.active_clients@) =~= clients_view(before).remove(client_id));
        self.active_users()
    }

    /// Appends `diff` to the changes that await the store.
    pub fn push_diff(&mut self, diff: WhiteboardDiff)
        ensures
            final(self)@ == (SharedWhiteboardEntrySpec {
                diffs: old(self)@.diffs.push(diff@),
                ..old(self)@
            }),
    {
        let ghost before = self.diffs@;
        self.diffs.push(diff);
        assert(diffs_view(self.diffs@) =~= diffs_view(before).push(diff@));
    }

    /// Hands out the changes that await the store, oldest first, and leaves
    /// none behind.
    pub fn take_diffs(&mut self) -> (r: Vec<WhiteboardDiff>)
        ensures
            diffs_view(r@) == old(self)@.diffs,
            final(self)@ == (SharedWhiteboardEntrySpec { diffs: Seq::empty(), ..old(self)@ }),
    {
        let mut out: Vec<WhiteboardDiff> = Vec::new();
        std::mem::swap(&mut self.diffs, &mut out);
        assert(diffs_view(self.diffs@) =~= Seq::empty());
        out
    }
}

/// What one connection knows of itself.
#[derive(Clone, Debug)]
pub struct ClientState {
    pub client_id: ClientIdType,
    pub jwt_secret: String,
    /// The tier of the user on the whiteboard, once the connection has
    /// logged in.
    pub user_whiteboard_permission: Option<WhiteboardPermissionEnum>,
}

pub struct ClientStateSpec {
    pub client_id: ClientIdType,
    pub jwt_secret: Seq<char>,
    pub user_whiteboard_permission: Option<WhiteboardPermissionEnum>,
}

impl View for ClientState {
    type V = ClientStateSpec;

    open spec fn view(&self) -> ClientStateSpec {
        ClientStateSpec {
            client_id: self.client_id,
            jwt_secret: self.jwt_secret@,
            user_whiteboard_permission: self.user_whiteboard_permission,
        }
    }
}

impl ClientState {
    /// The state of a connection that has not logged in.
    pub fn new(client_id: ClientIdType, jwt_secret: String) -> (r: ClientState)
        ensures
            r@ == (ClientStateSpec {
                client_id,
                jwt_secret: jwt_secret@,
                user_whiteboard_permission: None,
            }),
    {
        ClientState { client_id, jwt_secret, user_whiteboard_permission: None }
    }
}

/// The registry of sessions, one for each whiteboard that was loaded.
#[derive(Clone, Debug)]
pub struct ProgramState {
    pub whiteboards: HashMap<WhiteboardIdType, SharedWhiteboardEntry>,
}

/// The views of the sessions of a registry, key by key.
pub open spec fn sessions_view(sessions: Map<WhiteboardIdType, SharedWhiteboardEntry>) -> Map<
    WhiteboardIdType,
    SharedWhiteboardEntrySpec,
> {
    sessions.map_values(|s: SharedWhiteboardEntry| s@)
}

impl View for ProgramState {
    type V = Map<WhiteboardIdType, SharedWhiteboardEntrySpec>;

    open spec fn view(&self) -> Map<WhiteboardIdType, SharedWhiteboardEntrySpec> {
        sessions_view(self.whiteboards@)
    }
}

/// What the store gave when a whiteboard was asked for.
#[derive(Clone, Debug)]
pub enum LoadOutcome {
    /// The store failed.
    Failed,
    /// The store holds no such whiteboard.
    Missing,
    Loaded(Whiteboard),
}

pub enum LoadOutcomeSpec {
    Failed,
    Missing,
    Loaded(WhiteboardSpec),
}

impl View for LoadOutcome {
    type V = LoadOutcomeSpec;

    open spec fn view(&self) -> LoadOutcomeSpec {
        match *self {
            LoadOutcome::Failed => LoadOutcomeSpec::Failed,
            LoadOutcome::Missing => LoadOutcomeSpec::Missing,
            LoadOutcome::Loaded(w) => LoadOutcomeSpec::Loaded(w@),
        }
    }
}

/// Why a whiteboard has no session.
#[derive(Clone, Copy, Debug, PartialEq, Eq, Structural)]
pub enum LoadError {
    NotFound,
    StoreError,
}

/// Whether a connection can attach to the whiteboard `whiteboard_id`,
/// where `loaded` is what the store gave for it: it can where the
/// whiteboard has a session, whatever the store gave, and where the store
/// gave that whiteboard.
pub open spec fn spec_load_result(
    registry: Map<WhiteboardIdType, SharedWhiteboardEntrySpec>,
    whiteboard_id: WhiteboardIdType,
    loaded: LoadOutcomeSpec,
) -> Result<(), LoadError> {
    if registry.contains_key(whiteboard_id) {
        Ok(())
    } else {
        match loaded {
            LoadOutcomeSpec::Loaded(w) => if w.id == whiteboard_id {
                Ok(())
            } else {
                Err(LoadError::StoreError)
            },
            LoadOutcomeSpec::Missing => Err(LoadError::NotFound),
            LoadOutcomeSpec::Failed => Err(LoadError::StoreError),
        }
    }
}

/// The registry after a connection asked for the whiteboard
/// `whiteboard_id`, where `loaded` is what the store gave for it: a
/// whiteboard that was loaded gets a fresh session, unless it has one;
/// nothing is kept of a whiteboard that was not found.
pub open spec fn spec_get_or_load(
    registry: Map<WhiteboardIdType, SharedWhiteboardEntrySpec>,
    whiteboard_id: WhiteboardIdType,
    loaded: LoadOutcomeSpec,
) -> Map<WhiteboardIdType, SharedWhiteboardEntrySpec> {
    match loaded {
        LoadOutcomeSpec::Loaded(w) => if w.id == whiteboard_id {
            spec_install(registry, w)
        } else {
            registry
        },
        _ => registry,
    }
}

/// The registry after a whiteboard was loaded from the store: it gets a
/// fresh session, unless it has a session already, which then stands.
pub open spec fn spec_install(
    registry: Map<WhiteboardIdType, SharedWhiteboardEntrySpec>,
    whiteboard: WhiteboardSpec,
) -> Map<WhiteboardIdType, SharedWhiteboardEntrySpec> {
    if registry.contains_key(whiteboard.id) {
        registry
    } else {
        registry.insert(
            whiteboard.id,
            SharedWhiteboardEntrySpec {
                whiteboard,
                whiteboard_id: whiteboard.id,
                active_clients: Map::empty(),
                diffs: Seq::empty(),
            },
        )
    }
}

impl ProgramState {
    /// A registry without sessions.
    pub fn new() -> (r: ProgramState)
        ensures
            r@ == Map::<WhiteboardIdType, SharedWhiteboardEntrySpec>::empty(),
    {
        let r = ProgramState { whiteboards: HashMap::new() };
        assert(r@ =~= Map::empty());
        r
    }

    /// Whether the whiteboard `whiteboard_id` has a session.
    pub fn has_session(&self, whiteboard_id: WhiteboardIdType) -> (r: bool)
        ensures
            r == self@.contains_key(whiteboard_id),
    {
        self.whiteboards.contains_key(&whiteboard_id)
    }

    /// Opens a session for a whiteboard that was loaded from the store,
    /// unless that whiteboard has a session already: then the session
    /// stands as it is and what was loaded is dropped. The result says
    /// whether a session was opened.
    pub fn install(&mut self, whiteboard: Whiteboard) -> (opened: bool)
        ensures
            opened == !old(self)@.contains_key(whiteboard.id),
            final(self)@ == spec_install(old(self)@, whiteboard@),
    {
        if self.whiteboards.contains_key(&whiteboard.id) {
            false
        } else {
            let ghost before = self.whiteboards@;
            let id = whiteboard.id;
            let session = SharedWhiteboardEntry::new(whiteboard);
            self.whiteboards.insert(id, session);
            assert(sessions_view(self.whiteboards@) =~= sessions_view(before).insert(id, session@));
            true
        }
    }

    /// Attaches a connection to the whiteboard `whiteboard_id`, where
    /// `loaded` is what the store gave for it. A whiteboard that was loaded
    /// gets a session, unless it has one already, which then stands; a
    /// whiteboard that was not found gets none.
    pub fn get_or_load(&mut self, whiteboard_id: WhiteboardIdType, loaded: LoadOutcome) -> (r:
        Result<(), LoadError>)
        ensures
            r == spec_load_result(old(self)@, whiteboard_id, loaded@),
            final(self)@ == spec_get_or_load(old(self)@, whiteboard_id, loaded@),
            r is Ok <==> final(self)@.contains_key(whiteboard_id),
    {
        let cached = self.whiteboards.contains_key(&whiteboard_id);
        match loaded {
            LoadOutcome::Loaded(whiteboard) => {
                if whiteboard.id == whiteboard_id {
                    self.install(whiteboard);
                    Ok(())
                } else if cached {
                    Ok(())
                } else {
                    Err(LoadError::StoreError)
                }
            },
            LoadOutcome::Missing => if cached {
                Ok(())
            } else {
                Err(LoadError::NotFound)
            },
            LoadOutcome::Failed => if cached {
                Ok(())
            } else {
                Err(LoadError::StoreError)
            },
        }
    }

    /// Takes the session of `whiteboard_id` out of the registry, to work
    /// on it; `put_session` files it again.
    pub fn take_session(&mut self, whiteboard_id: WhiteboardIdType) -> (r: Option<
        SharedWhiteboardEntry,
    >)
        ensures
            final(self)@ == old(self)@.remove(whiteboard_id),
            match r {
                Some(session) => old(self)@.contains_key(whiteboard_id) && session@ == old(
                    self,
                )@[whiteboard_id],
                None => !old(self)@.contains_key(whiteboard_id),
            },
    {
        let ghost before = self.whiteboards@;
        let r = self.whiteboards.remove(&whiteboard_id);
        assert(sessions_view(self.whiteboards@) =~= sessions_view(before).remove(whiteboard_id));
        r
    }

    /// Files `session` under the id of its whiteboard.
    pub fn put_session(&mut self, session: SharedWhiteboardEntry)
        ensures
            final(self)@ == old(self)@.insert(session.whiteboard_id, session@),
    {
        let ghost before = self.whiteboards@;
        self.whiteboards.insert(session.whiteboard_id, session);
        assert(sessions_view(self.whiteboards@) =~= sessions_view(before).insert(
            session.whiteboard_id,
            session@,
        ));
    }
}

/// What the server keeps for all connections.
#[derive(Clone, Debug)]
pub struct ConnectionState {
    pub jwt_secret: String,
    /// The id that the next connection gets.
    pub next_client_id: ClientIdType,
    pub program_state: ProgramState,
}

impl ConnectionState {
    /// The state of a server that no connection has reached yet.
    pub fn new(jwt_secret: String) -> (r: ConnectionState)
        ensures
            r.jwt_secret@ == jwt_secret@,
            r.next_client_id == 0,
            r.program_state@ == Map::<WhiteboardIdType, SharedWhiteboardEntrySpec>::empty(),
    {
        ConnectionState { jwt_secret, next_client_id: 0, program_state: ProgramState::new() }
    }

    /// The id for a new connection: larger than every id handed out
    /// before. Nothing once the ids are used up.
    pub fn allocate_client_id(&mut self) -> (r: Option<ClientIdType>)
        ensures
            final(self).jwt_secret == old(self).jwt_secret,
            final(self).program_state == old(self).program_state,
            old(self).next_client_id < i32::MAX ==> r == Some(old(self).next_client_id)
                && final(self).next_client_id == old(self).next_client_id + 1,
            old(self).next_client_id == i32::MAX ==> r is None && final(self).next_client_id
                == old(self).next_client_id,
    {
        if self.next_client_id < i32::MAX {
            let id: ClientIdType = self.next_client_id;
            self.next_client_id = id + 1;
            Some(id)
        } else {
            None
        }
    }
}

} // verus!
