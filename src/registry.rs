//! The presence registry: which users have live connections, and whether
//! presence changed since the last broadcast.
use crate::messages::{Dispatch, WsMessageToClient};
use crate::presence::{ConnectionHandle, OnlineUser, PresenceView};
use crate::slots::{
    has_key, insert_slot, key_index, keys_unique, lemma_insert_slot, lemma_swap_remove_slot, lookup,
    swap_remove_slot, values_of,
};
use crate::tables::{
    connection_at, connection_count, connection_slots, get_user, get_user_mut, insert_connection,
    new_user_table, swap_remove_connection, user_at, user_count, user_entry, user_slots,
};
use crate::user::User;
use indexmap::IndexMap;
use vstd::prelude::*;

verus! {

/// What the registry holds, as plain values.
pub struct RegistryView {
    pub modified: bool,
    pub users: Seq<(Seq<char>, PresenceView)>,
}

/// The presence entries keyed by user id, in first-seen order, as plain values.
pub open spec fn view_users(s: Seq<(Seq<char>, OnlineUser)>) -> Seq<(Seq<char>, PresenceView)> {
    s.map_values(|p: (Seq<char>, OnlineUser)| (p.0, p.1@))
}

/// User ids and connection ids are unique, and a profile sits under its own id.
pub open spec fn registry_wf(v: RegistryView) -> bool {
    &&& keys_unique(v.users)
    &&& forall|i: int|
        0 <= i < v.users.len() ==> {
            &&& keys_unique((#[trigger] v.users[i]).1.sessions)
            &&& (v.users[i].1.user matches Some(u) ==> u.id@ == v.users[i].0)
        }
}

/// The entry of `user_id`, or an empty one.
pub open spec fn entry_or_empty(
    users: Seq<(Seq<char>, PresenceView)>,
    user_id: Seq<char>,
) -> PresenceView {
    match lookup(users, user_id) {
        Some(e) => e,
        None => PresenceView { user: None, sessions: Seq::empty() },
    }
}

/// The registry after registering connection `session_id` of `user_id`.
pub open spec fn add_session_spec(
    v: RegistryView,
    user_id: Seq<char>,
    session_id: Seq<char>,
    addr: ConnectionHandle,
) -> RegistryView {
    let e = entry_or_empty(v.users, user_id);
    RegistryView {
        modified: true,
        users: insert_slot(
            v.users,
            user_id,
            PresenceView { user: e.user, sessions: insert_slot(e.sessions, session_id, addr) },
        ),
    }
}

/// The registry after dropping connection `session_id` of `user_id`; an
/// unknown user or connection changes nothing but the flag.
pub open spec fn remove_session_spec(
    v: RegistryView,
    user_id: Seq<char>,
    session_id: Seq<char>,
) -> RegistryView {
    RegistryView {
        modified: true,
        users: match lookup(v.users, user_id) {
            Some(e) => insert_slot(
                v.users,
                user_id,
                PresenceView { user: e.user, sessions: swap_remove_slot(e.sessions, session_id) },
            ),
            None => v.users,
        },
    }
}

/// The registry after storing `user` as the profile under its id.
pub open spec fn update_user_spec(v: RegistryView, user: User) -> RegistryView {
    let e = entry_or_empty(v.users, user.id@);
    RegistryView {
        modified: true,
        users: insert_slot(v.users, user.id@, PresenceView { user: Some(user), sessions: e.sessions }),
    }
}

/// The profiles of the entries that have a profile and a connection, in order.
pub open spec fn user_list_spec(users: Seq<(Seq<char>, PresenceView)>) -> Seq<User>
    decreases users.len(),
{
    if users.len() == 0 {
        Seq::empty()
    } else {
        let rest = user_list_spec(users.drop_last());
        let e = users.last().1;
        if e.sessions.len() > 0 && e.user is Some {
            rest.push(e.user.unwrap())
        } else {
            rest
        }
    }
}

/// The connections of `user_id`, in order; none for an unknown user.
pub open spec fn handles_of(users: Seq<(Seq<char>, PresenceView)>, user_id: Seq<char>) -> Seq<
    ConnectionHandle,
> {
    match lookup(users, user_id) {
        Some(e) => values_of(e.sessions),
        None => Seq::empty(),
    }
}

/// The connections of every entry, entry by entry.
pub open spec fn all_handles(users: Seq<(Seq<char>, PresenceView)>) -> Seq<ConnectionHandle>
    decreases users.len(),
{
    if users.len() == 0 {
        Seq::empty()
    } else {
        all_handles(users.drop_last()) + values_of(users.last().1.sessions)
    }
}

/// The connections the mail reaches: those of each receiver in turn,
/// duplicates kept, unknown or offline receivers contributing none.
pub open spec fn mail_targets_spec(
    users: Seq<(Seq<char>, PresenceView)>,
    receivers: Seq<Seq<char>>,
) -> Seq<ConnectionHandle>
    decreases receivers.len(),
{
    if receivers.len() == 0 {
        Seq::empty()
    } else {
        mail_targets_spec(users, receivers.drop_last()) + handles_of(users, receivers.last())
    }
}

/// Whether `user_id` has at least one registered connection.
pub open spec fn has_connection(users: Seq<(Seq<char>, PresenceView)>, user_id: Seq<char>) -> bool {
    handles_of(users, user_id).len() > 0
}

/// Mail fan-out: a receiver without a connection receives nothing and
/// changes nothing for the others; mail reaches exactly the connections of
/// the receivers that have one, receiver by receiver.
pub proof fn lemma_offline_receivers_ignored(
    users: Seq<(Seq<char>, PresenceView)>,
    receivers: Seq<Seq<char>>,
)
    ensures
        mail_targets_spec(users, receivers) == mail_targets_spec(
            users,
            receivers.filter(|r: Seq<char>| has_connection(users, r)),
        ),
    decreases receivers.len(),
{
    reveal(Seq::filter);
    if receivers.len() > 0 {
        let pre = receivers.drop_last();
        let last = receivers.last();
        let pred = |r: Seq<char>| has_connection(users, r);
        lemma_offline_receivers_ignored(users, pre);
        let f = receivers.filter(pred);
        if has_connection(users, last) {
            assert(f == pre.filter(pred).push(last));
            assert(f.drop_last() =~= pre.filter(pred));
        } else {
            assert(f == pre.filter(pred));
            assert(handles_of(users, last) =~= Seq::empty());
            assert(mail_targets_spec(users, receivers) =~= mail_targets_spec(users, pre));
        }
    }
}

/// The ids of a list of strings, as plain values.
pub open spec fn ids_of(v: Seq<String>) -> Seq<Seq<char>> {
    v.map_values(|s: String| s@)
}

/// A broadcast tick: when presence changed, the flag is cleared and the
/// profile list is emitted; otherwise nothing happens.
pub open spec fn tick_spec(v: RegistryView) -> (RegistryView, Option<Seq<User>>) {
    if v.modified {
        (RegistryView { modified: false, users: v.users }, Some(user_list_spec(v.users)))
    } else {
        (v, None)
    }
}

/// A registry with a single writer; the broker serialises access to it.
pub struct OnlineUsers {
    modified: bool,
    users: IndexMap<String, OnlineUser>,
}

impl View for OnlineUsers {
    type V = RegistryView;

    closed spec fn view(&self) -> RegistryView {
        RegistryView { modified: self.modified, users: view_users(user_slots(self.users)) }
    }
}

/// The slot that carries `k` in a sequence with unique keys is the only one.
proof fn lemma_key_index<V>(s: Seq<(Seq<char>, V)>, k: Seq<char>, i: int)
    requires
        keys_unique(s),
        0 <= i < s.len(),
        s[i].0 == k,
    ensures
        has_key(s, k),
        key_index(s, k) == i,
{
    assert(has_key(s, k));
}

/// Viewing the entries keeps the keys, hence their uniqueness and positions.
proof fn lemma_view_users(s: Seq<(Seq<char>, OnlineUser)>, k: Seq<char>)
    requires
        keys_unique(view_users(s)),
    ensures
        keys_unique(s),
        has_key(s, k) == has_key(view_users(s), k),
        has_key(s, k) ==> key_index(s, k) == key_index(view_users(s), k),
{
    let t = view_users(s);
    assert forall|i: int, j: int|
        0 <= i < s.len() && 0 <= j < s.len() && (#[trigger] s[i]).0 == (#[trigger] s[j]).0 implies i
        == j by {
        assert(t[i].0 == s[i].0 && t[j].0 == s[j].0);
    }
    if has_key(s, k) {
        let i = key_index(s, k);
        assert(t[i].0 == k);
        lemma_key_index(t, k, i);
    }
    if has_key(t, k) {
        let i = key_index(t, k);
        assert(s[i].0 == k);
    }
}


/// Storing an entry under `k` in place, or appending it when `k` is new, is
/// `insert_slot` on the plain view.
proof fn lemma_store(
    s_old: Seq<(Seq<char>, OnlineUser)>,
    s_new: Seq<(Seq<char>, OnlineUser)>,
    k: Seq<char>,
    e: OnlineUser,
)
    requires
        keys_unique(view_users(s_old)),
        has_key(s_old, k) ==> s_new == s_old.update(key_index(s_old, k), (k, e)),
        !has_key(s_old, k) ==> s_new == s_old.push((k, e)),
    ensures
        view_users(s_new) == insert_slot(view_users(s_old), k, e@),
        has_key(s_old, k) ==> s_old[key_index(s_old, k)].1@ == lookup(view_users(s_old), k).unwrap(),
        !has_key(s_old, k) ==> lookup(view_users(s_old), k) is None,
{
    lemma_view_users(s_old, k);
    assert(view_users(s_new) =~= insert_slot(view_users(s_old), k, e@));
}

/// `insert_slot` of an entry whose connection ids are unique, and whose
/// profile, if any, carries `k`, keeps the registry well formed.
proof fn lemma_insert_wf(v: RegistryView, k: Seq<char>, e: PresenceView)
    requires
        registry_wf(v),
        keys_unique(e.sessions),
        e.user matches Some(u) ==> u.id@ == k,
    ensures
        registry_wf(RegistryView { modified: true, users: insert_slot(v.users, k, e) }),
        lookup(insert_slot(v.users, k, e), k) == Some(e),
{
    lemma_insert_slot(v.users, k, e);
    let t = insert_slot(v.users, k, e);
    assert forall|i: int| 0 <= i < t.len() implies {
        &&& keys_unique((#[trigger] t[i]).1.sessions)
        &&& (t[i].1.user matches Some(u) ==> u.id@ == t[i].0)
    } by {
        if has_key(v.users, k) {
            if i != key_index(v.users, k) {
                assert(t[i] == v.users[i]);
            }
        } else if i < v.users.len() {
            assert(t[i] == v.users[i]);
        }
    }
}

/// The entry of `k` in a well-formed registry is itself well formed.
proof fn lemma_entry_wf(v: RegistryView, k: Seq<char>)
    requires
        registry_wf(v),
    ensures
        keys_unique(entry_or_empty(v.users, k).sessions),
        entry_or_empty(v.users, k).user matches Some(u) ==> u.id@ == k,
{
    if has_key(v.users, k) {
        let i = key_index(v.users, k);
        assert(keys_unique(v.users[i].1.sessions));
    }
}

/// Whether connection `session_id` of `user_id` is registered.
pub open spec fn is_registered(
    users: Seq<(Seq<char>, PresenceView)>,
    user_id: Seq<char>,
    session_id: Seq<char>,
) -> bool {
    has_key(entry_or_empty(users, user_id).sessions, session_id)
}

/// Storing under a present key the value it already has changes nothing.
proof fn lemma_insert_same<V>(s: Seq<(Seq<char>, V)>, k: Seq<char>)
    requires
        keys_unique(s),
        has_key(s, k),
    ensures
        insert_slot(s, k, s[key_index(s, k)].1) == s,
{
    let i = key_index(s, k);
    assert(insert_slot(s, k, s[i].1) =~= s);
}

/// Disconnecting is idempotent: a second Disconnect of the same pair
/// changes nothing, and a Disconnect of a pair that is not registered
/// leaves every entry as it was (only the change flag is set). The registry
/// stays well formed.
pub proof fn lemma_disconnect_idempotent(v: RegistryView, user_id: Seq<char>, session_id: Seq<char>)
    requires
        registry_wf(v),
    ensures
        registry_wf(remove_session_spec(v, user_id, session_id)),
        !is_registered(remove_session_spec(v, user_id, session_id).users, user_id, session_id),
        remove_session_spec(remove_session_spec(v, user_id, session_id), user_id, session_id)
            == remove_session_spec(v, user_id, session_id),
        !is_registered(v.users, user_id, session_id) ==> remove_session_spec(
            v,
            user_id,
            session_id,
        ).users == v.users,
{
    let w = remove_session_spec(v, user_id, session_id);
    if has_key(v.users, user_id) {
        let e = entry_or_empty(v.users, user_id);
        lemma_entry_wf(v, user_id);
        lemma_swap_remove_slot(e.sessions, session_id);
        let e2 = PresenceView { user: e.user, sessions: swap_remove_slot(e.sessions, session_id) };
        lemma_insert_wf(v, user_id, e2);
        assert(!has_key(e2.sessions, session_id));
        assert(entry_or_empty(w.users, user_id) == e2);
        lemma_insert_slot(v.users, user_id, e2);
        let i = key_index(w.users, user_id);
        assert(w.users[i].1 == e2);
        assert(swap_remove_slot(e2.sessions, session_id) == e2.sessions);
        lemma_insert_same(w.users, user_id);
        if !is_registered(v.users, user_id, session_id) {
            assert(swap_remove_slot(e.sessions, session_id) == e.sessions);
            assert(e2 == e);
            lemma_insert_same(v.users, user_id);
        }
    }
}

/// Registering a connection keeps the registry well formed.
pub proof fn lemma_add_session_wf(
    v: RegistryView,
    user_id: Seq<char>,
    session_id: Seq<char>,
    addr: ConnectionHandle,
)
    requires
        registry_wf(v),
    ensures
        registry_wf(add_session_spec(v, user_id, session_id, addr)),
        is_registered(add_session_spec(v, user_id, session_id, addr).users, user_id, session_id),
{
    lemma_entry_wf(v, user_id);
    let e = entry_or_empty(v.users, user_id);
    lemma_insert_slot(e.sessions, session_id, addr);
    let e2 = PresenceView { user: e.user, sessions: insert_slot(e.sessions, session_id, addr) };
    lemma_insert_wf(v, user_id, e2);
}

/// Storing a profile keeps the registry well formed.
pub proof fn lemma_update_user_wf(v: RegistryView, user: User)
    requires
        registry_wf(v),
    ensures
        registry_wf(update_user_spec(v, user)),
{
    lemma_entry_wf(v, user.id@);
    let e = entry_or_empty(v.users, user.id@);
    lemma_insert_wf(v, user.id@, PresenceView { user: Some(user), sessions: e.sessions });
}

/// Whether a profile with id `user_id` is in `list`.
pub open spec fn is_listed(list: Seq<User>, user_id: Seq<char>) -> bool {
    exists|j: int| 0 <= j < list.len() && (#[trigger] list[j]).id@ == user_id
}

/// No two profiles in `list` share an id.
pub open spec fn ids_unique(list: Seq<User>) -> bool {
    forall|j: int, k: int|
        0 <= j < list.len() && 0 <= k < list.len() && (#[trigger] list[j]).id@ == (#[trigger] list[
            k
        ]).id@ ==> j == k
}

/// Whether `user_id` has a profile and at least one registered connection.
pub open spec fn is_online(users: Seq<(Seq<char>, PresenceView)>, user_id: Seq<char>) -> bool {
    match lookup(users, user_id) {
        Some(e) => e.sessions.len() > 0 && e.user is Some,
        None => false,
    }
}

/// Looking up in a sequence with one more slot at the end.
proof fn lemma_lookup_push<V>(s: Seq<(Seq<char>, V)>, x: (Seq<char>, V), k: Seq<char>)
    requires
        keys_unique(s.push(x)),
    ensures
        k == x.0 ==> lookup(s.push(x), k) == Some(x.1) && !has_key(s, k),
        k != x.0 ==> lookup(s.push(x), k) == lookup(s, k),
{
    let t = s.push(x);
    if k == x.0 {
        lemma_key_index(t, k, s.len() as int);
        if has_key(s, k) {
            let i = key_index(s, k);
            assert(t[i] == s[i]);
        }
    } else {
        if has_key(s, k) {
            let i = key_index(s, k);
            assert(t[i] == s[i]);
            lemma_key_index(t, k, i);
        }
        if has_key(t, k) {
            let i = key_index(t, k);
            assert(i < s.len());
            assert(t[i] == s[i]);
        }
    }
}

/// In a well-formed registry the profile list holds a user exactly when
/// that user is online, and never holds two profiles with the same id.
pub proof fn lemma_listed_iff_online(users: Seq<(Seq<char>, PresenceView)>, user_id: Seq<char>)
    requires
        registry_wf(RegistryView { modified: false, users }),
    ensures
        is_listed(user_list_spec(users), user_id) <==> is_online(users, user_id),
        ids_unique(user_list_spec(users)),
    decreases users.len(),
{
    if users.len() > 0 {
        let pre = users.drop_last();
        let x = users.last();
        assert(users == pre.push(x));
        assert(registry_wf(RegistryView { modified: false, users: pre })) by {
            assert forall|i: int| 0 <= i < pre.len() implies {
                &&& keys_unique((#[trigger] pre[i]).1.sessions)
                &&& (pre[i].1.user matches Some(u) ==> u.id@ == pre[i].0)
            } by {
                assert(pre[i] == users[i]);
            }
            assert forall|i: int, j: int|
                0 <= i < pre.len() && 0 <= j < pre.len() && (#[trigger] pre[i]).0 == (#[trigger] pre[
                    j
                ]).0 implies i == j by {
                assert(pre[i] == users[i] && pre[j] == users[j]);
            }
        }
        lemma_listed_iff_online(pre, user_id);
        lemma_listed_iff_online(pre, x.0);
        lemma_lookup_push(pre, x, user_id);
        lemma_lookup_push(pre, x, x.0);
        assert(x == users[users.len() - 1]);
        let l0 = user_list_spec(pre);
        let l = user_list_spec(users);
        if x.1.sessions.len() > 0 && x.1.user is Some {
            let u = x.1.user.unwrap();
            assert(l == l0.push(u));
            assert(u.id@ == x.0);
            assert(!is_listed(l0, x.0));
            if is_listed(l, user_id) {
                let j = choose|j: int| 0 <= j < l.len() && (#[trigger] l[j]).id@ == user_id;
                if j < l0.len() {
                    assert(l0[j] == l[j]);
                }
            }
            if is_listed(l0, user_id) {
                let j = choose|j: int| 0 <= j < l0.len() && (#[trigger] l0[j]).id@ == user_id;
                assert(l[j] == l0[j]);
            }
            if user_id == x.0 {
                assert(l[l0.len() as int] == u);
            }
            assert forall|j: int, k: int|
                0 <= j < l.len() && 0 <= k < l.len() && (#[trigger] l[j]).id@ == (#[trigger] l[
                    k
                ]).id@ implies j == k by {
                if j < l0.len() {
                    assert(l[j] == l0[j]);
                }
                if k < l0.len() {
                    assert(l[k] == l0[k]);
                }
            }
        } else {
            assert(l == l0);
        }
    }
}

/// Appends the connections of `user`, in order.
fn push_handles(user: &OnlineUser, out: &mut Vec<ConnectionHandle>)
    ensures
        final(out)@ == old(out)@ + values_of(user@.sessions),
{
    let n = connection_count(&user.sessions);
    let mut j: usize = 0;
    while j < n
        invariant
            n == user@.sessions.len(),
            j <= n,
            out@ == old(out)@ + values_of(user@.sessions).subrange(0, j as int),
        decreases n - j,
    {
        let h = connection_at(&user.sessions, j).unwrap();
        out.push(h);
        j += 1;
        assert(values_of(user@.sessions).subrange(0, j as int) =~= values_of(user@.sessions).subrange(
            0,
            j - 1,
        ).push(h));
    }
    assert(values_of(user@.sessions).subrange(0, n as int) =~= values_of(user@.sessions));
}

impl OnlineUsers {
    /// Well formed: see `registry_wf`.
    pub open spec fn wf(&self) -> bool {
        registry_wf(self@)
    }

    /// An empty registry with nothing to broadcast.
    pub fn new() -> (r: OnlineUsers)
        ensures
            r.wf(),
            r@.modified == false,
            r@.users.len() == 0,
    {
        let r = OnlineUsers { modified: false, users: new_user_table() };
        assert(r@.users =~= Seq::empty());
        r
    }

    /// Whether presence changed since the last broadcast.
    pub fn is_modified(&self) -> (r: bool)
        ensures
            r == self@.modified,
    {
        self.modified
    }

    /// The entry of `user_id`, if one exists.
    pub fn get_online_user(&self, user_id: &str) -> (r: Option<&OnlineUser>)
        requires
            self.wf(),
        ensures
            match r {
                Some(u) => lookup(self@.users, user_id@) == Some(u@),
                None => lookup(self@.users, user_id@) is None,
            },
    {
        let r = get_user(&self.users, user_id);
        proof {
            lemma_view_users(user_slots(self.users), user_id@);
        }
        r
    }

    /// Registers connection `session_id` of `user_id`, creating the entry
    /// when the user is new; a repeated connection id takes the new handle.
    pub fn add_session(&mut self, user_id: &str, session_id: &str, session_addr: ConnectionHandle)
        requires
            old(self).wf(),
        ensures
            final(self).wf(),
            final(self)@ == add_session_spec(old(self)@, user_id@, session_id@, session_addr),
    {
        let ghost s_old = user_slots(self.users);
        let entry = user_entry(&mut self.users, user_id);
        let ghost fresh = *entry;
        insert_connection(&mut entry.sessions, session_id, session_addr);
        self.modified = true;
        proof {
            let s_new = user_slots(self.users);
            let v_old = RegistryView { modified: false, users: view_users(s_old) };
            assert(registry_wf(v_old));
            lemma_view_users(s_old, user_id@);
            if has_key(s_old, user_id@) {
                lemma_store(s_old, s_new, user_id@, s_new[key_index(s_old, user_id@)].1);
            } else {
                lemma_store(s_old, s_new, user_id@, s_new.last().1);
            }
            lemma_entry_wf(v_old, user_id@);
            let e = entry_or_empty(v_old.users, user_id@);
            lemma_insert_slot(e.sessions, session_id@, session_addr);
            let pv = PresenceView {
                user: e.user,
                sessions: insert_slot(e.sessions, session_id@, session_addr),
            };
            lemma_insert_wf(v_old, user_id@, pv);
            if has_key(s_old, user_id@) {
                assert(s_new[key_index(s_old, user_id@)].1@ == pv);
            } else {
                assert(connection_slots(fresh.sessions) =~= e.sessions);
                assert(s_new.last().1@ == pv);
            }
            assert(view_users(s_new) == insert_slot(v_old.users, user_id@, pv));
        }
    }

    /// Drops connection `session_id` of `user_id`; an unknown user or
    /// connection is no error. Presence is marked changed either way.
    pub fn remove_session(&mut self, user_id: &str, session_id: &str)
        requires
            old(self).wf(),
        ensures
            final(self).wf(),
            final(self)@ == remove_session_spec(old(self)@, user_id@, session_id@),
    {
        let ghost s_old = user_slots(self.users);
        let ghost v_old = RegistryView { modified: true, users: view_users(s_old) };
        proof {
            lemma_view_users(s_old, user_id@);
        }
        match get_user_mut(&mut self.users, user_id) {
            Some(user) => {
                swap_remove_connection(&mut user.sessions, session_id);
            },
            None => {},
        }
        self.modified = true;
        proof {
            let s_new = user_slots(self.users);
            if has_key(s_old, user_id@) {
                let i = key_index(s_old, user_id@);
                lemma_store(s_old, s_new, user_id@, s_new[i].1);
                lemma_entry_wf(v_old, user_id@);
                let e = entry_or_empty(v_old.users, user_id@);
                lemma_swap_remove_slot(e.sessions, session_id@);
                lemma_insert_wf(
                    v_old,
                    user_id@,
                    PresenceView { user: e.user, sessions: swap_remove_slot(e.sessions, session_id@) },
                );
            } else {
                assert(view_users(s_new) == v_old.users);
            }
        }
    }

    /// Stores `user` as the profile under its id, creating the entry when
    /// the user is new.
    pub fn update_user_info(&mut self, user: User)
        requires
            old(self).wf(),
        ensures
            final(self).wf(),
            final(self)@ == update_user_spec(old(self)@, user),
    {
        let ghost s_old = user_slots(self.users);
        let ghost user0 = user;
        let entry = user_entry(&mut self.users, user.id.as_str());
        let ghost fresh = *entry;
        entry.user = Some(user);
        self.modified = true;
        proof {
            let s_new = user_slots(self.users);
            let v_old = RegistryView { modified: false, users: view_users(s_old) };
            assert(registry_wf(v_old));
            lemma_view_users(s_old, user0.id@);
            if has_key(s_old, user0.id@) {
                lemma_store(s_old, s_new, user0.id@, s_new[key_index(s_old, user0.id@)].1);
            } else {
                lemma_store(s_old, s_new, user0.id@, s_new.last().1);
            }
            lemma_entry_wf(v_old, user0.id@);
            let e = entry_or_empty(v_old.users, user0.id@);
            let pv = PresenceView { user: Some(user0), sessions: e.sessions };
            lemma_insert_wf(v_old, user0.id@, pv);
            if has_key(s_old, user0.id@) {
                assert(s_new[key_index(s_old, user0.id@)].1@ == pv);
            } else {
                assert(connection_slots(fresh.sessions) =~= e.sessions);
                assert(s_new.last().1@ == pv);
            }
            assert(view_users(s_new) == insert_slot(v_old.users, user0.id@, pv));
        }
    }

    /// The profiles of every user that has a profile and at least one
    /// connection, in the registry's order.
    pub fn get_user_list(&self) -> (r: Vec<User>)
        ensures
            r@ == user_list_spec(self@.users),
    {
        let n = user_count(&self.users);
        let mut out: Vec<User> = Vec::new();
        let mut i: usize = 0;
        while i < n
            invariant
                n == self@.users.len(),
                i <= n,
                out@ == user_list_spec(self@.users.subrange(0, i as int)),
            decreases n - i,
        {
            let u = user_at(&self.users, i).unwrap();
            assert(self@.users.subrange(0, i + 1).drop_last() =~= self@.users.subrange(0, i as int));
            if connection_count(&u.sessions) > 0 {
                match &u.user {
                    Some(p) => {
                        out.push(p.duplicate());
                    },
                    None => {},
                }
            }
            i += 1;
        }
        assert(self@.users.subrange(0, n as int) =~= self@.users);
        out
    }

    /// The message to push to every connection of `user_id`; no connection
    /// for an unknown user.
    pub fn send_message_to_uid(&self, user_id: &str, msg: WsMessageToClient) -> (r: Dispatch)
        requires
            self.wf(),
        ensures
            r.targets@ == handles_of(self@.users, user_id@),
            r.message == msg,
    {
        let mut targets: Vec<ConnectionHandle> = Vec::new();
        match self.get_online_user(user_id) {
            Some(user) => {
                push_handles(user, &mut targets);
                assert(targets@ =~= values_of(user@.sessions));
            },
            None => {
                assert(targets@ =~= Seq::empty());
            },
        }
        Dispatch { targets, message: msg }
    }

    /// Every registered connection, entry by entry.
    pub fn all_connections(&self) -> (r: Vec<ConnectionHandle>)
        ensures
            r@ == all_handles(self@.users),
    {
        let n = user_count(&self.users);
        let mut out: Vec<ConnectionHandle> = Vec::new();
        let mut i: usize = 0;
        while i < n
            invariant
                n == self@.users.len(),
                i <= n,
                out@ == all_handles(self@.users.subrange(0, i as int)),
            decreases n - i,
        {
            let u = user_at(&self.users, i).unwrap();
            assert(self@.users.subrange(0, i + 1).drop_last() =~= self@.users.subrange(0, i as int));
            push_handles(u, &mut out);
            i += 1;
        }
        assert(self@.users.subrange(0, n as int) =~= self@.users);
        out
    }

    /// The broadcast tick: when presence changed since the last broadcast,
    /// clears the flag and returns the profile list addressed to every
    /// connection; otherwise returns `None` and changes nothing.
    pub fn broadcast_users_if_needed(&mut self) -> (r: Option<Dispatch>)
        requires
            old(self).wf(),
        ensures
            final(self).wf(),
            final(self)@ == tick_spec(old(self)@).0,
            match r {
                Some(d) => {
                    &&& old(self)@.modified
                    &&& d.message matches WsMessageToClient::Users(list)
                    &&& list@ == user_list_spec(old(self)@.users)
                    &&& d.targets@ == all_handles(old(self)@.users)
                },
                None => !old(self)@.modified,
            },
    {
        if !self.modified {
            return None;
        }
        self.modified = false;
        let users = self.get_user_list();
        let targets = self.all_connections();
        Some(Dispatch { targets, message: WsMessageToClient::Users(users) })
    }

    /// The connections that mail to `receivers` reaches now.
    pub fn mail_targets(&self, receivers: &Vec<String>) -> (r: Vec<ConnectionHandle>)
        requires
            self.wf(),
        ensures
            r@ == mail_targets_spec(self@.users, ids_of(receivers@)),
    {
        let mut out: Vec<ConnectionHandle> = Vec::new();
        let mut i: usize = 0;
        while i < receivers.len()
            invariant
                self.wf(),
                i <= receivers.len(),
                out@ == mail_targets_spec(self@.users, ids_of(receivers@).subrange(0, i as int)),
            decreases receivers.len() - i,
        {
            let ghost before = out@;
            match self.get_online_user(receivers[i].as_str()) {
                Some(user) => push_handles(user, &mut out),
                None => {},
            }
            assert(ids_of(receivers@).subrange(0, i + 1).drop_last() =~= ids_of(receivers@).subrange(
                0,
                i as int,
            ));
            assert(out@ =~= before + handles_of(self@.users, receivers@[i as int]@));
            i += 1;
        }
        assert(ids_of(receivers@).subrange(0, receivers.len() as int) =~= ids_of(receivers@));
        out
    }
}

} // verus!
