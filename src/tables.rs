//! The insertion-ordered maps of the registry, held in `indexmap::IndexMap`.
//! Each function here is trusted: its contract states what the crate's
//! source shows of the method it calls, over the contents named below.
use crate::presence::{ConnectionHandle, OnlineUser};
use crate::slots::{has_key, insert_slot, key_index, lookup, swap_remove_slot};
use indexmap::IndexMap;
use vstd::prelude::*;

verus! {

#[verifier::external_type_specification]
#[verifier::external_body]
#[verifier::reject_recursive_types(K)]
#[verifier::reject_recursive_types(V)]
#[verifier::reject_recursive_types(S)]
pub struct ExIndexMap<K, V, S>(IndexMap<K, V, S>);

/// The key/value pairs of a connection table, in the map's order.
pub uninterp spec fn connection_slots(m: IndexMap<String, ConnectionHandle>) -> Seq<
    (Seq<char>, ConnectionHandle),
>;

/// The key/value pairs of a user table, in the map's order.
pub uninterp spec fn user_slots(m: IndexMap<String, OnlineUser>) -> Seq<(Seq<char>, OnlineUser)>;

/// Relies on `IndexMap::new`: the new map is empty.
#[verifier::external_body]
pub(crate) fn new_connection_table() -> (m: IndexMap<String, ConnectionHandle>)
    ensures
        connection_slots(m) == Seq::<(Seq<char>, ConnectionHandle)>::empty(),
{
    IndexMap::new()
}

/// Relies on `IndexMap::len`: the number of pairs.
#[verifier::external_body]
pub(crate) fn connection_count(m: &IndexMap<String, ConnectionHandle>) -> (n: usize)
    ensures
        n == connection_slots(*m).len(),
{
    m.len()
}

/// Relies on `IndexMap::insert`: a present key keeps its place and takes the
/// new value, an absent key is appended last.
#[verifier::external_body]
pub(crate) fn insert_connection(
    m: &mut IndexMap<String, ConnectionHandle>,
    key: &str,
    handle: ConnectionHandle,
)
    ensures
        connection_slots(*final(m)) == insert_slot(connection_slots(*old(m)), key@, handle),
{
    m.insert(key.to_string(), handle);
}

/// Relies on `IndexMap::swap_remove`: the pair of `key` is replaced by the last
/// pair, which is popped; the removed value is returned, `None` if absent.
#[verifier::external_body]
pub(crate) fn swap_remove_connection(m: &mut IndexMap<String, ConnectionHandle>, key: &str) -> (r:
    Option<ConnectionHandle>)
    ensures
        connection_slots(*final(m)) == swap_remove_slot(connection_slots(*old(m)), key@),
        r == lookup(connection_slots(*old(m)), key@),
{
    m.swap_remove(key)
}

/// Relies on `IndexMap::get_index`: the value at a position, `None` past the end.
#[verifier::external_body]
pub(crate) fn connection_at(m: &IndexMap<String, ConnectionHandle>, index: usize) -> (r: Option<
    ConnectionHandle,
>)
    ensures
        r == (if index < connection_slots(*m).len() {
            Some(connection_slots(*m)[index as int].1)
        } else {
            None
        }),
{
    m.get_index(index).map(|(_, h)| *h)
}

/// Relies on `IndexMap::new`: the new map is empty.
#[verifier::external_body]
pub(crate) fn new_user_table() -> (m: IndexMap<String, OnlineUser>)
    ensures
        user_slots(m) == Seq::<(Seq<char>, OnlineUser)>::empty(),
{
    IndexMap::new()
}

/// Relies on `IndexMap::len`: the number of pairs.
#[verifier::external_body]
pub(crate) fn user_count(m: &IndexMap<String, OnlineUser>) -> (n: usize)
    ensures
        n == user_slots(*m).len(),
{
    m.len()
}

/// Relies on `IndexMap::get`: the value stored under `key`, if any.
#[verifier::external_body]
pub(crate) fn get_user<'a>(m: &'a IndexMap<String, OnlineUser>, key: &str) -> (r: Option<
    &'a OnlineUser,
>)
    ensures
        match r {
            Some(u) => has_key(user_slots(*m), key@) && *u == user_slots(*m)[key_index(
                user_slots(*m),
                key@,
            )].1,
            None => !has_key(user_slots(*m), key@),
        },
{
    m.get(key)
}

/// Relies on `IndexMap::get_mut`: a mutable borrow of the value stored under
/// `key`; the pair keeps its place.
#[verifier::external_body]
pub(crate) fn get_user_mut<'a>(m: &'a mut IndexMap<String, OnlineUser>, key: &str) -> (r: Option<
    &'a mut OnlineUser,
>)
    ensures
        has_key(user_slots(*old(m)), key@) ==> {
            &&& r is Some
            &&& *r.unwrap() == user_slots(*old(m))[key_index(user_slots(*old(m)), key@)].1
            &&& user_slots(*final(m)) == user_slots(*old(m)).update(
                key_index(user_slots(*old(m)), key@),
                (key@, *final(r.unwrap())),
            )
        },
        !has_key(user_slots(*old(m)), key@) ==> r is None && user_slots(*final(m)) == user_slots(
            *old(m),
        ),
{
    m.get_mut(key)
}

/// Relies on `IndexMap::entry` and `Entry::or_insert_with`: the value stored
/// under `key`, or else a fresh `OnlineUser::new()` appended last.
#[verifier::external_body]
pub(crate) fn user_entry<'a>(m: &'a mut IndexMap<String, OnlineUser>, key: &str) -> (r:
    &'a mut OnlineUser)
    ensures
        has_key(user_slots(*old(m)), key@) ==> {
            &&& *r == user_slots(*old(m))[key_index(user_slots(*old(m)), key@)].1
            &&& user_slots(*final(m)) == user_slots(*old(m)).update(
                key_index(user_slots(*old(m)), key@),
                (key@, *final(r)),
            )
        },
        !has_key(user_slots(*old(m)), key@) ==> {
            &&& r.user is None
            &&& connection_slots(r.sessions).len() == 0
            &&& user_slots(*final(m)) == user_slots(*old(m)).push((key@, *final(r)))
        },
{
    m.entry(key.to_string()).or_insert_with(OnlineUser::new)
}

/// Relies on `IndexMap::get_index`: the value at a position, `None` past the end.
#[verifier::external_body]
pub(crate) fn user_at<'a>(m: &'a IndexMap<String, OnlineUser>, index: usize) -> (r: Option<
    &'a OnlineUser,
>)
    ensures
        r == (if index < user_slots(*m).len() {
            Some(&user_slots(*m)[index as int].1)
        } else {
            None
        }),
{
    m.get_index(index).map(|(_, u)| u)
}

} // verus!
