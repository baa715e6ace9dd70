//! The presence entry of one user: an optional profile and the live
//! connections registered for it.
use crate::tables::{connection_slots, new_connection_table};
use crate::user::User;
use indexmap::IndexMap;
use vstd::prelude::*;

verus! {

/// An opaque token that names the mailbox of one live connection.
#[derive(Clone, Copy, Debug, PartialEq, Eq, Structural)]
pub struct ConnectionHandle {
    pub id: u64,
}

/// One user's presence: the profile, once known, and its connections keyed
/// by connection id.
pub struct OnlineUser {
    pub user: Option<User>,
    pub sessions: IndexMap<String, ConnectionHandle>,
}

/// What an `OnlineUser` holds, as plain values.
pub struct PresenceView {
    pub user: Option<User>,
    pub sessions: Seq<(Seq<char>, ConnectionHandle)>,
}

impl View for OnlineUser {
    type V = PresenceView;

    open spec fn view(&self) -> PresenceView {
        PresenceView { user: self.user, sessions: connection_slots(self.sessions) }
    }
}

impl OnlineUser {
    /// An entry with no profile and no connection.
    pub fn new() -> (r: OnlineUser)
        ensures
            r.user is None,
            r@.sessions.len() == 0,
    {
        OnlineUser { user: None, sessions: new_connection_table() }
    }
}

} // verus!
