//! The broker: the single owner of the registry, which applies the commands
//! in arrival order, captures the receivers of each mail when it is sent,
//! and turns resolved mail into deliveries.
use crate::file::UserFile;
use crate::messages::{
    Dispatch, MailDataDetailed, MailDataOutline, MailWithSender, PostOfficeMessage,
    WsMessageToClient,
};
use crate::presence::ConnectionHandle;
use crate::registry::{
    add_session_spec, all_handles, ids_of, ids_unique, is_listed, is_online,
    lemma_add_session_wf, lemma_disconnect_idempotent, lemma_listed_iff_online,
    lemma_update_user_wf, mail_targets_spec, registry_wf, remove_session_spec, tick_spec,
    update_user_spec, user_list_spec, OnlineUsers, RegistryView,
};
use crate::user::User;
use vstd::prelude::*;

verus! {

/// Why a file reference could not be resolved.
#[derive(Clone, Debug)]
pub enum ResolveError {
    /// No stored file has this id.
    NotFound(String),
    /// The store failed, with its message.
    Storage(String),
}

/// Mail accepted by the broker, waiting for its content to be resolved:
/// its receivers' connections were captured when it was accepted.
#[derive(Clone, Debug)]
pub struct PendingMail {
    pub sender_id: String,
    pub time: u32,
    pub data: MailDataOutline,
    pub targets: Vec<ConnectionHandle>,
}

/// The registry after one command; mail leaves it unchanged.
pub open spec fn apply_spec(v: RegistryView, msg: PostOfficeMessage) -> RegistryView {
    match msg {
        PostOfficeMessage::Connect { user_id, session_id, session_addr } => add_session_spec(
            v,
            user_id@,
            session_id@,
            session_addr,
        ),
        PostOfficeMessage::Disconnect { user_id, session_id } => remove_session_spec(
            v,
            user_id@,
            session_id@,
        ),
        PostOfficeMessage::Mail { .. } => v,
        PostOfficeMessage::UpdateUser(user) => update_user_spec(v, user),
    }
}

/// The detailed content for an outline, given what the store returned for
/// its file reference (unused for text).
pub open spec fn detailed_spec(
    outline: MailDataOutline,
    found: Result<Option<UserFile>, String>,
) -> Result<MailDataDetailed, ResolveError> {
    match outline {
        MailDataOutline::Text(t) => Ok(MailDataDetailed::Text(t)),
        MailDataOutline::LongText(id) => match found {
            Ok(Some(f)) => Ok(MailDataDetailed::LongText(f)),
            Ok(None) => Err(ResolveError::NotFound(id)),
            Err(e) => Err(ResolveError::Storage(e)),
        },
        MailDataOutline::File(id) => match found {
            Ok(Some(f)) => Ok(MailDataDetailed::File(f)),
            Ok(None) => Err(ResolveError::NotFound(id)),
            Err(e) => Err(ResolveError::Storage(e)),
        },
    }
}

/// The id of the stored file an outline refers to; none for text.
pub open spec fn file_ref_spec(outline: MailDataOutline) -> Option<String> {
    match outline {
        MailDataOutline::Text(_) => None,
        MailDataOutline::LongText(id) => Some(id),
        MailDataOutline::File(id) => Some(id),
    }
}

impl MailDataOutline {
    /// The id of the stored file this content refers to; `None` for text.
    pub fn file_ref(&self) -> (r: Option<String>)
        ensures
            r == file_ref_spec(*self),
    {
        match self {
            MailDataOutline::Text(_) => None,
            MailDataOutline::LongText(id) => Some(id.clone()),
            MailDataOutline::File(id) => Some(id.clone()),
        }
    }
}

/// Resolves an outline into deliverable content, given what the store
/// returned for its file reference: a found file gives its metadata, a
/// missing one `NotFound`, a store failure `Storage`; text needs no lookup.
pub fn get_detailed_mail(
    mail: &MailDataOutline,
    found: Result<Option<UserFile>, String>,
) -> (r: Result<MailDataDetailed, ResolveError>)
    ensures
        r == detailed_spec(*mail, found),
{
    match mail {
        MailDataOutline::Text(text) => Ok(MailDataDetailed::Text(text.clone())),
        MailDataOutline::LongText(file_id) => match found {
            Ok(Some(file)) => Ok(MailDataDetailed::LongText(file)),
            Ok(None) => Err(ResolveError::NotFound(file_id.clone())),
            Err(e) => Err(ResolveError::Storage(e)),
        },
        MailDataOutline::File(file_id) => match found {
            Ok(Some(file)) => Ok(MailDataDetailed::File(file)),
            Ok(None) => Err(ResolveError::NotFound(file_id.clone())),
            Err(e) => Err(ResolveError::Storage(e)),
        },
    }
}

impl PendingMail {
    /// The delivery of this mail under the fresh id `id`, once its content
    /// is resolved: one message to every captured connection. A failed
    /// resolution drops the mail: nothing is delivered.
    pub fn deliver(self, id: String, detail: Result<MailDataDetailed, ResolveError>) -> (r: Option<
        Dispatch,
    >)
        ensures
            detail is Err ==> r is None,
            detail is Ok ==> r == Some(
                Dispatch {
                    targets: self.targets,
                    message: WsMessageToClient::Mail(
                        MailWithSender {
                            id,
                            create_date: self.time,
                            sender: self.sender_id,
                            data: detail->Ok_0,
                        },
                    ),
                },
            ),
    {
        match detail {
            Ok(data) => Some(
                Dispatch {
                    targets: self.targets,
                    message: WsMessageToClient::Mail(
                        MailWithSender { id, create_date: self.time, sender: self.sender_id, data },
                    ),
                },
            ),
            Err(_) => None,
        }
    }
}


/// The registry after a sequence of commands, in order.
pub open spec fn run_spec(v: RegistryView, cmds: Seq<PostOfficeMessage>) -> RegistryView
    decreases cmds.len(),
{
    if cmds.len() == 0 {
        v
    } else {
        apply_spec(run_spec(v, cmds.drop_last()), cmds.last())
    }
}

/// Whether a command changes presence (Connect, Disconnect, UpdateUser).
pub open spec fn is_mutating(msg: PostOfficeMessage) -> bool {
    !(msg is Mail)
}

/// Commands leave the entries well formed and the change flag set exactly
/// when one of them changes presence (or it was set before).
pub proof fn lemma_run_wf(v: RegistryView, cmds: Seq<PostOfficeMessage>)
    requires
        registry_wf(v),
    ensures
        registry_wf(run_spec(v, cmds)),
        run_spec(v, cmds).modified == (v.modified || exists|i: int|
            0 <= i < cmds.len() && is_mutating(#[trigger] cmds[i])),
    decreases cmds.len(),
{
    if cmds.len() > 0 {
        let prefix = cmds.drop_last();
        lemma_run_wf(v, prefix);
        let w = run_spec(v, prefix);
        lemma_apply_wf(w, cmds.last());
        if exists|i: int| 0 <= i < prefix.len() && is_mutating(#[trigger] prefix[i]) {
            let i = choose|i: int| 0 <= i < prefix.len() && is_mutating(#[trigger] prefix[i]);
            assert(cmds[i] == prefix[i]);
        }
        if exists|i: int| 0 <= i < cmds.len() && is_mutating(#[trigger] cmds[i]) {
            let i = choose|i: int| 0 <= i < cmds.len() && is_mutating(#[trigger] cmds[i]);
            if i < prefix.len() {
                assert(prefix[i] == cmds[i]);
            }
        }
    }
}

/// One command keeps the registry well formed, and sets the change flag
/// exactly when it changes presence.
pub proof fn lemma_apply_wf(v: RegistryView, msg: PostOfficeMessage)
    requires
        registry_wf(v),
    ensures
        registry_wf(apply_spec(v, msg)),
        apply_spec(v, msg).modified == (v.modified || is_mutating(msg)),
{
    match msg {
        PostOfficeMessage::Connect { user_id, session_id, session_addr } => {
            lemma_add_session_wf(v, user_id@, session_id@, session_addr);
        },
        PostOfficeMessage::Disconnect { user_id, session_id } => {
            lemma_disconnect_idempotent(v, user_id@, session_id@);
        },
        PostOfficeMessage::Mail { .. } => {},
        PostOfficeMessage::UpdateUser(user) => {
            lemma_update_user_wf(v, user);
        },
    }
}

/// Debouncing: after a broadcast tick, any number of commands up to the
/// next tick make that tick emit exactly one profile list when at least one
/// of them changed presence, and none otherwise; a further tick with no
/// command in between emits nothing.
pub proof fn lemma_debounce(v: RegistryView, cmds: Seq<PostOfficeMessage>)
    requires
        registry_wf(v),
    ensures
        ({
            let w = run_spec(tick_spec(v).0, cmds);
            &&& tick_spec(w).1 is Some <==> exists|i: int|
                0 <= i < cmds.len() && is_mutating(#[trigger] cmds[i])
            &&& tick_spec(w).1 is Some ==> tick_spec(w).1 == Some(user_list_spec(w.users))
            &&& tick_spec(tick_spec(w).0).1 is None
        }),
{
    let t = tick_spec(v).0;
    assert(registry_wf(t));
    lemma_run_wf(t, cmds);
}


/// Presence follows connections: after any sequence of commands, a user is
/// in the profile list exactly when it has at least one registered
/// connection (and a profile, without which it cannot be listed), and no
/// user is listed twice.
pub proof fn lemma_presence(v: RegistryView, cmds: Seq<PostOfficeMessage>, user_id: Seq<char>)
    requires
        registry_wf(v),
    ensures
        is_listed(user_list_spec(run_spec(v, cmds).users), user_id) <==> is_online(
            run_spec(v, cmds).users,
            user_id,
        ),
        ids_unique(user_list_spec(run_spec(v, cmds).users)),
{
    lemma_run_wf(v, cmds);
    let w = run_spec(v, cmds);
    assert(registry_wf(RegistryView { modified: false, users: w.users }));
    lemma_listed_iff_online(w.users, user_id);
}

/// The broker, owner of the registry.
pub struct PostOffice {
    inner: OnlineUsers,
}

impl View for PostOffice {
    type V = RegistryView;

    closed spec fn view(&self) -> RegistryView {
        self.inner@
    }
}

impl PostOffice {
    /// Well formed: see `registry_wf`.
    pub open spec fn wf(&self) -> bool {
        registry_wf(self@)
    }

    /// A broker over an empty registry.
    pub fn new() -> (r: PostOffice)
        ensures
            r.wf(),
            r@.modified == false,
            r@.users.len() == 0,
    {
        PostOffice { inner: OnlineUsers::new() }
    }

    /// Applies one command. Connect, Disconnect and UpdateUser change the
    /// registry and return `None`; Mail leaves it unchanged and returns the
    /// pending mail, with its receivers' connections captured now.
    pub fn handle(&mut self, msg: PostOfficeMessage) -> (r: Option<PendingMail>)
        requires
            old(self).wf(),
        ensures
            final(self).wf(),
            final(self)@ == apply_spec(old(self)@, msg),
            match msg {
                PostOfficeMessage::Mail { sender_id, time, mail } => {
                    &&& r matches Some(p)
                    &&& p.sender_id == sender_id
                    &&& p.time == time
                    &&& p.data == mail.data
                    &&& p.targets@ == mail_targets_spec(old(self)@.users, ids_of(mail.receivers@))
                },
                _ => r is None,
            },
    {
        match msg {
            PostOfficeMessage::Connect { user_id, session_id, session_addr } => {
                self.inner.add_session(user_id.as_str(), session_id.as_str(), session_addr);
                None
            },
            PostOfficeMessage::Disconnect { user_id, session_id } => {
                self.inner.remove_session(user_id.as_str(), session_id.as_str());
                None
            },
            PostOfficeMessage::Mail { sender_id, time, mail } => {
                let targets = self.inner.mail_targets(&mail.receivers);
                Some(PendingMail { sender_id, time, data: mail.data, targets })
            },
            PostOfficeMessage::UpdateUser(user) => {
                self.inner.update_user_info(user);
                None
            },
        }
    }

    /// The profiles of every user online (the GetUsers query).
    pub fn get_users(&self) -> (r: Vec<User>)
        ensures
            r@ == user_list_spec(self@.users),
    {
        self.inner.get_user_list()
    }

    /// The periodic broadcast tick (see `OnlineUsers::broadcast_users_if_needed`).
    pub fn tick(&mut self) -> (r: Option<Dispatch>)
        requires
            old(self).wf(),
        ensures
            final(self).wf(),
            final(self)@ == tick_spec(old(self)@).0,
            match r {
                Some(d) => {
                    &&& tick_spec(old(self)@).1 == Some(user_list_spec(old(self)@.users))
                    &&& d.message matches WsMessageToClient::Users(list)
                    &&& list@ == user_list_spec(old(self)@.users)
                    &&& d.targets@ == all_handles(old(self)@.users)
                },
                None => tick_spec(old(self)@).1 is None,
            },
    {
        self.inner.broadcast_users_if_needed()
    }
}

} // verus!
