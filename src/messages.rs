//! The values exchanged between connections, the broker and the clients.
use crate::file::UserFile;
use crate::presence::ConnectionHandle;
use crate::user::User;
use vstd::prelude::*;

verus! {

/// A message pushed to one connection.
#[derive(Clone, Debug)]
pub enum WsSessionMessage {
    WsMessage(WsMessageToClient),
}

/// Mail content as delivered: text, or the metadata of a stored file.
#[derive(Clone, Debug)]
pub enum MailDataDetailed {
    Text(String),
    LongText(UserFile),
    File(UserFile),
}

/// Mail content as sent: text, or the id of a stored file.
#[derive(Clone, Debug)]
pub enum MailDataOutline {
    Text(String),
    LongText(String),
    File(String),
}

/// Mail from a client, with its receivers' user ids in order.
#[derive(Clone, Debug)]
pub struct MailWithReceivers {
    pub receivers: Vec<String>,
    pub data: MailDataOutline,
}

/// Mail as delivered to a receiver.
#[derive(Clone, Debug)]
pub struct MailWithSender {
    pub id: String,
    /// Creation time, in milliseconds.
    pub create_date: u32,
    pub sender: String,
    pub data: MailDataDetailed,
}

/// A message from the server to a client.
#[derive(Clone, Debug)]
pub enum WsMessageToClient {
    /// The profiles of every user online.
    Users(Vec<User>),
    Mail(MailWithSender),
}

/// A message from a client to the server.
#[derive(Clone, Debug)]
pub enum WsMessageToServer {
    Mail(MailWithReceivers),
}

/// The query for the profiles of every user online.
#[derive(Clone, Copy, Debug)]
pub struct PostOfficeMessageGetUsers;

/// The commands the broker serialises.
#[derive(Clone, Debug)]
pub enum PostOfficeMessage {
    Connect { user_id: String, session_id: String, session_addr: ConnectionHandle },
    Disconnect { user_id: String, session_id: String },
    Mail { sender_id: String, time: u32, mail: MailWithReceivers },
    UpdateUser(User),
}

/// One message to push to each of the listed connections, in order.
#[derive(Clone, Debug)]
pub struct Dispatch {
    pub targets: Vec<ConnectionHandle>,
    pub message: WsMessageToClient,
}

} // verus!
