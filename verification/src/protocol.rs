//! What clients and the server say to each other, one JSON line at a time.

use crate::models::{File, Group, Message, User};
use vstd::prelude::*;

verus! {

/// A conversation: with one user or within a group.
#[derive(Clone, Copy, Debug, PartialEq, Eq, Structural)]
pub enum ChatTarget {
    User(u128),
    Group(u128),
}

/// What a client asks of the server.
#[derive(Clone, Debug, PartialEq, Eq)]
pub enum Request {
    Register { username: String, public_key: String },
    Login { username: String, public_key: String },
    Text(Message),
    Send { receiver_username: String, message: Message },
    CreateGroup { group_name: String, member_usernames: Vec<String> },
    SendToGroup { group_id: u128, message: Message },
    SendFile { receiver_username: String, file: File },
    SendFileToGroup { group_id: u128, file: File },
    FetchUsers,
    FetchGroups,
    FetchMessages { target: ChatTarget },
    AddUserToGroup { group_id: u128, username: String },
    RemoveUserFromGroup { group_id: u128, username: String },
    DeleteGroup { group_id: u128 },
}

/// What a success carries besides its text.
#[derive(Clone, Copy, Debug, PartialEq, Eq, Structural)]
pub enum SuccessData {
    Login { user_id: u128 },
    GroupCreated { group_id: u128 },
}

/// What the server answers, as it travels to the client.
#[derive(Clone, Debug, PartialEq, Eq)]
pub enum Response {
    Prompt(String),
    Success { message: String, data: Option<SuccessData> },
    Error(String),
    Message(Message),
    File(File),
    Users(Vec<User>),
    Groups(Vec<Group>),
    Messages(Vec<Message>),
}

} // verus!
