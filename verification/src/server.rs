//! The server's side of one client connection, as a state machine: the
//! library decides, the caller does the storage work and the sending.
//!
//! Each request enters through [`Session::begin`]. A [`Step`] lists what to
//! send now (its effects) and what the store must do next; the store's answer
//! goes back through [`Session::resume`] until the step says the request is
//! done, or that the connection ends because the store failed.

use crate::ids::{fresh_id, NIL_ID};
use crate::models::{copy_ids, has_id, File, Group, Message, User};
use crate::protocol::{ChatTarget, Request, Response, SuccessData};
use crate::text::{join2, join3};
use vstd::prelude::*;

verus! {

/// Texts the server sends on success.
#[derive(Debug, PartialEq, Eq)]
pub enum Notice {
    Registered(String),
    LoggedIn(String),
    MessageSent,
    MessageSentOffline,
    GroupCreated(String),
    MessageSentToGroup,
    FileSent(String),
    FileSentOffline(String),
    FileSentToGroup(String),
    AddedToGroup(String),
}

/// Texts the server sends on refusal.
#[derive(Debug, PartialEq, Eq)]
pub enum Problem {
    RegistrationFailed(String),
    InvalidPublicKey,
    UserNotFound,
    NotAuthenticated,
    InvalidSender,
    RecipientNotFound,
    MemberNotFound(String),
    NotGroupMember,
    GroupNotFound,
    FetchUsersFailed(String),
    FetchGroupsFailed(String),
    FetchMessagesFailed(String),
    InvalidFormat,
}

impl Notice {
    pub open spec fn spec_text(&self) -> Seq<char> {
        match self {
            Notice::Registered(name) => "Registered and logged in as "@ + name@,
            Notice::LoggedIn(name) => "Logged in as "@ + name@,
            Notice::MessageSent => "Message sent"@,
            Notice::MessageSentOffline => "Message sent (recipient offline)"@,
            Notice::GroupCreated(name) => "Group "@ + name@ + " created"@,
            Notice::MessageSentToGroup => "Message sent to group"@,
            Notice::FileSent(name) => "File "@ + name@ + " sent"@,
            Notice::FileSentOffline(name) => "File "@ + name@ + " sent (recipient offline)"@,
            Notice::FileSentToGroup(name) => "File "@ + name@ + " sent to group"@,
            Notice::AddedToGroup(name) => "Added to group "@ + name@,
        }
    }

    pub fn text(&self) -> (r: String)
        ensures
            r@ == self.spec_text(),
    {
        match self {
            Notice::Registered(name) => join2("Registered and logged in as ", name.as_str()),
            Notice::LoggedIn(name) => join2("Logged in as ", name.as_str()),
            Notice::MessageSent => String::from_str("Message sent"),
            Notice::MessageSentOffline => String::from_str("Message sent (recipient offline)"),
            Notice::GroupCreated(name) => join3("Group ", name.as_str(), " created"),
            Notice::MessageSentToGroup => String::from_str("Message sent to group"),
            Notice::FileSent(name) => join3("File ", name.as_str(), " sent"),
            Notice::FileSentOffline(name) => join3(
                "File ",
                name.as_str(),
                " sent (recipient offline)",
            ),
            Notice::FileSentToGroup(name) => join3("File ", name.as_str(), " sent to group"),
            Notice::AddedToGroup(name) => join2("Added to group ", name.as_str()),
        }
    }
}

impl Problem {
    pub open spec fn spec_text(&self) -> Seq<char> {
        match self {
            Problem::RegistrationFailed(e) => "Registration failed: "@ + e@,
            Problem::InvalidPublicKey => "Invalid public key"@,
            Problem::UserNotFound => "User not found"@,
            Problem::NotAuthenticated => "Not authenticated"@,
            Problem::InvalidSender => "Invalid sender_id"@,
            Problem::RecipientNotFound => "Recipient not found"@,
            Problem::MemberNotFound(name) => "User "@ + name@ + " not found"@,
            Problem::NotGroupMember => "You are not a member of this group"@,
            Problem::GroupNotFound => "Group not found"@,
            Problem::FetchUsersFailed(e) => "Failed to fetch users: "@ + e@,
            Problem::FetchGroupsFailed(e) => "Failed to fetch groups: "@ + e@,
            Problem::FetchMessagesFailed(e) => "Failed to fetch messages: "@ + e@,
            Problem::InvalidFormat => "Invalid message format"@,
        }
    }

    pub fn text(&self) -> (r: String)
        ensures
            r@ == self.spec_text(),
    {
        match self {
            Problem::RegistrationFailed(e) => join2("Registration failed: ", e.as_str()),
            Problem::InvalidPublicKey => String::from_str("Invalid public key"),
            Problem::UserNotFound => String::from_str("User not found"),
            Problem::NotAuthenticated => String::from_str("Not authenticated"),
            Problem::InvalidSender => String::from_str("Invalid sender_id"),
            Problem::RecipientNotFound => String::from_str("Recipient not found"),
            Problem::MemberNotFound(name) => join3("User ", name.as_str(), " not found"),
            Problem::NotGroupMember => String::from_str("You are not a member of this group"),
            Problem::GroupNotFound => String::from_str("Group not found"),
            Problem::FetchUsersFailed(e) => join2("Failed to fetch users: ", e.as_str()),
            Problem::FetchGroupsFailed(e) => join2("Failed to fetch groups: ", e.as_str()),
            Problem::FetchMessagesFailed(e) => join2("Failed to fetch messages: ", e.as_str()),
            Problem::InvalidFormat => String::from_str("Invalid message format"),
        }
    }
}

/// A response as the server decides it, before its texts are written out.
#[derive(Debug, PartialEq, Eq)]
pub enum Reply {
    Prompt(Notice),
    Success(Notice, Option<SuccessData>),
    Error(Problem),
    Message(Message),
    File(File),
    Users(Vec<User>),
    Groups(Vec<Group>),
    Messages(Vec<Message>),
}

impl Reply {
    /// The response as it goes out on the wire.
    pub fn into_response(self) -> (r: Response)
        ensures
            match self {
                Reply::Prompt(n) => r matches Response::Prompt(t) && t@ == n.spec_text(),
                Reply::Success(n, d) => r matches Response::Success { message, data } && message@
                    == n.spec_text() && data == d,
                Reply::Error(p) => r matches Response::Error(t) && t@ == p.spec_text(),
                Reply::Message(m) => r == Response::Message(m),
                Reply::File(f) => r == Response::File(f),
                Reply::Users(us) => r == Response::Users(us),
                Reply::Groups(gs) => r == Response::Groups(gs),
                Reply::Messages(ms) => r == Response::Messages(ms),
            },
    {
        match self {
            Reply::Prompt(n) => Response::Prompt(n.text()),
            Reply::Success(n, d) => Response::Success { message: n.text(), data: d },
            Reply::Error(p) => Response::Error(p.text()),
            Reply::Message(m) => Response::Message(m),
            Reply::File(f) => Response::File(f),
            Reply::Users(us) => Response::Users(us),
            Reply::Groups(gs) => Response::Groups(gs),
            Reply::Messages(ms) => Response::Messages(ms),
        }
    }
}

/// Something to do now, in order.
#[derive(Debug, PartialEq, Eq)]
pub enum Effect {
    /// Send to this connection's client.
    Reply(Reply),
    /// Send each reply, in order, to each listed client, in order, through
    /// the registry of connected clients.
    Deliver { to: Vec<u128>, replies: Vec<Reply> },
    /// Register this connection in the registry under the user's identifier.
    Enroll(u128),
}

/// Work for the store.
#[derive(Debug, PartialEq, Eq)]
pub enum Task {
    SaveUser(User),
    FindUser(String),
    SaveMessage(Message),
    SaveFile(File),
    SaveGroup(Group),
    FindGroup(u128),
    /// The messages between two users, oldest first.
    Conversation(u128, u128),
    /// The messages of a group, oldest first.
    GroupHistory(u128),
    AllUsers,
    GroupsOf(u128),
}

/// The store's answer to a task; an error carries the store's message.
#[derive(Debug, PartialEq, Eq)]
pub enum Answer {
    Saved(Result<(), String>),
    User(Result<User, String>),
    Group(Result<Group, String>),
    Users(Result<Vec<User>, String>),
    Groups(Result<Vec<Group>, String>),
    Messages(Result<Vec<Message>, String>),
}

/// Where a request stands while the store works.
#[derive(Debug, PartialEq, Eq)]
pub enum Pending {
    Register { user: User },
    Login { username: String, public_key: String },
    Echo { message: Message },
    DirectLookup { message: Message },
    DirectSaved { message: Message, receiver: u128 },
    DirectHistory { receiver: u128 },
    Members {
        name: String,
        group_id: u128,
        creator: u128,
        members: Vec<u128>,
        usernames: Vec<String>,
        index: usize,
    },
    GroupSaved { group_id: u128, name: String, members: Vec<u128>, creator: u128 },
    GroupPostLookup { message: Message, group_id: u128 },
    GroupPostSaved { message: Message, members: Vec<u128>, group_id: u128 },
    GroupPostHistory { message: Message, members: Vec<u128> },
    FileLookup { file: File },
    FileSaved { file: File, receiver: u128 },
    FileHistory { receiver: u128, filename: String },
    GroupFileLookup { file: File, group_id: u128 },
    GroupFileSaved { file: File, members: Vec<u128>, group_id: u128 },
    GroupFileHistory { file: File, members: Vec<u128> },
    Users,
    Groups,
    History,
}

/// What follows the effects of a step.
#[derive(Debug, PartialEq, Eq)]
pub enum Next {
    /// The request is done.
    Idle,
    /// The store must do the task; its answer resumes the request.
    Await(Task, Pending),
    /// The store failed where the request cannot go on: the connection ends
    /// with the store's message.
    Abort(String),
}

#[derive(Debug, PartialEq, Eq)]
pub struct Step {
    pub effects: Vec<Effect>,
    pub next: Next,
}

/// The state of one connection: the user it is logged in as, if any.
#[derive(Clone, Copy, Debug, PartialEq, Eq, Structural)]
pub struct Session {
    pub user_id: Option<u128>,
}

/// The refusal, if any, of a request that needs a logged-in user and, when
/// `sender` is given, a record sent in that user's name.
pub open spec fn gate(s: Session, sender: Option<u128>) -> Option<Problem> {
    if s.user_id is None {
        Some(Problem::NotAuthenticated)
    } else if sender is Some && s.user_id != sender {
        Some(Problem::InvalidSender)
    } else {
        None
    }
}

/// The step answers with the refusal alone and the request is done.
pub open spec fn refused(r: Step, p: Problem) -> bool {
    &&& r.effects@ == seq![Effect::Reply(Reply::Error(p))]
    &&& r.next is Idle
}

/// The step sends nothing and hands the store a task.
pub open spec fn awaiting(r: Step, t: Task, p: Pending) -> bool {
    &&& r.effects@.len() == 0
    &&& r.next == Next::Await(t, p)
}

/// The step sends nothing and ends the connection with the store's message.
pub open spec fn aborted(r: Step, e: String) -> bool {
    &&& r.effects@.len() == 0
    &&& r.next == Next::Abort(e)
}

/// `e` sends each of `replies` to each of `to`.
pub open spec fn delivers(e: Effect, to: Seq<u128>, replies: Seq<Reply>) -> bool {
    e matches Effect::Deliver { to: t, replies: rs } && t@ == to && rs@ == replies
}

/// `message` addressed to the user `receiver`.
pub open spec fn addressed(m: Message, receiver: u128) -> Message {
    Message { receiver_id: Some(receiver), ..m }
}

/// `message` posted to the group `group_id`.
pub open spec fn posted(m: Message, group_id: u128) -> Message {
    Message { group_id: Some(group_id), ..m }
}

/// `file` addressed to the user `receiver`.
pub open spec fn addressed_file(f: File, receiver: u128) -> File {
    File { receiver_id: Some(receiver), ..f }
}

/// `file` posted to the group `group_id`.
pub open spec fn posted_file(f: File, group_id: u128) -> File {
    File { group_id: Some(group_id), ..f }
}

/// The members, in order, that are online, leaving out `except`.
pub open spec fn recipients(members: Seq<u128>, online: Seq<u128>, except: Option<u128>) -> Seq<
    u128,
>
    decreases members.len(),
{
    if members.len() == 0 {
        seq![]
    } else {
        let rest = recipients(members.drop_last(), online, except);
        let m = members.last();
        if online.contains(m) && except != Some(m) {
            rest.push(m)
        } else {
            rest
        }
    }
}

/// The members, in order, that are online, leaving out `except`.
pub fn select_recipients(members: &Vec<u128>, online: &Vec<u128>, except: Option<u128>) -> (r: Vec<
    u128,
>)
    ensures
        r@ == recipients(members@, online@, except),
{
    let mut r: Vec<u128> = Vec::new();
    let mut i: usize = 0;
    while i < members.len()
        invariant
            i <= members@.len(),
            r@ == recipients(members@.take(i as int), online@, except),
        decreases members@.len() - i,
    {
        let m = members[i];
        assert(members@.take(i + 1).drop_last() == members@.take(i as int));
        if has_id(online, m) && except != Some(m) {
            r.push(m);
        }
        i = i + 1;
    }
    assert(members@.take(members@.len() as int) == members@);
    r
}

fn reply_only(reply: Reply) -> (r: Step)
    ensures
        r.effects@ == seq![Effect::Reply(reply)],
        r.next is Idle,
{
    let mut effects: Vec<Effect> = Vec::new();
    effects.push(Effect::Reply(reply));
    Step { effects, next: Next::Idle }
}

fn refuse(p: Problem) -> (r: Step)
    ensures
        refused(r, p),
{
    reply_only(Reply::Error(p))
}

fn wait_for(t: Task, p: Pending) -> (r: Step)
    ensures
        awaiting(r, t, p),
{
    Step { effects: Vec::new(), next: Next::Await(t, p) }
}

fn abort(e: String) -> (r: Step)
    ensures
        aborted(r, e),
{
    Step { effects: Vec::new(), next: Next::Abort(e) }
}

/// The request makes a record under a new random identifier: a
/// registration, or a group created by a logged-in user.
pub open spec fn draws_id(s: Session, request: Request) -> bool {
    request is Register || (request is CreateGroup && gate(s, None) is None)
}

/// Why a connection ends when no identifier can be drawn.
pub open spec fn no_identifier() -> Seq<char> {
    "Failed to generate identifier"@
}

/// What [`Session::begin`] does with a request.
pub open spec fn began(s: Session, request: Request, fresh: u128, r: Step) -> bool {
    match request {
        Request::Register { username, public_key } => {
            let user = User { id: fresh, username, public_key };
            awaiting(r, Task::SaveUser(user), Pending::Register { user })
        },
        Request::Login { username, public_key } => awaiting(
            r,
            Task::FindUser(username),
            Pending::Login { username, public_key },
        ),
        Request::Text(message) => match gate(s, Some(message.sender_id)) {
            Some(p) => refused(r, p),
            None => awaiting(r, Task::SaveMessage(message), Pending::Echo { message }),
        },
        Request::Send { receiver_username, message } => match gate(s, Some(message.sender_id)) {
            Some(p) => refused(r, p),
            None => awaiting(r, Task::FindUser(receiver_username), Pending::DirectLookup { message }),
        },
        Request::CreateGroup { group_name, member_usernames } => match gate(s, None) {
            Some(p) => refused(r, p),
            None => {
                let me = s.user_id->0;
                &&& r.effects@.len() == 0
                &&& if member_usernames@.len() == 0 {
                    r.next matches Next::Await(
                        Task::SaveGroup(g),
                        Pending::GroupSaved { group_id, name, members, creator },
                    ) && g.id == fresh && g.name == group_name && g.members@ == seq![me]
                        && group_id == fresh && name == group_name && members@ == seq![me]
                        && creator == me
                } else {
                    r.next matches Next::Await(
                        Task::FindUser(u),
                        Pending::Members { name, group_id, creator, members, usernames, index },
                    ) && u == member_usernames@[0] && name == group_name && group_id == fresh
                        && creator == me && members@ == seq![me] && usernames == member_usernames
                        && index == 0
                }
            },
        },
        Request::SendToGroup { group_id, message } => match gate(s, Some(message.sender_id)) {
            Some(p) => refused(r, p),
            None => awaiting(
                r,
                Task::FindGroup(group_id),
                Pending::GroupPostLookup { message, group_id },
            ),
        },
        Request::SendFile { receiver_username, file } => match gate(s, Some(file.sender_id)) {
            Some(p) => refused(r, p),
            None => awaiting(r, Task::FindUser(receiver_username), Pending::FileLookup { file }),
        },
        Request::SendFileToGroup { group_id, file } => match gate(s, Some(file.sender_id)) {
            Some(p) => refused(r, p),
            None => awaiting(
                r,
                Task::FindGroup(group_id),
                Pending::GroupFileLookup { file, group_id },
            ),
        },
        Request::FetchUsers => match gate(s, None) {
            Some(p) => refused(r, p),
            None => awaiting(r, Task::AllUsers, Pending::Users),
        },
        Request::FetchGroups => match gate(s, None) {
            Some(p) => refused(r, p),
            None => awaiting(r, Task::GroupsOf(s.user_id->0), Pending::Groups),
        },
        Request::FetchMessages { target } => match gate(s, None) {
            Some(p) => refused(r, p),
            None => match target {
                ChatTarget::User(other) => awaiting(
                    r,
                    Task::Conversation(other, s.user_id->0),
                    Pending::History,
                ),
                ChatTarget::Group(group_id) => awaiting(
                    r,
                    Task::GroupHistory(group_id),
                    Pending::History,
                ),
            },
        },
        Request::AddUserToGroup { .. } => refused(r, Problem::InvalidFormat),
        Request::RemoveUserFromGroup { .. } => refused(r, Problem::InvalidFormat),
        Request::DeleteGroup { .. } => refused(r, Problem::InvalidFormat),
    }
}

impl Session {
    /// A connection that is not logged in.
    pub fn new() -> (r: Session)
        ensures
            r.user_id is None,
    {
        Session { user_id: None }
    }

    pub open spec fn is_authenticated(&self) -> bool {
        self.user_id is Some
    }

    pub fn authenticated(&self) -> (r: bool)
        ensures
            r == self.is_authenticated(),
    {
        self.user_id.is_some()
    }

    /// The refusal, if any, for a request that needs a logged-in user and,
    /// when `sender` is given, a record sent in that user's name.
    pub fn check(&self, sender: Option<u128>) -> (r: Option<Problem>)
        ensures
            r == gate(*self, sender),
    {
        match self.user_id {
            None => Some(Problem::NotAuthenticated),
            Some(me) => match sender {
                Some(s) => if me != s {
                    Some(Problem::InvalidSender)
                } else {
                    None
                },
                None => None,
            },
        }
    }

    /// The step with which the server meets a request; `fresh` is the new
    /// identifier that a registration or a new group takes.
    pub fn begin(&self, request: Request, fresh: u128) -> (r: Step)
        ensures
            began(*self, request, fresh, r),
    {
        match request {
            Request::Register { username, public_key } => {
                let user = User { id: fresh, username, public_key };
                wait_for(Task::SaveUser(user.clone()), Pending::Register { user })
            },
            Request::Login { username, public_key } => {
                wait_for(Task::FindUser(username.clone()), Pending::Login { username, public_key })
            },
            Request::Text(message) => match self.check(Some(message.sender_id)) {
                Some(p) => refuse(p),
                None => wait_for(Task::SaveMessage(message.clone()), Pending::Echo { message }),
            },
            Request::Send { receiver_username, message } => match self.check(
                Some(message.sender_id),
            ) {
                Some(p) => refuse(p),
                None => wait_for(Task::FindUser(receiver_username), Pending::DirectLookup { message }),
            },
            Request::CreateGroup { group_name, member_usernames } => match self.check(None) {
                Some(p) => refuse(p),
                None => {
                    let me = self.user_id.unwrap();
                    let mut members: Vec<u128> = Vec::new();
                    members.push(me);
                    if member_usernames.len() == 0 {
                        let mut group_members: Vec<u128> = Vec::new();
                        group_members.push(me);
                        let group = Group {
                            id: fresh,
                            name: group_name.clone(),
                            members: group_members,
                        };
                        wait_for(
                            Task::SaveGroup(group),
                            Pending::GroupSaved {
                                group_id: fresh,
                                name: group_name,
                                members,
                                creator: me,
                            },
                        )
                    } else {
                        let first = member_usernames[0].clone();
                        wait_for(
                            Task::FindUser(first),
                            Pending::Members {
                                name: group_name,
                                group_id: fresh,
                                creator: me,
                                members,
                                usernames: member_usernames,
                                index: 0,
                            },
                        )
                    }
                },
            },
            Request::SendToGroup { group_id, message } => match self.check(
                Some(message.sender_id),
            ) {
                Some(p) => refuse(p),
                None => wait_for(
                    Task::FindGroup(group_id),
                    Pending::GroupPostLookup { message, group_id },
                ),
            },
            Request::SendFile { receiver_username, file } => match self.check(
                Some(file.sender_id),
            ) {
                Some(p) => refuse(p),
                None => wait_for(Task::FindUser(receiver_username), Pending::FileLookup { file }),
            },
            Request::SendFileToGroup { group_id, file } => match self.check(Some(file.sender_id)) {
                Some(p) => refuse(p),
                None => wait_for(
                    Task::FindGroup(group_id),
                    Pending::GroupFileLookup { file, group_id },
                ),
            },
            Request::FetchUsers => match self.check(None) {
                Some(p) => refuse(p),
                None => wait_for(Task::AllUsers, Pending::Users),
            },
            Request::FetchGroups => match self.check(None) {
                Some(p) => refuse(p),
                None => wait_for(Task::GroupsOf(self.user_id.unwrap()), Pending::Groups),
            },
            Request::FetchMessages { target } => match self.check(None) {
                Some(p) => refuse(p),
                None => match target {
                    ChatTarget::User(other) => wait_for(
                        Task::Conversation(other, self.user_id.unwrap()),
                        Pending::History,
                    ),
                    ChatTarget::Group(group_id) => wait_for(
                        Task::GroupHistory(group_id),
                        Pending::History,
                    ),
                },
            },
            Request::AddUserToGroup { .. } => refuse(Problem::InvalidFormat),
            Request::RemoveUserFromGroup { .. } => refuse(Problem::InvalidFormat),
            Request::DeleteGroup { .. } => refuse(Problem::InvalidFormat),
        }
    }
}


/// Whether `answer` is the kind of answer that the task behind `pending`
/// gets from the store.
pub open spec fn accepts(pending: Pending, answer: Answer) -> bool {
    match pending {
        Pending::Register { .. } => answer is Saved,
        Pending::Login { .. } => answer is User,
        Pending::Echo { .. } => answer is Saved,
        Pending::DirectLookup { .. } => answer is User,
        Pending::DirectSaved { .. } => answer is Saved,
        Pending::DirectHistory { .. } => answer is Messages,
        Pending::Members { usernames, index, .. } => answer is User && index < usernames@.len(),
        Pending::GroupSaved { .. } => answer is Saved,
        Pending::GroupPostLookup { .. } => answer is Group,
        Pending::GroupPostSaved { .. } => answer is Saved,
        Pending::GroupPostHistory { .. } => answer is Messages,
        Pending::FileLookup { .. } => answer is User,
        Pending::FileSaved { .. } => answer is Saved,
        Pending::FileHistory { .. } => answer is Messages,
        Pending::GroupFileLookup { .. } => answer is Group,
        Pending::GroupFileSaved { .. } => answer is Saved,
        Pending::GroupFileHistory { .. } => answer is Messages,
        Pending::Users => answer is Users,
        Pending::Groups => answer is Groups,
        Pending::History => answer is Messages,
    }
}

impl Pending {
    /// Whether `answer` is the kind of answer that this pending request waits for.
    pub fn accepts(&self, answer: &Answer) -> (r: bool)
        ensures
            r == accepts(*self, *answer),
    {
        match self {
            Pending::Register { .. } => matches!(answer, Answer::Saved(_)),
            Pending::Login { .. } => matches!(answer, Answer::User(_)),
            Pending::Echo { .. } => matches!(answer, Answer::Saved(_)),
            Pending::DirectLookup { .. } => matches!(answer, Answer::User(_)),
            Pending::DirectSaved { .. } => matches!(answer, Answer::Saved(_)),
            Pending::DirectHistory { .. } => matches!(answer, Answer::Messages(_)),
            Pending::Members { usernames, index, .. } => matches!(answer, Answer::User(_)) && *index
                < usernames.len(),
            Pending::GroupSaved { .. } => matches!(answer, Answer::Saved(_)),
            Pending::GroupPostLookup { .. } => matches!(answer, Answer::Group(_)),
            Pending::GroupPostSaved { .. } => matches!(answer, Answer::Saved(_)),
            Pending::GroupPostHistory { .. } => matches!(answer, Answer::Messages(_)),
            Pending::FileLookup { .. } => matches!(answer, Answer::User(_)),
            Pending::FileSaved { .. } => matches!(answer, Answer::Saved(_)),
            Pending::FileHistory { .. } => matches!(answer, Answer::Messages(_)),
            Pending::GroupFileLookup { .. } => matches!(answer, Answer::Group(_)),
            Pending::GroupFileSaved { .. } => matches!(answer, Answer::Saved(_)),
            Pending::GroupFileHistory { .. } => matches!(answer, Answer::Messages(_)),
            Pending::Users => matches!(answer, Answer::Users(_)),
            Pending::Groups => matches!(answer, Answer::Groups(_)),
            Pending::History => matches!(answer, Answer::Messages(_)),
        }
    }
}

/// A registration whose save came back with `outcome`.
pub open spec fn registered(s0: Session, s1: Session, user: User, outcome: Result<(), String>, r: Step) -> bool {
    match outcome {
        Ok(_) => {
            &&& s1.user_id == Some(user.id)
            &&& r.effects@ == seq![
                Effect::Enroll(user.id),
                Effect::Reply(
                    Reply::Success(
                        Notice::Registered(user.username),
                        Some(SuccessData::Login { user_id: user.id }),
                    ),
                ),
            ]
            &&& r.next is Idle
        },
        Err(e) => s1 == s0 && refused(r, Problem::RegistrationFailed(e)),
    }
}

/// A login whose lookup of the username came back with `found`.
pub open spec fn logged_in(
    s0: Session,
    s1: Session,
    username: String,
    public_key: String,
    found: Result<User, String>,
    r: Step,
) -> bool {
    match found {
        Ok(u) => if u.public_key@ == public_key@ {
            &&& s1.user_id == Some(u.id)
            &&& r.effects@ == seq![
                Effect::Enroll(u.id),
                Effect::Reply(
                    Reply::Success(
                        Notice::LoggedIn(username),
                        Some(SuccessData::Login { user_id: u.id }),
                    ),
                ),
            ]
            &&& r.next is Idle
        } else {
            s1 == s0 && refused(r, Problem::InvalidPublicKey)
        },
        Err(_) => s1 == s0 && refused(r, Problem::UserNotFound),
    }
}

/// A text whose save came back with `outcome`: it is echoed to its sender.
pub open spec fn echoed(message: Message, outcome: Result<(), String>, r: Step) -> bool {
    match outcome {
        Ok(_) => r.effects@ == seq![Effect::Reply(Reply::Message(message))] && r.next is Idle,
        Err(e) => aborted(r, e),
    }
}

/// A direct message whose recipient's lookup came back with `found`.
pub open spec fn direct_found(message: Message, found: Result<User, String>, r: Step) -> bool {
    match found {
        Ok(u) => awaiting(
            r,
            Task::SaveMessage(addressed(message, u.id)),
            Pending::DirectSaved { message: addressed(message, u.id), receiver: u.id },
        ),
        Err(_) => refused(r, Problem::RecipientNotFound),
    }
}

/// A direct message whose save came back with `outcome`.
pub open spec fn direct_saved(
    message: Message,
    receiver: u128,
    outcome: Result<(), String>,
    online: Seq<u128>,
    r: Step,
) -> bool {
    match outcome {
        Ok(_) => if online.contains(receiver) {
            &&& r.effects@.len() == 2
            &&& r.effects@[0] == Effect::Reply(Reply::Message(message))
            &&& delivers(r.effects@[1], seq![receiver], seq![Reply::Message(message)])
            &&& r.next == Next::Await(
                Task::Conversation(receiver, message.sender_id),
                Pending::DirectHistory { receiver },
            )
        } else {
            &&& r.effects@ == seq![
                Effect::Reply(Reply::Message(message)),
                Effect::Reply(Reply::Success(Notice::MessageSentOffline, None)),
            ]
            &&& r.next is Idle
        },
        Err(e) => aborted(r, e),
    }
}

/// A direct message to an online recipient whose conversation came back with `outcome`.
pub open spec fn direct_history(receiver: u128, outcome: Result<Vec<Message>, String>, r: Step) -> bool {
    match outcome {
        Ok(ms) => {
            &&& r.effects@.len() == 2
            &&& delivers(r.effects@[0], seq![receiver], seq![Reply::Messages(ms)])
            &&& r.effects@[1] == Effect::Reply(Reply::Success(Notice::MessageSent, None))
            &&& r.next is Idle
        },
        Err(e) => aborted(r, e),
    }
}

/// A new group's lookup of `usernames[index]` came back with `found`.
pub open spec fn member_found(
    name: String,
    group_id: u128,
    creator: u128,
    members: Seq<u128>,
    usernames: Vec<String>,
    index: usize,
    found: Result<User, String>,
    r: Step,
) -> bool {
    let now_members = match found {
        Ok(u) => members.push(u.id),
        Err(_) => members,
    };
    &&& match found {
        Ok(_) => r.effects@.len() == 0,
        Err(_) => r.effects@ == seq![
            Effect::Reply(Reply::Error(Problem::MemberNotFound(usernames@[index as int]))),
        ],
    }
    &&& if index + 1 < usernames@.len() {
        r.next matches Next::Await(
            Task::FindUser(u),
            Pending::Members {
                name: n,
                group_id: g,
                creator: c,
                members: ms,
                usernames: us,
                index: i,
            },
        ) && u == usernames@[index + 1] && n == name && g == group_id && c == creator && ms@
            == now_members && us == usernames && i == index + 1
    } else {
        r.next matches Next::Await(
            Task::SaveGroup(grp),
            Pending::GroupSaved { group_id: g, name: n, members: ms, creator: c },
        ) && grp.id == group_id && grp.name == name && grp.members@ == now_members && g
            == group_id && n == name && ms@ == now_members && c == creator
    }
}

/// A new group whose save came back with `outcome`.
pub open spec fn group_saved(
    group_id: u128,
    name: String,
    members: Seq<u128>,
    creator: u128,
    outcome: Result<(), String>,
    online: Seq<u128>,
    r: Step,
) -> bool {
    match outcome {
        Ok(_) => {
            &&& r.effects@.len() == 2
            &&& delivers(
                r.effects@[0],
                recipients(members, online, Some(creator)),
                seq![Reply::Prompt(Notice::AddedToGroup(name))],
            )
            &&& r.effects@[1] == Effect::Reply(
                Reply::Success(
                    Notice::GroupCreated(name),
                    Some(SuccessData::GroupCreated { group_id }),
                ),
            )
            &&& r.next is Idle
        },
        Err(e) => aborted(r, e),
    }
}

/// A group message whose group's lookup came back with `found`.
pub open spec fn post_found(message: Message, group_id: u128, found: Result<Group, String>, r: Step) -> bool {
    match found {
        Ok(g) => if g.members@.contains(message.sender_id) {
            awaiting(
                r,
                Task::SaveMessage(posted(message, group_id)),
                Pending::GroupPostSaved {
                    message: posted(message, group_id),
                    members: g.members,
                    group_id,
                },
            )
        } else {
            refused(r, Problem::NotGroupMember)
        },
        Err(_) => refused(r, Problem::GroupNotFound),
    }
}

/// A group message whose save came back with `outcome`.
pub open spec fn post_saved(
    message: Message,
    members: Vec<u128>,
    group_id: u128,
    outcome: Result<(), String>,
    r: Step,
) -> bool {
    match outcome {
        Ok(_) => {
            &&& r.effects@ == seq![Effect::Reply(Reply::Message(message))]
            &&& r.next == Next::Await(
                Task::GroupHistory(group_id),
                Pending::GroupPostHistory { message, members },
            )
        },
        Err(e) => aborted(r, e),
    }
}

/// A group message whose group's history came back with `outcome`.
pub open spec fn post_history(
    message: Message,
    members: Seq<u128>,
    outcome: Result<Vec<Message>, String>,
    online: Seq<u128>,
    r: Step,
) -> bool {
    match outcome {
        Ok(ms) => {
            &&& r.effects@.len() == 2
            &&& delivers(
                r.effects@[0],
                recipients(members, online, None),
                seq![Reply::Message(message), Reply::Messages(ms)],
            )
            &&& r.effects@[1] == Effect::Reply(Reply::Success(Notice::MessageSentToGroup, None))
            &&& r.next is Idle
        },
        Err(e) => aborted(r, e),
    }
}

/// A file for a user whose recipient's lookup came back with `found`.
pub open spec fn file_found(file: File, found: Result<User, String>, r: Step) -> bool {
    match found {
        Ok(u) => awaiting(
            r,
            Task::SaveFile(addressed_file(file, u.id)),
            Pending::FileSaved { file: addressed_file(file, u.id), receiver: u.id },
        ),
        Err(_) => refused(r, Problem::RecipientNotFound),
    }
}

/// A file for a user whose save came back with `outcome`.
pub open spec fn file_saved(
    file: File,
    receiver: u128,
    outcome: Result<(), String>,
    online: Seq<u128>,
    r: Step,
) -> bool {
    match outcome {
        Ok(_) => if online.contains(receiver) {
            &&& r.effects@.len() == 1
            &&& delivers(r.effects@[0], seq![receiver], seq![Reply::File(file)])
            &&& r.next == Next::Await(
                Task::Conversation(receiver, file.sender_id),
                Pending::FileHistory { receiver, filename: file.filename },
            )
        } else {
            &&& r.effects@ == seq![
                Effect::Reply(Reply::Success(Notice::FileSentOffline(file.filename), None)),
            ]
            &&& r.next is Idle
        },
        Err(e) => aborted(r, e),
    }
}

/// A file for an online user whose conversation came back with `outcome`.
pub open spec fn file_history(
    receiver: u128,
    filename: String,
    outcome: Result<Vec<Message>, String>,
    r: Step,
) -> bool {
    match outcome {
        Ok(ms) => {
            &&& r.effects@.len() == 2
            &&& delivers(r.effects@[0], seq![receiver], seq![Reply::Messages(ms)])
            &&& r.effects@[1] == Effect::Reply(Reply::Success(Notice::FileSent(filename), None))
            &&& r.next is Idle
        },
        Err(e) => aborted(r, e),
    }
}

/// A file for a group whose group's lookup came back with `found`.
pub open spec fn group_file_found(file: File, group_id: u128, found: Result<Group, String>, r: Step) -> bool {
    match found {
        Ok(g) => if g.members@.contains(file.sender_id) {
            awaiting(
                r,
                Task::SaveFile(posted_file(file, group_id)),
                Pending::GroupFileSaved {
                    file: posted_file(file, group_id),
                    members: g.members,
                    group_id,
                },
            )
        } else {
            refused(r, Problem::NotGroupMember)
        },
        Err(_) => refused(r, Problem::GroupNotFound),
    }
}

/// A file for a group whose save came back with `outcome`.
pub open spec fn group_file_saved(
    file: File,
    members: Vec<u128>,
    group_id: u128,
    outcome: Result<(), String>,
    r: Step,
) -> bool {
    match outcome {
        Ok(_) => awaiting(
            r,
            Task::GroupHistory(group_id),
            Pending::GroupFileHistory { file, members },
        ),
        Err(e) => aborted(r, e),
    }
}

/// A file for a group whose group's history came back with `outcome`.
pub open spec fn group_file_history(
    file: File,
    members: Seq<u128>,
    outcome: Result<Vec<Message>, String>,
    online: Seq<u128>,
    r: Step,
) -> bool {
    match outcome {
        Ok(ms) => {
            &&& r.effects@.len() == 2
            &&& delivers(
                r.effects@[0],
                recipients(members, online, None),
                seq![Reply::File(file), Reply::Messages(ms)],
            )
            &&& r.effects@[1] == Effect::Reply(
                Reply::Success(Notice::FileSentToGroup(file.filename), None),
            )
            &&& r.next is Idle
        },
        Err(e) => aborted(r, e),
    }
}

/// What [`Session::resume`] does with the store's answer.
pub open spec fn resumed(
    s0: Session,
    s1: Session,
    pending: Pending,
    answer: Answer,
    online: Seq<u128>,
    r: Step,
) -> bool {
    match pending {
        Pending::Register { user } => registered(s0, s1, user, answer->Saved_0, r),
        Pending::Login { username, public_key } => logged_in(
            s0,
            s1,
            username,
            public_key,
            answer->User_0,
            r,
        ),
        _ => s1 == s0 && match pending {
            Pending::Echo { message } => echoed(message, answer->Saved_0, r),
            Pending::DirectLookup { message } => direct_found(message, answer->User_0, r),
            Pending::DirectSaved { message, receiver } => direct_saved(
                message,
                receiver,
                answer->Saved_0,
                online,
                r,
            ),
            Pending::DirectHistory { receiver } => direct_history(receiver, answer->Messages_0, r),
            Pending::Members { name, group_id, creator, members, usernames, index } => member_found(
                name,
                group_id,
                creator,
                members@,
                usernames,
                index,
                answer->User_0,
                r,
            ),
            Pending::GroupSaved { group_id, name, members, creator } => group_saved(
                group_id,
                name,
                members@,
                creator,
                answer->Saved_0,
                online,
                r,
            ),
            Pending::GroupPostLookup { message, group_id } => post_found(
                message,
                group_id,
                answer->Group_0,
                r,
            ),
            Pending::GroupPostSaved { message, members, group_id } => post_saved(
                message,
                members,
                group_id,
                answer->Saved_0,
                r,
            ),
            Pending::GroupPostHistory { message, members } => post_history(
                message,
                members@,
                answer->Messages_0,
                online,
                r,
            ),
            Pending::FileLookup { file } => file_found(file, answer->User_0, r),
            Pending::FileSaved { file, receiver } => file_saved(
                file,
                receiver,
                answer->Saved_0,
                online,
                r,
            ),
            Pending::FileHistory { receiver, filename } => file_history(
                receiver,
                filename,
                answer->Messages_0,
                r,
            ),
            Pending::GroupFileLookup { file, group_id } => group_file_found(
                file,
                group_id,
                answer->Group_0,
                r,
            ),
            Pending::GroupFileSaved { file, members, group_id } => group_file_saved(
                file,
                members,
                group_id,
                answer->Saved_0,
                r,
            ),
            Pending::GroupFileHistory { file, members } => group_file_history(
                file,
                members@,
                answer->Messages_0,
                online,
                r,
            ),
            Pending::Users => match answer->Users_0 {
                Ok(us) => r.effects@ == seq![Effect::Reply(Reply::Users(us))] && r.next is Idle,
                Err(e) => refused(r, Problem::FetchUsersFailed(e)),
            },
            Pending::Groups => match answer->Groups_0 {
                Ok(gs) => r.effects@ == seq![Effect::Reply(Reply::Groups(gs))] && r.next is Idle,
                Err(e) => refused(r, Problem::FetchGroupsFailed(e)),
            },
            Pending::History => match answer->Messages_0 {
                Ok(ms) => r.effects@ == seq![Effect::Reply(Reply::Messages(ms))] && r.next is Idle,
                Err(e) => refused(r, Problem::FetchMessagesFailed(e)),
            },
            _ => true,
        },
    }
}


fn deliver(to: Vec<u128>, replies: Vec<Reply>) -> (r: Effect)
    ensures
        r == (Effect::Deliver { to, replies }),
{
    Effect::Deliver { to, replies }
}

fn one_id(id: u128) -> (r: Vec<u128>)
    ensures
        r@ == seq![id],
{
    let mut r: Vec<u128> = Vec::new();
    r.push(id);
    r
}

fn one_reply(reply: Reply) -> (r: Vec<Reply>)
    ensures
        r@ == seq![reply],
{
    let mut r: Vec<Reply> = Vec::new();
    r.push(reply);
    r
}

fn two_replies(a: Reply, b: Reply) -> (r: Vec<Reply>)
    ensures
        r@ == seq![a, b],
{
    let mut r: Vec<Reply> = Vec::new();
    r.push(a);
    r.push(b);
    r
}

fn two_effects(a: Effect, b: Effect, next: Next) -> (r: Step)
    ensures
        r.effects@ == seq![a, b],
        r.next == next,
{
    let mut effects: Vec<Effect> = Vec::new();
    effects.push(a);
    effects.push(b);
    Step { effects, next }
}

fn echo(message: Message, outcome: Result<(), String>) -> (r: Step)
    ensures
        echoed(message, outcome, r),
{
    match outcome {
        Ok(_) => reply_only(Reply::Message(message)),
        Err(e) => abort(e),
    }
}

fn direct_lookup(message: Message, found: Result<User, String>) -> (r: Step)
    ensures
        direct_found(message, found, r),
{
    match found {
        Ok(u) => {
            let mut message = message;
            message.receiver_id = Some(u.id);
            wait_for(
                Task::SaveMessage(message.clone()),
                Pending::DirectSaved { message, receiver: u.id },
            )
        },
        Err(_) => refuse(Problem::RecipientNotFound),
    }
}

fn direct_after_save(message: Message, receiver: u128, outcome: Result<(), String>, online: &Vec<u128>) -> (r: Step)
    ensures
        direct_saved(message, receiver, outcome, online@, r),
{
    match outcome {
        Ok(_) => {
            let echo = Effect::Reply(Reply::Message(message.clone()));
            if has_id(online, receiver) {
                let sender = message.sender_id;
                let out = deliver(one_id(receiver), one_reply(Reply::Message(message)));
                two_effects(
                    echo,
                    out,
                    Next::Await(Task::Conversation(receiver, sender), Pending::DirectHistory { receiver }),
                )
            } else {
                two_effects(
                    echo,
                    Effect::Reply(Reply::Success(Notice::MessageSentOffline, None)),
                    Next::Idle,
                )
            }
        },
        Err(e) => abort(e),
    }
}

fn direct_after_history(receiver: u128, outcome: Result<Vec<Message>, String>) -> (r: Step)
    ensures
        direct_history(receiver, outcome, r),
{
    match outcome {
        Ok(ms) => two_effects(
            deliver(one_id(receiver), one_reply(Reply::Messages(ms))),
            Effect::Reply(Reply::Success(Notice::MessageSent, None)),
            Next::Idle,
        ),
        Err(e) => abort(e),
    }
}

fn member_lookup(
    name: String,
    group_id: u128,
    creator: u128,
    members: Vec<u128>,
    usernames: Vec<String>,
    index: usize,
    found: Result<User, String>,
) -> (r: Step)
    requires
        index < usernames@.len(),
    ensures
        member_found(name, group_id, creator, members@, usernames, index, found, r),
{
    let mut members = members;
    let mut effects: Vec<Effect> = Vec::new();
    match found {
        Ok(u) => {
            members.push(u.id);
        },
        Err(_) => {
            effects.push(
                Effect::Reply(Reply::Error(Problem::MemberNotFound(usernames[index].clone()))),
            );
        },
    }
    if index < usernames.len() - 1 {
        let next_name = usernames[index + 1].clone();
        Step {
            effects,
            next: Next::Await(
                Task::FindUser(next_name),
                Pending::Members { name, group_id, creator, members, usernames, index: index + 1 },
            ),
        }
    } else {
        let group = Group { id: group_id, name: name.clone(), members: copy_ids(&members) };
        Step {
            effects,
            next: Next::Await(
                Task::SaveGroup(group),
                Pending::GroupSaved { group_id, name, members, creator },
            ),
        }
    }
}

fn group_after_save(
    group_id: u128,
    name: String,
    members: Vec<u128>,
    creator: u128,
    outcome: Result<(), String>,
    online: &Vec<u128>,
) -> (r: Step)
    ensures
        group_saved(group_id, name, members@, creator, outcome, online@, r),
{
    match outcome {
        Ok(_) => {
            let to = select_recipients(&members, online, Some(creator));
            let prompt = Reply::Prompt(Notice::AddedToGroup(name.clone()));
            two_effects(
                deliver(to, one_reply(prompt)),
                Effect::Reply(
                    Reply::Success(
                        Notice::GroupCreated(name),
                        Some(SuccessData::GroupCreated { group_id }),
                    ),
                ),
                Next::Idle,
            )
        },
        Err(e) => abort(e),
    }
}

fn post_lookup(message: Message, group_id: u128, found: Result<Group, String>) -> (r: Step)
    ensures
        post_found(message, group_id, found, r),
{
    match found {
        Ok(g) => if has_id(&g.members, message.sender_id) {
            let mut message = message;
            message.group_id = Some(group_id);
            wait_for(
                Task::SaveMessage(message.clone()),
                Pending::GroupPostSaved { message, members: g.members, group_id },
            )
        } else {
            refuse(Problem::NotGroupMember)
        },
        Err(_) => refuse(Problem::GroupNotFound),
    }
}

fn post_after_save(message: Message, members: Vec<u128>, group_id: u128, outcome: Result<(), String>) -> (r: Step)
    ensures
        post_saved(message, members, group_id, outcome, r),
{
    match outcome {
        Ok(_) => {
            let mut effects: Vec<Effect> = Vec::new();
            effects.push(Effect::Reply(Reply::Message(message.clone())));
            Step {
                effects,
                next: Next::Await(
                    Task::GroupHistory(group_id),
                    Pending::GroupPostHistory { message, members },
                ),
            }
        },
        Err(e) => abort(e),
    }
}

fn post_after_history(
    message: Message,
    members: Vec<u128>,
    outcome: Result<Vec<Message>, String>,
    online: &Vec<u128>,
) -> (r: Step)
    ensures
        post_history(message, members@, outcome, online@, r),
{
    match outcome {
        Ok(ms) => {
            let to = select_recipients(&members, online, None);
            two_effects(
                deliver(to, two_replies(Reply::Message(message), Reply::Messages(ms))),
                Effect::Reply(Reply::Success(Notice::MessageSentToGroup, None)),
                Next::Idle,
            )
        },
        Err(e) => abort(e),
    }
}

fn file_lookup(file: File, found: Result<User, String>) -> (r: Step)
    ensures
        file_found(file, found, r),
{
    match found {
        Ok(u) => {
            let mut file = file;
            file.receiver_id = Some(u.id);
            wait_for(Task::SaveFile(file.clone()), Pending::FileSaved { file, receiver: u.id })
        },
        Err(_) => refuse(Problem::RecipientNotFound),
    }
}

fn file_after_save(file: File, receiver: u128, outcome: Result<(), String>, online: &Vec<u128>) -> (r: Step)
    ensures
        file_saved(file, receiver, outcome, online@, r),
{
    match outcome {
        Ok(_) => if has_id(online, receiver) {
            let sender = file.sender_id;
            let filename = file.filename.clone();
            let mut effects: Vec<Effect> = Vec::new();
            effects.push(deliver(one_id(receiver), one_reply(Reply::File(file))));
            Step {
                effects,
                next: Next::Await(
                    Task::Conversation(receiver, sender),
                    Pending::FileHistory { receiver, filename },
                ),
            }
        } else {
            reply_only(Reply::Success(Notice::FileSentOffline(file.filename), None))
        },
        Err(e) => abort(e),
    }
}

fn file_after_history(receiver: u128, filename: String, outcome: Result<Vec<Message>, String>) -> (r: Step)
    ensures
        file_history(receiver, filename, outcome, r),
{
    match outcome {
        Ok(ms) => two_effects(
            deliver(one_id(receiver), one_reply(Reply::Messages(ms))),
            Effect::Reply(Reply::Success(Notice::FileSent(filename), None)),
            Next::Idle,
        ),
        Err(e) => abort(e),
    }
}

fn group_file_lookup(file: File, group_id: u128, found: Result<Group, String>) -> (r: Step)
    ensures
        group_file_found(file, group_id, found, r),
{
    match found {
        Ok(g) => if has_id(&g.members, file.sender_id) {
            let mut file = file;
            file.group_id = Some(group_id);
            wait_for(
                Task::SaveFile(file.clone()),
                Pending::GroupFileSaved { file, members: g.members, group_id },
            )
        } else {
            refuse(Problem::NotGroupMember)
        },
        Err(_) => refuse(Problem::GroupNotFound),
    }
}

fn group_file_after_save(file: File, members: Vec<u128>, group_id: u128, outcome: Result<(), String>) -> (r: Step)
    ensures
        group_file_saved(file, members, group_id, outcome, r),
{
    match outcome {
        Ok(_) => wait_for(Task::GroupHistory(group_id), Pending::GroupFileHistory { file, members }),
        Err(e) => abort(e),
    }
}

fn group_file_after_history(
    file: File,
    members: Vec<u128>,
    outcome: Result<Vec<Message>, String>,
    online: &Vec<u128>,
) -> (r: Step)
    ensures
        group_file_history(file, members@, outcome, online@, r),
{
    match outcome {
        Ok(ms) => {
            let to = select_recipients(&members, online, None);
            let filename = file.filename.clone();
            two_effects(
                deliver(to, two_replies(Reply::File(file), Reply::Messages(ms))),
                Effect::Reply(Reply::Success(Notice::FileSentToGroup(filename), None)),
                Next::Idle,
            )
        },
        Err(e) => abort(e),
    }
}

impl Session {
    fn finish_register(&mut self, user: User, outcome: Result<(), String>) -> (r: Step)
        ensures
            registered(*old(self), *final(self), user, outcome, r),
    {
        match outcome {
            Ok(_) => {
                self.user_id = Some(user.id);
                two_effects(
                    Effect::Enroll(user.id),
                    Effect::Reply(
                        Reply::Success(
                            Notice::Registered(user.username),
                            Some(SuccessData::Login { user_id: user.id }),
                        ),
                    ),
                    Next::Idle,
                )
            },
            Err(e) => refuse(Problem::RegistrationFailed(e)),
        }
    }

    fn finish_login(&mut self, username: String, public_key: String, found: Result<User, String>) -> (r: Step)
        ensures
            logged_in(*old(self), *final(self), username, public_key, found, r),
    {
        match found {
            Ok(u) => if u.public_key == public_key {
                self.user_id = Some(u.id);
                two_effects(
                    Effect::Enroll(u.id),
                    Effect::Reply(
                        Reply::Success(
                            Notice::LoggedIn(username),
                            Some(SuccessData::Login { user_id: u.id }),
                        ),
                    ),
                    Next::Idle,
                )
            } else {
                refuse(Problem::InvalidPublicKey)
            },
            Err(_) => refuse(Problem::UserNotFound),
        }
    }

    /// The step with which the server goes on once the store has answered the
    /// task of a pending request; `online` lists the users connected now.
    pub fn resume(&mut self, pending: Pending, answer: Answer, online: &Vec<u128>) -> (r: Step)
        requires
            accepts(pending, answer),
        ensures
            resumed(*old(self), *final(self), pending, answer, online@, r),
    {
        match pending {
            Pending::Register { user } => match answer {
                Answer::Saved(outcome) => self.finish_register(user, outcome),
                _ => refuse(Problem::InvalidFormat),
            },
            Pending::Login { username, public_key } => match answer {
                Answer::User(found) => self.finish_login(username, public_key, found),
                _ => refuse(Problem::InvalidFormat),
            },
            Pending::Echo { message } => match answer {
                Answer::Saved(outcome) => echo(message, outcome),
                _ => refuse(Problem::InvalidFormat),
            },
            Pending::DirectLookup { message } => match answer {
                Answer::User(found) => direct_lookup(message, found),
                _ => refuse(Problem::InvalidFormat),
            },
            Pending::DirectSaved { message, receiver } => match answer {
                Answer::Saved(outcome) => direct_after_save(message, receiver, outcome, online),
                _ => refuse(Problem::InvalidFormat),
            },
            Pending::DirectHistory { receiver } => match answer {
                Answer::Messages(outcome) => direct_after_history(receiver, outcome),
                _ => refuse(Problem::InvalidFormat),
            },
            Pending::Members { name, group_id, creator, members, usernames, index } => match answer {
                Answer::User(found) => member_lookup(
                    name,
                    group_id,
                    creator,
                    members,
                    usernames,
                    index,
                    found,
                ),
                _ => refuse(Problem::InvalidFormat),
            },
            Pending::GroupSaved { group_id, name, members, creator } => match answer {
                Answer::Saved(outcome) => group_after_save(
                    group_id,
                    name,
                    members,
                    creator,
                    outcome,
                    online,
                ),
                _ => refuse(Problem::InvalidFormat),
            },
            Pending::GroupPostLookup { message, group_id } => match answer {
                Answer::Group(found) => post_lookup(message, group_id, found),
                _ => refuse(Problem::InvalidFormat),
            },
            Pending::GroupPostSaved { message, members, group_id } => match answer {
                Answer::Saved(outcome) => post_after_save(message, members, group_id, outcome),
                _ => refuse(Problem::InvalidFormat),
            },
            Pending::GroupPostHistory { message, members } => match answer {
                Answer::Messages(outcome) => post_after_history(message, members, outcome, online),
                _ => refuse(Problem::InvalidFormat),
            },
            Pending::FileLookup { file } => match answer {
                Answer::User(found) => file_lookup(file, found),
                _ => refuse(Problem::InvalidFormat),
            },
            Pending::FileSaved { file, receiver } => match answer {
                Answer::Saved(outcome) => file_after_save(file, receiver, outcome, online),
                _ => refuse(Problem::InvalidFormat),
            },
            Pending::FileHistory { receiver, filename } => match answer {
                Answer::Messages(outcome) => file_after_history(receiver, filename, outcome),
                _ => refuse(Problem::InvalidFormat),
            },
            Pending::GroupFileLookup { file, group_id } => match answer {
                Answer::Group(found) => group_file_lookup(file, group_id, found),
                _ => refuse(Problem::InvalidFormat),
            },
            Pending::GroupFileSaved { file, members, group_id } => match answer {
                Answer::Saved(outcome) => group_file_after_save(file, members, group_id, outcome),
                _ => refuse(Problem::InvalidFormat),
            },
            Pending::GroupFileHistory { file, members } => match answer {
                Answer::Messages(outcome) => group_file_after_history(file, members, outcome, online),
                _ => refuse(Problem::InvalidFormat),
            },
            Pending::Users => match answer {
                Answer::Users(Ok(us)) => reply_only(Reply::Users(us)),
                Answer::Users(Err(e)) => refuse(Problem::FetchUsersFailed(e)),
                _ => refuse(Problem::InvalidFormat),
            },
            Pending::Groups => match answer {
                Answer::Groups(Ok(gs)) => reply_only(Reply::Groups(gs)),
                Answer::Groups(Err(e)) => refuse(Problem::FetchGroupsFailed(e)),
                _ => refuse(Problem::InvalidFormat),
            },
            Pending::History => match answer {
                Answer::Messages(Ok(ms)) => reply_only(Reply::Messages(ms)),
                Answer::Messages(Err(e)) => refuse(Problem::FetchMessagesFailed(e)),
                _ => refuse(Problem::InvalidFormat),
            },
        }
    }

    /// [`Session::begin`], with a new random identifier for a registration or
    /// a new group; where none can be drawn, the connection ends.
    pub fn accept(&self, request: Request) -> (r: Step)
        ensures
            !draws_id(*self, request) ==> began(*self, request, NIL_ID, r),
            draws_id(*self, request) ==> (exists|fresh: u128| began(*self, request, fresh, r))
                || (r.effects@.len() == 0 && r.next is Abort && r.next->Abort_0@ == no_identifier()),
    {
        let draws = if matches!(request, Request::Register { .. }) {
            true
        } else if matches!(request, Request::CreateGroup { .. }) {
            self.check(None).is_none()
        } else {
            false
        };
        if draws {
            match fresh_id() {
                Some(fresh) => self.begin(request, fresh),
                None => abort(String::from_str("Failed to generate identifier")),
            }
        } else {
            self.begin(request, NIL_ID)
        }
    }

    /// The step for a line that does not read as a request.
    pub fn unreadable(&self) -> (r: Step)
        ensures
            refused(r, Problem::InvalidFormat),
    {
        refuse(Problem::InvalidFormat)
    }

    /// When the connection closes: the identifier to take out of the registry
    /// of connected clients, if the connection was logged in.
    pub fn close(&self) -> (r: Option<u128>)
        ensures
            r == self.user_id,
    {
        self.user_id
    }
}

} // verus!

verus! {

/// The user in whose name a request sends a record, if it sends one.
pub open spec fn record_sender(request: Request) -> Option<u128> {
    match request {
        Request::Text(m) => Some(m.sender_id),
        Request::Send { message, .. } => Some(message.sender_id),
        Request::SendToGroup { message, .. } => Some(message.sender_id),
        Request::SendFile { file, .. } => Some(file.sender_id),
        Request::SendFileToGroup { file, .. } => Some(file.sender_id),
        _ => None,
    }
}

/// The request is one that the server serves, other than registering and
/// logging in.
pub open spec fn needs_login(request: Request) -> bool {
    !(request is Register || request is Login || request is AddUserToGroup
        || request is RemoveUserFromGroup || request is DeleteGroup)
}

/// A connection that is not logged in gets `Not authenticated` for every
/// request it makes other than registering and logging in, and the store is
/// given no work.
pub proof fn law_guests_are_refused(s: Session, request: Request, fresh: u128, r: Step)
    requires
        s.user_id is None,
        needs_login(request),
        began(s, request, fresh, r),
    ensures
        refused(r, Problem::NotAuthenticated),
{
}

/// A logged-in user cannot send a message or a file in another user's name:
/// the request is answered `Invalid sender_id` and nothing is stored.
pub proof fn law_no_sending_as_another(s: Session, request: Request, fresh: u128, r: Step)
    requires
        s.user_id is Some,
        record_sender(request) is Some,
        record_sender(request) != s.user_id,
        began(s, request, fresh, r),
    ensures
        refused(r, Problem::InvalidSender),
{
}

/// Only a registration that was saved, or a login whose public key matched,
/// changes who the connection is logged in as; afterwards it is logged in.
pub proof fn law_session_changes_only_on_login(
    s0: Session,
    s1: Session,
    pending: Pending,
    answer: Answer,
    online: Seq<u128>,
    r: Step,
)
    requires
        resumed(s0, s1, pending, answer, online, r),
        s1 != s0,
    ensures
        (pending is Register && answer->Saved_0 is Ok) || (pending is Login && answer->User_0 is Ok
            && answer->User_0->Ok_0.public_key@ == pending->Login_public_key@),
        s1.user_id is Some,
{
}

/// A message or a file is stored in a group only when its sender is a
/// member of the group, and it is stored addressed to that group.
pub proof fn law_group_posts_need_membership(
    s0: Session,
    s1: Session,
    pending: Pending,
    answer: Answer,
    online: Seq<u128>,
    r: Step,
)
    requires
        resumed(s0, s1, pending, answer, online, r),
        pending is GroupPostLookup || pending is GroupFileLookup,
        r.next is Await,
    ensures
        answer->Group_0 is Ok,
        pending matches Pending::GroupPostLookup { message, group_id } ==> answer->Group_0->Ok_0.members@.contains(
            message.sender_id,
        ) && r.next->Await_0 == Task::SaveMessage(posted(message, group_id)),
        pending matches Pending::GroupFileLookup { file, group_id } ==> answer->Group_0->Ok_0.members@.contains(
            file.sender_id,
        ) && r.next->Await_0 == Task::SaveFile(posted_file(file, group_id)),
{
}

/// A direct message or file is stored addressed to the user that the
/// receiver's username named.
pub proof fn law_direct_posts_are_addressed(
    s0: Session,
    s1: Session,
    pending: Pending,
    answer: Answer,
    online: Seq<u128>,
    r: Step,
)
    requires
        resumed(s0, s1, pending, answer, online, r),
        pending is DirectLookup || pending is FileLookup,
        r.next is Await,
    ensures
        answer->User_0 is Ok,
        pending matches Pending::DirectLookup { message } ==> r.next->Await_0 == Task::SaveMessage(
            addressed(message, answer->User_0->Ok_0.id),
        ),
        pending matches Pending::FileLookup { file } ==> r.next->Await_0 == Task::SaveFile(
            addressed_file(file, answer->User_0->Ok_0.id),
        ),
{
}


proof fn lemma_recipients_are_online_members(
    members: Seq<u128>,
    online: Seq<u128>,
    except: Option<u128>,
    x: u128,
)
    ensures
        recipients(members, online, except).contains(x) <==> (members.contains(x) && online.contains(
            x,
        ) && except != Some(x)),
    decreases members.len(),
{
    if members.len() > 0 {
        let rest = members.drop_last();
        let last = members.last();
        lemma_recipients_are_online_members(rest, online, except, x);
        if rest.contains(x) {
            let k = choose|k: int| 0 <= k < rest.len() && rest[k] == x;
            assert(members[k] == x);
        }
        if members.contains(x) && x != last {
            let k = choose|k: int| 0 <= k < members.len() && members[k] == x;
            assert(rest[k] == x);
        }
        let rr = recipients(rest, online, except);
        if online.contains(last) && except != Some(last) {
            let all = rr.push(last);
            if all.contains(x) && x != last {
                let k = choose|k: int| 0 <= k < all.len() && all[k] == x;
                assert(rr[k] == x);
            }
            if x == last {
                assert(all[rr.len() as int] == x);
            } else if rr.contains(x) {
                let k = choose|k: int| 0 <= k < rr.len() && rr[k] == x;
                assert(all[k] == x);
            }
        }
    }
}

/// A fetched history is answered with exactly the messages that the store
/// returned, and nothing else happens.
pub proof fn law_history_is_the_stores(
    s0: Session,
    s1: Session,
    ms: Vec<Message>,
    online: Seq<u128>,
    r: Step,
)
    requires
        resumed(s0, s1, Pending::History, Answer::Messages(Ok(ms)), online, r),
    ensures
        s1 == s0,
        r.effects@ == seq![Effect::Reply(Reply::Messages(ms))],
        r.next is Idle,
{
}

/// Once a direct message or file is stored, its recipient is sent the
/// conversation exactly as the store returned it, and the sender is told
/// that it was sent.
pub proof fn law_direct_deliveries_carry_the_conversation(
    s0: Session,
    s1: Session,
    pending: Pending,
    ms: Vec<Message>,
    online: Seq<u128>,
    r: Step,
)
    requires
        pending is DirectHistory || pending is FileHistory,
        resumed(s0, s1, pending, Answer::Messages(Ok(ms)), online, r),
    ensures
        s1 == s0,
        r.next is Idle,
        r.effects@.len() == 2,
        r.effects@[0] is Deliver,
        r.effects@[0]->Deliver_to@ == seq![
            match pending {
                Pending::DirectHistory { receiver } => receiver,
                Pending::FileHistory { receiver, .. } => receiver,
                _ => 0,
            },
        ],
        r.effects@[0]->Deliver_replies@ == seq![Reply::Messages(ms)],
        pending is DirectHistory ==> r.effects@[1] == Effect::Reply(
            Reply::Success(Notice::MessageSent, None),
        ),
        pending matches Pending::FileHistory { filename, .. } ==> r.effects@[1] == Effect::Reply(
            Reply::Success(Notice::FileSent(filename), None),
        ),
{
}

/// Once a group message or file is stored, exactly the members that are
/// online are sent the record and then the group's history exactly as the
/// store returned it, and the sender is told that it was sent.
pub proof fn law_group_deliveries_carry_the_history(
    s0: Session,
    s1: Session,
    pending: Pending,
    ms: Vec<Message>,
    online: Seq<u128>,
    r: Step,
)
    requires
        pending is GroupPostHistory || pending is GroupFileHistory,
        resumed(s0, s1, pending, Answer::Messages(Ok(ms)), online, r),
    ensures
        s1 == s0,
        r.next is Idle,
        r.effects@.len() == 2,
        r.effects@[0] is Deliver,
        forall|x: u128|
            r.effects@[0]->Deliver_to@.contains(x) <==> (online.contains(x) && match pending {
                Pending::GroupPostHistory { members, .. } => members@.contains(x),
                Pending::GroupFileHistory { members, .. } => members@.contains(x),
                _ => false,
            }),
        pending matches Pending::GroupPostHistory { message, .. } ==> r.effects@[0]->Deliver_replies@
            == seq![Reply::Message(message), Reply::Messages(ms)] && r.effects@[1] == Effect::Reply(
            Reply::Success(Notice::MessageSentToGroup, None),
        ),
        pending matches Pending::GroupFileHistory { file, .. } ==> r.effects@[0]->Deliver_replies@
            == seq![Reply::File(file), Reply::Messages(ms)] && r.effects@[1] == Effect::Reply(
            Reply::Success(Notice::FileSentToGroup(file.filename), None),
        ),
{
    let members = match pending {
        Pending::GroupPostHistory { members, .. } => members@,
        Pending::GroupFileHistory { members, .. } => members@,
        _ => seq![],
    };
    assert forall|x: u128|
        r.effects@[0]->Deliver_to@.contains(x) <==> (online.contains(x) && members.contains(x)) by {
        lemma_recipients_are_online_members(members, online, None, x);
    }
}

/// A login whose lookup finds the user with the given public key logs the
/// connection in as that user, registers it under the user's identifier,
/// and tells the client that identifier.
pub proof fn law_login_tells_the_user_id(
    s0: Session,
    s1: Session,
    username: String,
    public_key: String,
    u: User,
    online: Seq<u128>,
    r: Step,
)
    requires
        u.public_key@ == public_key@,
        resumed(
            s0,
            s1,
            Pending::Login { username, public_key },
            Answer::User(Ok(u)),
            online,
            r,
        ),
    ensures
        s1.user_id == Some(u.id),
        r.next is Idle,
        r.effects@.len() == 2,
        r.effects@[0] == Effect::Enroll(u.id),
        r.effects@[1] == Effect::Reply(
            Reply::Success(Notice::LoggedIn(username), Some(SuccessData::Login { user_id: u.id })),
        ),
{
}

/// A login whose lookup fails, or finds the user under another public key,
/// leaves the connection as it was and answers with the matching error.
pub proof fn law_failed_login_changes_nothing(
    s0: Session,
    s1: Session,
    username: String,
    public_key: String,
    found: Result<User, String>,
    online: Seq<u128>,
    r: Step,
)
    requires
        !(found matches Ok(u) && u.public_key@ == public_key@),
        resumed(s0, s1, Pending::Login { username, public_key }, Answer::User(found), online, r),
    ensures
        s1 == s0,
        r.next is Idle,
        r.effects@ == seq![
            Effect::Reply(
                Reply::Error(
                    if found is Ok {
                        Problem::InvalidPublicKey
                    } else {
                        Problem::UserNotFound
                    },
                ),
            ),
        ],
{
}

/// A registration that was saved logs the connection in as the new user,
/// registers it under the user's identifier and tells the client that
/// identifier.
pub proof fn law_registration_tells_the_user_id(
    s0: Session,
    s1: Session,
    user: User,
    online: Seq<u128>,
    r: Step,
)
    requires
        resumed(s0, s1, Pending::Register { user }, Answer::Saved(Ok(())), online, r),
    ensures
        s1.user_id == Some(user.id),
        r.next is Idle,
        r.effects@ == seq![
            Effect::Enroll(user.id),
            Effect::Reply(
                Reply::Success(
                    Notice::Registered(user.username),
                    Some(SuccessData::Login { user_id: user.id }),
                ),
            ),
        ],
{
}

/// A stored direct message reaches its receiver exactly when the receiver
/// is online, and then the receiver's conversation with the sender is
/// fetched next; the sender is always echoed the message.
pub proof fn law_stored_message_reaches_an_online_receiver(
    s0: Session,
    s1: Session,
    message: Message,
    receiver: u128,
    online: Seq<u128>,
    r: Step,
)
    requires
        resumed(s0, s1, Pending::DirectSaved { message, receiver }, Answer::Saved(Ok(())), online, r),
    ensures
        s1 == s0,
        r.effects@.len() == 2,
        r.effects@[0] == Effect::Reply(Reply::Message(message)),
        online.contains(receiver) ==> r.effects@[1] is Deliver && r.effects@[1]->Deliver_to@ == seq![
            receiver,
        ] && r.effects@[1]->Deliver_replies@ == seq![Reply::Message(message)] && r.next
            == Next::Await(
            Task::Conversation(receiver, message.sender_id),
            Pending::DirectHistory { receiver },
        ),
        !online.contains(receiver) ==> r.effects@[1] == Effect::Reply(
            Reply::Success(Notice::MessageSentOffline, None),
        ) && r.next is Idle,
{
}

/// A stored direct file reaches its receiver exactly when the receiver is
/// online, and then the receiver's conversation with the sender is fetched
/// next; otherwise the sender is told that the receiver is offline.
pub proof fn law_stored_file_reaches_an_online_receiver(
    s0: Session,
    s1: Session,
    file: File,
    receiver: u128,
    online: Seq<u128>,
    r: Step,
)
    requires
        resumed(s0, s1, Pending::FileSaved { file, receiver }, Answer::Saved(Ok(())), online, r),
    ensures
        s1 == s0,
        r.effects@.len() == 1,
        online.contains(receiver) ==> r.effects@[0] is Deliver && r.effects@[0]->Deliver_to@ == seq![
            receiver,
        ] && r.effects@[0]->Deliver_replies@ == seq![Reply::File(file)] && r.next == Next::Await(
            Task::Conversation(receiver, file.sender_id),
            Pending::FileHistory { receiver, filename: file.filename },
        ),
        !online.contains(receiver) ==> r.effects@[0] == Effect::Reply(
            Reply::Success(Notice::FileSentOffline(file.filename), None),
        ) && r.next is Idle,
{
}

/// A saved new group is announced to exactly its online members other than
/// its creator, and the creator is told the group's identifier.
pub proof fn law_new_group_is_announced(
    s0: Session,
    s1: Session,
    group_id: u128,
    name: String,
    members: Vec<u128>,
    creator: u128,
    online: Seq<u128>,
    r: Step,
)
    requires
        resumed(
            s0,
            s1,
            Pending::GroupSaved { group_id, name, members, creator },
            Answer::Saved(Ok(())),
            online,
            r,
        ),
    ensures
        s1 == s0,
        r.next is Idle,
        r.effects@.len() == 2,
        r.effects@[0] is Deliver,
        forall|x: u128|
            #[trigger] r.effects@[0]->Deliver_to@.contains(x) <==> (members@.contains(x)
                && online.contains(x) && x != creator),
        r.effects@[0]->Deliver_replies@ == seq![Reply::Prompt(Notice::AddedToGroup(name))],
        r.effects@[1] == Effect::Reply(
            Reply::Success(Notice::GroupCreated(name), Some(SuccessData::GroupCreated { group_id })),
        ),
{
    let to = recipients(members@, online, Some(creator));
    assert(r.effects@[0]->Deliver_to@ == to);
    assert forall|x: u128|
        #[trigger] r.effects@[0]->Deliver_to@.contains(x) <==> (members@.contains(x)
            && online.contains(x) && x != creator) by {
        lemma_recipients_are_online_members(members@, online, Some(creator), x);
    }
}

} // verus!
