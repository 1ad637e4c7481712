//! The chat client's screens as a state machine: each event from the user,
//! from the server or from outside work the model asked for changes the
//! model and yields the commands that the caller carries out.

use crate::clock::{clock_reading, now_timestamp, rfc3339, utc_rfc3339};
use crate::codec::{
    base64_decoding, open_bytes, open_text, opened_text, seal_bytes, seal_text, sealing_outcome, seals,
    Unsealing,
};
use crate::crypto::decryption;
use crate::crypto::{Crypto, CryptoError};
use crate::ids::{fresh_id, id_text, parse_id, random_uuid, uuid_parse, uuid_text, NIL_ID};
use crate::models::{File, Group, Message, User};
use crate::paths::{file_name, normalize_path, normalized_path, plain_file_name, plain_path};
use crate::protocol::{ChatTarget, Request, Response, SuccessData};
use crate::text::{contains_text, join2, join3, split_whitespace, text_contains, whitespace_words};
use vstd::prelude::*;
use vstd::utf8::encode_utf8;

verus! {

/// The screen on show.
#[derive(Clone, Copy, Debug, PartialEq, Eq, Structural)]
pub enum Screen {
    Login,
    Main,
    Chat,
    GroupChat,
}

/// Why a received file could not be written to disk.
#[derive(Debug, PartialEq, Eq)]
pub enum DownloadFailure {
    /// The downloads directory could not be made; the system's message.
    Directory(String),
    /// The file could not be written; the system's message.
    Write(String),
}

/// What happens to the client.
#[derive(Debug, PartialEq, Eq)]
pub enum Event {
    UsernameChanged(String),
    PublicKeyChanged(String),
    ReceiverUsernameChanged(String),
    GroupNameChanged(String),
    GroupMembersChanged(String),
    GroupIdChanged(String),
    MessageInputChanged(String),
    FilePathChanged(String),
    AddUserInputChanged(String),
    RemoveUserInputChanged(String),
    Register,
    Login,
    SendMessage,
    CreateGroup,
    SendGroupMessage,
    SendFile,
    SendFileToGroup,
    AddUserToGroup,
    RemoveUserFromGroup,
    DeleteGroup,
    ServerResponse(Response),
    Connect,
    Error(String),
    FetchUsers,
    FetchGroups,
    SelectChat(ChatTarget),
    BackToMain,
    Logout,
    /// The file asked for by [`Command::ReadFile`] was read, or not; the
    /// system's message on failure.
    FileRead { path: String, group: Option<u128>, contents: Result<Vec<u8>, String> },
    /// The file asked for by [`Command::SaveDownload`] was written, or not.
    DownloadSaved { file: File, path: String, outcome: Result<(), DownloadFailure> },
}

/// What the caller must do for the model.
#[derive(Debug, PartialEq, Eq)]
pub enum Command {
    /// Send the request to the server; on success feed back
    /// `ServerResponse(Prompt(sent))`, on failure `Error` with the message.
    Send { request: Request, sent: String },
    /// Feed back this event.
    Follow(Event),
    /// Scroll the conversation to its end.
    ScrollToEnd,
    /// Connect to the server at this address; on success feed back
    /// `ServerResponse(Prompt("Connected"))`, on failure `Error`.
    Connect(String),
    /// Read the file at `path` and feed back [`Event::FileRead`].
    ReadFile { path: String, group: Option<u128> },
    /// Make the downloads directory, write `contents` to `path` and feed back
    /// [`Event::DownloadSaved`].
    SaveDownload { file: File, path: String, contents: Vec<u8> },
}

/// The client: the form fields, what it knows from the server, and the key
/// under which message bodies and files are encrypted.
pub struct ChatModel {
    pub server_addr: String,
    pub username: String,
    pub public_key: String,
    pub receiver_username: String,
    pub group_name: String,
    pub group_members: String,
    pub group_id: String,
    pub message_input: String,
    pub file_path: String,
    pub messages: Vec<Message>,
    pub status: String,
    /// The user the client is logged in as, if any.
    pub user_id: Option<u128>,
    pub key: [u8; 32],
    pub screen: Screen,
    pub users: Vec<User>,
    pub groups: Vec<Group>,
    pub current_chat: Option<ChatTarget>,
    pub add_user_input: String,
    pub remove_user_input: String,
    pub crypto: Crypto,
}

/// The directory where received files are written.
pub open spec fn downloads_dir() -> Seq<char> {
    "chat_downloads"@
}

/// The model is unchanged but for its status, which reads `text`.
pub open spec fn only_status(m0: ChatModel, m1: ChatModel, text: Seq<char>) -> bool {
    &&& m1 == ChatModel { status: m1.status, ..m0 }
    &&& m1.status@ == text
}

/// `c` sends `request` and reports `sent` once it is sent.
pub open spec fn sends(c: Command, request: Request, sent: Seq<char>) -> bool {
    c matches Command::Send { request: q, sent: s } && q == request && s@ == sent
}

/// The conversation shown after sending to a user: the current one, or the
/// one with the nil user where there is none.
pub open spec fn target_or_nobody(current: Option<ChatTarget>) -> ChatTarget {
    match current {
        Some(t) => t,
        None => ChatTarget::User(NIL_ID),
    }
}

/// The name of the first user in `users` with identifier `id`, or empty text.
pub open spec fn user_name(users: Seq<User>, id: u128) -> Seq<char>
    decreases users.len(),
{
    if users.len() == 0 {
        seq![]
    } else if users[0].id == id {
        users[0].username@
    } else {
        user_name(users.drop_first(), id)
    }
}

/// The status after an encryption that failed, which the user sees as an error.
pub open spec fn encryption_status(e: CryptoError) -> Seq<char> {
    "Error: "@ + e.spec_text()
}

/// The text shown for a received file, once written to `path`.
pub open spec fn download_note(file: File, path: Seq<char>) -> Seq<char> {
    let from = match file.group_id {
        Some(g) => "from group "@ + uuid_text(g),
        None => "from sender_id: "@ + uuid_text(file.sender_id) + " to receiver_id: "@
            + match file.receiver_id {
            Some(r) => uuid_text(r),
            None => "unknown"@,
        },
    };
    "["@ + utc_rfc3339(file.timestamp) + "] "@ + from + ": File "@ + file.filename@ + " saved as "@
        + path
}

/// `out` is `ms` with each body that reads back under `key` replaced by its text.
pub open spec fn revealed(key: Seq<u8>, ms: Seq<Message>, out: Seq<Message>) -> bool {
    &&& out.len() == ms.len()
    &&& forall|i: int|
        0 <= i < ms.len() ==> #[trigger] out[i] == Message { content: out[i].content, ..ms[i] }
            && out[i].content@ == match opened_text(key, ms[i].content@) {
            Some(t) => t,
            None => ms[i].content@,
        }
}

fn no_commands() -> (r: Vec<Command>)
    ensures
        r@.len() == 0,
{
    Vec::new()
}

fn one_command(c: Command) -> (r: Vec<Command>)
    ensures
        r@ == seq![c],
{
    let mut r: Vec<Command> = Vec::new();
    r.push(c);
    r
}

fn send_command(request: Request, sent: &str) -> (r: Command)
    ensures
        sends(r, request, sent@),
{
    Command::Send { request, sent: String::from_str(sent) }
}

fn send_then_show(request: Request, sent: &str, target: ChatTarget) -> (r: Vec<Command>)
    ensures
        r@.len() == 3,
        sends(r@[0], request, sent@),
        r@[1] == Command::Follow(Event::SelectChat(target)),
        r@[2] == Command::ScrollToEnd,
{
    let mut r: Vec<Command> = Vec::new();
    r.push(send_command(request, sent));
    r.push(Command::Follow(Event::SelectChat(target)));
    r.push(Command::ScrollToEnd);
    r
}


/// A local refusal: the status reads `text` and nothing else happens.
pub open spec fn refused_locally(m0: ChatModel, m1: ChatModel, r: Seq<Command>, text: Seq<char>) -> bool {
    only_status(m0, m1, text) && r.len() == 0
}

/// Register or Login: both credentials are needed.
pub open spec fn credentials_sent(m0: ChatModel, m1: ChatModel, r: Seq<Command>, request: Request, sent: Seq<char>) -> bool {
    if m0.username@.len() == 0 || m0.public_key@.len() == 0 {
        refused_locally(m0, m1, r, "Username and public key required"@)
    } else {
        m1 == m0 && r.len() == 1 && sends(r[0], request, sent)
    }
}

/// The status when no identifier can be drawn for a new record.
pub open spec fn id_failure_status() -> Seq<char> {
    "Error: Failed to generate identifier"@
}

/// The status when the system clock reads before the Unix epoch.
pub open spec fn clock_failure_status() -> Seq<char> {
    "Error: System clock is before the Unix epoch"@
}

/// `id` is an outcome that drawing a new identifier can have: none, or a
/// random (version 4) UUID.
pub open spec fn id_outcome(id: Option<u128>) -> bool {
    id matches Some(i) ==> exists|bytes: Seq<u8>| bytes.len() == 16 && i == #[trigger] random_uuid(bytes)
}

/// `timestamp` is an outcome that reading the clock can have: none, or the
/// time it read, not before the epoch.
pub open spec fn clock_outcome(timestamp: Option<i64>) -> bool {
    timestamp matches Some(t) ==> t >= 0 && clock_reading(t)
}

/// Everything a new record needs came out: the sealed body, an identifier
/// and the time.
pub open spec fn all_drawn(sealed: Result<String, CryptoError>, id: Option<u128>, timestamp: Option<i64>) -> bool {
    sealed is Ok && id is Some && timestamp is Some
}

/// Sending stopped at the first of the sealing, the identifier and the clock
/// that failed: the status tells which, and nothing else happens.
pub open spec fn send_stopped(
    m0: ChatModel,
    m1: ChatModel,
    r: Seq<Command>,
    sealed: Result<String, CryptoError>,
    id: Option<u128>,
) -> bool {
    match sealed {
        Err(e) => refused_locally(m0, m1, r, encryption_status(e)),
        Ok(_) => if id is None {
            refused_locally(m0, m1, r, id_failure_status())
        } else {
            refused_locally(m0, m1, r, clock_failure_status())
        },
    }
}

/// The step after sealing the message input as `sealed`: on success the
/// message, with identifier `id` and time `timestamp`, from `me` is sent to
/// the user named in the form and the input is cleared; on failure the
/// status tells why.
pub open spec fn sealed_message_sent(
    m0: ChatModel,
    m1: ChatModel,
    r: Seq<Command>,
    me: u128,
    sealed: Result<String, CryptoError>,
    id: Option<u128>,
    timestamp: Option<i64>,
) -> bool {
    if !all_drawn(sealed, id, timestamp) {
        send_stopped(m0, m1, r, sealed, id)
    } else {
        let content = sealed->Ok_0;
        let id = id->Some_0;
        let timestamp = timestamp->Some_0;
        {
            &&& m1 == ChatModel { message_input: m1.message_input, ..m0 }
            &&& m1.message_input@.len() == 0
            &&& r.len() == 3
            &&& sends(
                r[0],
                Request::Send {
                    receiver_username: m0.receiver_username,
                    message: Message {
                        id,
                        sender_id: me,
                        receiver_id: None,
                        group_id: None,
                        content,
                        timestamp,
                    },
                },
                "Message sent"@,
            )
            &&& r[1] == Command::Follow(Event::SelectChat(target_or_nobody(m0.current_chat)))
            &&& r[2] == Command::ScrollToEnd
        }
    }
}

/// SendMessage: the input is encrypted and sent to the user named in the
/// form: the step is [`ChatModel::send_sealed`]'s for an outcome that
/// sealing the input can have.
pub open spec fn message_sent(m0: ChatModel, m1: ChatModel, r: Seq<Command>) -> bool {
    if m0.user_id is None {
        refused_locally(m0, m1, r, "Please login first"@)
    } else if m0.receiver_username@.len() == 0 || m0.message_input@.len() == 0 {
        refused_locally(m0, m1, r, "Receiver username and message required"@)
    } else {
        exists|sealed: Result<String, CryptoError>, id: Option<u128>, timestamp: Option<i64>|
            sealing_outcome(m0.key@, encode_utf8(m0.message_input@), sealed) && id_outcome(id)
                && clock_outcome(timestamp) && #[trigger] sealed_message_sent(m0, m1, r, m0.user_id->0, sealed, id, timestamp)
    }
}

/// CreateGroup: the group and the words of the members field are sent.
pub open spec fn group_requested(m0: ChatModel, m1: ChatModel, r: Seq<Command>) -> bool {
    if m0.user_id is None {
        refused_locally(m0, m1, r, "Please login first"@)
    } else if m0.group_name@.len() == 0 || m0.group_members@.len() == 0 {
        refused_locally(m0, m1, r, "Group name and members required"@)
    } else {
        &&& m1 == ChatModel { group_name: m1.group_name, group_members: m1.group_members, ..m0 }
        &&& m1.group_name@.len() == 0
        &&& m1.group_members@.len() == 0
        &&& r.len() == 1
        &&& r[0] matches Command::Send {
            request: Request::CreateGroup { group_name, member_usernames },
            sent,
        }
        &&& group_name == m0.group_name
        &&& member_usernames@.len() == whitespace_words(m0.group_members@).len()
        &&& forall|i: int|
            0 <= i < member_usernames@.len() ==> #[trigger] member_usernames@[i]@
                == whitespace_words(m0.group_members@)[i]
        &&& sent@ == "Group creation sent"@
    }
}

/// The step after sealing the message input as `sealed` for the group
/// `gid`: as [`sealed_message_sent`], the message addressed to the group.
pub open spec fn sealed_group_message_sent(
    m0: ChatModel,
    m1: ChatModel,
    r: Seq<Command>,
    me: u128,
    gid: u128,
    sealed: Result<String, CryptoError>,
    id: Option<u128>,
    timestamp: Option<i64>,
) -> bool {
    if !all_drawn(sealed, id, timestamp) {
        send_stopped(m0, m1, r, sealed, id)
    } else {
        let content = sealed->Ok_0;
        let id = id->Some_0;
        let timestamp = timestamp->Some_0;
        {
            &&& m1 == ChatModel { message_input: m1.message_input, ..m0 }
            &&& m1.message_input@.len() == 0
            &&& r.len() == 3
            &&& sends(
                r[0],
                Request::SendToGroup {
                    group_id: gid,
                    message: Message {
                        id,
                        sender_id: me,
                        receiver_id: None,
                        group_id: Some(gid),
                        content,
                        timestamp,
                    },
                },
                "Group message sent"@,
            )
            &&& r[1] == Command::Follow(Event::SelectChat(ChatTarget::Group(gid)))
            &&& r[2] == Command::ScrollToEnd
        }
    }
}

/// SendGroupMessage: the input is encrypted and sent to the group in the
/// form: the step is [`ChatModel::send_sealed_to_group`]'s for an outcome
/// that sealing the input can have.
pub open spec fn group_message_sent(m0: ChatModel, m1: ChatModel, r: Seq<Command>) -> bool {
    if m0.user_id is None {
        refused_locally(m0, m1, r, "Please login first"@)
    } else if m0.group_id@.len() == 0 || m0.message_input@.len() == 0 {
        refused_locally(m0, m1, r, "Group ID and message required"@)
    } else {
        match uuid_parse(m0.group_id@) {
            None => refused_locally(m0, m1, r, "Invalid group ID"@),
            Some(gid) => exists|
                sealed: Result<String, CryptoError>,
                id: Option<u128>,
                timestamp: Option<i64>,
            |
                sealing_outcome(m0.key@, encode_utf8(m0.message_input@), sealed) && id_outcome(id)
                    && clock_outcome(timestamp) && #[trigger] sealed_group_message_sent(
                    m0,
                    m1,
                    r,
                    m0.user_id->0,
                    gid,
                    sealed,
                    id,
                    timestamp,
                ),
        }
    }
}

/// SendFile or SendFileToGroup: the file at the normalized path is to be read.
pub open spec fn file_requested(m0: ChatModel, m1: ChatModel, r: Seq<Command>, to_group: bool) -> bool {
    if m0.user_id is None {
        refused_locally(m0, m1, r, "Please login first"@)
    } else if !to_group {
        if m0.receiver_username@.len() == 0 || m0.file_path@.len() == 0 {
            refused_locally(m0, m1, r, "Receiver username and file path required"@)
        } else {
            &&& m1 == m0
            &&& r.len() == 1
            &&& r[0] matches Command::ReadFile { path, group } && path@ == normalized_path(
                m0.file_path@,
            ) && group is None
        }
    } else if m0.group_id@.len() == 0 || m0.file_path@.len() == 0 {
        refused_locally(m0, m1, r, "Group ID and file path required"@)
    } else {
        match uuid_parse(m0.group_id@) {
            None => refused_locally(m0, m1, r, "Invalid group ID"@),
            Some(gid) => {
                &&& m1 == m0
                &&& r.len() == 1
                &&& r[0] matches Command::ReadFile { path, group } && path@ == normalized_path(
                    m0.file_path@,
                ) && group == Some(gid)
            },
        }
    }
}

/// `name` is the name under which a file read from `path` is sent: the
/// file name that std finds in the path, `unknown` where it finds none. For
/// a plain path that is [`plain_file_name`]; for others, a non-empty run of
/// the path's characters without a `/`.
pub open spec fn sent_file_name(path: Seq<char>, name: Seq<char>) -> bool {
    if plain_path(path) {
        name == match plain_file_name(path) {
            Some(n) => n,
            None => "unknown"@,
        }
    } else {
        name == "unknown"@ || (name.len() > 0 && text_contains(path, name) && !name.contains('/'))
    }
}

/// The step after sealing a file's contents as `sealed`: on success the
/// file `filename`, with identifier `id` and time `timestamp`, from `me` is
/// sent to the user named in the form (`group` is `None`) or to the group,
/// and the path is cleared; on failure the status tells why.
pub open spec fn sealed_file_sent(
    m0: ChatModel,
    m1: ChatModel,
    r: Seq<Command>,
    me: u128,
    group: Option<u128>,
    filename: String,
    sealed: Result<String, CryptoError>,
    id: Option<u128>,
    timestamp: Option<i64>,
) -> bool {
    if !all_drawn(sealed, id, timestamp) {
        send_stopped(m0, m1, r, sealed, id)
    } else {
        let data = sealed->Ok_0;
        let id = id->Some_0;
        let timestamp = timestamp->Some_0;
        {
            &&& m1 == ChatModel { file_path: m1.file_path, ..m0 }
            &&& m1.file_path@.len() == 0
            &&& r.len() == 3
            &&& r[2] == Command::ScrollToEnd
            &&& match group {
                None => {
                    &&& sends(
                        r[0],
                        Request::SendFile {
                            receiver_username: m0.receiver_username,
                            file: File {
                                id,
                                sender_id: me,
                                receiver_id: None,
                                group_id: None,
                                filename,
                                data,
                                timestamp,
                            },
                        },
                        "File sent"@,
                    )
                    &&& r[1] == Command::Follow(Event::SelectChat(target_or_nobody(m0.current_chat)))
                },
                Some(gid) => {
                    &&& sends(
                        r[0],
                        Request::SendFileToGroup {
                            group_id: gid,
                            file: File {
                                id,
                                sender_id: me,
                                receiver_id: None,
                                group_id: Some(gid),
                                filename,
                                data,
                                timestamp,
                            },
                        },
                        "File sent to group"@,
                    )
                    &&& r[1] == Command::Follow(Event::SelectChat(ChatTarget::Group(gid)))
                },
            }
        }
    }
}

/// FileRead: the file's contents are encrypted and sent: the step is
/// [`ChatModel::send_sealed_file`]'s for an outcome that sealing the
/// contents can have, under the name that std finds in the path.
pub open spec fn file_sent(
    m0: ChatModel,
    m1: ChatModel,
    r: Seq<Command>,
    path: String,
    group: Option<u128>,
    contents: Result<Vec<u8>, String>,
) -> bool {
    if m0.user_id is None {
        refused_locally(m0, m1, r, "Please login first"@)
    } else {
        match contents {
            Err(e) => refused_locally(m0, m1, r, "Failed to read file: "@ + e@),
            Ok(data) => exists|
                sealed: Result<String, CryptoError>,
                filename: String,
                id: Option<u128>,
                timestamp: Option<i64>,
            |
                sealing_outcome(m0.key@, data@, sealed) && sent_file_name(path@, filename@)
                    && id_outcome(id) && clock_outcome(timestamp) && #[trigger] sealed_file_sent(
                    m0,
                    m1,
                    r,
                    m0.user_id->0,
                    group,
                    filename,
                    sealed,
                    id,
                    timestamp,
                ),
        }
    }
}

/// AddUserToGroup (`adding`) or RemoveUserFromGroup: the request names the
/// group in the form and the user in the matching field.
pub open spec fn membership_requested(m0: ChatModel, m1: ChatModel, r: Seq<Command>, adding: bool) -> bool {
    let input = if adding {
        m0.add_user_input
    } else {
        m0.remove_user_input
    };
    if m0.user_id is None {
        refused_locally(m0, m1, r, "Please login first"@)
    } else if m0.group_id@.len() == 0 || input@.len() == 0 {
        refused_locally(m0, m1, r, "Group ID and username required"@)
    } else {
        match uuid_parse(m0.group_id@) {
            None => refused_locally(m0, m1, r, "Invalid group ID"@),
            Some(gid) => r.len() == 1 && if adding {
                &&& m1 == ChatModel { add_user_input: m1.add_user_input, ..m0 }
                &&& m1.add_user_input@.len() == 0
                &&& sends(
                    r[0],
                    Request::AddUserToGroup { group_id: gid, username: input },
                    "Add user request sent"@,
                )
            } else {
                &&& m1 == ChatModel { remove_user_input: m1.remove_user_input, ..m0 }
                &&& m1.remove_user_input@.len() == 0
                &&& sends(
                    r[0],
                    Request::RemoveUserFromGroup { group_id: gid, username: input },
                    "Remove user request sent"@,
                )
            },
        }
    }
}

/// DeleteGroup: the group in the form is to be deleted, and the main screen shown.
pub open spec fn deletion_requested(m0: ChatModel, m1: ChatModel, r: Seq<Command>) -> bool {
    if m0.user_id is None {
        refused_locally(m0, m1, r, "Please login first"@)
    } else if m0.group_id@.len() == 0 {
        refused_locally(m0, m1, r, "Group ID required"@)
    } else {
        match uuid_parse(m0.group_id@) {
            None => refused_locally(m0, m1, r, "Invalid group ID"@),
            Some(gid) => m1 == m0 && r.len() == 2 && sends(
                r[0],
                Request::DeleteGroup { group_id: gid },
                "Delete group request sent"@,
            ) && r[1] == Command::Follow(Event::BackToMain),
        }
    }
}

/// SelectChat: the conversation is opened and its messages asked for.
pub open spec fn chat_selected(m0: ChatModel, m1: ChatModel, r: Seq<Command>, target: ChatTarget) -> bool {
    &&& r.len() == 2
    &&& sends(r[0], Request::FetchMessages { target }, "Fetching messages"@)
    &&& r[1] == Command::ScrollToEnd
    &&& match target {
        ChatTarget::User(uid) => {
            &&& m1 == ChatModel {
                current_chat: Some(target),
                receiver_username: m1.receiver_username,
                screen: Screen::Chat,
                ..m0
            }
            &&& m1.receiver_username@ == user_name(m0.users@, uid)
        },
        ChatTarget::Group(gid) => {
            &&& m1 == ChatModel {
                current_chat: Some(target),
                receiver_username: m1.receiver_username,
                group_id: m1.group_id,
                screen: Screen::GroupChat,
                ..m0
            }
            &&& m1.receiver_username@.len() == 0
            &&& m1.group_id@ == uuid_text(gid)
        },
    }
}

/// BackToMain: the conversation is closed and its fields emptied.
pub open spec fn back_to_main(m0: ChatModel, m1: ChatModel, r: Seq<Command>) -> bool {
    &&& m1 == ChatModel {
        screen: Screen::Main,
        current_chat: None,
        messages: m1.messages,
        receiver_username: m1.receiver_username,
        group_id: m1.group_id,
        add_user_input: m1.add_user_input,
        remove_user_input: m1.remove_user_input,
        ..m0
    }
    &&& m1.messages@.len() == 0
    &&& m1.receiver_username@.len() == 0
    &&& m1.group_id@.len() == 0
    &&& m1.add_user_input@.len() == 0
    &&& m1.remove_user_input@.len() == 0
    &&& r.len() == 0
}

/// Logout: the session and everything typed or received are dropped.
pub open spec fn logged_out(m0: ChatModel, m1: ChatModel, r: Seq<Command>) -> bool {
    &&& m1 == ChatModel {
        user_id: None,
        username: m1.username,
        public_key: m1.public_key,
        receiver_username: m1.receiver_username,
        group_name: m1.group_name,
        group_members: m1.group_members,
        group_id: m1.group_id,
        message_input: m1.message_input,
        file_path: m1.file_path,
        messages: m1.messages,
        users: m1.users,
        groups: m1.groups,
        current_chat: None,
        add_user_input: m1.add_user_input,
        remove_user_input: m1.remove_user_input,
        screen: Screen::Login,
        status: m1.status,
        ..m0
    }
    &&& m1.username@.len() == 0
    &&& m1.public_key@.len() == 0
    &&& m1.receiver_username@.len() == 0
    &&& m1.group_name@.len() == 0
    &&& m1.group_members@.len() == 0
    &&& m1.group_id@.len() == 0
    &&& m1.message_input@.len() == 0
    &&& m1.file_path@.len() == 0
    &&& m1.messages@.len() == 0
    &&& m1.users@.len() == 0
    &&& m1.groups@.len() == 0
    &&& m1.add_user_input@.len() == 0
    &&& m1.remove_user_input@.len() == 0
    &&& m1.status@ == "Logged out"@
    &&& r.len() == 0
}

/// A body that does not read back: the status tells why and nothing else happens.
pub open spec fn unreadable_body(m0: ChatModel, m1: ChatModel, r: Seq<Command>, content: Seq<char>) -> bool {
    &&& m1 == ChatModel { status: m1.status, ..m0 }
    &&& r.len() == 0
    &&& match base64_decoding(content) {
        Err(message) => m1.status@ == "Base64 decode error: "@ + message,
        Ok(framed) => decryption(m0.key@, framed) matches Err(e) && m1.status@
            == "Decryption error: "@ + e.spec_text(),
    }
}

/// What the client does with a response from the server.
pub open spec fn response_handled(m0: ChatModel, m1: ChatModel, r: Seq<Command>, response: Response) -> bool {
    match response {
        Response::Prompt(text) => {
            &&& m1 == ChatModel { status: text, ..m0 }
            &&& if text_contains(text@, "Added to group"@) || text_contains(
                text@,
                "Group deleted"@,
            ) {
                r == seq![Command::Follow(Event::FetchGroups)]
            } else {
                r.len() == 0
            }
        },
        Response::Success { message, data } => match data {
            None => refused_locally(m0, m1, r, "Success: "@ + message@),
            Some(SuccessData::Login { user_id }) => {
                &&& m1 == ChatModel {
                    status: m1.status,
                    user_id: Some(user_id),
                    screen: Screen::Main,
                    ..m0
                }
                &&& m1.status@ == "Success: "@ + message@
                &&& r == seq![Command::Follow(Event::FetchUsers), Command::Follow(Event::FetchGroups)]
            },
            Some(SuccessData::GroupCreated { group_id }) => {
                &&& only_status(
                    m0,
                    m1,
                    "Success: "@ + message@ + " (group_id: "@ + uuid_text(group_id) + ")"@,
                )
                &&& r == seq![Command::Follow(Event::FetchGroups)]
            },
        },
        Response::Error(text) => refused_locally(m0, m1, r, "Error: "@ + text@),
        Response::Message(m) => (forall|t: Seq<char>|
            #[trigger] seals(m0.key@, m.content@, encode_utf8(t)) ==> opened_text(m0.key@, m.content@)
                == Some(t)) && match opened_text(m0.key@, m.content@) {
            None => unreadable_body(m0, m1, r, m.content@),
            Some(text) => {
                &&& m1 == ChatModel { messages: m1.messages, ..m0 }
                &&& m1.messages@.len() == m0.messages@.len() + 1
                &&& m1.messages@.drop_last() == m0.messages@
                &&& m1.messages@.last() == Message { content: m1.messages@.last().content, ..m }
                &&& m1.messages@.last().content@ == text
                &&& r == seq![Command::ScrollToEnd]
            },
        },
        Response::File(f) => match base64_decoding(f.data@) {
            Err(_) => unreadable_body(m0, m1, r, f.data@),
            Ok(framed) => match decryption(m0.key@, framed) {
                Err(_) => unreadable_body(m0, m1, r, f.data@),
                Ok(plain) => {
                    &&& m1 == m0
                    &&& r.len() == 1
                    &&& r[0] matches Command::SaveDownload { file, path, contents }
                    &&& file == f
                    &&& path@ == downloads_dir() + "/received_"@ + f.filename@
                    &&& contents@ == plain
                },
            },
        },
        Response::Users(us) => m1 == ChatModel { users: us, ..m0 } && r.len() == 0,
        Response::Groups(gs) => m1 == ChatModel { groups: gs, ..m0 } && r.len() == 0,
        Response::Messages(ms) => {
            &&& m1 == ChatModel { messages: m1.messages, ..m0 }
            &&& revealed(m0.key@, ms@, m1.messages@)
            &&& r == seq![Command::ScrollToEnd]
        },
    }
}

/// DownloadSaved: the note about the received file joins the conversation.
pub open spec fn download_recorded(
    m0: ChatModel,
    m1: ChatModel,
    r: Seq<Command>,
    file: File,
    path: String,
    outcome: Result<(), DownloadFailure>,
) -> bool {
    match outcome {
        Err(DownloadFailure::Directory(e)) => refused_locally(
            m0,
            m1,
            r,
            "Failed to create directory chat_downloads: "@ + e@,
        ),
        Err(DownloadFailure::Write(e)) => refused_locally(
            m0,
            m1,
            r,
            "Failed to save file to "@ + path@ + ": "@ + e@,
        ),
        Ok(_) => exists|id: Option<u128>|
            id_outcome(id) && #[trigger] note_recorded(m0, m1, r, file, path, id),
    }
}

/// The step after drawing `id` for the note about a received file written
/// to `path`: the note joins the conversation under that identifier; where
/// none was drawn, the status says so.
pub open spec fn note_recorded(
    m0: ChatModel,
    m1: ChatModel,
    r: Seq<Command>,
    file: File,
    path: String,
    id: Option<u128>,
) -> bool {
    match id {
        None => refused_locally(m0, m1, r, id_failure_status()),
        Some(id) => {
            let note = m1.messages@.last();
            &&& m1 == ChatModel { messages: m1.messages, ..m0 }
            &&& m1.messages@.len() == m0.messages@.len() + 1
            &&& m1.messages@.drop_last() == m0.messages@
            &&& note.id == id
            &&& note.sender_id == file.sender_id
            &&& note.receiver_id == file.receiver_id
            &&& note.group_id == file.group_id
            &&& note.timestamp == file.timestamp
            &&& note.content@ == download_note(file, path@)
            &&& r == seq![Command::ScrollToEnd]
        },
    }
}

/// What [`ChatModel::update`] does with an event.
pub open spec fn updated(m0: ChatModel, m1: ChatModel, event: Event, r: Seq<Command>) -> bool {
    match event {
        Event::UsernameChanged(s) => m1 == ChatModel { username: s, ..m0 } && r.len() == 0,
        Event::PublicKeyChanged(s) => m1 == ChatModel { public_key: s, ..m0 } && r.len() == 0,
        Event::ReceiverUsernameChanged(s) => m1 == ChatModel { receiver_username: s, ..m0 }
            && r.len() == 0,
        Event::GroupNameChanged(s) => m1 == ChatModel { group_name: s, ..m0 } && r.len() == 0,
        Event::GroupMembersChanged(s) => m1 == ChatModel { group_members: s, ..m0 } && r.len()
            == 0,
        Event::GroupIdChanged(s) => m1 == ChatModel { group_id: s, ..m0 } && r.len() == 0,
        Event::MessageInputChanged(s) => m1 == ChatModel { message_input: s, ..m0 } && r.len()
            == 0,
        Event::FilePathChanged(s) => m1 == ChatModel { file_path: s, ..m0 } && r.len() == 0,
        Event::AddUserInputChanged(s) => m1 == ChatModel { add_user_input: s, ..m0 } && r.len()
            == 0,
        Event::RemoveUserInputChanged(s) => m1 == ChatModel { remove_user_input: s, ..m0 }
            && r.len() == 0,
        Event::Register => credentials_sent(
            m0,
            m1,
            r,
            Request::Register { username: m0.username, public_key: m0.public_key },
            "Register sent"@,
        ),
        Event::Login => credentials_sent(
            m0,
            m1,
            r,
            Request::Login { username: m0.username, public_key: m0.public_key },
            "Login sent"@,
        ),
        Event::SendMessage => message_sent(m0, m1, r),
        Event::CreateGroup => group_requested(m0, m1, r),
        Event::SendGroupMessage => group_message_sent(m0, m1, r),
        Event::SendFile => file_requested(m0, m1, r, false),
        Event::SendFileToGroup => file_requested(m0, m1, r, true),
        Event::AddUserToGroup => membership_requested(m0, m1, r, true),
        Event::RemoveUserFromGroup => membership_requested(m0, m1, r, false),
        Event::DeleteGroup => deletion_requested(m0, m1, r),
        Event::ServerResponse(response) => response_handled(m0, m1, r, response),
        Event::Connect => {
            &&& m1 == m0
            &&& r.len() == 1
            &&& r[0] matches Command::Connect(addr) && addr == m0.server_addr
        },
        Event::Error(text) => refused_locally(m0, m1, r, "Error: "@ + text@),
        Event::FetchUsers => m1 == m0 && r.len() == 1 && sends(
            r[0],
            Request::FetchUsers,
            "Fetching users"@,
        ),
        Event::FetchGroups => m1 == m0 && r.len() == 1 && sends(
            r[0],
            Request::FetchGroups,
            "Fetching groups"@,
        ),
        Event::SelectChat(target) => chat_selected(m0, m1, r, target),
        Event::BackToMain => back_to_main(m0, m1, r),
        Event::Logout => logged_out(m0, m1, r),
        Event::FileRead { path, group, contents } => file_sent(m0, m1, r, path, group, contents),
        Event::DownloadSaved { file, path, outcome } => download_recorded(
            m0,
            m1,
            r,
            file,
            path,
            outcome,
        ),
    }
}


/// The name of the first user in `users` with identifier `id`, or empty text.
pub fn find_user_name(users: &Vec<User>, id: u128) -> (r: String)
    ensures
        r@ == user_name(users@, id),
{
    let mut i: usize = 0;
    assert(users@.skip(0) == users@);
    while i < users.len()
        invariant
            i <= users@.len(),
            user_name(users@, id) == user_name(users@.skip(i as int), id),
        decreases users@.len() - i,
    {
        assert(users@.skip(i as int).drop_first() == users@.skip(i + 1));
        if users[i].id == id {
            return users[i].username.clone();
        }
        i = i + 1;
    }
    assert(users@.skip(i as int).len() == 0);
    String::new()
}

impl ChatModel {
    /// The client as it starts: on the login screen, disconnected, asking to
    /// connect to the server.
    pub fn new() -> (r: (ChatModel, Vec<Command>))
        ensures
            r.0.server_addr@ == "127.0.0.1:8080"@,
            r.0.status@ == "Disconnected"@,
            r.0.screen == Screen::Login,
            r.0.user_id is None,
            r.0.key@ == seq![0u8; 32],
            r.0.messages@.len() == 0,
            r.0.users@.len() == 0,
            r.0.groups@.len() == 0,
            r.0.current_chat is None,
            r.0.username@.len() == 0 && r.0.public_key@.len() == 0 && r.0.receiver_username@.len()
                == 0 && r.0.group_name@.len() == 0 && r.0.group_members@.len() == 0
                && r.0.group_id@.len() == 0 && r.0.message_input@.len() == 0
                && r.0.file_path@.len() == 0 && r.0.add_user_input@.len() == 0
                && r.0.remove_user_input@.len() == 0,
            r.1@ == seq![Command::Follow(Event::Connect)],
    {
        let model = ChatModel {
            server_addr: String::from_str("127.0.0.1:8080"),
            username: String::new(),
            public_key: String::new(),
            receiver_username: String::new(),
            group_name: String::new(),
            group_members: String::new(),
            group_id: String::new(),
            message_input: String::new(),
            file_path: String::new(),
            messages: Vec::new(),
            status: String::from_str("Disconnected"),
            user_id: None,
            key: [0u8; 32],
            screen: Screen::Login,
            users: Vec::new(),
            groups: Vec::new(),
            current_chat: None,
            add_user_input: String::new(),
            remove_user_input: String::new(),
            crypto: Crypto::new(),
        };
        assert(model.key@ == seq![0u8; 32]);
        (model, one_command(Command::Follow(Event::Connect)))
    }

    fn say(&mut self, text: &str) -> (r: Vec<Command>)
        ensures
            refused_locally(*old(self), *final(self), r@, text@),
    {
        self.status = String::from_str(text);
        no_commands()
    }

    fn say_encryption_failure(&mut self, e: CryptoError) -> (r: Vec<Command>)
        ensures
            refused_locally(*old(self), *final(self), r@, encryption_status(e)),
    {
        let t = e.text();
        self.status = join2("Error: ", t.as_str());
        no_commands()
    }

    fn send_credentials(&mut self, registering: bool) -> (r: Vec<Command>)
        ensures
            credentials_sent(
                *old(self),
                *final(self),
                r@,
                if registering {
                    Request::Register {
                        username: old(self).username,
                        public_key: old(self).public_key,
                    }
                } else {
                    Request::Login { username: old(self).username, public_key: old(self).public_key }
                },
                if registering {
                    "Register sent"@
                } else {
                    "Login sent"@
                },
            ),
    {
        if self.username.unicode_len() == 0 || self.public_key.unicode_len() == 0 {
            return self.say("Username and public key required");
        }
        if registering {
            one_command(
                send_command(
                    Request::Register {
                        username: self.username.clone(),
                        public_key: self.public_key.clone(),
                    },
                    "Register sent",
                ),
            )
        } else {
            one_command(
                send_command(
                    Request::Login {
                        username: self.username.clone(),
                        public_key: self.public_key.clone(),
                    },
                    "Login sent",
                ),
            )
        }
    }

    fn send_message(&mut self) -> (r: Vec<Command>)
        ensures
            message_sent(*old(self), *final(self), r@),
    {
        if self.user_id.is_none() {
            return self.say("Please login first");
        }
        if self.receiver_username.unicode_len() == 0 || self.message_input.unicode_len() == 0 {
            return self.say("Receiver username and message required");
        }
        let me = self.user_id.unwrap();
        let sealed = seal_text(&self.crypto, &self.key, self.message_input.as_str());
        let ghost outcome = sealed;
        let id = fresh_id();
        let timestamp = now_timestamp();
        let r = self.send_sealed(me, sealed, id, timestamp);
        assert(sealed_message_sent(*old(self), *self, r@, me, outcome, id, timestamp));
        r
    }

    /// Sends the message input, sealed as `sealed`, from `me` to the user
    /// named in the form as the message `id` of time `timestamp`, and clears
    /// the input; where sealing failed, says why.
    pub fn send_sealed(
        &mut self,
        me: u128,
        sealed: Result<String, CryptoError>,
        id: Option<u128>,
        timestamp: Option<i64>,
    ) -> (r: Vec<Command>)
        ensures
            sealed_message_sent(*old(self), *final(self), r@, me, sealed, id, timestamp),
    {
        let content = match sealed {
            Err(e) => return self.say_encryption_failure(e),
            Ok(c) => c,
        };
        let id = match id {
            None => return self.say("Error: Failed to generate identifier"),
            Some(i) => i,
        };
        let timestamp = match timestamp {
            None => return self.say("Error: System clock is before the Unix epoch"),
            Some(t) => t,
        };
        let target = match self.current_chat {
            Some(t) => t,
            None => ChatTarget::User(NIL_ID),
        };
        let request = Request::Send {
            receiver_username: self.receiver_username.clone(),
            message: Message { id, sender_id: me, receiver_id: None, group_id: None, content, timestamp },
        };
        self.message_input = String::new();
        send_then_show(request, "Message sent", target)
    }

    fn create_group(&mut self) -> (r: Vec<Command>)
        ensures
            group_requested(*old(self), *final(self), r@),
    {
        if self.user_id.is_none() {
            return self.say("Please login first");
        }
        if self.group_name.unicode_len() == 0 || self.group_members.unicode_len() == 0 {
            return self.say("Group name and members required");
        }
        let members = split_whitespace(self.group_members.as_str());
        let name = self.group_name.clone();
        self.group_name = String::new();
        self.group_members = String::new();
        one_command(
            send_command(
                Request::CreateGroup { group_name: name, member_usernames: members },
                "Group creation sent",
            ),
        )
    }

    fn send_group_message(&mut self) -> (r: Vec<Command>)
        ensures
            group_message_sent(*old(self), *final(self), r@),
    {
        if self.user_id.is_none() {
            return self.say("Please login first");
        }
        if self.group_id.unicode_len() == 0 || self.message_input.unicode_len() == 0 {
            return self.say("Group ID and message required");
        }
        let gid = match parse_id(self.group_id.as_str()) {
            Some(g) => g,
            None => return self.say("Invalid group ID"),
        };
        let me = self.user_id.unwrap();
        let sealed = seal_text(&self.crypto, &self.key, self.message_input.as_str());
        let ghost outcome = sealed;
        let id = fresh_id();
        let timestamp = now_timestamp();
        let r = self.send_sealed_to_group(me, gid, sealed, id, timestamp);
        assert(sealed_group_message_sent(*old(self), *self, r@, me, gid, outcome, id, timestamp));
        r
    }

    /// Sends the message input, sealed as `sealed`, from `me` to the group
    /// `gid` as the message `id` of time `timestamp`, and clears the input;
    /// where sealing failed, says why.
    pub fn send_sealed_to_group(
        &mut self,
        me: u128,
        gid: u128,
        sealed: Result<String, CryptoError>,
        id: Option<u128>,
        timestamp: Option<i64>,
    ) -> (r: Vec<Command>)
        ensures
            sealed_group_message_sent(*old(self), *final(self), r@, me, gid, sealed, id, timestamp),
    {
        let content = match sealed {
            Err(e) => return self.say_encryption_failure(e),
            Ok(c) => c,
        };
        let id = match id {
            None => return self.say("Error: Failed to generate identifier"),
            Some(i) => i,
        };
        let timestamp = match timestamp {
            None => return self.say("Error: System clock is before the Unix epoch"),
            Some(t) => t,
        };
        let request = Request::SendToGroup {
            group_id: gid,
            message: Message {
                id,
                sender_id: me,
                receiver_id: None,
                group_id: Some(gid),
                content,
                timestamp,
            },
        };
        self.message_input = String::new();
        send_then_show(request, "Group message sent", ChatTarget::Group(gid))
    }

    fn request_file(&mut self, to_group: bool) -> (r: Vec<Command>)
        ensures
            file_requested(*old(self), *final(self), r@, to_group),
    {
        if self.user_id.is_none() {
            return self.say("Please login first");
        }
        if !to_group {
            if self.receiver_username.unicode_len() == 0 || self.file_path.unicode_len() == 0 {
                return self.say("Receiver username and file path required");
            }
            one_command(
                Command::ReadFile { path: normalize_path(self.file_path.as_str()), group: None },
            )
        } else {
            if self.group_id.unicode_len() == 0 || self.file_path.unicode_len() == 0 {
                return self.say("Group ID and file path required");
            }
            match parse_id(self.group_id.as_str()) {
                Some(gid) => one_command(
                    Command::ReadFile {
                        path: normalize_path(self.file_path.as_str()),
                        group: Some(gid),
                    },
                ),
                None => self.say("Invalid group ID"),
            }
        }
    }

    fn send_file(&mut self, path: String, group: Option<u128>, contents: Result<Vec<u8>, String>) -> (r: Vec<Command>)
        ensures
            file_sent(*old(self), *final(self), r@, path, group, contents),
    {
        if self.user_id.is_none() {
            return self.say("Please login first");
        }
        let data = match contents {
            Ok(d) => d,
            Err(e) => {
                self.status = join2("Failed to read file: ", e.as_str());
                return no_commands();
            },
        };
        let me = self.user_id.unwrap();
        let sealed = seal_bytes(&self.crypto, &self.key, data.as_slice());
        let ghost outcome = sealed;
        let filename = match file_name(path.as_str()) {
            Some(name) => name,
            None => String::from_str("unknown"),
        };
        let ghost name = filename;
        let id = fresh_id();
        let timestamp = now_timestamp();
        let r = self.send_sealed_file(me, group, filename, sealed, id, timestamp);
        assert(sealed_file_sent(*old(self), *self, r@, me, group, name, outcome, id, timestamp));
        r
    }

    /// Sends a file's contents, sealed as `sealed`, from `me` under the name
    /// `filename` as the file `id` of time `timestamp`: to the user named in
    /// the form where `group` is `None`, else to that group; and clears the
    /// path. Where sealing failed, says why.
    pub fn send_sealed_file(
        &mut self,
        me: u128,
        group: Option<u128>,
        filename: String,
        sealed: Result<String, CryptoError>,
        id: Option<u128>,
        timestamp: Option<i64>,
    ) -> (r: Vec<Command>)
        ensures
            sealed_file_sent(*old(self), *final(self), r@, me, group, filename, sealed, id, timestamp),
    {
        let data = match sealed {
            Err(e) => return self.say_encryption_failure(e),
            Ok(d) => d,
        };
        let id = match id {
            None => return self.say("Error: Failed to generate identifier"),
            Some(i) => i,
        };
        let timestamp = match timestamp {
            None => return self.say("Error: System clock is before the Unix epoch"),
            Some(t) => t,
        };
        let r = match group {
            None => {
                let target = match self.current_chat {
                    Some(t) => t,
                    None => ChatTarget::User(NIL_ID),
                };
                let request = Request::SendFile {
                    receiver_username: self.receiver_username.clone(),
                    file: File {
                        id,
                        sender_id: me,
                        receiver_id: None,
                        group_id: None,
                        filename,
                        data,
                        timestamp,
                    },
                };
                send_then_show(request, "File sent", target)
            },
            Some(gid) => {
                let request = Request::SendFileToGroup {
                    group_id: gid,
                    file: File {
                        id,
                        sender_id: me,
                        receiver_id: None,
                        group_id: Some(gid),
                        filename,
                        data,
                        timestamp,
                    },
                };
                send_then_show(request, "File sent to group", ChatTarget::Group(gid))
            },
        };
        self.file_path = String::new();
        r
    }

    fn request_membership(&mut self, adding: bool) -> (r: Vec<Command>)
        ensures
            membership_requested(*old(self), *final(self), r@, adding),
    {
        if self.user_id.is_none() {
            return self.say("Please login first");
        }
        let empty_input = if adding {
            self.add_user_input.unicode_len() == 0
        } else {
            self.remove_user_input.unicode_len() == 0
        };
        if self.group_id.unicode_len() == 0 || empty_input {
            return self.say("Group ID and username required");
        }
        let gid = match parse_id(self.group_id.as_str()) {
            Some(g) => g,
            None => return self.say("Invalid group ID"),
        };
        if adding {
            let username = self.add_user_input.clone();
            self.add_user_input = String::new();
            one_command(
                send_command(
                    Request::AddUserToGroup { group_id: gid, username },
                    "Add user request sent",
                ),
            )
        } else {
            let username = self.remove_user_input.clone();
            self.remove_user_input = String::new();
            one_command(
                send_command(
                    Request::RemoveUserFromGroup { group_id: gid, username },
                    "Remove user request sent",
                ),
            )
        }
    }

    fn request_deletion(&mut self) -> (r: Vec<Command>)
        ensures
            deletion_requested(*old(self), *final(self), r@),
    {
        if self.user_id.is_none() {
            return self.say("Please login first");
        }
        if self.group_id.unicode_len() == 0 {
            return self.say("Group ID required");
        }
        match parse_id(self.group_id.as_str()) {
            Some(gid) => {
                let mut r: Vec<Command> = Vec::new();
                r.push(send_command(Request::DeleteGroup { group_id: gid }, "Delete group request sent"));
                r.push(Command::Follow(Event::BackToMain));
                r
            },
            None => self.say("Invalid group ID"),
        }
    }

    fn select_chat(&mut self, target: ChatTarget) -> (r: Vec<Command>)
        ensures
            chat_selected(*old(self), *final(self), r@, target),
    {
        self.current_chat = Some(target);
        match target {
            ChatTarget::User(uid) => {
                self.receiver_username = find_user_name(&self.users, uid);
                self.screen = Screen::Chat;
            },
            ChatTarget::Group(gid) => {
                self.receiver_username = String::new();
                self.group_id = id_text(gid);
                self.screen = Screen::GroupChat;
            },
        }
        let mut r: Vec<Command> = Vec::new();
        r.push(send_command(Request::FetchMessages { target }, "Fetching messages"));
        r.push(Command::ScrollToEnd);
        r
    }

    fn back_to_main(&mut self) -> (r: Vec<Command>)
        ensures
            back_to_main(*old(self), *final(self), r@),
    {
        self.screen = Screen::Main;
        self.current_chat = None;
        self.messages = Vec::new();
        self.receiver_username = String::new();
        self.group_id = String::new();
        self.add_user_input = String::new();
        self.remove_user_input = String::new();
        no_commands()
    }

    fn logout(&mut self) -> (r: Vec<Command>)
        ensures
            logged_out(*old(self), *final(self), r@),
    {
        self.user_id = None;
        self.username = String::new();
        self.public_key = String::new();
        self.receiver_username = String::new();
        self.group_name = String::new();
        self.group_members = String::new();
        self.group_id = String::new();
        self.message_input = String::new();
        self.file_path = String::new();
        self.messages = Vec::new();
        self.users = Vec::new();
        self.groups = Vec::new();
        self.current_chat = None;
        self.add_user_input = String::new();
        self.remove_user_input = String::new();
        self.screen = Screen::Login;
        self.status = String::from_str("Logged out");
        no_commands()
    }
}


/// The text shown for a received file, once written to `path`.
pub fn download_text(file: &File, path: &str) -> (r: String)
    ensures
        r@ == download_note(*file, path@),
{
    let mut r = String::from_str("[");
    let when = rfc3339(file.timestamp);
    r.append(when.as_str());
    r.append("] ");
    match file.group_id {
        Some(g) => {
            r.append("from group ");
            let t = id_text(g);
            r.append(t.as_str());
        },
        None => {
            r.append("from sender_id: ");
            let s = id_text(file.sender_id);
            r.append(s.as_str());
            r.append(" to receiver_id: ");
            match file.receiver_id {
                Some(rid) => {
                    let t = id_text(rid);
                    r.append(t.as_str());
                },
                None => {
                    r.append("unknown");
                },
            }
        },
    }
    r.append(": File ");
    r.append(file.filename.as_str());
    r.append(" saved as ");
    r.append(path);
    r
}

impl ChatModel {
    fn say_unreadable(&mut self, u: Unsealing) -> (r: Vec<Command>)
        ensures
            *final(self) == (ChatModel { status: final(self).status, ..*old(self) }),
            r@.len() == 0,
            match u {
                Unsealing::Base64(e) => final(self).status@ == "Base64 decode error: "@ + e@,
                Unsealing::Decryption(e) => final(self).status@ == "Decryption error: "@
                    + e.spec_text(),
            },
    {
        self.status = u.text();
        no_commands()
    }

    fn receive_message(&mut self, m: Message) -> (r: Vec<Command>)
        ensures
            response_handled(*old(self), *final(self), r@, Response::Message(m)),
    {
        match open_text(&self.crypto, &self.key, m.content.as_str()) {
            Ok(t) => {
                let shown = Message { content: t, ..m };
                self.messages.push(shown);
                assert(self.messages@.drop_last() == old(self).messages@);
                one_command(Command::ScrollToEnd)
            },
            Err(u) => {
                self.say_unreadable(u)
            },
        }
    }

    fn receive_file(&mut self, f: File) -> (r: Vec<Command>)
        ensures
            response_handled(*old(self), *final(self), r@, Response::File(f)),
    {
        match open_bytes(&self.crypto, &self.key, f.data.as_str()) {
            Ok(contents) => {
                let path = join3("chat_downloads", "/received_", f.filename.as_str());
                one_command(Command::SaveDownload { file: f, path, contents })
            },
            Err(u) => {
                self.say_unreadable(u)
            },
        }
    }

    fn receive_history(&mut self, ms: Vec<Message>) -> (r: Vec<Command>)
        ensures
            response_handled(*old(self), *final(self), r@, Response::Messages(ms)),
    {
        let mut out: Vec<Message> = Vec::new();
        let mut i: usize = 0;
        while i < ms.len()
            invariant
                i <= ms@.len(),
                revealed(self.key@, ms@.take(i as int), out@),
            decreases ms@.len() - i,
        {
            let m = ms[i].clone();
            let shown = match open_text(&self.crypto, &self.key, m.content.as_str()) {
                Ok(t) => Message { content: t, ..m },
                Err(_) => m,
            };
            out.push(shown);
            i = i + 1;
            assert(revealed(self.key@, ms@.take(i as int), out@)) by {
                assert forall|k: int| 0 <= k < ms@.take(i as int).len() implies #[trigger] out@[k]
                    == Message { content: out@[k].content, ..ms@.take(i as int)[k] } && out@[k].content@
                    == match opened_text(self.key@, ms@.take(i as int)[k].content@) {
                    Some(t) => t,
                    None => ms@.take(i as int)[k].content@,
                } by {
                    if k < i - 1 {
                        assert(ms@.take(i as int)[k] == ms@.take(i - 1)[k]);
                    }
                }
            }
        }
        assert(ms@.take(ms@.len() as int) == ms@);
        self.messages = out;
        one_command(Command::ScrollToEnd)
    }

    fn receive(&mut self, response: Response) -> (r: Vec<Command>)
        ensures
            response_handled(*old(self), *final(self), r@, response),
    {
        match response {
            Response::Prompt(text) => {
                let refresh = contains_text(text.as_str(), "Added to group") || contains_text(
                    text.as_str(),
                    "Group deleted",
                );
                self.status = text;
                if refresh {
                    one_command(Command::Follow(Event::FetchGroups))
                } else {
                    no_commands()
                }
            },
            Response::Success { message, data } => {
                self.status = join2("Success: ", message.as_str());
                match data {
                    None => no_commands(),
                    Some(SuccessData::Login { user_id }) => {
                        self.user_id = Some(user_id);
                        self.screen = Screen::Main;
                        let mut r: Vec<Command> = Vec::new();
                        r.push(Command::Follow(Event::FetchUsers));
                        r.push(Command::Follow(Event::FetchGroups));
                        assert(r@ =~= seq![
                            Command::Follow(Event::FetchUsers),
                            Command::Follow(Event::FetchGroups),
                        ]);
                        r
                    },
                    Some(SuccessData::GroupCreated { group_id }) => {
                        let g = id_text(group_id);
                        let mut s = join2("Success: ", message.as_str());
                        s.append(" (group_id: ");
                        s.append(g.as_str());
                        s.append(")");
                        self.status = s;
                        one_command(Command::Follow(Event::FetchGroups))
                    },
                }
            },
            Response::Error(text) => {
                self.status = join2("Error: ", text.as_str());
                no_commands()
            },
            Response::Message(m) => self.receive_message(m),
            Response::File(f) => self.receive_file(f),
            Response::Users(us) => {
                self.users = us;
                no_commands()
            },
            Response::Groups(gs) => {
                self.groups = gs;
                no_commands()
            },
            Response::Messages(ms) => self.receive_history(ms),
        }
    }

    fn record_download(&mut self, file: File, path: String, outcome: Result<(), DownloadFailure>) -> (r: Vec<Command>)
        ensures
            download_recorded(*old(self), *final(self), r@, file, path, outcome),
    {
        match outcome {
            Err(DownloadFailure::Directory(e)) => {
                self.status = join2("Failed to create directory chat_downloads: ", e.as_str());
                no_commands()
            },
            Err(DownloadFailure::Write(e)) => {
                let mut s = join2("Failed to save file to ", path.as_str());
                s.append(": ");
                s.append(e.as_str());
                self.status = s;
                no_commands()
            },
            Ok(_) => {
                let id = fresh_id();
                let ghost (f, p) = (file, path);
                let r = self.record_note(file, path, id);
                assert(note_recorded(*old(self), *self, r@, f, p, id));
                r
            },
        }
    }

    /// Adds the note about the received `file`, written to `path`, to the
    /// conversation as the message `id`; where no identifier was drawn, says so.
    pub fn record_note(&mut self, file: File, path: String, id: Option<u128>) -> (r: Vec<Command>)
        ensures
            note_recorded(*old(self), *final(self), r@, file, path, id),
    {
        let id = match id {
            None => return self.say("Error: Failed to generate identifier"),
            Some(i) => i,
        };
        let content = download_text(&file, path.as_str());
        let note = Message {
            id,
            sender_id: file.sender_id,
            receiver_id: file.receiver_id,
            group_id: file.group_id,
            content,
            timestamp: file.timestamp,
        };
        self.messages.push(note);
        assert(self.messages@.drop_last() == old(self).messages@);
        one_command(Command::ScrollToEnd)
    }

    /// Changes the model for `event` and returns what the caller must do.
    pub fn update(&mut self, event: Event) -> (r: Vec<Command>)
        ensures
            updated(*old(self), *final(self), event, r@),
    {
        match event {
            Event::UsernameChanged(s) => {
                self.username = s;
                no_commands()
            },
            Event::PublicKeyChanged(s) => {
                self.public_key = s;
                no_commands()
            },
            Event::ReceiverUsernameChanged(s) => {
                self.receiver_username = s;
                no_commands()
            },
            Event::GroupNameChanged(s) => {
                self.group_name = s;
                no_commands()
            },
            Event::GroupMembersChanged(s) => {
                self.group_members = s;
                no_commands()
            },
            Event::GroupIdChanged(s) => {
                self.group_id = s;
                no_commands()
            },
            Event::MessageInputChanged(s) => {
                self.message_input = s;
                no_commands()
            },
            Event::FilePathChanged(s) => {
                self.file_path = s;
                no_commands()
            },
            Event::AddUserInputChanged(s) => {
                self.add_user_input = s;
                no_commands()
            },
            Event::RemoveUserInputChanged(s) => {
                self.remove_user_input = s;
                no_commands()
            },
            Event::Register => self.send_credentials(true),
            Event::Login => self.send_credentials(false),
            Event::SendMessage => self.send_message(),
            Event::CreateGroup => self.create_group(),
            Event::SendGroupMessage => self.send_group_message(),
            Event::SendFile => self.request_file(false),
            Event::SendFileToGroup => self.request_file(true),
            Event::AddUserToGroup => self.request_membership(true),
            Event::RemoveUserFromGroup => self.request_membership(false),
            Event::DeleteGroup => self.request_deletion(),
            Event::ServerResponse(response) => self.receive(response),
            Event::Connect => one_command(Command::Connect(self.server_addr.clone())),
            Event::Error(text) => {
                self.status = join2("Error: ", text.as_str());
                no_commands()
            },
            Event::FetchUsers => one_command(send_command(Request::FetchUsers, "Fetching users")),
            Event::FetchGroups => one_command(send_command(Request::FetchGroups, "Fetching groups")),
            Event::SelectChat(target) => self.select_chat(target),
            Event::BackToMain => self.back_to_main(),
            Event::Logout => self.logout(),
            Event::FileRead { path, group, contents } => self.send_file(path, group, contents),
            Event::DownloadSaved { file, path, outcome } => self.record_download(file, path, outcome),
        }
    }
}

} // verus!

verus! {

/// The event is an action that needs a login.
pub open spec fn needs_login(event: Event) -> bool {
    event is SendMessage || event is CreateGroup || event is SendGroupMessage || event is SendFile
        || event is SendFileToGroup || event is AddUserToGroup || event is RemoveUserFromGroup
        || event is DeleteGroup || event is FileRead
}

/// While the client is not logged in, every action that needs a login is
/// refused with `Please login first`, and nothing but the status changes.
pub proof fn law_actions_need_login(m0: ChatModel, m1: ChatModel, event: Event, r: Seq<Command>)
    requires
        m0.user_id is None,
        needs_login(event),
        updated(m0, m1, event, r),
    ensures
        refused_locally(m0, m1, r, "Please login first"@),
{
}

/// What one client sends as a message, another client holding the same key
/// shows as the text that was typed, once the message reaches it.
pub proof fn law_sent_text_is_shown(
    sender0: ChatModel,
    sender1: ChatModel,
    sent: Seq<Command>,
    receiver0: ChatModel,
    receiver1: ChatModel,
    shown: Seq<Command>,
    delivered: Message,
)
    requires
        message_sent(sender0, sender1, sent),
        sent.len() > 0,
        sent[0] matches Command::Send { request: Request::Send { message, .. }, .. }
            && message.content == delivered.content,
        receiver0.key@ == sender0.key@,
        updated(receiver0, receiver1, Event::ServerResponse(Response::Message(delivered)), shown),
    ensures
        receiver1.messages@.last().content@ == sender0.message_input@,
        receiver1.messages@.drop_last() == receiver0.messages@,
{
    let (sealed, id, timestamp) = choose|
        sealed: Result<String, CryptoError>,
        id: Option<u128>,
        timestamp: Option<i64>,
    |
        sealing_outcome(sender0.key@, encode_utf8(sender0.message_input@), sealed) && id_outcome(id)
            && clock_outcome(timestamp) && #[trigger] sealed_message_sent(
            sender0,
            sender1,
            sent,
            sender0.user_id->0,
            sealed,
            id,
            timestamp,
        );
    assert(all_drawn(sealed, id, timestamp));
    assert(seals(receiver0.key@, delivered.content@, encode_utf8(sender0.message_input@)));
}


/// A message that SendMessage sends is the logged-in user's, addressed to
/// the user named in the form and to no group, stamped with the time the
/// clock read, with the typed input sealed under the client's key as its
/// body; the input is then cleared.
pub proof fn law_direct_message_is_the_users(m0: ChatModel, m1: ChatModel, r: Seq<Command>)
    requires
        updated(m0, m1, Event::SendMessage, r),
        r.len() > 0,
    ensures
        m0.user_id is Some,
        m1.message_input@.len() == 0,
        r[0] matches Command::Send { request: Request::Send { receiver_username, message }, .. }
            && receiver_username == m0.receiver_username && message.sender_id == m0.user_id->0
            && message.receiver_id is None && message.group_id is None && clock_reading(
            message.timestamp,
        ) && seals(m0.key@, message.content@, encode_utf8(m0.message_input@)),
{
    let (sealed, id, timestamp) = choose|
        sealed: Result<String, CryptoError>,
        id: Option<u128>,
        timestamp: Option<i64>,
    |
        sealing_outcome(m0.key@, encode_utf8(m0.message_input@), sealed) && id_outcome(id)
            && clock_outcome(timestamp) && #[trigger] sealed_message_sent(
            m0,
            m1,
            r,
            m0.user_id->0,
            sealed,
            id,
            timestamp,
        );
    assert(all_drawn(sealed, id, timestamp));
}

/// A message that SendGroupMessage sends is the logged-in user's, addressed
/// to the group whose identifier the form holds and to no user, stamped
/// with the time the clock read, with the typed input sealed under the
/// client's key as its body; the input is then cleared.
pub proof fn law_group_message_is_the_users(m0: ChatModel, m1: ChatModel, r: Seq<Command>)
    requires
        updated(m0, m1, Event::SendGroupMessage, r),
        r.len() > 0,
    ensures
        m0.user_id is Some,
        uuid_parse(m0.group_id@) is Some,
        m1.message_input@.len() == 0,
        r[0] matches Command::Send { request: Request::SendToGroup { group_id, message }, .. }
            && group_id == uuid_parse(m0.group_id@)->Some_0 && message.sender_id == m0.user_id->0
            && message.receiver_id is None && message.group_id == Some(group_id) && clock_reading(
            message.timestamp,
        ) && seals(m0.key@, message.content@, encode_utf8(m0.message_input@)),
{
    let gid = uuid_parse(m0.group_id@)->Some_0;
    let (sealed, id, timestamp) = choose|
        sealed: Result<String, CryptoError>,
        id: Option<u128>,
        timestamp: Option<i64>,
    |
        sealing_outcome(m0.key@, encode_utf8(m0.message_input@), sealed) && id_outcome(id)
            && clock_outcome(timestamp) && #[trigger] sealed_group_message_sent(
            m0,
            m1,
            r,
            m0.user_id->0,
            gid,
            sealed,
            id,
            timestamp,
        );
    assert(all_drawn(sealed, id, timestamp));
}

/// A file that is sent once read is the logged-in user's, addressed to the
/// user named in the form or to the group it was read for, stamped with the
/// time the clock read, named as std names the path (for a plain path, its
/// last named segment, else `unknown`), with the contents sealed under the
/// client's key as its data; the path is then cleared.
pub proof fn law_sent_file_is_the_users(
    m0: ChatModel,
    m1: ChatModel,
    r: Seq<Command>,
    path: String,
    group: Option<u128>,
    contents: Result<Vec<u8>, String>,
)
    requires
        updated(m0, m1, Event::FileRead { path, group, contents }, r),
        r.len() > 0,
    ensures
        m0.user_id is Some,
        contents is Ok,
        m1.file_path@.len() == 0,
        r[0] is Send,
        ({
            let file = match r[0]->Send_request {
                Request::SendFile { file, .. } => file,
                Request::SendFileToGroup { file, .. } => file,
                _ => arbitrary(),
            };
            &&& file.sender_id == m0.user_id->0
            &&& file.receiver_id is None
            &&& file.group_id == group
            &&& clock_reading(file.timestamp)
            &&& seals(m0.key@, file.data@, contents->Ok_0@)
            &&& plain_path(path@) ==> file.filename@ == match plain_file_name(path@) {
                Some(n) => n,
                None => "unknown"@,
            }
        }),
        group is None ==> (r[0]->Send_request matches Request::SendFile { receiver_username, .. }
            && receiver_username == m0.receiver_username),
        group matches Some(gid) ==> (r[0]->Send_request matches Request::SendFileToGroup {
            group_id,
            ..
        } && group_id == gid),
{
    let data = contents->Ok_0;
    let (sealed, filename, id, timestamp) = choose|
        sealed: Result<String, CryptoError>,
        filename: String,
        id: Option<u128>,
        timestamp: Option<i64>,
    |
        sealing_outcome(m0.key@, data@, sealed) && sent_file_name(path@, filename@) && id_outcome(
            id,
        ) && clock_outcome(timestamp) && #[trigger] sealed_file_sent(
            m0,
            m1,
            r,
            m0.user_id->0,
            group,
            filename,
            sealed,
            id,
            timestamp,
        );
    assert(all_drawn(sealed, id, timestamp));
}

} // verus!
