//! The records as the database holds them: identifiers as UUID text.

use crate::ids::{id_text, parse_id, uuid_parse, uuid_text};
use crate::models::{File, Group, Message, User};
use vstd::prelude::*;

verus! {

/// A row of the `users` table.
#[derive(Debug, PartialEq, Eq)]
pub struct UserRow {
    pub id: String,
    pub username: String,
    pub public_key: String,
}

/// A row of the `messages` table.
#[derive(Debug, PartialEq, Eq)]
pub struct MessageRow {
    pub id: String,
    pub sender_id: String,
    pub receiver_id: Option<String>,
    pub group_id: Option<String>,
    pub content: String,
    pub timestamp: i64,
}

/// A row of the `files` table.
#[derive(Debug, PartialEq, Eq)]
pub struct FileRow {
    pub id: String,
    pub sender_id: String,
    pub receiver_id: Option<String>,
    pub group_id: Option<String>,
    pub filename: String,
    pub data: String,
    pub timestamp: i64,
}

/// A group as the `groups` and `group_members` tables hold it.
#[derive(Debug, PartialEq, Eq)]
pub struct GroupRows {
    pub id: String,
    pub name: String,
    pub members: Vec<String>,
}

/// The text column of an optional identifier.
pub open spec fn id_column(id: Option<u128>) -> Option<Seq<char>> {
    match id {
        Some(x) => Some(uuid_text(x)),
        None => None,
    }
}

/// The view of an optional text column.
pub open spec fn text_column(text: Option<String>) -> Option<Seq<char>> {
    match text {
        Some(t) => Some(t@),
        None => None,
    }
}

/// What reading an optional identifier column gives: `None` inside when a
/// present text does not read as an identifier.
pub open spec fn read_id_column(text: Option<String>) -> Option<Option<u128>> {
    match text {
        None => Some(None),
        Some(t) => match uuid_parse(t@) {
            Some(x) => Some(Some(x)),
            None => None,
        },
    }
}

fn write_id_column(id: Option<u128>) -> (r: Option<String>)
    ensures
        text_column(r) == id_column(id),
{
    match id {
        Some(x) => Some(id_text(x)),
        None => None,
    }
}

fn parse_id_column(text: &Option<String>) -> (r: Option<Option<u128>>)
    ensures
        r == read_id_column(*text),
        forall|id: Option<u128>| id_column(id) == text_column(*text) ==> r == Some(id),
{
    match text {
        None => Some(None),
        Some(t) => match parse_id(t.as_str()) {
            Some(x) => Some(Some(x)),
            None => None,
        },
    }
}

/// The row that stores `user`.
pub fn user_row(user: &User) -> (r: UserRow)
    ensures
        r.id@ == uuid_text(user.id),
        r.username == user.username,
        r.public_key == user.public_key,
{
    UserRow { id: id_text(user.id), username: user.username.clone(), public_key: user.public_key.clone() }
}

/// The user that a row holds; `None` when its identifier does not read.
/// A row written by [`user_row`] reads back as the user it stores.
pub fn user_from_row(row: UserRow) -> (r: Option<User>)
    ensures
        r == match uuid_parse(row.id@) {
            Some(id) => Some(User { id, username: row.username, public_key: row.public_key }),
            None => None,
        },
        forall|id: u128|
            uuid_text(id) == row.id@ ==> r == Some(
                User { id, username: row.username, public_key: row.public_key },
            ),
{
    match parse_id(row.id.as_str()) {
        Some(id) => Some(User { id, username: row.username, public_key: row.public_key }),
        None => None,
    }
}

/// The row that stores `message`.
pub fn message_row(message: &Message) -> (r: MessageRow)
    ensures
        r.id@ == uuid_text(message.id),
        r.sender_id@ == uuid_text(message.sender_id),
        text_column(r.receiver_id) == id_column(message.receiver_id),
        text_column(r.group_id) == id_column(message.group_id),
        r.content == message.content,
        r.timestamp == message.timestamp,
{
    MessageRow {
        id: id_text(message.id),
        sender_id: id_text(message.sender_id),
        receiver_id: write_id_column(message.receiver_id),
        group_id: write_id_column(message.group_id),
        content: message.content.clone(),
        timestamp: message.timestamp,
    }
}

/// The message that a row holds; `None` when one of its identifiers does
/// not read. A row written by [`message_row`] reads back as the message it
/// stores.
pub fn message_from_row(row: MessageRow) -> (r: Option<Message>)
    ensures
        r == match (
            uuid_parse(row.id@),
            uuid_parse(row.sender_id@),
            read_id_column(row.receiver_id),
            read_id_column(row.group_id),
        ) {
            (Some(id), Some(sender_id), Some(receiver_id), Some(group_id)) => Some(
                Message {
                    id,
                    sender_id,
                    receiver_id,
                    group_id,
                    content: row.content,
                    timestamp: row.timestamp,
                },
            ),
            _ => None,
        },
        forall|m: Message|
            uuid_text(m.id) == row.id@ && uuid_text(m.sender_id) == row.sender_id@ && id_column(
                m.receiver_id,
            ) == text_column(row.receiver_id) && id_column(m.group_id) == text_column(row.group_id)
                && m.content == row.content && m.timestamp == row.timestamp ==> r == Some(m),
{
    let id = parse_id(row.id.as_str());
    let sender_id = parse_id(row.sender_id.as_str());
    let receiver_id = parse_id_column(&row.receiver_id);
    let group_id = parse_id_column(&row.group_id);
    match (id, sender_id, receiver_id, group_id) {
        (Some(id), Some(sender_id), Some(receiver_id), Some(group_id)) => Some(
            Message {
                id,
                sender_id,
                receiver_id,
                group_id,
                content: row.content,
                timestamp: row.timestamp,
            },
        ),
        _ => None,
    }
}

/// The row that stores `file`.
pub fn file_row(file: &File) -> (r: FileRow)
    ensures
        r.id@ == uuid_text(file.id),
        r.sender_id@ == uuid_text(file.sender_id),
        text_column(r.receiver_id) == id_column(file.receiver_id),
        text_column(r.group_id) == id_column(file.group_id),
        r.filename == file.filename,
        r.data == file.data,
        r.timestamp == file.timestamp,
{
    FileRow {
        id: id_text(file.id),
        sender_id: id_text(file.sender_id),
        receiver_id: write_id_column(file.receiver_id),
        group_id: write_id_column(file.group_id),
        filename: file.filename.clone(),
        data: file.data.clone(),
        timestamp: file.timestamp,
    }
}

/// The rows that store `group`: its identifier and name, and one member
/// row per member, in order.
pub fn group_rows(group: &Group) -> (r: GroupRows)
    ensures
        r.id@ == uuid_text(group.id),
        r.name == group.name,
        r.members@.len() == group.members@.len(),
        forall|i: int| 0 <= i < r.members@.len() ==> #[trigger] r.members@[i]@ == uuid_text(group.members@[i]),
{
    let mut members: Vec<String> = Vec::new();
    let mut i: usize = 0;
    while i < group.members.len()
        invariant
            i <= group.members@.len(),
            members@.len() == i,
            forall|k: int| 0 <= k < i ==> #[trigger] members@[k]@ == uuid_text(group.members@[k]),
        decreases group.members@.len() - i,
    {
        members.push(id_text(group.members[i]));
        i = i + 1;
    }
    GroupRows { id: id_text(group.id), name: group.name.clone(), members }
}

/// The group that its rows hold; `None` when an identifier does not read.
/// Rows written by [`group_rows`] read back as the group they store.
pub fn group_from_rows(rows: GroupRows) -> (r: Option<Group>)
    ensures
        r matches Some(g) ==> Some(g.id) == uuid_parse(rows.id@) && g.name == rows.name
            && g.members@.len() == rows.members@.len() && forall|i: int|
            0 <= i < g.members@.len() ==> Some(#[trigger] g.members@[i]) == uuid_parse(
                rows.members@[i]@,
            ),
        r is None ==> uuid_parse(rows.id@) is None || exists|i: int|
            0 <= i < rows.members@.len() && uuid_parse(#[trigger] rows.members@[i]@) is None,
        forall|g: Group|
            uuid_text(g.id) == rows.id@ && g.name == rows.name && g.members@.len()
                == rows.members@.len() && (forall|i: int|
                0 <= i < g.members@.len() ==> uuid_text(#[trigger] g.members@[i]) == rows.members@[i]@)
                ==> (r matches Some(h) && h.id == g.id && h.name == g.name && h.members@
                == g.members@),
{
    let id = match parse_id(rows.id.as_str()) {
        Some(x) => x,
        None => return None,
    };
    let mut members: Vec<u128> = Vec::new();
    let mut i: usize = 0;
    while i < rows.members.len()
        invariant
            i <= rows.members@.len(),
            members@.len() == i,
            forall|k: int| 0 <= k < i ==> Some(#[trigger] members@[k]) == uuid_parse(rows.members@[k]@),
            forall|k: int|
                0 <= k < i ==> forall|x: u128|
                    uuid_text(x) == rows.members@[k]@ ==> #[trigger] members@[k] == x,
        decreases rows.members@.len() - i,
    {
        match parse_id(rows.members[i].as_str()) {
            Some(x) => members.push(x),
            None => {
                assert(uuid_parse(rows.members@[i as int]@) is None);
                assert forall|g: Group|
                    uuid_text(g.id) == rows.id@ && g.name == rows.name && g.members@.len()
                        == rows.members@.len() && (forall|k: int|
                        0 <= k < g.members@.len() ==> uuid_text(#[trigger] g.members@[k])
                            == rows.members@[k]@) implies false by {
                    assert(uuid_text(g.members@[i as int]) == rows.members@[i as int]@);
                }
                return None;
            },
        }
        i = i + 1;
    }
    let r = Group { id, name: rows.name, members };
    proof {
        assert forall|g: Group|
            uuid_text(g.id) == rows.id@ && g.name == rows.name && g.members@.len()
                == rows.members@.len() && (forall|i: int|
                0 <= i < g.members@.len() ==> uuid_text(#[trigger] g.members@[i]) == rows.members@[i]@)
                implies r.id == g.id && r.name == g.name && r.members@ == g.members@ by {
            assert forall|k: int| 0 <= k < g.members@.len() implies r.members@[k] == g.members@[k] by {
                assert(uuid_text(g.members@[k]) == rows.members@[k]@);
            }
            assert(r.members@ =~= g.members@);
        }
    }
    Some(r)
}

} // verus!
