//! The records that the chat service stores and exchanges.

use vstd::prelude::*;

verus! {

/// A registered user; `public_key` is the credential that logs the user in.
#[derive(Debug, PartialEq, Eq)]
pub struct User {
    pub id: u128,
    pub username: String,
    pub public_key: String,
}

/// A chat message, addressed to one user (`receiver_id`) or to a group
/// (`group_id`); `content` is the base64 text of the encrypted body.
#[derive(Debug, PartialEq, Eq)]
pub struct Message {
    pub id: u128,
    pub sender_id: u128,
    pub receiver_id: Option<u128>,
    pub group_id: Option<u128>,
    pub content: String,
    pub timestamp: i64,
}

/// A group chat and the users in it.
#[derive(Debug, PartialEq, Eq)]
pub struct Group {
    pub id: u128,
    pub name: String,
    pub members: Vec<u128>,
}

/// A shared file, addressed like a message; `data` is the base64 text of the
/// encrypted contents.
#[derive(Debug, PartialEq, Eq)]
pub struct File {
    pub id: u128,
    pub sender_id: u128,
    pub receiver_id: Option<u128>,
    pub group_id: Option<u128>,
    pub filename: String,
    pub data: String,
    pub timestamp: i64,
}

impl Clone for User {
    fn clone(&self) -> (r: Self)
        ensures
            r == *self,
    {
        User { id: self.id, username: self.username.clone(), public_key: self.public_key.clone() }
    }
}

impl Clone for Message {
    fn clone(&self) -> (r: Self)
        ensures
            r == *self,
    {
        Message {
            id: self.id,
            sender_id: self.sender_id,
            receiver_id: self.receiver_id,
            group_id: self.group_id,
            content: self.content.clone(),
            timestamp: self.timestamp,
        }
    }
}

impl Clone for File {
    fn clone(&self) -> (r: Self)
        ensures
            r == *self,
    {
        File {
            id: self.id,
            sender_id: self.sender_id,
            receiver_id: self.receiver_id,
            group_id: self.group_id,
            filename: self.filename.clone(),
            data: self.data.clone(),
            timestamp: self.timestamp,
        }
    }
}

/// A copy of a list of identifiers.
pub fn copy_ids(ids: &Vec<u128>) -> (r: Vec<u128>)
    ensures
        r@ == ids@,
{
    let mut r: Vec<u128> = Vec::new();
    let mut i: usize = 0;
    while i < ids.len()
        invariant
            i <= ids@.len(),
            r@ == ids@.take(i as int),
        decreases ids@.len() - i,
    {
        r.push(ids[i]);
        i = i + 1;
        assert(r@ == ids@.take(i as int));
    }
    assert(ids@.take(ids@.len() as int) == ids@);
    r
}

/// Whether `id` occurs in `ids`.
pub fn has_id(ids: &Vec<u128>, id: u128) -> (r: bool)
    ensures
        r == ids@.contains(id),
{
    let mut i: usize = 0;
    while i < ids.len()
        invariant
            i <= ids@.len(),
            forall|k: int| 0 <= k < i ==> ids@[k] != id,
        decreases ids@.len() - i,
    {
        if ids[i] == id {
            assert(ids@[i as int] == id);
            return true;
        }
        i = i + 1;
    }
    false
}

impl Clone for Group {
    fn clone(&self) -> (r: Self)
        ensures
            r.id == self.id,
            r.name == self.name,
            r.members@ == self.members@,
    {
        Group { id: self.id, name: self.name.clone(), members: copy_ids(&self.members) }
    }
}

} // verus!
