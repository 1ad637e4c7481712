//! What the client's screens show, apart from how they draw it.

use crate::ids::{parse_id, uuid_parse, NIL_ID};
use crate::models::{Group, Message, User};
use vstd::prelude::*;

verus! {

/// The users listed on the main screen: all but the logged-in user, in order.
pub open spec fn listed(users: Seq<User>, me: Option<u128>) -> Seq<User>
    decreases users.len(),
{
    if users.len() == 0 {
        seq![]
    } else {
        let rest = listed(users.drop_last(), me);
        if me == Some(users.last().id) {
            rest
        } else {
            rest.push(users.last())
        }
    }
}

/// The users to list on the main screen: all but the logged-in user `me`.
pub fn listed_users(users: &Vec<User>, me: Option<u128>) -> (r: Vec<User>)
    ensures
        r@ == listed(users@, me),
{
    let mut r: Vec<User> = Vec::new();
    let mut i: usize = 0;
    while i < users.len()
        invariant
            i <= users@.len(),
            r@ == listed(users@.take(i as int), me),
        decreases users@.len() - i,
    {
        assert(users@.take(i + 1).drop_last() == users@.take(i as int));
        let is_me = match me {
            Some(id) => id == users[i].id,
            None => false,
        };
        if !is_me {
            r.push(users[i].clone());
        }
        i = i + 1;
    }
    assert(users@.take(users@.len() as int) == users@);
    r
}

/// Whether the message was sent by the logged-in user `me`, and so is drawn
/// on the right.
pub fn is_own(me: Option<u128>, message: &Message) -> (r: bool)
    ensures
        r == (me == Some(message.sender_id)),
{
    match me {
        Some(id) => id == message.sender_id,
        None => false,
    }
}

/// The name of the first user in `users` with identifier `id`, if any.
pub open spec fn name_of(users: Seq<User>, id: u128) -> Option<Seq<char>>
    decreases users.len(),
{
    if users.len() == 0 {
        None
    } else if users[0].id == id {
        Some(users[0].username@)
    } else {
        name_of(users.drop_first(), id)
    }
}

/// The name shown beside a group message: its sender's, or `Unknown`.
pub fn sender_name(users: &Vec<User>, message: &Message) -> (r: String)
    ensures
        r@ == match name_of(users@, message.sender_id) {
            Some(name) => name,
            None => "Unknown"@,
        },
{
    let mut i: usize = 0;
    assert(users@.skip(0) == users@);
    while i < users.len()
        invariant
            i <= users@.len(),
            name_of(users@, message.sender_id) == name_of(users@.skip(i as int), message.sender_id),
        decreases users@.len() - i,
    {
        assert(users@.skip(i as int).drop_first() == users@.skip(i + 1));
        if users[i].id == message.sender_id {
            return users[i].username.clone();
        }
        i = i + 1;
    }
    assert(users@.skip(i as int).len() == 0);
    String::from_str("Unknown")
}

/// The name of the first group in `groups` with identifier `id`, if any.
pub open spec fn group_name_of(groups: Seq<Group>, id: u128) -> Option<Seq<char>>
    decreases groups.len(),
{
    if groups.len() == 0 {
        None
    } else if groups[0].id == id {
        Some(groups[0].name@)
    } else {
        group_name_of(groups.drop_first(), id)
    }
}

/// The group whose identifier is typed in the form: the nil group where the
/// text does not read as an identifier.
pub open spec fn typed_group(group_id: Seq<char>) -> u128 {
    match uuid_parse(group_id) {
        Some(x) => x,
        None => NIL_ID,
    }
}

/// The title of the group chat screen: the name of the group whose
/// identifier is typed in the form (the nil group where it does not read),
/// or `Group`.
pub fn group_title(groups: &Vec<Group>, group_id: &str) -> (r: String)
    ensures
        r@ == match group_name_of(groups@, typed_group(group_id@)) {
            Some(name) => name,
            None => "Group"@,
        },
{
    let id = match parse_id(group_id) {
        Some(x) => x,
        None => NIL_ID,
    };
    let mut i: usize = 0;
    assert(groups@.skip(0) == groups@);
    while i < groups.len()
        invariant
            i <= groups@.len(),
            id == typed_group(group_id@),
            group_name_of(groups@, id) == group_name_of(groups@.skip(i as int), id),
        decreases groups@.len() - i,
    {
        assert(groups@.skip(i as int).drop_first() == groups@.skip(i + 1));
        assert(groups@.skip(i as int)[0] == groups@[i as int]);
        if groups[i].id == id {
            let name = groups[i].name.clone();
            assert(group_name_of(groups@.skip(i as int), id) == Some(groups@[i as int].name@));
            assert(name@ == groups@[i as int].name@);
            return name;
        }
        i = i + 1;
    }
    assert(groups@.skip(i as int).len() == 0);
    String::from_str("Group")
}

} // verus!
