use chat_application::models::{File, Group, Message, User};
use chat_application::protocol::{ChatTarget, Request, Response, SuccessData};
use chat_application::server::{
    select_recipients, Answer, Effect, Next, Notice, Pending, Problem, Reply, Session, Step, Task,
};

const ALICE: u128 = 1;
const BOB: u128 = 2;
const CAROL: u128 = 3;
const GROUP: u128 = 100;

fn user(id: u128, name: &str, key: &str) -> User {
    User { id, username: name.to_string(), public_key: key.to_string() }
}

fn message(sender: u128) -> Message {
    Message {
        id: 50,
        sender_id: sender,
        receiver_id: None,
        group_id: None,
        content: "c2VjcmV0".to_string(),
        timestamp: 1_700_000_000,
    }
}

fn file(sender: u128) -> File {
    File {
        id: 60,
        sender_id: sender,
        receiver_id: None,
        group_id: None,
        filename: "notes.txt".to_string(),
        data: "ZGF0YQ==".to_string(),
        timestamp: 1_700_000_001,
    }
}

fn logged_in(id: u128) -> Session {
    Session { user_id: Some(id) }
}

fn refusal(p: Problem) -> Step {
    Step { effects: vec![Effect::Reply(Reply::Error(p))], next: Next::Idle }
}

fn awaiting(t: Task, p: Pending) -> Step {
    Step { effects: vec![], next: Next::Await(t, p) }
}

#[test]
fn register_saves_a_new_user_and_logs_in() {
    let mut s = Session::new();
    let step = s.begin(
        Request::Register { username: "alice".into(), public_key: "pk".into() },
        ALICE,
    );
    let alice = user(ALICE, "alice", "pk");
    assert_eq!(step, awaiting(Task::SaveUser(alice.clone()), Pending::Register { user: alice.clone() }));
    let Next::Await(_, pending) = step.next else { unreachable!() };
    let step = s.resume(pending, Answer::Saved(Ok(())), &vec![]);
    assert_eq!(s.user_id, Some(ALICE));
    assert_eq!(
        step.effects,
        vec![
            Effect::Enroll(ALICE),
            Effect::Reply(Reply::Success(
                Notice::Registered("alice".into()),
                Some(SuccessData::Login { user_id: ALICE })
            )),
        ]
    );
    assert_eq!(step.next, Next::Idle);
}

#[test]
fn failed_registration_reports_the_store_error() {
    let mut s = Session::new();
    let step = s.resume(
        Pending::Register { user: user(ALICE, "alice", "pk") },
        Answer::Saved(Err("UNIQUE constraint failed: users.username".into())),
        &vec![],
    );
    assert_eq!(s.user_id, None);
    assert_eq!(step, refusal(Problem::RegistrationFailed("UNIQUE constraint failed: users.username".into())));
    assert_eq!(
        Problem::RegistrationFailed("boom".into()).text(),
        "Registration failed: boom"
    );
}

#[test]
fn login_with_the_right_key_succeeds() {
    let mut s = Session::new();
    let step = s.begin(Request::Login { username: "bob".into(), public_key: "k".into() }, 0);
    assert_eq!(
        step,
        awaiting(
            Task::FindUser("bob".into()),
            Pending::Login { username: "bob".into(), public_key: "k".into() }
        )
    );
    let step = s.resume(
        Pending::Login { username: "bob".into(), public_key: "k".into() },
        Answer::User(Ok(user(BOB, "bob", "k"))),
        &vec![],
    );
    assert_eq!(s.user_id, Some(BOB));
    assert_eq!(step.effects[0], Effect::Enroll(BOB));
    assert_eq!(
        Reply::Success(Notice::LoggedIn("bob".into()), None).into_response(),
        Response::Success { message: "Logged in as bob".into(), data: None }
    );
}

#[test]
fn login_with_a_wrong_key_or_unknown_user_is_refused() {
    let mut s = Session::new();
    let step = s.resume(
        Pending::Login { username: "bob".into(), public_key: "wrong".into() },
        Answer::User(Ok(user(BOB, "bob", "k"))),
        &vec![],
    );
    assert_eq!(s.user_id, None);
    assert_eq!(step, refusal(Problem::InvalidPublicKey));
    let step = s.resume(
        Pending::Login { username: "nobody".into(), public_key: "k".into() },
        Answer::User(Err("Query returned no rows".into())),
        &vec![],
    );
    assert_eq!(s.user_id, None);
    assert_eq!(step, refusal(Problem::UserNotFound));
}

#[test]
fn guests_are_refused_every_other_request() {
    let s = Session::new();
    let requests = vec![
        Request::Text(message(ALICE)),
        Request::Send { receiver_username: "bob".into(), message: message(ALICE) },
        Request::CreateGroup { group_name: "g".into(), member_usernames: vec![] },
        Request::SendToGroup { group_id: GROUP, message: message(ALICE) },
        Request::SendFile { receiver_username: "bob".into(), file: file(ALICE) },
        Request::SendFileToGroup { group_id: GROUP, file: file(ALICE) },
        Request::FetchUsers,
        Request::FetchGroups,
        Request::FetchMessages { target: ChatTarget::User(BOB) },
    ];
    for r in requests {
        assert_eq!(s.begin(r, 7), refusal(Problem::NotAuthenticated));
    }
}

#[test]
fn sending_in_another_users_name_is_refused() {
    let s = logged_in(ALICE);
    assert_eq!(s.begin(Request::Text(message(BOB)), 0), refusal(Problem::InvalidSender));
    assert_eq!(
        s.begin(Request::SendFileToGroup { group_id: GROUP, file: file(BOB) }, 0),
        refusal(Problem::InvalidSender)
    );
    assert_eq!(Problem::InvalidSender.text(), "Invalid sender_id");
}

#[test]
fn requests_the_server_does_not_know_are_an_invalid_format() {
    let s = logged_in(ALICE);
    assert_eq!(s.begin(Request::DeleteGroup { group_id: GROUP }, 0), refusal(Problem::InvalidFormat));
    assert_eq!(s.unreadable(), refusal(Problem::InvalidFormat));
    assert_eq!(Problem::InvalidFormat.text(), "Invalid message format");
}

#[test]
fn text_is_saved_then_echoed() {
    let mut s = logged_in(ALICE);
    let m = message(ALICE);
    let step = s.begin(Request::Text(m.clone()), 0);
    assert_eq!(step, awaiting(Task::SaveMessage(m.clone()), Pending::Echo { message: m.clone() }));
    let step = s.resume(Pending::Echo { message: m.clone() }, Answer::Saved(Ok(())), &vec![]);
    assert_eq!(step, Step { effects: vec![Effect::Reply(Reply::Message(m.clone()))], next: Next::Idle });
    let step = s.resume(Pending::Echo { message: m }, Answer::Saved(Err("disk".into())), &vec![]);
    assert_eq!(step, Step { effects: vec![], next: Next::Abort("disk".into()) });
}

#[test]
fn direct_message_to_an_online_user() {
    let mut s = logged_in(ALICE);
    let m = message(ALICE);
    let step = s.begin(Request::Send { receiver_username: "bob".into(), message: m.clone() }, 0);
    assert_eq!(step, awaiting(Task::FindUser("bob".into()), Pending::DirectLookup { message: m.clone() }));
    let step = s.resume(
        Pending::DirectLookup { message: m.clone() },
        Answer::User(Ok(user(BOB, "bob", "k"))),
        &vec![],
    );
    let mut addressed = m.clone();
    addressed.receiver_id = Some(BOB);
    assert_eq!(
        step,
        awaiting(
            Task::SaveMessage(addressed.clone()),
            Pending::DirectSaved { message: addressed.clone(), receiver: BOB }
        )
    );
    let step = s.resume(
        Pending::DirectSaved { message: addressed.clone(), receiver: BOB },
        Answer::Saved(Ok(())),
        &vec![ALICE, BOB],
    );
    assert_eq!(
        step,
        Step {
            effects: vec![
                Effect::Reply(Reply::Message(addressed.clone())),
                Effect::Deliver { to: vec![BOB], replies: vec![Reply::Message(addressed.clone())] },
            ],
            next: Next::Await(Task::Conversation(BOB, ALICE), Pending::DirectHistory { receiver: BOB }),
        }
    );
    let step = s.resume(
        Pending::DirectHistory { receiver: BOB },
        Answer::Messages(Ok(vec![addressed.clone()])),
        &vec![ALICE, BOB],
    );
    assert_eq!(
        step,
        Step {
            effects: vec![
                Effect::Deliver { to: vec![BOB], replies: vec![Reply::Messages(vec![addressed])] },
                Effect::Reply(Reply::Success(Notice::MessageSent, None)),
            ],
            next: Next::Idle,
        }
    );
    assert_eq!(Notice::MessageSent.text(), "Message sent");
}

#[test]
fn direct_message_to_an_offline_user() {
    let mut s = logged_in(ALICE);
    let mut m = message(ALICE);
    m.receiver_id = Some(BOB);
    let step = s.resume(
        Pending::DirectSaved { message: m.clone(), receiver: BOB },
        Answer::Saved(Ok(())),
        &vec![ALICE],
    );
    assert_eq!(
        step,
        Step {
            effects: vec![
                Effect::Reply(Reply::Message(m)),
                Effect::Reply(Reply::Success(Notice::MessageSentOffline, None)),
            ],
            next: Next::Idle,
        }
    );
    assert_eq!(Notice::MessageSentOffline.text(), "Message sent (recipient offline)");
}

#[test]
fn direct_message_to_an_unknown_user() {
    let mut s = logged_in(ALICE);
    let step = s.resume(
        Pending::DirectLookup { message: message(ALICE) },
        Answer::User(Err("Query returned no rows".into())),
        &vec![],
    );
    assert_eq!(step, refusal(Problem::RecipientNotFound));
    assert_eq!(Problem::RecipientNotFound.text(), "Recipient not found");
}

#[test]
fn creating_a_group_looks_up_each_member() {
    let mut s = logged_in(ALICE);
    let step = s.begin(
        Request::CreateGroup {
            group_name: "team".into(),
            member_usernames: vec!["bob".into(), "ghost".into(), "carol".into()],
        },
        GROUP,
    );
    assert_eq!(
        step,
        awaiting(
            Task::FindUser("bob".into()),
            Pending::Members {
                name: "team".into(),
                group_id: GROUP,
                creator: ALICE,
                members: vec![ALICE],
                usernames: vec!["bob".into(), "ghost".into(), "carol".into()],
                index: 0,
            }
        )
    );
    let Next::Await(_, pending) = step.next else { unreachable!() };
    let step = s.resume(pending, Answer::User(Ok(user(BOB, "bob", "k"))), &vec![]);
    assert!(step.effects.is_empty());
    let Next::Await(task, pending) = step.next else { unreachable!() };
    assert_eq!(task, Task::FindUser("ghost".into()));
    let step = s.resume(pending, Answer::User(Err("no rows".into())), &vec![]);
    assert_eq!(
        step.effects,
        vec![Effect::Reply(Reply::Error(Problem::MemberNotFound("ghost".into())))]
    );
    assert_eq!(Problem::MemberNotFound("ghost".into()).text(), "User ghost not found");
    let Next::Await(task, pending) = step.next else { unreachable!() };
    assert_eq!(task, Task::FindUser("carol".into()));
    let step = s.resume(pending, Answer::User(Ok(user(CAROL, "carol", "k"))), &vec![]);
    let Next::Await(task, pending) = step.next else { unreachable!() };
    let Task::SaveGroup(group) = task else { unreachable!() };
    assert_eq!(group, Group { id: GROUP, name: "team".into(), members: vec![ALICE, BOB, CAROL] });
    let step = s.resume(pending, Answer::Saved(Ok(())), &vec![ALICE, CAROL]);
    assert_eq!(
        step,
        Step {
            effects: vec![
                Effect::Deliver {
                    to: vec![CAROL],
                    replies: vec![Reply::Prompt(Notice::AddedToGroup("team".into()))],
                },
                Effect::Reply(Reply::Success(
                    Notice::GroupCreated("team".into()),
                    Some(SuccessData::GroupCreated { group_id: GROUP })
                )),
            ],
            next: Next::Idle,
        }
    );
    assert_eq!(Notice::GroupCreated("team".into()).text(), "Group team created");
    assert_eq!(Notice::AddedToGroup("team".into()).text(), "Added to group team");
}

#[test]
fn creating_a_group_without_members_saves_it_at_once() {
    let s = logged_in(ALICE);
    let step = s.begin(
        Request::CreateGroup { group_name: "solo".into(), member_usernames: vec![] },
        GROUP,
    );
    assert_eq!(
        step,
        awaiting(
            Task::SaveGroup(Group { id: GROUP, name: "solo".into(), members: vec![ALICE] }),
            Pending::GroupSaved { group_id: GROUP, name: "solo".into(), members: vec![ALICE], creator: ALICE }
        )
    );
}

#[test]
fn group_message_from_a_member_reaches_online_members() {
    let mut s = logged_in(ALICE);
    let m = message(ALICE);
    let step = s.begin(Request::SendToGroup { group_id: GROUP, message: m.clone() }, 0);
    assert_eq!(
        step,
        awaiting(Task::FindGroup(GROUP), Pending::GroupPostLookup { message: m.clone(), group_id: GROUP })
    );
    let group = Group { id: GROUP, name: "team".into(), members: vec![ALICE, BOB, CAROL] };
    let step = s.resume(
        Pending::GroupPostLookup { message: m.clone(), group_id: GROUP },
        Answer::Group(Ok(group)),
        &vec![],
    );
    let mut posted = m.clone();
    posted.group_id = Some(GROUP);
    assert_eq!(
        step,
        awaiting(
            Task::SaveMessage(posted.clone()),
            Pending::GroupPostSaved { message: posted.clone(), members: vec![ALICE, BOB, CAROL], group_id: GROUP }
        )
    );
    let step = s.resume(
        Pending::GroupPostSaved { message: posted.clone(), members: vec![ALICE, BOB, CAROL], group_id: GROUP },
        Answer::Saved(Ok(())),
        &vec![],
    );
    assert_eq!(step.effects, vec![Effect::Reply(Reply::Message(posted.clone()))]);
    let Next::Await(task, pending) = step.next else { unreachable!() };
    assert_eq!(task, Task::GroupHistory(GROUP));
    let step = s.resume(pending, Answer::Messages(Ok(vec![posted.clone()])), &vec![ALICE, CAROL]);
    assert_eq!(
        step,
        Step {
            effects: vec![
                Effect::Deliver {
                    to: vec![ALICE, CAROL],
                    replies: vec![Reply::Message(posted.clone()), Reply::Messages(vec![posted])],
                },
                Effect::Reply(Reply::Success(Notice::MessageSentToGroup, None)),
            ],
            next: Next::Idle,
        }
    );
}

#[test]
fn group_message_from_a_non_member_is_refused() {
    let mut s = logged_in(ALICE);
    let group = Group { id: GROUP, name: "team".into(), members: vec![BOB] };
    let step = s.resume(
        Pending::GroupPostLookup { message: message(ALICE), group_id: GROUP },
        Answer::Group(Ok(group)),
        &vec![],
    );
    assert_eq!(step, refusal(Problem::NotGroupMember));
    assert_eq!(Problem::NotGroupMember.text(), "You are not a member of this group");
    let step = s.resume(
        Pending::GroupPostLookup { message: message(ALICE), group_id: GROUP },
        Answer::Group(Err("no rows".into())),
        &vec![],
    );
    assert_eq!(step, refusal(Problem::GroupNotFound));
}

#[test]
fn file_to_an_online_user() {
    let mut s = logged_in(ALICE);
    let f = file(ALICE);
    let step = s.resume(Pending::FileLookup { file: f.clone() }, Answer::User(Ok(user(BOB, "bob", "k"))), &vec![]);
    let mut addressed = f.clone();
    addressed.receiver_id = Some(BOB);
    assert_eq!(
        step,
        awaiting(Task::SaveFile(addressed.clone()), Pending::FileSaved { file: addressed.clone(), receiver: BOB })
    );
    let step = s.resume(
        Pending::FileSaved { file: addressed.clone(), receiver: BOB },
        Answer::Saved(Ok(())),
        &vec![BOB],
    );
    assert_eq!(
        step,
        Step {
            effects: vec![Effect::Deliver { to: vec![BOB], replies: vec![Reply::File(addressed)] }],
            next: Next::Await(
                Task::Conversation(BOB, ALICE),
                Pending::FileHistory { receiver: BOB, filename: "notes.txt".into() }
            ),
        }
    );
    let step = s.resume(
        Pending::FileHistory { receiver: BOB, filename: "notes.txt".into() },
        Answer::Messages(Ok(vec![])),
        &vec![BOB],
    );
    assert_eq!(step.effects[1], Effect::Reply(Reply::Success(Notice::FileSent("notes.txt".into()), None)));
    assert_eq!(Notice::FileSent("notes.txt".into()).text(), "File notes.txt sent");
}

#[test]
fn file_to_an_offline_user() {
    let mut s = logged_in(ALICE);
    let mut f = file(ALICE);
    f.receiver_id = Some(BOB);
    let step = s.resume(Pending::FileSaved { file: f, receiver: BOB }, Answer::Saved(Ok(())), &vec![]);
    assert_eq!(
        step,
        Step {
            effects: vec![Effect::Reply(Reply::Success(Notice::FileSentOffline("notes.txt".into()), None))],
            next: Next::Idle,
        }
    );
    assert_eq!(
        Notice::FileSentOffline("notes.txt".into()).text(),
        "File notes.txt sent (recipient offline)"
    );
}

#[test]
fn file_to_a_group() {
    let mut s = logged_in(ALICE);
    let f = file(ALICE);
    let step = s.resume(
        Pending::GroupFileLookup { file: f.clone(), group_id: GROUP },
        Answer::Group(Ok(Group { id: GROUP, name: "team".into(), members: vec![ALICE, BOB] })),
        &vec![],
    );
    let mut posted = f.clone();
    posted.group_id = Some(GROUP);
    assert_eq!(
        step,
        awaiting(
            Task::SaveFile(posted.clone()),
            Pending::GroupFileSaved { file: posted.clone(), members: vec![ALICE, BOB], group_id: GROUP }
        )
    );
    let step = s.resume(
        Pending::GroupFileSaved { file: posted.clone(), members: vec![ALICE, BOB], group_id: GROUP },
        Answer::Saved(Ok(())),
        &vec![],
    );
    assert_eq!(
        step,
        awaiting(Task::GroupHistory(GROUP), Pending::GroupFileHistory { file: posted.clone(), members: vec![ALICE, BOB] })
    );
    let step = s.resume(
        Pending::GroupFileHistory { file: posted.clone(), members: vec![ALICE, BOB] },
        Answer::Messages(Ok(vec![])),
        &vec![BOB],
    );
    assert_eq!(
        step,
        Step {
            effects: vec![
                Effect::Deliver { to: vec![BOB], replies: vec![Reply::File(posted), Reply::Messages(vec![])] },
                Effect::Reply(Reply::Success(Notice::FileSentToGroup("notes.txt".into()), None)),
            ],
            next: Next::Idle,
        }
    );
    assert_eq!(Notice::FileSentToGroup("notes.txt".into()).text(), "File notes.txt sent to group");
}

#[test]
fn fetches_go_to_the_store() {
    let mut s = logged_in(ALICE);
    assert_eq!(s.begin(Request::FetchUsers, 0), awaiting(Task::AllUsers, Pending::Users));
    assert_eq!(s.begin(Request::FetchGroups, 0), awaiting(Task::GroupsOf(ALICE), Pending::Groups));
    assert_eq!(
        s.begin(Request::FetchMessages { target: ChatTarget::User(BOB) }, 0),
        awaiting(Task::Conversation(BOB, ALICE), Pending::History)
    );
    assert_eq!(
        s.begin(Request::FetchMessages { target: ChatTarget::Group(GROUP) }, 0),
        awaiting(Task::GroupHistory(GROUP), Pending::History)
    );
    let step = s.resume(Pending::Users, Answer::Users(Err("locked".into())), &vec![]);
    assert_eq!(step, refusal(Problem::FetchUsersFailed("locked".into())));
    assert_eq!(Problem::FetchUsersFailed("locked".into()).text(), "Failed to fetch users: locked");
    let step = s.resume(Pending::Groups, Answer::Groups(Ok(vec![])), &vec![]);
    assert_eq!(step, Step { effects: vec![Effect::Reply(Reply::Groups(vec![]))], next: Next::Idle });
    let step = s.resume(Pending::History, Answer::Messages(Err("x".into())), &vec![]);
    assert_eq!(step, refusal(Problem::FetchMessagesFailed("x".into())));
    assert_eq!(Problem::FetchGroupsFailed("y".into()).text(), "Failed to fetch groups: y");
}

#[test]
fn pending_requests_accept_only_their_answers() {
    assert!(Pending::Users.accepts(&Answer::Users(Ok(vec![]))));
    assert!(!Pending::Users.accepts(&Answer::Saved(Ok(()))));
    let p = Pending::Members {
        name: "g".into(),
        group_id: GROUP,
        creator: ALICE,
        members: vec![ALICE],
        usernames: vec![],
        index: 0,
    };
    assert!(!p.accepts(&Answer::User(Ok(user(BOB, "bob", "k")))));
}

#[test]
fn recipients_are_the_online_members_in_order() {
    assert_eq!(select_recipients(&vec![1, 2, 3, 2], &vec![2, 3], None), vec![2, 3, 2]);
    assert_eq!(select_recipients(&vec![1, 2, 3], &vec![1, 2, 3], Some(1)), vec![2, 3]);
    assert_eq!(select_recipients(&vec![], &vec![1], None), Vec::<u128>::new());
}

#[test]
fn closing_a_logged_in_connection_withdraws_its_user() {
    assert_eq!(logged_in(BOB).close(), Some(BOB));
    assert_eq!(Session::new().close(), None);
    assert!(logged_in(BOB).authenticated());
    assert!(!Session::new().authenticated());
}

#[test]
fn replies_are_written_out_with_their_texts() {
    assert_eq!(
        Reply::Prompt(Notice::AddedToGroup("x".into())).into_response(),
        Response::Prompt("Added to group x".into())
    );
    assert_eq!(
        Reply::Error(Problem::NotAuthenticated).into_response(),
        Response::Error("Not authenticated".into())
    );
    assert_eq!(
        Reply::Success(Notice::Registered("a".into()), Some(SuccessData::Login { user_id: 5 })).into_response(),
        Response::Success { message: "Registered and logged in as a".into(), data: Some(SuccessData::Login { user_id: 5 }) }
    );
    assert_eq!(Notice::MessageSentToGroup.text(), "Message sent to group");
    assert_eq!(Problem::UserNotFound.text(), "User not found");
    assert_eq!(Problem::InvalidPublicKey.text(), "Invalid public key");
    assert_eq!(Problem::GroupNotFound.text(), "Group not found");
}

#[test]
fn accepted_registrations_get_a_random_identifier() {
    let s = Session::new();
    let step = s.accept(Request::Register { username: "al".into(), public_key: "k".into() });
    assert!(step.effects.is_empty());
    let Next::Await(Task::SaveUser(u), Pending::Register { user: pending }) = step.next else { panic!() };
    assert_eq!((u.id >> 76) & 0xF, 4);
    assert_eq!(u.username, "al");
    assert_eq!(pending, u);
    let step = s.accept(Request::Login { username: "al".into(), public_key: "k".into() });
    assert_eq!(step.next, Next::Await(Task::FindUser("al".into()), Pending::Login { username: "al".into(), public_key: "k".into() }));
    let guest_group = s.accept(Request::CreateGroup { group_name: "g".into(), member_usernames: vec![] });
    assert_eq!(guest_group.effects, vec![Effect::Reply(Reply::Error(Problem::NotAuthenticated))]);
}
