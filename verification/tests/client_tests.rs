use chat_application::client::{ChatModel, Command, DownloadFailure, Event, Screen};
use chat_application::codec::{open_bytes, open_text, seal_bytes, seal_text};
use chat_application::models::{File, Group, Message, User};
use chat_application::protocol::{ChatTarget, Request, Response, SuccessData};
use chat_application::crypto::CryptoError;

const ME: u128 = 7;
const BOB: u128 = 8;
const GROUP: u128 = 0x1234;

fn id_text(id: u128) -> String {
    uuid::Uuid::from_u128(id).to_string()
}

fn fresh() -> ChatModel {
    ChatModel::new().0
}

fn logged_in() -> ChatModel {
    let mut m = fresh();
    m.user_id = Some(ME);
    m.screen = Screen::Main;
    m
}

fn sent(c: &Command) -> (&Request, &str) {
    match c {
        Command::Send { request, sent } => (request, sent.as_str()),
        other => panic!("not a send: {:?}", other),
    }
}

#[test]
fn new_client_starts_disconnected_and_connects() {
    let (m, commands) = ChatModel::new();
    assert_eq!(m.server_addr, "127.0.0.1:8080");
    assert_eq!(m.status, "Disconnected");
    assert_eq!(m.screen, Screen::Login);
    assert_eq!(m.key, [0u8; 32]);
    assert_eq!(commands, vec![Command::Follow(Event::Connect)]);
    let mut m = m;
    assert_eq!(m.update(Event::Connect), vec![Command::Connect("127.0.0.1:8080".into())]);
}

#[test]
fn register_needs_both_credentials() {
    let mut m = fresh();
    m.update(Event::UsernameChanged("alice".into()));
    assert!(m.update(Event::Register).is_empty());
    assert_eq!(m.status, "Username and public key required");
    m.update(Event::PublicKeyChanged("pk".into()));
    let c = m.update(Event::Register);
    assert_eq!(
        c,
        vec![Command::Send {
            request: Request::Register { username: "alice".into(), public_key: "pk".into() },
            sent: "Register sent".into(),
        }]
    );
    let c = m.update(Event::Login);
    assert_eq!(sent(&c[0]).1, "Login sent");
}

#[test]
fn login_success_opens_the_main_screen() {
    let mut m = fresh();
    let c = m.update(Event::ServerResponse(Response::Success {
        message: "Logged in as alice".into(),
        data: Some(SuccessData::Login { user_id: ME }),
    }));
    assert_eq!(m.user_id, Some(ME));
    assert_eq!(m.screen, Screen::Main);
    assert_eq!(m.status, "Success: Logged in as alice");
    assert_eq!(c, vec![Command::Follow(Event::FetchUsers), Command::Follow(Event::FetchGroups)]);
    let c = m.update(Event::FetchUsers);
    assert_eq!(sent(&c[0]), (&Request::FetchUsers, "Fetching users"));
    let c = m.update(Event::FetchGroups);
    assert_eq!(sent(&c[0]), (&Request::FetchGroups, "Fetching groups"));
}

#[test]
fn group_created_reports_its_identifier() {
    let mut m = logged_in();
    let c = m.update(Event::ServerResponse(Response::Success {
        message: "Group team created".into(),
        data: Some(SuccessData::GroupCreated { group_id: GROUP }),
    }));
    assert_eq!(
        m.status,
        format!("Success: Group team created (group_id: {})", id_text(GROUP))
    );
    assert_eq!(c, vec![Command::Follow(Event::FetchGroups)]);
}

#[test]
fn actions_need_a_login() {
    let mut m = fresh();
    for e in [
        Event::SendMessage,
        Event::CreateGroup,
        Event::SendGroupMessage,
        Event::SendFile,
        Event::SendFileToGroup,
        Event::AddUserToGroup,
        Event::RemoveUserFromGroup,
        Event::DeleteGroup,
    ] {
        m.status = String::new();
        assert!(m.update(e).is_empty());
        assert_eq!(m.status, "Please login first");
    }
}

#[test]
fn send_message_encrypts_the_input() {
    let mut m = logged_in();
    assert!(m.update(Event::SendMessage).is_empty());
    assert_eq!(m.status, "Receiver username and message required");
    m.update(Event::ReceiverUsernameChanged("bob".into()));
    m.update(Event::MessageInputChanged("hi bob".into()));
    let c = m.update(Event::SendMessage);
    assert_eq!(c.len(), 3);
    let (request, note) = sent(&c[0]);
    assert_eq!(note, "Message sent");
    let Request::Send { receiver_username, message } = request else { panic!() };
    assert_eq!(receiver_username, "bob");
    assert_eq!(message.sender_id, ME);
    assert_eq!(message.receiver_id, None);
    assert_eq!(message.group_id, None);
    assert_eq!(open_text(&m.crypto, &m.key, &message.content).unwrap(), "hi bob");
    assert_eq!(c[1], Command::Follow(Event::SelectChat(ChatTarget::User(0))));
    assert_eq!(c[2], Command::ScrollToEnd);
    assert_eq!(m.message_input, "");
}

#[test]
fn send_message_returns_to_the_current_chat() {
    let mut m = logged_in();
    m.current_chat = Some(ChatTarget::User(BOB));
    m.receiver_username = "bob".into();
    m.message_input = "x".into();
    let c = m.update(Event::SendMessage);
    assert_eq!(c[1], Command::Follow(Event::SelectChat(ChatTarget::User(BOB))));
}

#[test]
fn create_group_splits_the_members_on_white_space() {
    let mut m = logged_in();
    m.group_name = "team".into();
    assert!(m.update(Event::CreateGroup).is_empty());
    assert_eq!(m.status, "Group name and members required");
    m.group_members = "  bob\tcarol  dave ".into();
    let c = m.update(Event::CreateGroup);
    assert_eq!(
        c,
        vec![Command::Send {
            request: Request::CreateGroup {
                group_name: "team".into(),
                member_usernames: vec!["bob".into(), "carol".into(), "dave".into()],
            },
            sent: "Group creation sent".into(),
        }]
    );
    assert_eq!(m.group_name, "");
    assert_eq!(m.group_members, "");
}

#[test]
fn group_message_needs_a_valid_group_id() {
    let mut m = logged_in();
    m.message_input = "hello all".into();
    assert!(m.update(Event::SendGroupMessage).is_empty());
    assert_eq!(m.status, "Group ID and message required");
    m.group_id = "nope".into();
    assert!(m.update(Event::SendGroupMessage).is_empty());
    assert_eq!(m.status, "Invalid group ID");
    m.group_id = id_text(GROUP);
    let c = m.update(Event::SendGroupMessage);
    let (request, note) = sent(&c[0]);
    assert_eq!(note, "Group message sent");
    let Request::SendToGroup { group_id, message } = request else { panic!() };
    assert_eq!(*group_id, GROUP);
    assert_eq!(message.group_id, Some(GROUP));
    assert_eq!(open_text(&m.crypto, &m.key, &message.content).unwrap(), "hello all");
    assert_eq!(c[1], Command::Follow(Event::SelectChat(ChatTarget::Group(GROUP))));
}

#[test]
fn send_file_reads_the_normalized_path_first() {
    let mut m = logged_in();
    m.receiver_username = "bob".into();
    assert!(m.update(Event::SendFile).is_empty());
    assert_eq!(m.status, "Receiver username and file path required");
    m.file_path = "C:\\\\docs\\notes.txt".into();
    let c = m.update(Event::SendFile);
    assert_eq!(c, vec![Command::ReadFile { path: "C:/docs/notes.txt".into(), group: None }]);
}

#[test]
fn read_file_failure_is_reported() {
    let mut m = logged_in();
    let c = m.update(Event::FileRead {
        path: "x".into(),
        group: None,
        contents: Err("No such file or directory (os error 2)".into()),
    });
    assert!(c.is_empty());
    assert_eq!(m.status, "Failed to read file: No such file or directory (os error 2)");
}

#[test]
fn read_file_is_encrypted_and_sent() {
    let mut m = logged_in();
    m.receiver_username = "bob".into();
    m.file_path = "docs/notes.txt".into();
    let c = m.update(Event::FileRead {
        path: "docs/notes.txt".into(),
        group: None,
        contents: Ok(vec![1, 2, 3]),
    });
    let (request, note) = sent(&c[0]);
    assert_eq!(note, "File sent");
    let Request::SendFile { receiver_username, file } = request else { panic!() };
    assert_eq!(receiver_username, "bob");
    assert_eq!(file.filename, "notes.txt");
    assert_eq!(open_bytes(&m.crypto, &m.key, &file.data).unwrap(), vec![1, 2, 3]);
    assert_eq!(m.file_path, "");
    let c = m.update(Event::FileRead { path: "/".into(), group: Some(GROUP), contents: Ok(vec![]) });
    let (request, note) = sent(&c[0]);
    assert_eq!(note, "File sent to group");
    let Request::SendFileToGroup { group_id, file } = request else { panic!() };
    assert_eq!(*group_id, GROUP);
    assert_eq!(file.filename, "unknown");
    assert_eq!(file.group_id, Some(GROUP));
}

#[test]
fn send_file_to_group_checks_the_group_id() {
    let mut m = logged_in();
    m.file_path = "a.txt".into();
    assert!(m.update(Event::SendFileToGroup).is_empty());
    assert_eq!(m.status, "Group ID and file path required");
    m.group_id = "bad".into();
    assert!(m.update(Event::SendFileToGroup).is_empty());
    assert_eq!(m.status, "Invalid group ID");
    m.group_id = id_text(GROUP);
    assert_eq!(
        m.update(Event::SendFileToGroup),
        vec![Command::ReadFile { path: "a.txt".into(), group: Some(GROUP) }]
    );
}

#[test]
fn membership_requests_name_the_group_and_user() {
    let mut m = logged_in();
    m.group_id = id_text(GROUP);
    assert!(m.update(Event::AddUserToGroup).is_empty());
    assert_eq!(m.status, "Group ID and username required");
    m.add_user_input = "carol".into();
    let c = m.update(Event::AddUserToGroup);
    assert_eq!(
        c,
        vec![Command::Send {
            request: Request::AddUserToGroup { group_id: GROUP, username: "carol".into() },
            sent: "Add user request sent".into(),
        }]
    );
    assert_eq!(m.add_user_input, "");
    m.remove_user_input = "dave".into();
    let c = m.update(Event::RemoveUserFromGroup);
    assert_eq!(
        c,
        vec![Command::Send {
            request: Request::RemoveUserFromGroup { group_id: GROUP, username: "dave".into() },
            sent: "Remove user request sent".into(),
        }]
    );
    let c = m.update(Event::DeleteGroup);
    assert_eq!(
        c,
        vec![
            Command::Send {
                request: Request::DeleteGroup { group_id: GROUP },
                sent: "Delete group request sent".into(),
            },
            Command::Follow(Event::BackToMain),
        ]
    );
    m.group_id = String::new();
    assert!(m.update(Event::DeleteGroup).is_empty());
    assert_eq!(m.status, "Group ID required");
}

#[test]
fn selecting_a_user_chat_fills_in_the_receiver() {
    let mut m = logged_in();
    m.users = vec![
        User { id: BOB, username: "bob".into(), public_key: "k".into() },
        User { id: BOB, username: "bob2".into(), public_key: "k".into() },
    ];
    let c = m.update(Event::SelectChat(ChatTarget::User(BOB)));
    assert_eq!(m.receiver_username, "bob");
    assert_eq!(m.screen, Screen::Chat);
    assert_eq!(m.current_chat, Some(ChatTarget::User(BOB)));
    assert_eq!(
        c,
        vec![
            Command::Send {
                request: Request::FetchMessages { target: ChatTarget::User(BOB) },
                sent: "Fetching messages".into(),
            },
            Command::ScrollToEnd,
        ]
    );
    m.update(Event::SelectChat(ChatTarget::User(99)));
    assert_eq!(m.receiver_username, "");
}

#[test]
fn selecting_a_group_chat_fills_in_the_group_id() {
    let mut m = logged_in();
    m.receiver_username = "bob".into();
    m.update(Event::SelectChat(ChatTarget::Group(GROUP)));
    assert_eq!(m.receiver_username, "");
    assert_eq!(m.group_id, id_text(GROUP));
    assert_eq!(m.screen, Screen::GroupChat);
}

#[test]
fn back_to_main_and_logout_clear_the_forms() {
    let mut m = logged_in();
    m.messages.push(Message {
        id: 1,
        sender_id: ME,
        receiver_id: None,
        group_id: None,
        content: "x".into(),
        timestamp: 0,
    });
    m.group_id = "g".into();
    m.username = "me".into();
    m.update(Event::BackToMain);
    assert_eq!(m.screen, Screen::Main);
    assert!(m.messages.is_empty());
    assert_eq!(m.group_id, "");
    assert_eq!(m.username, "me");
    m.update(Event::Logout);
    assert_eq!(m.user_id, None);
    assert_eq!(m.username, "");
    assert_eq!(m.screen, Screen::Login);
    assert_eq!(m.status, "Logged out");
}

#[test]
fn prompts_about_groups_refresh_the_group_list() {
    let mut m = logged_in();
    assert_eq!(
        m.update(Event::ServerResponse(Response::Prompt("Added to group team".into()))),
        vec![Command::Follow(Event::FetchGroups)]
    );
    assert_eq!(m.status, "Added to group team");
    assert_eq!(
        m.update(Event::ServerResponse(Response::Prompt("Group deleted".into()))),
        vec![Command::Follow(Event::FetchGroups)]
    );
    assert!(m.update(Event::ServerResponse(Response::Prompt("Connected".into()))).is_empty());
    assert_eq!(m.status, "Connected");
}

#[test]
fn errors_are_shown() {
    let mut m = logged_in();
    m.update(Event::ServerResponse(Response::Error("Not authenticated".into())));
    assert_eq!(m.status, "Error: Not authenticated");
    m.update(Event::Error("broken pipe".into()));
    assert_eq!(m.status, "Error: broken pipe");
}

#[test]
fn received_messages_are_decrypted() {
    let mut m = logged_in();
    let content = seal_text(&m.crypto, &m.key, "hello there").unwrap();
    let incoming = Message { id: 3, sender_id: BOB, receiver_id: Some(ME), group_id: None, content, timestamp: 9 };
    let c = m.update(Event::ServerResponse(Response::Message(incoming.clone())));
    assert_eq!(c, vec![Command::ScrollToEnd]);
    assert_eq!(m.messages.len(), 1);
    assert_eq!(m.messages[0].content, "hello there");
    assert_eq!(m.messages[0].sender_id, BOB);
    let bad = Message { content: "@@@".into(), ..incoming };
    assert!(m.update(Event::ServerResponse(Response::Message(bad))).is_empty());
    assert!(m.status.starts_with("Base64 decode error: "));
    assert_eq!(m.messages.len(), 1);
}

#[test]
fn received_histories_keep_bodies_that_do_not_decrypt() {
    let mut m = logged_in();
    let good = seal_text(&m.crypto, &m.key, "one").unwrap();
    let ms = vec![
        Message { id: 1, sender_id: BOB, receiver_id: None, group_id: None, content: good, timestamp: 1 },
        Message { id: 2, sender_id: BOB, receiver_id: None, group_id: None, content: "plain".into(), timestamp: 2 },
    ];
    let c = m.update(Event::ServerResponse(Response::Messages(ms)));
    assert_eq!(c, vec![Command::ScrollToEnd]);
    assert_eq!(m.messages[0].content, "one");
    assert_eq!(m.messages[1].content, "plain");
}

#[test]
fn received_files_are_saved_then_noted() {
    let mut m = logged_in();
    let data = seal_bytes(&m.crypto, &m.key, b"file body").unwrap();
    let f = File {
        id: 4,
        sender_id: BOB,
        receiver_id: Some(ME),
        group_id: None,
        filename: "a.txt".into(),
        data,
        timestamp: 0,
    };
    let c = m.update(Event::ServerResponse(Response::File(f.clone())));
    assert_eq!(
        c,
        vec![Command::SaveDownload {
            file: f.clone(),
            path: "chat_downloads/received_a.txt".into(),
            contents: b"file body".to_vec(),
        }]
    );
    let c = m.update(Event::DownloadSaved {
        file: f.clone(),
        path: "chat_downloads/received_a.txt".into(),
        outcome: Ok(()),
    });
    assert_eq!(c, vec![Command::ScrollToEnd]);
    let note = m.messages.last().unwrap();
    assert_eq!(
        note.content,
        format!(
            "[1970-01-01T00:00:00+00:00] from sender_id: {} to receiver_id: {}: File a.txt saved as chat_downloads/received_a.txt",
            id_text(BOB),
            id_text(ME)
        )
    );
    assert_eq!(note.sender_id, BOB);
    m.update(Event::DownloadSaved {
        file: f.clone(),
        path: "p".into(),
        outcome: Err(DownloadFailure::Directory("denied".into())),
    });
    assert_eq!(m.status, "Failed to create directory chat_downloads: denied");
    m.update(Event::DownloadSaved { file: f, path: "p".into(), outcome: Err(DownloadFailure::Write("full".into())) });
    assert_eq!(m.status, "Failed to save file to p: full");
}

#[test]
fn group_file_note_names_the_group() {
    let mut m = logged_in();
    let f = File {
        id: 4,
        sender_id: BOB,
        receiver_id: None,
        group_id: Some(GROUP),
        filename: "b".into(),
        data: String::new(),
        timestamp: 86400,
    };
    m.update(Event::DownloadSaved { file: f, path: "q".into(), outcome: Ok(()) });
    assert_eq!(
        m.messages[0].content,
        format!("[1970-01-02T00:00:00+00:00] from group {}: File b saved as q", id_text(GROUP))
    );
}

#[test]
fn users_and_groups_lists_are_replaced() {
    let mut m = logged_in();
    m.update(Event::ServerResponse(Response::Users(vec![User { id: 1, username: "a".into(), public_key: "k".into() }])));
    assert_eq!(m.users.len(), 1);
    m.update(Event::ServerResponse(Response::Groups(vec![Group { id: 2, name: "g".into(), members: vec![1] }])));
    assert_eq!(m.groups[0].name, "g");
}

#[test]
fn a_sent_message_is_shown_as_typed_by_a_client_with_the_same_key() {
    let mut sender = logged_in();
    sender.receiver_username = "bob".into();
    sender.message_input = "see you at 5".into();
    let c = sender.update(Event::SendMessage);
    let Command::Send { request: Request::Send { message, .. }, .. } = &c[0] else { panic!() };
    let mut receiver = fresh();
    receiver.user_id = Some(BOB);
    let mut delivered = message.clone();
    delivered.receiver_id = Some(BOB);
    receiver.update(Event::ServerResponse(Response::Message(delivered)));
    assert_eq!(receiver.messages.last().unwrap().content, "see you at 5");
}

#[test]
fn a_sealed_message_is_sent_as_given() {
    let mut m = logged_in();
    m.receiver_username = "bob".into();
    m.message_input = "hi".into();
    let c = m.send_sealed(ME, Ok("Ym9keQ==".into()), Some(11), Some(1234));
    assert_eq!(
        c,
        vec![
            Command::Send {
                request: Request::Send {
                    receiver_username: "bob".into(),
                    message: Message {
                        id: 11,
                        sender_id: ME,
                        receiver_id: None,
                        group_id: None,
                        content: "Ym9keQ==".into(),
                        timestamp: 1234,
                    },
                },
                sent: "Message sent".into(),
            },
            Command::Follow(Event::SelectChat(ChatTarget::User(0))),
            Command::ScrollToEnd,
        ]
    );
    assert_eq!(m.message_input, "");
}

#[test]
fn a_failed_sealing_sends_nothing_and_says_why() {
    let mut m = logged_in();
    m.message_input = "hi".into();
    assert!(m.send_sealed(ME, Err(CryptoError::NonceUnavailable), Some(1), Some(2)).is_empty());
    assert_eq!(m.status, "Error: Failed to generate nonce: ring::error::Unspecified");
    assert_eq!(m.message_input, "hi");
    assert!(m.send_sealed_to_group(ME, GROUP, Err(CryptoError::EncryptionFailed), None, Some(2)).is_empty());
    assert_eq!(m.status, "Error: Encryption failed: ring::error::Unspecified");
    m.file_path = "f".into();
    assert!(m.send_sealed_file(ME, None, "f".into(), Err(CryptoError::NonceUnavailable), Some(1), None).is_empty());
    assert_eq!(m.file_path, "f");
}

#[test]
fn a_sealed_group_message_is_sent_to_the_group() {
    let mut m = logged_in();
    m.message_input = "hi".into();
    let c = m.send_sealed_to_group(ME, GROUP, Ok("eA==".into()), Some(5), Some(6));
    assert_eq!(
        c[0],
        Command::Send {
            request: Request::SendToGroup {
                group_id: GROUP,
                message: Message {
                    id: 5,
                    sender_id: ME,
                    receiver_id: None,
                    group_id: Some(GROUP),
                    content: "eA==".into(),
                    timestamp: 6,
                },
            },
            sent: "Group message sent".into(),
        }
    );
    assert_eq!(c[1], Command::Follow(Event::SelectChat(ChatTarget::Group(GROUP))));
    assert_eq!(m.message_input, "");
}

#[test]
fn a_sealed_file_is_sent_under_its_name() {
    let mut m = logged_in();
    m.receiver_username = "bob".into();
    m.file_path = "docs/a.txt".into();
    let c = m.send_sealed_file(ME, Some(GROUP), "a.txt".into(), Ok("ZA==".into()), Some(3), Some(4));
    assert_eq!(
        c[0],
        Command::Send {
            request: Request::SendFileToGroup {
                group_id: GROUP,
                file: File {
                    id: 3,
                    sender_id: ME,
                    receiver_id: None,
                    group_id: Some(GROUP),
                    filename: "a.txt".into(),
                    data: "ZA==".into(),
                    timestamp: 4,
                },
            },
            sent: "File sent to group".into(),
        }
    );
    assert_eq!(m.file_path, "");
    m.file_path = "docs/a.txt".into();
    let c = m.send_sealed_file(ME, None, "a.txt".into(), Ok("ZA==".into()), Some(3), Some(4));
    let (request, note) = sent(&c[0]);
    assert_eq!(note, "File sent");
    let Request::SendFile { receiver_username, file } = request else { panic!() };
    assert_eq!(receiver_username, "bob");
    assert_eq!(file.group_id, None);
}

#[test]
fn a_read_file_is_named_after_its_last_component() {
    let mut m = logged_in();
    m.receiver_username = "bob".into();
    for (path, name) in [
        ("x/./y.bin", "y.bin"),
        ("plain", "plain"),
        ("a/b/..", "unknown"),
        ("docs/report.txt/", "report.txt"),
        ("docs/report.txt/.", "report.txt"),
        ("./", "unknown"),
    ] {
        m.file_path = path.into();
        let c = m.update(Event::FileRead { path: path.into(), group: None, contents: Ok(vec![0]) });
        let (request, _) = sent(&c[0]);
        let Request::SendFile { file, .. } = request else { panic!() };
        assert_eq!(file.filename, name);
    }
}

#[test]
fn a_missing_identifier_or_clock_stops_the_send() {
    let mut m = logged_in();
    m.message_input = "hi".into();
    assert!(m.send_sealed(ME, Ok("eA==".into()), None, Some(2)).is_empty());
    assert_eq!(m.status, "Error: Failed to generate identifier");
    assert!(m.send_sealed(ME, Ok("eA==".into()), Some(1), None).is_empty());
    assert_eq!(m.status, "Error: System clock is before the Unix epoch");
    assert_eq!(m.message_input, "hi");
    m.file_path = "f".into();
    assert!(m.send_sealed_file(ME, Some(GROUP), "f".into(), Ok("eA==".into()), None, Some(2)).is_empty());
    assert_eq!(m.status, "Error: Failed to generate identifier");
    assert_eq!(m.file_path, "f");
}

#[test]
fn a_download_note_takes_the_drawn_identifier() {
    let mut m = logged_in();
    let f = File {
        id: 4,
        sender_id: BOB,
        receiver_id: None,
        group_id: Some(GROUP),
        filename: "b".into(),
        data: String::new(),
        timestamp: 0,
    };
    assert_eq!(m.record_note(f.clone(), "q".into(), Some(77)), vec![Command::ScrollToEnd]);
    assert_eq!(m.messages[0].id, 77);
    assert!(m.record_note(f, "q".into(), None).is_empty());
    assert_eq!(m.messages.len(), 1);
    assert_eq!(m.status, "Error: Failed to generate identifier");
}
