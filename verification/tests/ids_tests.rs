use chat_application::ids::{fresh_id, NIL_ID};
use chat_application::models::User;
use chat_application::rows::{user_from_row, user_row, UserRow};

fn user(id: u128) -> User {
    User { id, username: "u".into(), public_key: "k".into() }
}

fn row_with_id(id: &str) -> UserRow {
    UserRow { id: id.into(), username: "u".into(), public_key: "k".into() }
}

#[test]
fn id_text_is_hyphenated_lower_case() {
    assert_eq!(user_row(&user(0x550e8400_e29b_41d4_a716_446655440000)).id, "550e8400-e29b-41d4-a716-446655440000");
    assert_eq!(user_row(&user(NIL_ID)).id, "00000000-0000-0000-0000-000000000000");
}

#[test]
fn parse_id_reads_written_ids() {
    for id in [0u128, 1, u128::MAX, 0x0123_4567_89ab_cdef_0123_4567_89ab_cdef] {
        assert_eq!(user_from_row(user_row(&user(id))), Some(user(id)));
    }
}

#[test]
fn parse_id_reads_other_uuid_formats() {
    assert_eq!(
        user_from_row(row_with_id("550E8400E29B41D4A716446655440000")),
        Some(user(0x550e8400_e29b_41d4_a716_446655440000))
    );
}

#[test]
fn parse_id_refuses_non_ids() {
    assert_eq!(user_from_row(row_with_id("")), None);
    assert_eq!(user_from_row(row_with_id("not-a-uuid")), None);
    assert_eq!(user_from_row(row_with_id("550e8400-e29b-41d4-a716-44665544000")), None);
}

#[test]
fn fresh_ids_are_random_version_4_uuids() {
    let a = fresh_id().unwrap();
    let b = fresh_id().unwrap();
    assert_ne!(a, b);
    for id in [a, b] {
        assert_eq!((id >> 76) & 0xF, 4);
        assert_eq!((id >> 62) & 0x3, 0x2);
    }
}
