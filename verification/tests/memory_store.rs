use session_auth::memory::MemoryStore;
use session_auth::store::{Query, Reply, User};

fn text(s: &str) -> String {
    s.to_string()
}

fn with_two_users() -> MemoryStore {
    let mut store = MemoryStore::new();
    assert_eq!(store.insert(text("alice"), text("hash-a"), Some(text("alice@example.org"))), Some(1));
    assert_eq!(store.insert(text("bobby"), text("hash-b"), None), Some(2));
    store
}

#[test]
fn a_new_store_is_empty() {
    let store = MemoryStore::new();
    assert!(!store.exists_by_username_or_email(&text("alice"), &text("")));
    assert_eq!(store.find_id_by_username(&text("alice")), None);
    assert_eq!(store.find_by_username_or_email(&text("alice")), None);
    assert_eq!(store.find_username_by_id(1), None);
    assert_eq!(store.find_live_session(1, 0), None);
    assert_eq!(store.find_user_by_session_id(&text("s")), None);
    assert_eq!(store.find_user_by_live_session(&text("s"), 0), None);
}

#[test]
fn users_get_ids_in_the_order_they_come() {
    let mut store = with_two_users();
    assert_eq!(store.insert(text("carol"), text("hash-c"), None), Some(3));
    assert_eq!(store.find_id_by_username(&text("alice")), Some(1));
    assert_eq!(store.find_id_by_username(&text("bobby")), Some(2));
    assert_eq!(store.find_id_by_username(&text("carol")), Some(3));
    assert_eq!(store.find_id_by_username(&text("dave")), None);
}

#[test]
fn usernames_are_found_by_id() {
    let store = with_two_users();
    assert_eq!(store.find_username_by_id(0), None);
    assert_eq!(store.find_username_by_id(1), Some(text("alice")));
    assert_eq!(store.find_username_by_id(2), Some(text("bobby")));
    assert_eq!(store.find_username_by_id(3), None);
    assert_eq!(store.find_username_by_id(u64::MAX), None);
}

#[test]
fn existence_matches_either_field() {
    let store = with_two_users();
    assert!(store.exists_by_username_or_email(&text("alice"), &text("")));
    assert!(store.exists_by_username_or_email(&text("nobody"), &text("alice@example.org")));
    assert!(store.exists_by_username_or_email(&text("bobby"), &text("other@example.org")));
    assert!(!store.exists_by_username_or_email(&text("nobody"), &text("other@example.org")));
    // a username is no email, and an absent email matches nothing
    assert!(!store.exists_by_username_or_email(&text("alice@example.org"), &text("alice")));
    assert!(!store.exists_by_username_or_email(&text("nobody"), &text("")));
}

#[test]
fn a_taken_username_or_email_cannot_be_inserted() {
    let mut store = with_two_users();
    assert_eq!(store.insert(text("alice"), text("h"), None), None);
    assert_eq!(store.insert(text("carol"), text("h"), Some(text("alice@example.org"))), None);
    assert_eq!(store.find_id_by_username(&text("carol")), None);
    assert_eq!(store.find_username_by_id(3), None);
    // two users without an email do not clash
    assert_eq!(store.insert(text("carol"), text("h"), None), Some(3));
}

#[test]
fn users_are_found_by_username_or_email() {
    let store = with_two_users();
    let alice = User {
        id: 1,
        username: text("alice"),
        email: Some(text("alice@example.org")),
        password_hash: text("hash-a"),
    };
    assert_eq!(store.find_by_username_or_email(&text("alice")), Some(alice.clone()));
    assert_eq!(store.find_by_username_or_email(&text("alice@example.org")), Some(alice));
    assert_eq!(
        store.find_by_username_or_email(&text("bobby")),
        Some(User { id: 2, username: text("bobby"), email: None, password_hash: text("hash-b") })
    );
    assert_eq!(store.find_by_username_or_email(&text("carol")), None);
}

#[test]
fn where_two_users_go_by_an_identifier_the_first_is_found() {
    let mut store = MemoryStore::new();
    assert_eq!(store.insert(text("first"), text("h1"), Some(text("second"))), Some(1));
    assert_eq!(store.insert(text("second"), text("h2"), None), Some(2));
    let found = store.find_by_username_or_email(&text("second")).unwrap();
    assert_eq!(found.id, 1);
}

#[test]
fn a_session_is_live_strictly_before_its_expiry() {
    let mut store = with_two_users();
    assert!(store.create(text("s1"), 1, 100));
    assert_eq!(store.find_live_session(1, 99), Some(text("s1")));
    assert_eq!(store.find_live_session(1, 100), None);
    assert_eq!(store.find_live_session(1, 101), None);
    assert_eq!(store.find_live_session(2, 0), None);
    assert_eq!(store.find_user_by_live_session(&text("s1"), 99), Some(1));
    assert_eq!(store.find_user_by_live_session(&text("s1"), 100), None);
    assert_eq!(store.find_user_by_session_id(&text("s1")), Some(1));
    assert_eq!(store.find_user_by_session_id(&text("s2")), None);
}

#[test]
fn a_session_id_cannot_be_created_twice() {
    let mut store = MemoryStore::new();
    assert!(store.create(text("s1"), 1, 100));
    assert!(!store.create(text("s1"), 2, 200));
    assert_eq!(store.find_user_by_session_id(&text("s1")), Some(1));
    assert_eq!(store.find_user_by_live_session(&text("s1"), 150), None);
}

#[test]
fn renewal_sets_the_expiry() {
    let mut store = MemoryStore::new();
    assert!(store.create(text("s1"), 1, 100));
    assert!(store.create(text("s2"), 2, 100));
    store.renew(&text("s1"), 500);
    assert_eq!(store.find_user_by_live_session(&text("s1"), 499), Some(1));
    assert_eq!(store.find_user_by_live_session(&text("s1"), 500), None);
    assert_eq!(store.find_user_by_live_session(&text("s2"), 100), None);
    store.renew(&text("unknown"), 500);
    assert_eq!(store.find_user_by_session_id(&text("unknown")), None);
}

#[test]
fn deletion_removes_the_session_and_no_other() {
    let mut store = MemoryStore::new();
    assert!(store.create(text("s1"), 1, 100));
    assert!(store.create(text("s2"), 2, 100));
    assert!(store.create(text("s3"), 3, 100));
    store.delete(&text("s2"));
    assert_eq!(store.find_user_by_session_id(&text("s1")), Some(1));
    assert_eq!(store.find_user_by_session_id(&text("s2")), None);
    assert_eq!(store.find_user_by_session_id(&text("s3")), Some(3));
    store.delete(&text("s2"));
    store.delete(&text("unknown"));
    assert_eq!(store.find_user_by_session_id(&text("s1")), Some(1));
    assert!(store.create(text("s2"), 4, 100));
    assert_eq!(store.find_user_by_session_id(&text("s2")), Some(4));
}

#[test]
fn queries_are_answered_as_the_operations_are() {
    let mut store = MemoryStore::new();
    assert_eq!(
        store.answer(&Query::UserExists { username: text("alice"), email: text("") }),
        Reply::Exists(false)
    );
    assert_eq!(
        store.answer(&Query::InsertUser {
            username: text("alice"),
            password_hash: text("hash-a"),
            email: Some(text("alice@example.org")),
        }),
        Reply::Done
    );
    assert_eq!(
        store.answer(&Query::InsertUser {
            username: text("alice"),
            password_hash: text("hash-b"),
            email: None,
        }),
        Reply::Failed
    );
    assert_eq!(
        store.answer(&Query::UserExists { username: text("x"), email: text("alice@example.org") }),
        Reply::Exists(true)
    );
    assert_eq!(
        store.answer(&Query::UserIdByUsername { username: text("alice") }),
        Reply::UserId(Some(1))
    );
    assert_eq!(
        store.answer(&Query::UserIdByUsername { username: text("bobby") }),
        Reply::UserId(None)
    );
    assert_eq!(
        store.answer(&Query::UserByIdentifier { identifier: text("alice@example.org") }),
        Reply::User(Some(User {
            id: 1,
            username: text("alice"),
            email: Some(text("alice@example.org")),
            password_hash: text("hash-a"),
        }))
    );
    assert_eq!(
        store.answer(&Query::UserByIdentifier { identifier: text("bobby") }),
        Reply::User(None)
    );
    assert_eq!(
        store.answer(&Query::UsernameById { user_id: 1 }),
        Reply::Username(Some(text("alice")))
    );
    assert_eq!(store.answer(&Query::UsernameById { user_id: 2 }), Reply::Username(None));
    assert_eq!(
        store.answer(&Query::LiveSessionOfUser { user_id: 1, now: 0 }),
        Reply::SessionId(None)
    );
    assert_eq!(
        store.answer(&Query::CreateSession { session_id: text("s1"), user_id: 1, expires_at: 100 }),
        Reply::Done
    );
    assert_eq!(
        store.answer(&Query::CreateSession { session_id: text("s1"), user_id: 1, expires_at: 100 }),
        Reply::Failed
    );
    assert_eq!(
        store.answer(&Query::LiveSessionOfUser { user_id: 1, now: 0 }),
        Reply::SessionId(Some(text("s1")))
    );
    assert_eq!(
        store.answer(&Query::UserOfLiveSession { session_id: text("s1"), now: 100 }),
        Reply::UserId(None)
    );
    assert_eq!(
        store.answer(&Query::RenewSession { session_id: text("s1"), expires_at: 200 }),
        Reply::Done
    );
    assert_eq!(
        store.answer(&Query::UserOfLiveSession { session_id: text("s1"), now: 100 }),
        Reply::UserId(Some(1))
    );
    assert_eq!(
        store.answer(&Query::UserOfSession { session_id: text("s1") }),
        Reply::UserId(Some(1))
    );
    assert_eq!(store.answer(&Query::DeleteSession { session_id: text("s1") }), Reply::Done);
    assert_eq!(store.answer(&Query::UserOfSession { session_id: text("s1") }), Reply::UserId(None));
    assert_eq!(store.answer(&Query::DeleteSession { session_id: text("s1") }), Reply::Done);
}
