use session_auth::notice::Notice;
use session_auth::service::{
    begin_login, begin_logout, begin_signup, begin_verify, issue_or_renew, lease_from, Fault,
    Greeting, Lease, Outcome, Pending, Step, Supply, PASSWORD_MAX, PASSWORD_MIN, SESSION_LIFETIME,
    USERNAME_MAX, USERNAME_MIN,
};
use session_auth::store::{Query, Reply, User};

const KNOWN_DIGEST: &str = "$2b$04$EGdrhbKUv8Oc9vGiXX0HQOxSg445d458Muh7DAHskb6QbtCvdxcie";

fn text(s: &str) -> String {
    s.to_string()
}

fn refused(notice: Notice) -> Step<String> {
    Step::Finish(Outcome::Account {
        success: false,
        message: notice.wording(),
        session_id: String::new(),
    })
}

fn unverified() -> Step<String> {
    Step::Finish(Outcome::Verify { success: false, username: String::new() })
}

fn logged_out(success: bool) -> Step<String> {
    Step::Finish(Outcome::Logout { success })
}

fn lease() -> Lease {
    Lease { now: 1_000, until: 1_000 + 604_800 }
}

fn collision(email: &str) -> Pending<String> {
    Pending::SignupCollision {
        username: text("alice"),
        password: text("secret"),
        email: text(email),
        lease: lease(),
    }
}

fn login_user() -> Pending<String> {
    Pending::LoginUser { password: text("correctbatteryhorsestapler"), lease: lease() }
}

fn bobby(digest: &str) -> User<String> {
    User { id: 7, username: text("bobby"), email: None, password_hash: text(digest) }
}

#[test]
fn the_bounds_are_those_of_the_service() {
    assert_eq!((USERNAME_MIN, USERNAME_MAX), (5, 20));
    assert_eq!((PASSWORD_MIN, PASSWORD_MAX), (5, 255));
    assert_eq!(SESSION_LIFETIME, 7 * 24 * 60 * 60);
}

#[test]
fn lease_lasts_seven_days() {
    assert_eq!(lease_from(0), Lease { now: 0, until: 604_800 });
    assert_eq!(lease_from(1_000), lease());
    assert_eq!(lease_from(-604_800), Lease { now: -604_800, until: 0 });
    assert_eq!(
        lease_from(i64::MAX - 604_800),
        Lease { now: i64::MAX - 604_800, until: i64::MAX }
    );
}

#[test]
fn signup_with_an_empty_field_is_refused() {
    assert_eq!(begin_signup(text(""), text("secret"), text(""), 0), refused(Notice::FieldsEmpty));
    assert_eq!(begin_signup(text("alice"), text(""), text(""), 0), refused(Notice::FieldsEmpty));
    assert_eq!(begin_signup(text(""), text(""), text("a@b.c"), 0), refused(Notice::FieldsEmpty));
}

#[test]
fn signup_checks_the_username_length() {
    assert_eq!(
        begin_signup(text("abcd"), text("secret"), text(""), 0),
        refused(Notice::UsernameLength)
    );
    assert_eq!(
        begin_signup("a".repeat(21), text("secret"), text(""), 0),
        refused(Notice::UsernameLength)
    );
    assert!(matches!(
        begin_signup(text("abcde"), text("secret"), text(""), 0),
        Step::Ask { .. }
    ));
    assert!(matches!(
        begin_signup("a".repeat(20), text("secret"), text(""), 0),
        Step::Ask { .. }
    ));
}

#[test]
fn signup_checks_the_password_length() {
    assert_eq!(
        begin_signup(text("alice"), text("abcd"), text(""), 0),
        refused(Notice::PasswordLength)
    );
    assert_eq!(
        begin_signup(text("alice"), "p".repeat(256), text(""), 0),
        refused(Notice::PasswordLength)
    );
    assert!(matches!(begin_signup(text("alice"), text("abcde"), text(""), 0), Step::Ask { .. }));
    assert!(matches!(
        begin_signup(text("alice"), "p".repeat(255), text(""), 0),
        Step::Ask { .. }
    ));
}

#[test]
fn signup_checks_the_username_before_the_password() {
    assert_eq!(
        begin_signup(text("abcd"), text("abcd"), text(""), 0),
        refused(Notice::UsernameLength)
    );
}

#[test]
fn lengths_are_counted_in_characters() {
    // five characters, ten bytes
    assert!(matches!(
        begin_signup(text("ééééé"), text("üüüüü"), text(""), 0),
        Step::Ask { .. }
    ));
    // twenty characters, sixty bytes
    assert!(matches!(
        begin_signup("€".repeat(20), text("secret"), text(""), 0),
        Step::Ask { .. }
    ));
    assert_eq!(
        begin_signup("€".repeat(21), text("secret"), text(""), 0),
        refused(Notice::UsernameLength)
    );
    // four characters, sixteen bytes
    assert_eq!(
        begin_signup(text("😀😀😀😀"), text("secret"), text(""), 0),
        refused(Notice::UsernameLength)
    );
}

#[test]
fn signup_first_asks_whether_the_account_exists() {
    let step = begin_signup(text("alice"), text("secret"), text("alice@example.org"), 1_000);
    assert_eq!(
        step,
        Step::Ask {
            pending: collision("alice@example.org"),
            query: Query::UserExists {
                username: text("alice"),
                email: text("alice@example.org")
            },
        }
    );
}

#[test]
fn login_checks_the_lengths() {
    assert_eq!(begin_login(text(""), text("secret"), 0), refused(Notice::UsernameLength));
    assert_eq!(begin_login(text("abcd"), text("secret"), 0), refused(Notice::UsernameLength));
    assert_eq!(
        begin_login("a".repeat(21), text("secret"), 0),
        refused(Notice::UsernameLength)
    );
    assert_eq!(begin_login(text("alice"), text(""), 0), refused(Notice::PasswordLength));
    assert_eq!(begin_login(text("alice"), text("abcd"), 0), refused(Notice::PasswordLength));
    assert_eq!(
        begin_login(text("alice"), "p".repeat(256), 0),
        refused(Notice::PasswordLength)
    );
    assert_eq!(begin_login(text("abcd"), text("abcd"), 0), refused(Notice::UsernameLength));
}

#[test]
fn login_first_asks_for_the_user() {
    assert_eq!(
        begin_login(text("alice@example.org"), text("secret"), 1_000),
        Step::Ask {
            pending: Pending::LoginUser { password: text("secret"), lease: lease() },
            query: Query::UserByIdentifier { identifier: text("alice@example.org") },
        }
    );
}

#[test]
fn verify_of_an_empty_session_id_finds_nobody() {
    assert_eq!(begin_verify(text(""), 1_000), unverified());
}

#[test]
fn verify_first_asks_for_the_owner_of_the_live_session() {
    assert_eq!(
        begin_verify(text("abc"), 1_000),
        Step::Ask {
            pending: Pending::VerifySession,
            query: Query::UserOfLiveSession { session_id: text("abc"), now: 1_000 },
        }
    );
}

#[test]
fn logout_of_an_empty_session_id_fails() {
    assert_eq!(begin_logout(text("")), logged_out(false));
}

#[test]
fn logout_first_asks_whether_the_session_exists() {
    assert_eq!(
        begin_logout(text("abc")),
        Step::Ask {
            pending: Pending::LogoutLookup { session_id: text("abc") },
            query: Query::UserOfSession { session_id: text("abc") },
        }
    );
}

#[test]
fn issue_or_renew_first_asks_for_a_live_session() {
    assert_eq!(
        issue_or_renew(7, 1_000, Greeting::Login),
        Step::Ask {
            pending: Pending::SessionLookup { user_id: 7, until: 605_800, greeting: Greeting::Login },
            query: Query::LiveSessionOfUser { user_id: 7, now: 1_000 },
        }
    );
}

#[test]
fn signup_stops_at_a_taken_account() {
    assert_eq!(
        collision("").resume_with(Reply::Exists(true), Supply::Nothing),
        refused(Notice::DuplicateAccount)
    );
    assert_eq!(collision("").resume(Reply::Exists(true)), refused(Notice::DuplicateAccount));
}

#[test]
fn signup_inserts_the_user_with_the_digest() {
    assert_eq!(
        collision("alice@example.org")
            .resume_with(Reply::Exists(false), Supply::Digest(Some(text("digest")))),
        Step::Ask {
            pending: Pending::SignupInsert { username: text("alice"), lease: lease() },
            query: Query::InsertUser {
                username: text("alice"),
                password_hash: text("digest"),
                email: Some(text("alice@example.org")),
            },
        }
    );
}

#[test]
fn signup_stores_no_email_where_none_was_given() {
    assert_eq!(
        collision("").resume_with(Reply::Exists(false), Supply::Digest(Some(text("digest")))),
        Step::Ask {
            pending: Pending::SignupInsert { username: text("alice"), lease: lease() },
            query: Query::InsertUser {
                username: text("alice"),
                password_hash: text("digest"),
                email: None,
            },
        }
    );
}

#[test]
fn signup_reports_an_internal_error_where_hashing_fails() {
    assert_eq!(
        collision("").resume_with(Reply::Exists(false), Supply::Digest(None)),
        refused(Notice::InternalError)
    );
    assert_eq!(
        collision("").resume_with(Reply::Exists(false), Supply::Nothing),
        refused(Notice::InternalError)
    );
}

#[test]
fn signup_reports_an_internal_error_where_the_store_fails() {
    assert_eq!(
        collision("").resume_with(Reply::Failed, Supply::Nothing),
        refused(Notice::InternalError)
    );
    assert_eq!(collision("").resume(Reply::Failed), refused(Notice::InternalError));
    assert_eq!(collision("").resume(Reply::Done), refused(Notice::InternalError));
    let insert = Pending::SignupInsert { username: text("alice"), lease: lease() };
    assert_eq!(insert.clone().resume(Reply::Failed), refused(Notice::InternalError));
    assert_eq!(insert.resume(Reply::Exists(false)), refused(Notice::InternalError));
    let user_id = Pending::<String>::SignupUserId { lease: lease() };
    assert_eq!(user_id.clone().resume(Reply::Failed), refused(Notice::InternalError));
    assert_eq!(user_id.resume(Reply::UserId(None)), refused(Notice::InternalError));
}

#[test]
fn signup_hashes_the_password_it_was_given() {
    match collision("").resume(Reply::Exists(false)) {
        Step::Ask {
            pending,
            query: Query::InsertUser { username, password_hash, email },
        } => {
            assert_eq!(pending, Pending::SignupInsert { username: text("alice"), lease: lease() });
            assert_eq!(username, "alice");
            assert_eq!(email, None);
            assert_eq!(password_hash.chars().count(), 60);
            assert_eq!(session_auth::hasher::verify("secret", &password_hash), Ok(true));
        }
        other => panic!("unexpected step {:?}", other),
    }
}

#[test]
fn signup_resolves_the_id_of_the_new_user() {
    let insert = Pending::SignupInsert { username: text("alice"), lease: lease() };
    assert_eq!(
        insert.resume(Reply::Done),
        Step::Ask {
            pending: Pending::SignupUserId { lease: lease() },
            query: Query::UserIdByUsername { username: text("alice") },
        }
    );
}

#[test]
fn signup_goes_on_to_the_session_of_the_new_user() {
    let user_id = Pending::<String>::SignupUserId { lease: lease() };
    assert_eq!(
        user_id.resume(Reply::UserId(Some(7))),
        Step::Ask {
            pending: Pending::SessionLookup { user_id: 7, until: 605_800, greeting: Greeting::Signup },
            query: Query::LiveSessionOfUser { user_id: 7, now: 1_000 },
        }
    );
}

#[test]
fn login_of_an_unknown_user_is_refused() {
    assert_eq!(login_user().resume(Reply::User(None)), refused(Notice::IncorrectCredentials));
}

#[test]
fn login_with_a_wrong_password_is_refused() {
    assert_eq!(
        login_user().resume_with(Reply::User(Some(bobby("digest"))), Supply::Check(Some(false))),
        refused(Notice::IncorrectCredentials)
    );
    let wrong = Pending::LoginUser { password: text("wrongpass"), lease: lease() };
    assert_eq!(
        wrong.resume(Reply::User(Some(bobby(KNOWN_DIGEST)))),
        refused(Notice::IncorrectCredentials)
    );
}

#[test]
fn login_with_the_right_password_goes_on_to_the_session() {
    let expected = Step::Ask {
        pending: Pending::SessionLookup { user_id: 7, until: 605_800, greeting: Greeting::Login },
        query: Query::LiveSessionOfUser { user_id: 7, now: 1_000 },
    };
    assert_eq!(
        login_user().resume_with(Reply::User(Some(bobby("digest"))), Supply::Check(Some(true))),
        expected
    );
    assert_eq!(login_user().resume(Reply::User(Some(bobby(KNOWN_DIGEST)))), expected);
}

#[test]
fn login_reports_an_internal_error_on_a_malformed_digest() {
    assert_eq!(
        login_user().resume_with(Reply::User(Some(bobby("digest"))), Supply::Check(None)),
        refused(Notice::InternalError)
    );
    assert_eq!(
        login_user().resume(Reply::User(Some(bobby("not a digest")))),
        refused(Notice::InternalError)
    );
}

#[test]
fn login_reports_an_internal_error_where_the_store_fails() {
    assert_eq!(login_user().resume(Reply::Failed), refused(Notice::InternalError));
    assert_eq!(login_user().resume(Reply::UserId(Some(7))), refused(Notice::InternalError));
}

#[test]
fn a_live_session_is_renewed() {
    let lookup = Pending::<String>::SessionLookup {
        user_id: 7,
        until: 605_800,
        greeting: Greeting::Login,
    };
    assert_eq!(
        lookup.resume(Reply::SessionId(Some(text("old-session")))),
        Step::Ask {
            pending: Pending::SessionWrite {
                session_id: text("old-session"),
                greeting: Greeting::Login
            },
            query: Query::RenewSession { session_id: text("old-session"), expires_at: 605_800 },
        }
    );
}

#[test]
fn a_user_without_a_live_session_gets_a_new_one() {
    let lookup = Pending::<String>::SessionLookup {
        user_id: 7,
        until: 605_800,
        greeting: Greeting::Signup,
    };
    assert_eq!(
        lookup.clone().resume_with(Reply::SessionId(None), Supply::Token(text("new-token"))),
        Step::Ask {
            pending: Pending::SessionWrite {
                session_id: text("new-token"),
                greeting: Greeting::Signup
            },
            query: Query::CreateSession {
                session_id: text("new-token"),
                user_id: 7,
                expires_at: 605_800
            },
        }
    );
    match lookup.resume(Reply::SessionId(None)) {
        Step::Ask {
            pending: Pending::SessionWrite { session_id, greeting: Greeting::Signup },
            query: Query::CreateSession { session_id: created, user_id: 7, expires_at: 605_800 },
        } => {
            assert_eq!(session_id, created);
            assert_eq!(session_id.chars().count(), 43);
        }
        other => panic!("unexpected step {:?}", other),
    }
}

#[test]
fn the_session_lookup_reports_an_internal_error_where_it_cannot_go_on() {
    let lookup = Pending::<String>::SessionLookup {
        user_id: 7,
        until: 605_800,
        greeting: Greeting::Login,
    };
    assert_eq!(lookup.clone().resume(Reply::Failed), refused(Notice::InternalError));
    assert_eq!(lookup.clone().resume(Reply::Done), refused(Notice::InternalError));
    assert_eq!(
        lookup.resume_with(Reply::SessionId(None), Supply::Nothing),
        refused(Notice::InternalError)
    );
}

#[test]
fn a_written_session_ends_the_operation_with_its_message() {
    let signup = Pending::SessionWrite { session_id: text("token"), greeting: Greeting::Signup };
    assert_eq!(
        signup.resume(Reply::Done),
        Step::Finish(Outcome::Account {
            success: true,
            message: text("Signup succesful."),
            session_id: text("token"),
        })
    );
    let login = Pending::SessionWrite { session_id: text("token"), greeting: Greeting::Login };
    assert_eq!(
        login.clone().resume(Reply::Done),
        Step::Finish(Outcome::Account {
            success: true,
            message: text("Login success"),
            session_id: text("token"),
        })
    );
    assert_eq!(login.resume(Reply::Failed), refused(Notice::InternalError));
}

#[test]
fn greetings_have_their_messages() {
    assert_eq!(Greeting::Signup.message(), Notice::SignupSuccessful);
    assert_eq!(Greeting::Login.message(), Notice::LoginSuccess);
}

#[test]
fn verify_resolves_the_username_of_the_owner() {
    assert_eq!(
        Pending::<String>::VerifySession.resume(Reply::UserId(Some(7))),
        Step::Ask { pending: Pending::VerifyUsername, query: Query::UsernameById { user_id: 7 } }
    );
    assert_eq!(
        Pending::<String>::VerifyUsername.resume(Reply::Username(Some(text("bobby")))),
        Step::Finish(Outcome::Verify { success: true, username: text("bobby") })
    );
}

#[test]
fn verify_finds_nobody_where_the_store_has_nothing_or_fails() {
    assert_eq!(Pending::<String>::VerifySession.resume(Reply::UserId(None)), unverified());
    assert_eq!(Pending::<String>::VerifySession.resume(Reply::Failed), unverified());
    assert_eq!(Pending::<String>::VerifySession.resume(Reply::Done), unverified());
    assert_eq!(Pending::<String>::VerifyUsername.resume(Reply::Username(None)), unverified());
    assert_eq!(Pending::<String>::VerifyUsername.resume(Reply::Failed), unverified());
}

#[test]
fn logout_deletes_a_session_that_exists() {
    let lookup = Pending::LogoutLookup { session_id: text("token") };
    assert_eq!(
        lookup.resume(Reply::UserId(Some(7))),
        Step::Ask {
            pending: Pending::LogoutDelete,
            query: Query::DeleteSession { session_id: text("token") },
        }
    );
    assert_eq!(Pending::<String>::LogoutDelete.resume(Reply::Done), logged_out(true));
}

#[test]
fn logout_fails_where_the_session_is_unknown_or_the_store_fails() {
    let lookup = Pending::LogoutLookup { session_id: text("token") };
    assert_eq!(lookup.clone().resume(Reply::UserId(None)), logged_out(false));
    assert_eq!(lookup.resume(Reply::Failed), logged_out(false));
    assert_eq!(Pending::<String>::LogoutDelete.resume(Reply::Failed), logged_out(false));
}

#[test]
fn provide_gives_what_the_next_step_needs() {
    assert_eq!(collision("").provide(&Reply::Exists(true)), Supply::Nothing);
    assert_eq!(collision("").provide(&Reply::Failed), Supply::Nothing);
    assert_eq!(login_user().provide(&Reply::User(None)), Supply::Nothing);
    assert_eq!(
        login_user().provide(&Reply::User(Some(bobby(KNOWN_DIGEST)))),
        Supply::Check(Some(true))
    );
    assert_eq!(
        Pending::LoginUser { password: text("wrongpass"), lease: lease() }
            .provide(&Reply::User(Some(bobby(KNOWN_DIGEST)))),
        Supply::Check(Some(false))
    );
    assert_eq!(
        login_user().provide(&Reply::User(Some(bobby("malformed")))),
        Supply::Check(None)
    );
    let lookup = Pending::<String>::SessionLookup {
        user_id: 7,
        until: 605_800,
        greeting: Greeting::Login,
    };
    assert_eq!(lookup.provide(&Reply::SessionId(Some(text("s")))), Supply::Nothing);
    match lookup.provide(&Reply::SessionId(None)) {
        Supply::Token(token) => assert_eq!(token.chars().count(), 43),
        other => panic!("unexpected supply {:?}", other),
    }
    assert_eq!(Pending::<String>::VerifySession.provide(&Reply::UserId(Some(7))), Supply::Nothing);
    assert_eq!(Pending::<String>::LogoutDelete.provide(&Reply::Done), Supply::Nothing);
}

#[test]
fn a_failed_query_is_diagnosed_in_every_state() {
    let all: Vec<Pending<String>> = vec![
        collision(""),
        Pending::SignupInsert { username: text("alice"), lease: lease() },
        Pending::SignupUserId { lease: lease() },
        login_user(),
        Pending::SessionLookup { user_id: 7, until: 605_800, greeting: Greeting::Login },
        Pending::SessionWrite { session_id: text("token"), greeting: Greeting::Login },
        Pending::VerifySession,
        Pending::VerifyUsername,
        Pending::LogoutLookup { session_id: text("token") },
        Pending::LogoutDelete,
    ];
    for pending in all {
        assert_eq!(pending.diagnose(&Reply::Failed, &Supply::Nothing), Some(Fault::StoreFailed));
    }
}

#[test]
fn a_reply_of_the_wrong_shape_is_diagnosed() {
    assert_eq!(
        collision("").diagnose(&Reply::Done, &Supply::Nothing),
        Some(Fault::UnexpectedReply)
    );
    assert_eq!(
        login_user().diagnose(&Reply::UserId(Some(7)), &Supply::Nothing),
        Some(Fault::UnexpectedReply)
    );
    assert_eq!(
        Pending::<String>::VerifySession.diagnose(&Reply::Exists(true), &Supply::Nothing),
        Some(Fault::UnexpectedReply)
    );
    assert_eq!(
        Pending::<String>::LogoutDelete.diagnose(&Reply::UserId(None), &Supply::Nothing),
        Some(Fault::UnexpectedReply)
    );
}

#[test]
fn a_failure_of_the_hashing_engine_is_diagnosed() {
    assert_eq!(
        collision("").diagnose(&Reply::Exists(false), &Supply::Digest(None)),
        Some(Fault::HashingFailed)
    );
    let reply = Reply::User(Some(bobby("not a digest")));
    let supply = login_user().provide(&reply);
    assert_eq!(login_user().diagnose(&reply, &supply), Some(Fault::HashingFailed));
}

#[test]
fn a_missing_supply_is_diagnosed() {
    assert_eq!(
        collision("").diagnose(&Reply::Exists(false), &Supply::Nothing),
        Some(Fault::NothingSupplied)
    );
    assert_eq!(
        login_user().diagnose(&Reply::User(Some(bobby(KNOWN_DIGEST))), &Supply::Token(text("t"))),
        Some(Fault::NothingSupplied)
    );
    let lookup = Pending::<String>::SessionLookup {
        user_id: 7,
        until: 605_800,
        greeting: Greeting::Login,
    };
    assert_eq!(
        lookup.diagnose(&Reply::SessionId(None), &Supply::Nothing),
        Some(Fault::NothingSupplied)
    );
}

#[test]
fn rows_that_do_not_fit_together_are_diagnosed() {
    assert_eq!(
        Pending::<String>::SignupUserId { lease: lease() }
            .diagnose(&Reply::UserId(None), &Supply::Nothing),
        Some(Fault::UserMissing)
    );
    assert_eq!(
        Pending::<String>::VerifyUsername.diagnose(&Reply::Username(None), &Supply::Nothing),
        Some(Fault::UserMissing)
    );
}

#[test]
fn what_the_client_did_wrong_is_no_fault() {
    assert_eq!(collision("").diagnose(&Reply::Exists(true), &Supply::Nothing), None);
    assert_eq!(login_user().diagnose(&Reply::User(None), &Supply::Nothing), None);
    assert_eq!(
        login_user()
            .diagnose(&Reply::User(Some(bobby(KNOWN_DIGEST))), &Supply::Check(Some(false))),
        None
    );
    assert_eq!(
        Pending::<String>::VerifySession.diagnose(&Reply::UserId(None), &Supply::Nothing),
        None
    );
    assert_eq!(
        Pending::LogoutLookup { session_id: text("token") }
            .diagnose(&Reply::UserId(None), &Supply::Nothing),
        None
    );
}

#[test]
fn a_step_that_goes_on_has_no_fault() {
    assert_eq!(
        collision("").diagnose(&Reply::Exists(false), &Supply::Digest(Some(text("digest")))),
        None
    );
    assert_eq!(
        Pending::SignupInsert { username: text("alice"), lease: lease() }
            .diagnose(&Reply::Done, &Supply::Nothing),
        None
    );
    assert_eq!(
        Pending::<String>::SignupUserId { lease: lease() }
            .diagnose(&Reply::UserId(Some(7)), &Supply::Nothing),
        None
    );
    assert_eq!(
        Pending::<String>::VerifyUsername
            .diagnose(&Reply::Username(Some(text("bobby"))), &Supply::Nothing),
        None
    );
    assert_eq!(Pending::<String>::LogoutDelete.diagnose(&Reply::Done, &Supply::Nothing), None);
}
