//! The authentication service: signup, login, session verification and
//! logout, and the find-or-renew protocol that hands out sessions.
//!
//! An operation begins with one of the `begin_*` functions and goes on with
//! `Pending::resume`. Each gives a `Step`: either a query for the store,
//! together with what the service has to remember while it waits, or the
//! response for the client. The service holds no other state.

use crate::hasher::{digest_check, hash, hashes_to, verify};
use crate::notice::Notice;
use crate::store::{text_view, Query, Reply};
use crate::token::{generate_session_id, is_session_token};
use vstd::prelude::*;

verus! {

/// How long a session lives after it was issued or renewed: seven days, in
/// seconds.
pub const SESSION_LIFETIME: i64 = 604800;

/// The least number of characters of a username.
pub const USERNAME_MIN: usize = 5;

/// The greatest number of characters of a username.
pub const USERNAME_MAX: usize = 20;

/// The least number of characters of a password.
pub const PASSWORD_MIN: usize = 5;

/// The greatest number of characters of a password.
pub const PASSWORD_MAX: usize = 255;

/// Whether a username, or a login identifier, has an accepted length.
pub open spec fn username_fits(username: Seq<char>) -> bool {
    USERNAME_MIN <= username.len() <= USERNAME_MAX
}

/// Whether a password has an accepted length.
pub open spec fn password_fits(password: Seq<char>) -> bool {
    PASSWORD_MIN <= password.len() <= PASSWORD_MAX
}

/// The time of a request, and the expiry of a session that the request
/// issues or renews.
#[derive(Debug, Clone, Copy, PartialEq, Eq, Structural)]
pub struct Lease {
    pub now: i64,
    pub until: i64,
}

/// Whether a session that is issued at `now` gets an expiry that can still
/// be written down.
pub open spec fn in_reach(now: i64) -> bool {
    now + SESSION_LIFETIME <= i64::MAX
}

/// The lease of a request that arrives at `now`.
pub open spec fn lease_at(now: i64) -> Lease
    recommends
        in_reach(now),
{
    Lease { now, until: (now + SESSION_LIFETIME) as i64 }
}

/// The operation that a session is issued for; it decides the message that
/// goes with the session.
#[derive(Debug, Clone, Copy, PartialEq, Eq, Structural)]
pub enum Greeting {
    Signup,
    Login,
}

impl Greeting {
    /// The message that goes with a session issued for this operation.
    pub open spec fn notice(self) -> Notice {
        match self {
            Greeting::Signup => Notice::SignupSuccessful,
            Greeting::Login => Notice::LoginSuccess,
        }
    }

    /// The message that goes with a session issued for this operation.
    pub fn message(self) -> (notice: Notice)
        ensures
            notice == self.notice(),
    {
        match self {
            Greeting::Signup => Notice::SignupSuccessful,
            Greeting::Login => Notice::LoginSuccess,
        }
    }
}

/// The response to a client: that of signup and login, that of session
/// verification, or that of logout.
#[derive(Debug, Clone, PartialEq, Eq)]
pub enum Outcome<S> {
    Account { success: bool, message: S, session_id: S },
    Verify { success: bool, username: S },
    Logout { success: bool },
}

/// What the service remembers while the store works on a query.
#[derive(Debug, Clone, PartialEq, Eq)]
pub enum Pending<S> {
    /// Signup asked whether the username or the email is taken.
    SignupCollision { username: S, password: S, email: S, lease: Lease },
    /// Signup asked for the new user to be added.
    SignupInsert { username: S, lease: Lease },
    /// Signup asked for the id of the new user.
    SignupUserId { lease: Lease },
    /// Login asked for the user behind the identifier.
    LoginUser { password: S, lease: Lease },
    /// The session manager asked for a live session of the user.
    SessionLookup { user_id: u64, until: i64, greeting: Greeting },
    /// The session manager asked for the session to be renewed or created.
    SessionWrite { session_id: S, greeting: Greeting },
    /// Verification asked for the owner of the session.
    VerifySession,
    /// Verification asked for the owner's username.
    VerifyUsername,
    /// Logout asked whether the session exists.
    LogoutLookup { session_id: S },
    /// Logout asked for the session to be removed.
    LogoutDelete,
}

/// One step of an operation.
#[derive(Debug, Clone, PartialEq, Eq)]
pub enum Step<S> {
    /// The store is to answer `query`; the operation goes on with
    /// `pending.resume(reply)`.
    Ask { pending: Pending<S>, query: Query<S> },
    /// The operation is over.
    Finish(Outcome<S>),
}

/// What a step takes from outside the store: a digest of a new password, the
/// check of a password against a digest, or a new session token. `None`
/// stands for a failure of the hashing engine.
#[derive(Debug, Clone, PartialEq, Eq)]
pub enum Supply<S> {
    Nothing,
    Digest(Option<S>),
    Check(Option<bool>),
    Token(S),
}

/// Why an operation ended with an internal error. The client is told nothing
/// of it; it is for the diagnostics of the server.
#[derive(Debug, Clone, Copy, PartialEq, Eq, Structural)]
pub enum Fault {
    /// The store could not carry the query out.
    StoreFailed,
    /// The store gave a reply that does not answer the query.
    UnexpectedReply,
    /// The hashing engine could not hash the password, or could not read the
    /// digest that the store keeps.
    HashingFailed,
    /// The step was resumed without the digest, the check or the token that
    /// it needs.
    NothingSupplied,
    /// The store does not know the user that it has just added, or that a
    /// session belongs to.
    UserMissing,
}

/// What a step needs from outside the store.
pub ghost enum Need {
    Nothing,
    Digest { plaintext: Seq<char> },
    Check { plaintext: Seq<char>, digest: Seq<char> },
    Token,
}

impl View for Outcome<String> {
    type V = Outcome<Seq<char>>;

    open spec fn view(&self) -> Outcome<Seq<char>> {
        match *self {
            Outcome::Account { success, message, session_id } => Outcome::Account {
                success,
                message: message@,
                session_id: session_id@,
            },
            Outcome::Verify { success, username } => Outcome::Verify { success, username: username@ },
            Outcome::Logout { success } => Outcome::Logout { success },
        }
    }
}

impl View for Pending<String> {
    type V = Pending<Seq<char>>;

    open spec fn view(&self) -> Pending<Seq<char>> {
        match *self {
            Pending::SignupCollision { username, password, email, lease } => Pending::SignupCollision {
                username: username@,
                password: password@,
                email: email@,
                lease,
            },
            Pending::SignupInsert { username, lease } => Pending::SignupInsert {
                username: username@,
                lease,
            },
            Pending::SignupUserId { lease } => Pending::SignupUserId { lease },
            Pending::LoginUser { password, lease } => Pending::LoginUser { password: password@, lease },
            Pending::SessionLookup { user_id, until, greeting } => Pending::SessionLookup {
                user_id,
                until,
                greeting,
            },
            Pending::SessionWrite { session_id, greeting } => Pending::SessionWrite {
                session_id: session_id@,
                greeting,
            },
            Pending::VerifySession => Pending::VerifySession,
            Pending::VerifyUsername => Pending::VerifyUsername,
            Pending::LogoutLookup { session_id } => Pending::LogoutLookup { session_id: session_id@ },
            Pending::LogoutDelete => Pending::LogoutDelete,
        }
    }
}

impl View for Step<String> {
    type V = Step<Seq<char>>;

    open spec fn view(&self) -> Step<Seq<char>> {
        match *self {
            Step::Ask { pending, query } => Step::Ask { pending: pending@, query: query@ },
            Step::Finish(outcome) => Step::Finish(outcome@),
        }
    }
}

impl View for Supply<String> {
    type V = Supply<Seq<char>>;

    open spec fn view(&self) -> Supply<Seq<char>> {
        match *self {
            Supply::Nothing => Supply::Nothing,
            Supply::Digest(digest) => Supply::Digest(text_view(digest)),
            Supply::Check(matches) => Supply::Check(matches),
            Supply::Token(token) => Supply::Token(token@),
        }
    }
}

/// The step that turns a signup or a login down with `notice`.
pub open spec fn refused(notice: Notice) -> Step<Seq<char>> {
    Step::Finish(
        Outcome::Account { success: false, message: notice.text(), session_id: Seq::empty() },
    )
}

/// The step that ends a signup or a login with a session.
pub open spec fn granted(greeting: Greeting, session_id: Seq<char>) -> Step<Seq<char>> {
    Step::Finish(Outcome::Account { success: true, message: greeting.notice().text(), session_id })
}

/// The step that ends a verification without a user.
pub open spec fn unverified() -> Step<Seq<char>> {
    Step::Finish(Outcome::Verify { success: false, username: Seq::empty() })
}

/// The step that ends a verification with the session's user.
pub open spec fn verified(username: Seq<char>) -> Step<Seq<char>> {
    Step::Finish(Outcome::Verify { success: true, username })
}

/// The step that ends a logout.
pub open spec fn logged_out(success: bool) -> Step<Seq<char>> {
    Step::Finish(Outcome::Logout { success })
}

/// The email as the store keeps it: absent when the client left it empty.
pub open spec fn stored_email(email: Seq<char>) -> Option<Seq<char>> {
    if email.len() == 0 {
        None
    } else {
        Some(email)
    }
}

/// First step of handing `user_id` a session: look for one that is live now.
pub open spec fn issue(user_id: u64, lease: Lease, greeting: Greeting) -> Step<Seq<char>> {
    Step::Ask {
        pending: Pending::SessionLookup { user_id, until: lease.until, greeting },
        query: Query::LiveSessionOfUser { user_id, now: lease.now },
    }
}

/// First step of a signup. Empty fields and lengths out of bounds are turned
/// down here, before the store is asked anything.
pub open spec fn signup(
    username: Seq<char>,
    password: Seq<char>,
    email: Seq<char>,
    lease: Lease,
) -> Step<Seq<char>> {
    if username.len() == 0 || password.len() == 0 {
        refused(Notice::FieldsEmpty)
    } else if !username_fits(username) {
        refused(Notice::UsernameLength)
    } else if !password_fits(password) {
        refused(Notice::PasswordLength)
    } else {
        Step::Ask {
            pending: Pending::SignupCollision { username, password, email, lease },
            query: Query::UserExists { username, email },
        }
    }
}

/// First step of a login. The lengths are checked as a signup checks them,
/// and turned down with the same messages.
pub open spec fn login(identifier: Seq<char>, password: Seq<char>, lease: Lease) -> Step<Seq<char>> {
    if !username_fits(identifier) {
        refused(Notice::UsernameLength)
    } else if !password_fits(password) {
        refused(Notice::PasswordLength)
    } else {
        Step::Ask {
            pending: Pending::LoginUser { password, lease },
            query: Query::UserByIdentifier { identifier },
        }
    }
}

/// First step of a session verification at `now`.
pub open spec fn verification(session_id: Seq<char>, now: i64) -> Step<Seq<char>> {
    if session_id.len() == 0 {
        unverified()
    } else {
        Step::Ask {
            pending: Pending::VerifySession,
            query: Query::UserOfLiveSession { session_id, now },
        }
    }
}

/// First step of a logout.
pub open spec fn logout(session_id: Seq<char>) -> Step<Seq<char>> {
    if session_id.len() == 0 {
        logged_out(false)
    } else {
        Step::Ask {
            pending: Pending::LogoutLookup { session_id },
            query: Query::UserOfSession { session_id },
        }
    }
}

/// What the step after `reply` needs from outside the store.
pub open spec fn need(pending: Pending<Seq<char>>, reply: Reply<Seq<char>>) -> Need {
    match (pending, reply) {
        (Pending::SignupCollision { password, .. }, Reply::Exists(false)) => Need::Digest {
            plaintext: password,
        },
        (Pending::LoginUser { password, .. }, Reply::User(Some(user))) => Need::Check {
            plaintext: password,
            digest: user.password_hash,
        },
        (Pending::SessionLookup { .. }, Reply::SessionId(None)) => Need::Token,
        _ => Need::Nothing,
    }
}

/// Whether `supply` is something that the hashing engine or the random
/// source can hand out for `need`.
pub open spec fn fulfils(need: Need, supply: Supply<Seq<char>>) -> bool {
    match need {
        Need::Nothing => supply is Nothing,
        Need::Digest { plaintext } => match supply {
            Supply::Digest(Some(digest)) => hashes_to(plaintext, digest),
            Supply::Digest(None) => true,
            _ => false,
        },
        Need::Check { plaintext, digest } => supply == Supply::<Seq<char>>::Check(
            digest_check(plaintext, digest),
        ),
        Need::Token => supply matches Supply::Token(token) && is_session_token(token),
    }
}

/// The step that follows when the store answers `reply` and `supply` is at
/// hand. A reply of the wrong shape, a failed query and a failure of the
/// hashing engine all end a signup or a login with the internal-error
/// message, and a verification or a logout without success.
pub open spec fn advance(
    pending: Pending<Seq<char>>,
    reply: Reply<Seq<char>>,
    supply: Supply<Seq<char>>,
) -> Step<Seq<char>> {
    match pending {
        Pending::SignupCollision { username, password, email, lease } => match reply {
            Reply::Exists(true) => refused(Notice::DuplicateAccount),
            Reply::Exists(false) => match supply {
                Supply::Digest(Some(digest)) => Step::Ask {
                    pending: Pending::SignupInsert { username, lease },
                    query: Query::InsertUser {
                        username,
                        password_hash: digest,
                        email: stored_email(email),
                    },
                },
                _ => refused(Notice::InternalError),
            },
            _ => refused(Notice::InternalError),
        },
        Pending::SignupInsert { username, lease } => match reply {
            Reply::Done => Step::Ask {
                pending: Pending::SignupUserId { lease },
                query: Query::UserIdByUsername { username },
            },
            _ => refused(Notice::InternalError),
        },
        Pending::SignupUserId { lease } => match reply {
            Reply::UserId(Some(user_id)) => issue(user_id, lease, Greeting::Signup),
            _ => refused(Notice::InternalError),
        },
        Pending::LoginUser { password, lease } => match reply {
            Reply::User(Some(user)) => match supply {
                Supply::Check(Some(true)) => issue(user.id, lease, Greeting::Login),
                Supply::Check(Some(false)) => refused(Notice::IncorrectCredentials),
                _ => refused(Notice::InternalError),
            },
            Reply::User(None) => refused(Notice::IncorrectCredentials),
            _ => refused(Notice::InternalError),
        },
        Pending::SessionLookup { user_id, until, greeting } => match reply {
            Reply::SessionId(Some(session_id)) => Step::Ask {
                pending: Pending::SessionWrite { session_id, greeting },
                query: Query::RenewSession { session_id, expires_at: until },
            },
            Reply::SessionId(None) => match supply {
                Supply::Token(token) => Step::Ask {
                    pending: Pending::SessionWrite { session_id: token, greeting },
                    query: Query::CreateSession { session_id: token, user_id, expires_at: until },
                },
                _ => refused(Notice::InternalError),
            },
            _ => refused(Notice::InternalError),
        },
        Pending::SessionWrite { session_id, greeting } => match reply {
            Reply::Done => granted(greeting, session_id),
            _ => refused(Notice::InternalError),
        },
        Pending::VerifySession => match reply {
            Reply::UserId(Some(user_id)) => Step::Ask {
                pending: Pending::VerifyUsername,
                query: Query::UsernameById { user_id },
            },
            _ => unverified(),
        },
        Pending::VerifyUsername => match reply {
            Reply::Username(Some(username)) => verified(username),
            _ => unverified(),
        },
        Pending::LogoutLookup { session_id } => match reply {
            Reply::UserId(Some(_)) => Step::Ask {
                pending: Pending::LogoutDelete,
                query: Query::DeleteSession { session_id },
            },
            _ => logged_out(false),
        },
        Pending::LogoutDelete => match reply {
            Reply::Done => logged_out(true),
            _ => logged_out(false),
        },
    }
}

/// Whether `reply` has the shape of an answer to the query that `pending`
/// waits for.
pub open spec fn expected(pending: Pending<Seq<char>>, reply: Reply<Seq<char>>) -> bool {
    match pending {
        Pending::SignupCollision { .. } => reply is Exists,
        Pending::SignupInsert { .. } => reply is Done,
        Pending::SignupUserId { .. } => reply is UserId,
        Pending::LoginUser { .. } => reply is User,
        Pending::SessionLookup { .. } => reply is SessionId,
        Pending::SessionWrite { .. } => reply is Done,
        Pending::VerifySession => reply is UserId,
        Pending::VerifyUsername => reply is Username,
        Pending::LogoutLookup { .. } => reply is UserId,
        Pending::LogoutDelete => reply is Done,
    }
}

/// What went wrong in the step after `reply`, if anything did: a failure of
/// the store or of the hashing engine, or rows that do not fit together. An
/// account that is taken, wrong credentials and an unknown or expired
/// session are no faults.
pub open spec fn fault(
    pending: Pending<Seq<char>>,
    reply: Reply<Seq<char>>,
    supply: Supply<Seq<char>>,
) -> Option<Fault> {
    if reply is Failed {
        Some(Fault::StoreFailed)
    } else if !expected(pending, reply) {
        Some(Fault::UnexpectedReply)
    } else {
        match (pending, reply) {
            (Pending::SignupCollision { .. }, Reply::Exists(false)) => match supply {
                Supply::Digest(Some(_)) => None,
                Supply::Digest(None) => Some(Fault::HashingFailed),
                _ => Some(Fault::NothingSupplied),
            },
            (Pending::LoginUser { .. }, Reply::User(Some(_))) => match supply {
                Supply::Check(Some(_)) => None,
                Supply::Check(None) => Some(Fault::HashingFailed),
                _ => Some(Fault::NothingSupplied),
            },
            (Pending::SessionLookup { .. }, Reply::SessionId(None)) => match supply {
                Supply::Token(_) => None,
                _ => Some(Fault::NothingSupplied),
            },
            (Pending::SignupUserId { .. }, Reply::UserId(None)) => Some(Fault::UserMissing),
            (Pending::VerifyUsername, Reply::Username(None)) => Some(Fault::UserMissing),
            _ => None,
        }
    }
}

/// The most queries that an operation can still ask once `pending` is
/// resumed, this one counted.
pub open spec fn queries_left(pending: Pending<Seq<char>>) -> nat {
    match pending {
        Pending::SignupCollision { .. } => 5,
        Pending::SignupInsert { .. } => 4,
        Pending::SignupUserId { .. } => 3,
        Pending::LoginUser { .. } => 3,
        Pending::SessionLookup { .. } => 2,
        Pending::SessionWrite { .. } => 1,
        Pending::VerifySession => 2,
        Pending::VerifyUsername => 1,
        Pending::LogoutLookup { .. } => 2,
        Pending::LogoutDelete => 1,
    }
}

fn refuse(notice: Notice) -> (step: Step<String>)
    ensures
        step@ == refused(notice),
{
    Step::Finish(
        Outcome::Account { success: false, message: notice.wording(), session_id: String::new() },
    )
}

fn grant(greeting: Greeting, session_id: String) -> (step: Step<String>)
    ensures
        step@ == granted(greeting, session_id@),
{
    Step::Finish(
        Outcome::Account { success: true, message: greeting.message().wording(), session_id },
    )
}

fn no_user() -> (step: Step<String>)
    ensures
        step@ == unverified(),
{
    Step::Finish(Outcome::Verify { success: false, username: String::new() })
}

fn length_within(text: &String, low: usize, high: usize) -> (fits: bool)
    ensures
        fits == (low <= text@.len() <= high),
{
    let length = text.as_str().unicode_len();
    low <= length && length <= high
}

fn start_issue(user_id: u64, lease: Lease, greeting: Greeting) -> (step: Step<String>)
    ensures
        step@ == issue(user_id, lease, greeting),
{
    Step::Ask {
        pending: Pending::SessionLookup { user_id, until: lease.until, greeting },
        query: Query::LiveSessionOfUser { user_id, now: lease.now },
    }
}

/// The lease of a request that arrives at `now`.
pub fn lease_from(now: i64) -> (lease: Lease)
    requires
        in_reach(now),
    ensures
        lease == lease_at(now),
{
    Lease { now, until: now + SESSION_LIFETIME }
}

/// Begins handing the user a session: the live one he has, renewed, or else
/// a new one. `greeting` names the operation that wants the session.
pub fn issue_or_renew(user_id: u64, now: i64, greeting: Greeting) -> (step: Step<String>)
    requires
        in_reach(now),
    ensures
        step@ == issue(user_id, lease_at(now), greeting),
{
    start_issue(user_id, lease_from(now), greeting)
}

/// Begins a signup that arrives at `now`.
pub fn begin_signup(username: String, password: String, email: String, now: i64) -> (step: Step<
    String,
>)
    requires
        in_reach(now),
    ensures
        step@ == signup(username@, password@, email@, lease_at(now)),
        !username_fits(username@) || !password_fits(password@) ==> step@ is Finish,
{
    if length_within(&username, 0, 0) || length_within(&password, 0, 0) {
        refuse(Notice::FieldsEmpty)
    } else if !length_within(&username, USERNAME_MIN, USERNAME_MAX) {
        refuse(Notice::UsernameLength)
    } else if !length_within(&password, PASSWORD_MIN, PASSWORD_MAX) {
        refuse(Notice::PasswordLength)
    } else {
        let query = Query::UserExists { username: username.clone(), email: email.clone() };
        Step::Ask {
            pending: Pending::SignupCollision { username, password, email, lease: lease_from(now) },
            query,
        }
    }
}

/// Begins a login that arrives at `now`.
pub fn begin_login(identifier: String, password: String, now: i64) -> (step: Step<String>)
    requires
        in_reach(now),
    ensures
        step@ == login(identifier@, password@, lease_at(now)),
        !username_fits(identifier@) || !password_fits(password@) ==> step@ is Finish,
{
    if !length_within(&identifier, USERNAME_MIN, USERNAME_MAX) {
        refuse(Notice::UsernameLength)
    } else if !length_within(&password, PASSWORD_MIN, PASSWORD_MAX) {
        refuse(Notice::PasswordLength)
    } else {
        Step::Ask {
            pending: Pending::LoginUser { password, lease: lease_from(now) },
            query: Query::UserByIdentifier { identifier },
        }
    }
}

/// Begins the verification of a session at `now`.
pub fn begin_verify(session_id: String, now: i64) -> (step: Step<String>)
    ensures
        step@ == verification(session_id@, now),
{
    if length_within(&session_id, 0, 0) {
        no_user()
    } else {
        Step::Ask {
            pending: Pending::VerifySession,
            query: Query::UserOfLiveSession { session_id, now },
        }
    }
}

/// Begins a logout.
pub fn begin_logout(session_id: String) -> (step: Step<String>)
    ensures
        step@ == logout(session_id@),
{
    if length_within(&session_id, 0, 0) {
        Step::Finish(Outcome::Logout { success: false })
    } else {
        let query = Query::UserOfSession { session_id: session_id.clone() };
        Step::Ask { pending: Pending::LogoutLookup { session_id }, query }
    }
}

impl Pending<String> {
    /// Goes on after the store's reply, with `supply` in place of the hashing
    /// engine and the random source.
    pub fn resume_with(self, reply: Reply<String>, supply: Supply<String>) -> (step: Step<String>)
        ensures
            step@ == advance(self@, reply@, supply@),
            step matches Step::Ask { pending, .. } ==> queries_left(pending@) < queries_left(self@),
    {
        match self {
            Pending::SignupCollision { username, password, email, lease } => match reply {
                Reply::Exists(true) => refuse(Notice::DuplicateAccount),
                Reply::Exists(false) => match supply {
                    Supply::Digest(Some(digest)) => {
                        let email = if length_within(&email, 0, 0) {
                            None
                        } else {
                            Some(email)
                        };
                        let query = Query::InsertUser {
                            username: username.clone(),
                            password_hash: digest,
                            email,
                        };
                        Step::Ask { pending: Pending::SignupInsert { username, lease }, query }
                    },
                    _ => refuse(Notice::InternalError),
                },
                _ => refuse(Notice::InternalError),
            },
            Pending::SignupInsert { username, lease } => match reply {
                Reply::Done => Step::Ask {
                    pending: Pending::SignupUserId { lease },
                    query: Query::UserIdByUsername { username },
                },
                _ => refuse(Notice::InternalError),
            },
            Pending::SignupUserId { lease } => match reply {
                Reply::UserId(Some(user_id)) => start_issue(user_id, lease, Greeting::Signup),
                _ => refuse(Notice::InternalError),
            },
            Pending::LoginUser { password, lease } => match reply {
                Reply::User(Some(user)) => match supply {
                    Supply::Check(Some(true)) => start_issue(user.id, lease, Greeting::Login),
                    Supply::Check(Some(false)) => refuse(Notice::IncorrectCredentials),
                    _ => refuse(Notice::InternalError),
                },
                Reply::User(None) => refuse(Notice::IncorrectCredentials),
                _ => refuse(Notice::InternalError),
            },
            Pending::SessionLookup { user_id, until, greeting } => match reply {
                Reply::SessionId(Some(session_id)) => {
                    let query = Query::RenewSession {
                        session_id: session_id.clone(),
                        expires_at: until,
                    };
                    Step::Ask { pending: Pending::SessionWrite { session_id, greeting }, query }
                },
                Reply::SessionId(None) => match supply {
                    Supply::Token(token) => {
                        let query = Query::CreateSession {
                            session_id: token.clone(),
                            user_id,
                            expires_at: until,
                        };
                        Step::Ask {
                            pending: Pending::SessionWrite { session_id: token, greeting },
                            query,
                        }
                    },
                    _ => refuse(Notice::InternalError),
                },
                _ => refuse(Notice::InternalError),
            },
            Pending::SessionWrite { session_id, greeting } => match reply {
                Reply::Done => grant(greeting, session_id),
                _ => refuse(Notice::InternalError),
            },
            Pending::VerifySession => match reply {
                Reply::UserId(Some(user_id)) => Step::Ask {
                    pending: Pending::VerifyUsername,
                    query: Query::UsernameById { user_id },
                },
                _ => no_user(),
            },
            Pending::VerifyUsername => match reply {
                Reply::Username(Some(username)) => Step::Finish(
                    Outcome::Verify { success: true, username },
                ),
                _ => no_user(),
            },
            Pending::LogoutLookup { session_id } => match reply {
                Reply::UserId(Some(_)) => Step::Ask {
                    pending: Pending::LogoutDelete,
                    query: Query::DeleteSession { session_id },
                },
                _ => Step::Finish(Outcome::Logout { success: false }),
            },
            Pending::LogoutDelete => match reply {
                Reply::Done => Step::Finish(Outcome::Logout { success: true }),
                _ => Step::Finish(Outcome::Logout { success: false }),
            },
        }
    }

    /// Tells what went wrong in the step after `reply`, if anything did.
    pub fn diagnose(&self, reply: &Reply<String>, supply: &Supply<String>) -> (cause: Option<Fault>)
        ensures
            cause == fault(self@, reply@, supply@),
    {
        if let Reply::Failed = reply {
            return Some(Fault::StoreFailed);
        }
        let fits = match self {
            Pending::SignupCollision { .. } => matches!(reply, Reply::Exists(_)),
            Pending::SignupInsert { .. } => matches!(reply, Reply::Done),
            Pending::SignupUserId { .. } => matches!(reply, Reply::UserId(_)),
            Pending::LoginUser { .. } => matches!(reply, Reply::User(_)),
            Pending::SessionLookup { .. } => matches!(reply, Reply::SessionId(_)),
            Pending::SessionWrite { .. } => matches!(reply, Reply::Done),
            Pending::VerifySession => matches!(reply, Reply::UserId(_)),
            Pending::VerifyUsername => matches!(reply, Reply::Username(_)),
            Pending::LogoutLookup { .. } => matches!(reply, Reply::UserId(_)),
            Pending::LogoutDelete => matches!(reply, Reply::Done),
        };
        if !fits {
            return Some(Fault::UnexpectedReply);
        }
        match self {
            Pending::SignupCollision { .. } => match reply {
                Reply::Exists(false) => match supply {
                    Supply::Digest(Some(_)) => None,
                    Supply::Digest(None) => Some(Fault::HashingFailed),
                    _ => Some(Fault::NothingSupplied),
                },
                _ => None,
            },
            Pending::LoginUser { .. } => match reply {
                Reply::User(Some(_)) => match supply {
                    Supply::Check(Some(_)) => None,
                    Supply::Check(None) => Some(Fault::HashingFailed),
                    _ => Some(Fault::NothingSupplied),
                },
                _ => None,
            },
            Pending::SessionLookup { .. } => match reply {
                Reply::SessionId(None) => match supply {
                    Supply::Token(_) => None,
                    _ => Some(Fault::NothingSupplied),
                },
                _ => None,
            },
            Pending::SignupUserId { .. } => match reply {
                Reply::UserId(None) => Some(Fault::UserMissing),
                _ => None,
            },
            Pending::VerifyUsername => match reply {
                Reply::Username(None) => Some(Fault::UserMissing),
                _ => None,
            },
            _ => None,
        }
    }

    /// What the hashing engine or the random source gives for the step after
    /// `reply`: a digest of the new password, the check of the password
    /// against the stored digest, or a new token.
    pub fn provide(&self, reply: &Reply<String>) -> (supply: Supply<String>)
        ensures
            fulfils(need(self@, reply@), supply@),
    {
        match self {
            Pending::SignupCollision { password, .. } => match reply {
                Reply::Exists(false) => match hash(password.as_str()) {
                    Ok(digest) => Supply::Digest(Some(digest)),
                    Err(_) => Supply::Digest(None),
                },
                _ => Supply::Nothing,
            },
            Pending::LoginUser { password, .. } => match reply {
                Reply::User(Some(user)) => match verify(
                    password.as_str(),
                    user.password_hash.as_str(),
                ) {
                    Ok(matches) => Supply::Check(Some(matches)),
                    Err(_) => Supply::Check(None),
                },
                _ => Supply::Nothing,
            },
            Pending::SessionLookup { .. } => match reply {
                Reply::SessionId(None) => Supply::Token(generate_session_id()),
                _ => Supply::Nothing,
            },
            _ => Supply::Nothing,
        }
    }

    /// Goes on after the store's reply.
    pub fn resume(self, reply: Reply<String>) -> (step: Step<String>)
        ensures
            exists|supply: Supply<Seq<char>>| #[trigger]
                fulfils(need(self@, reply@), supply) && step@ == advance(self@, reply@, supply),
            step matches Step::Ask { pending, .. } ==> queries_left(pending@) < queries_left(self@),
    {
        let supply = self.provide(&reply);
        self.resume_with(reply, supply)
    }
}

} // verus!
