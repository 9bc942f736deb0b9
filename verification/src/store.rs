//! The backing store, seen from the service: the records it keeps, the
//! queries the service asks of it, the replies it gives, and a mathematical
//! model of the two tables that says which replies are right.
//!
//! The types are generic in their text. Executable code uses them with
//! `String`, specifications with `Seq<char>`, and the view maps one to the
//! other.

use vstd::prelude::*;

verus! {

/// A registered account.
#[derive(Debug, Clone, PartialEq, Eq)]
pub struct User<S> {
    pub id: u64,
    pub username: S,
    pub email: Option<S>,
    pub password_hash: S,
}

/// A session handed to a user, valid until `expires_at` (seconds since the
/// epoch).
#[derive(Debug, Clone, PartialEq, Eq)]
pub struct Session<S> {
    pub session_id: S,
    pub user_id: u64,
    pub expires_at: i64,
}

/// One request to the store.
#[allow(inconsistent_fields)]
#[derive(Debug, Clone, PartialEq, Eq)]
pub enum Query<S> {
    /// Is there a user with this username, or with this email?
    UserExists { username: S, email: S },
    /// Add a user; the store assigns the id.
    InsertUser { username: S, password_hash: S, email: Option<S> },
    /// The id of the user with this username.
    UserIdByUsername { username: S },
    /// A user whose username or email is the identifier.
    UserByIdentifier { identifier: S },
    /// The username of the user with this id.
    UsernameById { user_id: u64 },
    /// A session of this user that is live at `now`.
    LiveSessionOfUser { user_id: u64, now: i64 },
    /// Set the expiry of this session.
    RenewSession { session_id: S, expires_at: i64 },
    /// Add a session.
    CreateSession { session_id: S, user_id: u64, expires_at: i64 },
    /// The owner of this session, if it is live at `now`.
    UserOfLiveSession { session_id: S, now: i64 },
    /// The owner of this session, live or not.
    UserOfSession { session_id: S },
    /// Remove this session.
    DeleteSession { session_id: S },
}

/// What the store answers.
#[derive(Debug, Clone, PartialEq, Eq)]
pub enum Reply<S> {
    /// The store could not carry the query out.
    Failed,
    /// A write was carried out.
    Done,
    Exists(bool),
    UserId(Option<u64>),
    User(Option<User<S>>),
    Username(Option<S>),
    SessionId(Option<S>),
}

/// The view of an optional text.
pub open spec fn text_view(text: Option<String>) -> Option<Seq<char>> {
    match text {
        Some(t) => Some(t@),
        None => None,
    }
}

impl View for User<String> {
    type V = User<Seq<char>>;

    open spec fn view(&self) -> User<Seq<char>> {
        User {
            id: self.id,
            username: self.username@,
            email: text_view(self.email),
            password_hash: self.password_hash@,
        }
    }
}

impl View for Session<String> {
    type V = Session<Seq<char>>;

    open spec fn view(&self) -> Session<Seq<char>> {
        Session { session_id: self.session_id@, user_id: self.user_id, expires_at: self.expires_at }
    }
}

impl View for Query<String> {
    type V = Query<Seq<char>>;

    open spec fn view(&self) -> Query<Seq<char>> {
        match *self {
            Query::UserExists { username, email } => Query::UserExists {
                username: username@,
                email: email@,
            },
            Query::InsertUser { username, password_hash, email } => Query::InsertUser {
                username: username@,
                password_hash: password_hash@,
                email: text_view(email),
            },
            Query::UserIdByUsername { username } => Query::UserIdByUsername { username: username@ },
            Query::UserByIdentifier { identifier } => Query::UserByIdentifier {
                identifier: identifier@,
            },
            Query::UsernameById { user_id } => Query::UsernameById { user_id },
            Query::LiveSessionOfUser { user_id, now } => Query::LiveSessionOfUser { user_id, now },
            Query::RenewSession { session_id, expires_at } => Query::RenewSession {
                session_id: session_id@,
                expires_at,
            },
            Query::CreateSession { session_id, user_id, expires_at } => Query::CreateSession {
                session_id: session_id@,
                user_id,
                expires_at,
            },
            Query::UserOfLiveSession { session_id, now } => Query::UserOfLiveSession {
                session_id: session_id@,
                now,
            },
            Query::UserOfSession { session_id } => Query::UserOfSession { session_id: session_id@ },
            Query::DeleteSession { session_id } => Query::DeleteSession { session_id: session_id@ },
        }
    }
}

impl View for Reply<String> {
    type V = Reply<Seq<char>>;

    open spec fn view(&self) -> Reply<Seq<char>> {
        match *self {
            Reply::Failed => Reply::Failed,
            Reply::Done => Reply::Done,
            Reply::Exists(found) => Reply::Exists(found),
            Reply::UserId(id) => Reply::UserId(id),
            Reply::User(user) => Reply::User(
                match user {
                    Some(u) => Some(u@),
                    None => None,
                },
            ),
            Reply::Username(name) => Reply::Username(text_view(name)),
            Reply::SessionId(id) => Reply::SessionId(text_view(id)),
        }
    }
}

/// The two tables of the store: users by id, sessions by session id.
pub ghost struct Tables {
    pub users: Map<u64, User<Seq<char>>>,
    pub sessions: Map<Seq<char>, Session<Seq<char>>>,
}

/// Whether `user` goes by `identifier`, as username or as email.
pub open spec fn goes_by(user: User<Seq<char>>, identifier: Seq<char>) -> bool {
    user.username == identifier || user.email == Some(identifier)
}

/// Whether `user` already holds the username or the email of a new account.
pub open spec fn clashes(user: User<Seq<char>>, username: Seq<char>, email: Option<Seq<char>>) -> bool {
    user.username == username || (email is Some && user.email == email)
}

/// A session is live while its expiry lies strictly after the present.
pub open spec fn live(session: Session<Seq<char>>, now: i64) -> bool {
    session.expires_at > now
}

impl Tables {
    /// The constraints of the schema: a row is stored under its own key,
    /// usernames are unique, and so are the emails that are present.
    pub open spec fn consistent(self) -> bool {
        &&& forall|id: u64| #[trigger] self.users.dom().contains(id) ==> self.users[id].id == id
        &&& forall|a: u64, b: u64|
            #![trigger self.users[a], self.users[b]]
            self.users.dom().contains(a) && self.users.dom().contains(b) && a != b ==> {
                &&& self.users[a].username != self.users[b].username
                &&& self.users[a].email is Some ==> self.users[a].email != self.users[b].email
            }
        &&& forall|sid: Seq<char>| #[trigger]
            self.sessions.dom().contains(sid) ==> self.sessions[sid].session_id == sid
    }

    /// Whether every session has a name: no session id is empty.
    pub open spec fn names_sessions(self) -> bool {
        forall|sid: Seq<char>| #[trigger] self.sessions.dom().contains(sid) ==> sid.len() > 0
    }

    /// Whether every session belongs to a user of the store.
    pub open spec fn sessions_belong(self) -> bool {
        forall|sid: Seq<char>| #[trigger]
            self.sessions.dom().contains(sid) ==> self.users.dom().contains(
                self.sessions[sid].user_id,
            )
    }

    /// What holds of a store that only this service has written to: the
    /// schema's constraints, no session without a name, and none without a
    /// user.
    pub open spec fn sound(self) -> bool {
        self.consistent() && self.names_sessions() && self.sessions_belong()
    }

    /// Whether some user goes by `identifier`.
    pub open spec fn knows(self, identifier: Seq<char>) -> bool {
        exists|id: u64| self.users.dom().contains(id) && goes_by(#[trigger] self.users[id], identifier)
    }

    /// Whether some user holds the username or the email.
    pub open spec fn taken(self, username: Seq<char>, email: Option<Seq<char>>) -> bool {
        exists|id: u64|
            self.users.dom().contains(id) && clashes(#[trigger] self.users[id], username, email)
    }

    /// Whether `id` is the id of the user called `username`.
    pub open spec fn named(self, id: u64, username: Seq<char>) -> bool {
        self.users.dom().contains(id) && self.users[id].username == username
    }

    /// Whether no user is called `username`.
    pub open spec fn nobody_named(self, username: Seq<char>) -> bool {
        forall|id: u64| !#[trigger] self.named(id, username)
    }

    /// Whether `after` holds what these tables hold and one more user, made
    /// of the three texts, under an id that was free.
    pub open spec fn gains_user(
        self,
        after: Tables,
        username: Seq<char>,
        password_hash: Seq<char>,
        email: Option<Seq<char>>,
    ) -> bool {
        exists|id: u64|
            !self.users.dom().contains(id) && after.same(
                #[trigger] self.with_user(User { id, username, email, password_hash }),
            )
    }

    /// Whether the user has no session that is live at `now`.
    pub open spec fn no_live_session(self, user_id: u64, now: i64) -> bool {
        forall|sid: Seq<char>| !#[trigger] self.live_session_of(sid, user_id, now)
    }

    /// Whether the session `sid` exists, belongs to `user_id` and is live at `now`.
    pub open spec fn live_session_of(self, sid: Seq<char>, user_id: u64, now: i64) -> bool {
        &&& self.sessions.dom().contains(sid)
        &&& self.sessions[sid].user_id == user_id
        &&& live(self.sessions[sid], now)
    }

    /// Whether the user has at most one session that is live at `now`.
    pub open spec fn single_session(self, user_id: u64, now: i64) -> bool {
        forall|a: Seq<char>, b: Seq<char>|
            #![trigger self.live_session_of(a, user_id, now), self.live_session_of(b, user_id, now)]
            self.live_session_of(a, user_id, now) && self.live_session_of(b, user_id, now) ==> a
                == b
    }

    /// Whether no user has two sessions that are live at `now`.
    pub open spec fn single_sessions(self, now: i64) -> bool {
        forall|user_id: u64| #[trigger] self.single_session(user_id, now)
    }

    /// The owner of session `sid`, if the session exists.
    pub open spec fn owner(self, sid: Seq<char>) -> Option<u64> {
        if self.sessions.dom().contains(sid) {
            Some(self.sessions[sid].user_id)
        } else {
            None
        }
    }

    /// The owner of session `sid`, if the session exists and is live at `now`.
    pub open spec fn live_owner(self, sid: Seq<char>, now: i64) -> Option<u64> {
        if self.sessions.dom().contains(sid) && live(self.sessions[sid], now) {
            Some(self.sessions[sid].user_id)
        } else {
            None
        }
    }

    /// The tables with one more user.
    pub open spec fn with_user(self, user: User<Seq<char>>) -> Tables {
        Tables { users: self.users.insert(user.id, user), sessions: self.sessions }
    }

    /// The tables with `session` stored under its id.
    pub open spec fn with_session(self, session: Session<Seq<char>>) -> Tables {
        Tables { users: self.users, sessions: self.sessions.insert(session.session_id, session) }
    }

    /// The tables after the expiry of session `sid` is set; unchanged where
    /// there is no such session.
    pub open spec fn renewed(self, sid: Seq<char>, expires_at: i64) -> Tables {
        if self.sessions.dom().contains(sid) {
            self.with_session(
                Session { session_id: sid, user_id: self.sessions[sid].user_id, expires_at },
            )
        } else {
            self
        }
    }

    /// The tables without session `sid`.
    pub open spec fn without_session(self, sid: Seq<char>) -> Tables {
        Tables { users: self.users, sessions: self.sessions.remove(sid) }
    }

    /// Whether the two hold the same rows.
    pub open spec fn same(self, other: Tables) -> bool {
        self.users =~= other.users && self.sessions =~= other.sessions
    }
}

/// Whether a store that holds `before` may give `reply` to `query` and hold
/// `after` from then on.
///
/// Any query may fail, and a failed query changes nothing. A read that does
/// not fail reports what the tables hold; where several rows fit, any of them
/// may be reported. A write that does not fail has its effect, and it can only
/// be carried out where the schema allows it: a new user needs an unused id,
/// username and email, a new session an unused session id.
pub open spec fn answers(
    before: Tables,
    query: Query<Seq<char>>,
    after: Tables,
    reply: Reply<Seq<char>>,
) -> bool {
    if reply is Failed {
        after.same(before)
    } else {
        match query {
            Query::UserExists { username, email } => {
                &&& after.same(before)
                &&& reply == Reply::<Seq<char>>::Exists(before.taken(username, Some(email)))
            },
            Query::InsertUser { username, password_hash, email } => {
                &&& reply is Done
                &&& !before.taken(username, email)
                &&& before.gains_user(after, username, password_hash, email)
            },
            Query::UserIdByUsername { username } => {
                &&& after.same(before)
                &&& reply matches Reply::UserId(found)
                &&& match found {
                    Some(id) => before.named(id, username),
                    None => before.nobody_named(username),
                }
            },
            Query::UserByIdentifier { identifier } => {
                &&& after.same(before)
                &&& reply matches Reply::User(found)
                &&& match found {
                    Some(user) => before.users.dom().contains(user.id) && before.users[user.id]
                        == user && goes_by(user, identifier),
                    None => !before.knows(identifier),
                }
            },
            Query::UsernameById { user_id } => {
                &&& after.same(before)
                &&& reply == Reply::Username(
                    if before.users.dom().contains(user_id) {
                        Some(before.users[user_id].username)
                    } else {
                        None
                    },
                )
            },
            Query::LiveSessionOfUser { user_id, now } => {
                &&& after.same(before)
                &&& reply matches Reply::SessionId(found)
                &&& match found {
                    Some(sid) => before.live_session_of(sid, user_id, now),
                    None => before.no_live_session(user_id, now),
                }
            },
            Query::RenewSession { session_id, expires_at } => {
                &&& reply is Done
                &&& after.same(before.renewed(session_id, expires_at))
            },
            Query::CreateSession { session_id, user_id, expires_at } => {
                &&& reply is Done
                &&& !before.sessions.dom().contains(session_id)
                &&& after.same(before.with_session(Session { session_id, user_id, expires_at }))
            },
            Query::UserOfLiveSession { session_id, now } => {
                &&& after.same(before)
                &&& reply == Reply::<Seq<char>>::UserId(before.live_owner(session_id, now))
            },
            Query::UserOfSession { session_id } => {
                &&& after.same(before)
                &&& reply == Reply::<Seq<char>>::UserId(before.owner(session_id))
            },
            Query::DeleteSession { session_id } => {
                &&& reply is Done
                &&& after.same(before.without_session(session_id))
            },
        }
    }
}

/// Whether `query` leaves the tables as they are, whatever the reply.
pub open spec fn reads_only(query: Query<Seq<char>>) -> bool {
    !(query is InsertUser || query is RenewSession || query is CreateSession || query is DeleteSession)
}

/// A store that answers rightly keeps the schema's constraints.
pub proof fn answers_keep_consistency(
    before: Tables,
    query: Query<Seq<char>>,
    after: Tables,
    reply: Reply<Seq<char>>,
)
    requires
        before.consistent(),
        answers(before, query, after, reply),
    ensures
        after.consistent(),
        reads_only(query) ==> after == before,
{
}

} // verus!
