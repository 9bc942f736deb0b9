//! What the operations do, whatever the store holds and whichever of the
//! right answers it gives.

use crate::hasher::{digest_check, hashes_to};
use crate::notice::{notices_differ, Notice};
use crate::script::{only_reads, run, unfailing, Turn};
use crate::service::{
    advance, fault, fulfils, granted, in_reach, issue, lease_at, logged_out, login, logout, need,
    password_fits, refused, signup, stored_email, unverified, username_fits, verification,
    verified, Greeting, Lease, Outcome, Pending, Step, Supply, SESSION_LIFETIME,
};
use crate::store::{clashes, goes_by, Query, Reply, Session, Tables, User};
use crate::token::is_session_token;
use vstd::prelude::*;

verus! {

/// Signup and login turn down a username or a password whose length is out
/// of bounds without asking the store anything, and login does so with the
/// response of signup. (Where a field is empty, signup says so; login has
/// no message of its own for that, and speaks of the length.)
pub proof fn bad_lengths_never_reach_the_store(
    username: Seq<char>,
    password: Seq<char>,
    email: Seq<char>,
    lease: Lease,
)
    requires
        !username_fits(username) || !password_fits(password),
    ensures
        signup(username, password, email, lease) matches Step::Finish(
            Outcome::Account { success, session_id, .. },
        ) && !success && session_id.len() == 0,
        login(username, password, lease) matches Step::Finish(
            Outcome::Account { success, session_id, .. },
        ) && !success && session_id.len() == 0,
        username.len() > 0 && password.len() > 0 ==> login(username, password, lease) == signup(
            username,
            password,
            email,
            lease,
        ),
{
}

/// Whether `pending` belongs to a signup or a login, the session it ends
/// with included.
pub open spec fn serves_account(pending: Pending<Seq<char>>) -> bool {
    !(pending is VerifySession || pending is VerifyUsername || pending is LogoutLookup
        || pending is LogoutDelete)
}

/// A signup or a login ends with the internal-error message where something
/// went wrong, and nowhere else. A verification that something went wrong in
/// finds no user, and such a logout reports no success.
pub proof fn internal_errors_have_a_cause(
    pending: Pending<Seq<char>>,
    reply: Reply<Seq<char>>,
    supply: Supply<Seq<char>>,
)
    ensures
        serves_account(pending) ==> (fault(pending, reply, supply) is Some <==> advance(
            pending,
            reply,
            supply,
        ) == refused(Notice::InternalError)),
        pending is VerifySession || pending is VerifyUsername ==> (fault(pending, reply, supply)
            is Some ==> advance(pending, reply, supply) == unverified()),
        pending is LogoutLookup || pending is LogoutDelete ==> (fault(pending, reply, supply)
            is Some ==> advance(pending, reply, supply) == logged_out(false)),
{
    notices_differ(Notice::DuplicateAccount, Notice::InternalError);
    notices_differ(Notice::IncorrectCredentials, Notice::InternalError);
}

/// What a signup hands to the store is a digest of the password, never the
/// password: sixty characters that begin with the scheme and its work
/// factor, and that the password checks against.
pub proof fn signup_stores_a_digest(
    username: Seq<char>,
    password: Seq<char>,
    email: Seq<char>,
    lease: Lease,
    reply: Reply<Seq<char>>,
    supply: Supply<Seq<char>>,
)
    requires
        fulfils(need(Pending::SignupCollision { username, password, email, lease }, reply), supply),
    ensures
        advance(Pending::SignupCollision { username, password, email, lease }, reply, supply)
            matches Step::Ask { query: Query::InsertUser { password_hash, .. }, .. } ==> hashes_to(
            password,
            password_hash,
        ),
{
}

/// A signup whose username or email is taken ends without a session and
/// leaves the tables as they were; unless the store fails, it ends with the
/// duplicate-account message.
pub proof fn duplicate_signup_is_rejected(
    tables: Tables,
    username: Seq<char>,
    password: Seq<char>,
    email: Seq<char>,
    lease: Lease,
    script: Seq<Turn>,
    outcome: Outcome<Seq<char>>,
    after: Tables,
)
    requires
        username_fits(username),
        password_fits(password),
        tables.taken(username, Some(email)),
        run(signup(username, password, email, lease), tables, script) == Some((outcome, after)),
    ensures
        after == tables,
        script.len() == 1,
        Step::Finish(outcome) == if script[0].reply is Failed {
            refused(Notice::InternalError)
        } else {
            refused(Notice::DuplicateAccount)
        },
{
    reveal_with_fuel(run, 3);
}

/// A login with a wrong password is answered exactly as a login with an
/// identifier that nobody goes by: with the same message, without a session,
/// and with no change to the tables. (Both while the store does not fail.)
pub proof fn failed_logins_look_alike(
    tables: Tables,
    identifier: Seq<char>,
    password: Seq<char>,
    lease: Lease,
    script: Seq<Turn>,
    outcome: Outcome<Seq<char>>,
    after: Tables,
    other_tables: Tables,
    other_identifier: Seq<char>,
    other_password: Seq<char>,
    other_lease: Lease,
    other_script: Seq<Turn>,
    other_outcome: Outcome<Seq<char>>,
    other_after: Tables,
)
    requires
        username_fits(identifier),
        password_fits(password),
        username_fits(other_identifier),
        password_fits(other_password),
        run(login(identifier, password, lease), tables, script) == Some((outcome, after)),
        run(login(other_identifier, other_password, other_lease), other_tables, other_script)
            == Some((other_outcome, other_after)),
        unfailing(script),
        unfailing(other_script),
        // the first login names a user and has the password wrong
        forall|id: u64|
            tables.users.dom().contains(id) && goes_by(#[trigger] tables.users[id], identifier)
                ==> digest_check(password, tables.users[id].password_hash) == Some(false),
        // the second names nobody
        !other_tables.knows(other_identifier),
    ensures
        outcome == other_outcome,
        Step::Finish(outcome) == refused(Notice::IncorrectCredentials),
        after == tables,
        other_after == other_tables,
{
    reveal_with_fuel(run, 3);
}

/// Verification of a session that does not exist, or that has expired, ends
/// without a user, whatever the store does.
pub proof fn expired_session_does_not_verify(
    tables: Tables,
    session_id: Seq<char>,
    now: i64,
    script: Seq<Turn>,
    outcome: Outcome<Seq<char>>,
    after: Tables,
)
    requires
        tables.live_owner(session_id, now) is None,
        run(verification(session_id, now), tables, script) == Some((outcome, after)),
    ensures
        Step::Finish(outcome) == unverified(),
        after == tables,
{
    reveal_with_fuel(run, 3);
}

/// Verification only reads: it asks for the owner of the session and for
/// the owner's username, and leaves the tables as they are.
pub proof fn verification_only_reads(
    tables: Tables,
    session_id: Seq<char>,
    now: i64,
    script: Seq<Turn>,
    outcome: Outcome<Seq<char>>,
    after: Tables,
)
    requires
        run(verification(session_id, now), tables, script) == Some((outcome, after)),
    ensures
        only_reads(script),
        script.len() <= 2,
        after == tables,
{
    reveal_with_fuel(run, 4);
}

/// Logout of a session that does not exist reports no success and changes
/// nothing.
pub proof fn unknown_session_does_not_log_out(
    tables: Tables,
    session_id: Seq<char>,
    script: Seq<Turn>,
    outcome: Outcome<Seq<char>>,
    after: Tables,
)
    requires
        !tables.sessions.dom().contains(session_id),
        run(logout(session_id), tables, script) == Some((outcome, after)),
    ensures
        outcome == (Outcome::<Seq<char>>::Logout { success: false }),
        after == tables,
{
    reveal_with_fuel(run, 3);
}

/// After a logout that reported success, the session is gone, and no
/// verification of it finds a user.
pub proof fn logged_out_session_does_not_verify(
    tables: Tables,
    session_id: Seq<char>,
    logout_script: Seq<Turn>,
    after_logout: Tables,
    now: i64,
    verify_script: Seq<Turn>,
    outcome: Outcome<Seq<char>>,
    after: Tables,
)
    requires
        run(logout(session_id), tables, logout_script) == Some(
            (Outcome::<Seq<char>>::Logout { success: true }, after_logout),
        ),
        run(verification(session_id, now), after_logout, verify_script) == Some((outcome, after)),
    ensures
        after_logout == tables.without_session(session_id),
        Step::Finish(outcome) == unverified(),
{
    reveal_with_fuel(run, 3);
}

/// The session that a signup returns verifies to the username that signed
/// up, as long as the session has not expired and the store does not fail.
/// (No session of the store may go without a name: a user who has one is
/// handed that one, and an empty session id verifies to nobody.)
pub proof fn signup_session_verifies(
    tables: Tables,
    username: Seq<char>,
    password: Seq<char>,
    email: Seq<char>,
    now: i64,
    signup_script: Seq<Turn>,
    message: Seq<char>,
    session_id: Seq<char>,
    after_signup: Tables,
    later: i64,
    verify_script: Seq<Turn>,
    outcome: Outcome<Seq<char>>,
    after: Tables,
)
    requires
        tables.names_sessions(),
        in_reach(now),
        run(signup(username, password, email, lease_at(now)), tables, signup_script) == Some(
            (Outcome::Account { success: true, message, session_id }, after_signup),
        ),
        later < now + SESSION_LIFETIME,
        run(verification(session_id, later), after_signup, verify_script) == Some((outcome, after)),
        unfailing(verify_script),
    ensures
        Step::Finish(outcome) == verified(username),
{
    reveal_with_fuel(run, 7);
}

/// A signup that succeeds adds one user and one session, and changes
/// nothing else. The user has the username, the email as the store keeps it
/// and a digest of the password, under an id that was free. The session is
/// new, bears the token that the signup returns, belongs to the new user and
/// expires seven days after the signup. (Every session of the store must
/// belong to a user: a live session that waits for the new id would be
/// renewed in place of a new one.)
pub proof fn signup_adds_one_user_and_one_session(
    tables: Tables,
    username: Seq<char>,
    password: Seq<char>,
    email: Seq<char>,
    now: i64,
    script: Seq<Turn>,
    message: Seq<char>,
    session_id: Seq<char>,
    after: Tables,
)
    requires
        tables.sessions_belong(),
        in_reach(now),
        run(signup(username, password, email, lease_at(now)), tables, script) == Some(
            (Outcome::Account { success: true, message, session_id }, after),
        ),
    ensures
        is_session_token(session_id),
        !tables.sessions.dom().contains(session_id),
        after.sessions.dom().contains(session_id),
        after.sessions =~= tables.sessions.insert(
            session_id,
            Session {
                session_id,
                user_id: after.sessions[session_id].user_id,
                expires_at: (now + SESSION_LIFETIME) as i64,
            },
        ),
        !tables.users.dom().contains(after.sessions[session_id].user_id),
        after.users.dom().contains(after.sessions[session_id].user_id),
        after.users =~= tables.users.insert(
            after.sessions[session_id].user_id,
            User {
                id: after.sessions[session_id].user_id,
                username,
                email: stored_email(email),
                password_hash: after.users[after.sessions[session_id].user_id].password_hash,
            },
        ),
        hashes_to(password, after.users[after.sessions[session_id].user_id].password_hash),
{
    reveal_with_fuel(run, 7);
    let insert = script[1];
    let lookup = script[3];
    let id = script[2].reply->UserId_0->0;
    assert(!tables.taken(username, Some(email)));
    assert(insert.after.named(id, username));
    if tables.users.dom().contains(id) {
        assert(clashes(tables.users[id], username, Some(email)));
    }
    assert(insert.after.sessions =~= tables.sessions);
    match lookup.reply {
        Reply::SessionId(Some(sid)) => {
            assert(tables.live_session_of(sid, id, now));
        },
        _ => {},
    }
}

/// Two renewals in a row give the user the same session, and the second
/// does not shorten it. The second has to come while the session of the
/// first is live, and the user may not have had two live sessions to begin
/// with.
pub proof fn renewal_keeps_the_session(
    tables: Tables,
    user_id: u64,
    first: i64,
    first_greeting: Greeting,
    first_script: Seq<Turn>,
    first_message: Seq<char>,
    first_id: Seq<char>,
    between: Tables,
    second: i64,
    second_greeting: Greeting,
    second_script: Seq<Turn>,
    second_message: Seq<char>,
    second_id: Seq<char>,
    after: Tables,
)
    requires
        tables.single_session(user_id, first),
        first <= second < first + SESSION_LIFETIME,
        in_reach(second),
        run(issue(user_id, lease_at(first), first_greeting), tables, first_script) == Some(
            (
                Outcome::Account { success: true, message: first_message, session_id: first_id },
                between,
            ),
        ),
        run(issue(user_id, lease_at(second), second_greeting), between, second_script) == Some(
            (
                Outcome::Account { success: true, message: second_message, session_id: second_id },
                after,
            ),
        ),
    ensures
        second_id == first_id,
        between.sessions.dom().contains(first_id),
        after.sessions.dom().contains(first_id),
        between.sessions[first_id].expires_at == first + SESSION_LIFETIME,
        after.sessions[first_id].expires_at == second + SESSION_LIFETIME,
        between.sessions[first_id].expires_at <= after.sessions[first_id].expires_at,
{
    reveal_with_fuel(run, 4);
    assert(between.live_session_of(first_id, user_id, second));
    if second_id != first_id {
        assert(tables.live_session_of(second_id, user_id, first));
    }
}

/// After a signup, a login with the same username and password succeeds,
/// and while the session of the signup is live it returns that session. No
/// other user may have the username for an email, no user may have had two
/// live sessions to begin with, and the store may not fail during the login.
pub proof fn login_after_signup_shares_the_session(
    tables: Tables,
    username: Seq<char>,
    password: Seq<char>,
    email: Seq<char>,
    now: i64,
    signup_script: Seq<Turn>,
    signup_message: Seq<char>,
    session_id: Seq<char>,
    after_signup: Tables,
    later: i64,
    login_script: Seq<Turn>,
    outcome: Outcome<Seq<char>>,
    after: Tables,
)
    requires
        tables.single_sessions(now),
        forall|id: u64|
            tables.users.dom().contains(id) ==> (#[trigger] tables.users[id]).email != Some(
                username,
            ),
        now <= later < now + SESSION_LIFETIME,
        in_reach(later),
        run(signup(username, password, email, lease_at(now)), tables, signup_script) == Some(
            (
                Outcome::Account { success: true, message: signup_message, session_id },
                after_signup,
            ),
        ),
        run(login(username, password, lease_at(later)), after_signup, login_script) == Some(
            (outcome, after),
        ),
        unfailing(login_script),
    ensures
        Step::Finish(outcome) == granted(Greeting::Login, session_id),
{
    reveal_with_fuel(run, 7);
    let insert = signup_script[1];
    let lookup = signup_script[3];
    let id = signup_script[2].reply->UserId_0->0;
    // the signup leaves the user one live session, the one it returned
    assert(after_signup.live_session_of(session_id, id, later));
    assert(tables.single_session(id, now));
    assert forall|a: Seq<char>| #[trigger]
        after_signup.live_session_of(a, id, later) implies a == session_id by {
        if a != session_id {
            assert(tables.live_session_of(a, id, now));
            assert(insert.after.live_session_of(a, id, now));
            match lookup.reply {
                Reply::SessionId(Some(sid)) => {
                    assert(tables.live_session_of(sid, id, now));
                },
                _ => {},
            }
        }
    }
    // the login finds the new user, whose digest the password checks against
    assert(login_script[0].reply matches Reply::User(Some(user)) && user.id == id && hashes_to(
        password,
        user.password_hash,
    )) by {
        assert(after_signup.knows(username));
    }
    assert(login_script[1].reply matches Reply::SessionId(Some(sid)) && sid == session_id);
}

} // verus!
