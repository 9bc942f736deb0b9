//! What every run of the service keeps: the shape of the response, the
//! users, the soundness of the tables, and one live session at most for each
//! user.

use crate::script::{run, Turn};
use crate::service::{
    advance, fulfils, issue, login, logout, need, signup, verification, Greeting, Lease, Outcome,
    Pending, Step, Supply,
};
use crate::store::{answers, answers_keep_consistency, live, Query, Reply, Tables};
use vstd::prelude::*;

verus! {

/// The three shapes of a response.
pub ghost enum Shape {
    Account,
    Verify,
    Logout,
}

/// The shape of the response that the operation at `step` ends with.
pub open spec fn shape(step: Step<Seq<char>>) -> Shape {
    match step {
        Step::Finish(Outcome::Account { .. }) => Shape::Account,
        Step::Finish(Outcome::Verify { .. }) => Shape::Verify,
        Step::Finish(Outcome::Logout { .. }) => Shape::Logout,
        Step::Ask { pending, .. } => match pending {
            Pending::VerifySession | Pending::VerifyUsername => Shape::Verify,
            Pending::LogoutLookup { .. } | Pending::LogoutDelete => Shape::Logout,
            _ => Shape::Account,
        },
    }
}

/// Every operation answers in its own shape: a signup, a login and the
/// session manager with an account response, a verification with a
/// verification response, a logout with a logout response.
pub proof fn operations_answer_in_shape(
    username: Seq<char>,
    password: Seq<char>,
    email: Seq<char>,
    session_id: Seq<char>,
    user_id: u64,
    lease: Lease,
    greeting: Greeting,
)
    ensures
        shape(signup(username, password, email, lease)) == Shape::Account,
        shape(login(username, password, lease)) == Shape::Account,
        shape(issue(user_id, lease, greeting)) == Shape::Account,
        shape(verification(session_id, lease.now)) == Shape::Verify,
        shape(logout(session_id)) == Shape::Logout,
{
}

/// A run ends with a response of the shape that its first step has.
pub proof fn run_keeps_shape(
    step: Step<Seq<char>>,
    tables: Tables,
    script: Seq<Turn>,
    outcome: Outcome<Seq<char>>,
    after: Tables,
)
    requires
        run(step, tables, script) == Some((outcome, after)),
    ensures
        shape(Step::Finish(outcome)) == shape(step),
    decreases script.len(),
{
    match step {
        Step::Finish(_) => {},
        Step::Ask { pending, query } => {
            let turn = script[0];
            run_keeps_shape(
                advance(pending, turn.reply, turn.supply),
                turn.after,
                script.drop_first(),
                outcome,
                after,
            );
        },
    }
}

/// No operation changes or removes a user: whoever was in the tables before
/// a run is in them afterwards, unchanged.
pub proof fn run_keeps_users(
    step: Step<Seq<char>>,
    tables: Tables,
    script: Seq<Turn>,
    outcome: Outcome<Seq<char>>,
    after: Tables,
)
    requires
        run(step, tables, script) == Some((outcome, after)),
    ensures
        forall|id: u64| #[trigger]
            tables.users.dom().contains(id) ==> after.users.dom().contains(id) && after.users[id]
                == tables.users[id],
    decreases script.len(),
{
    match step {
        Step::Finish(_) => {},
        Step::Ask { pending, query } => {
            let turn = script[0];
            run_keeps_users(
                advance(pending, turn.reply, turn.supply),
                turn.after,
                script.drop_first(),
                outcome,
                after,
            );
            assert forall|id: u64| #[trigger] tables.users.dom().contains(id) implies after.users.dom().contains(
                id,
            ) && after.users[id] == tables.users[id] by {
                assert(turn.after.users.dom().contains(id));
                assert(turn.after.users[id] == tables.users[id]);
            }
        },
    }
}

/// Whether `step` suits `tables`: a session that it creates has a name, and
/// the user that it creates or looks up a session for is a user of the
/// tables.
pub open spec fn in_order(step: Step<Seq<char>>, tables: Tables) -> bool {
    step matches Step::Ask { pending, query } ==> {
        &&& query matches Query::CreateSession { session_id, user_id, .. } ==> session_id.len() > 0
            && tables.users.dom().contains(user_id)
        &&& pending matches Pending::SessionLookup { user_id, .. } ==> tables.users.dom().contains(
            user_id,
        )
    }
}

/// The first step of a signup, a login, a verification and a logout is in
/// order whatever the tables hold; that of the session manager is so for a
/// user of the tables.
pub proof fn first_steps_are_in_order(
    tables: Tables,
    username: Seq<char>,
    password: Seq<char>,
    email: Seq<char>,
    session_id: Seq<char>,
    user_id: u64,
    lease: Lease,
    greeting: Greeting,
)
    ensures
        in_order(signup(username, password, email, lease), tables),
        in_order(login(username, password, lease), tables),
        in_order(verification(session_id, lease.now), tables),
        in_order(logout(session_id), tables),
        tables.users.dom().contains(user_id) ==> in_order(issue(user_id, lease, greeting), tables),
{
}

/// The step that follows a step in order is in order: a new session gets a
/// token for a name, and the user it is for is one that the store has just
/// reported.
pub proof fn next_step_is_in_order(
    pending: Pending<Seq<char>>,
    query: Query<Seq<char>>,
    tables: Tables,
    reply: Reply<Seq<char>>,
    supply: Supply<Seq<char>>,
    after: Tables,
)
    requires
        tables.sessions_belong(),
        in_order(Step::Ask { pending, query }, tables),
        answers(tables, query, after, reply),
        fulfils(need(pending, reply), supply),
    ensures
        in_order(advance(pending, reply, supply), after),
{
}

/// A run of the service leaves a sound store sound: the schema's constraints
/// hold on, every session has a name, and every session has a user.
pub proof fn run_keeps_soundness(
    step: Step<Seq<char>>,
    tables: Tables,
    script: Seq<Turn>,
    outcome: Outcome<Seq<char>>,
    after: Tables,
)
    requires
        tables.sound(),
        in_order(step, tables),
        run(step, tables, script) == Some((outcome, after)),
    ensures
        after.sound(),
    decreases script.len(),
{
    match step {
        Step::Finish(_) => {},
        Step::Ask { pending, query } => {
            let turn = script[0];
            let next = advance(pending, turn.reply, turn.supply);
            answers_keep_consistency(tables, query, turn.after, turn.reply);
            next_step_is_in_order(pending, query, tables, turn.reply, turn.supply, turn.after);
            assert(turn.after.sessions_belong());
            run_keeps_soundness(next, turn.after, script.drop_first(), outcome, after);
        },
    }
}

/// Whether carrying `query` out on `tables` cannot give a user a second
/// session that is live at `now`: a session is created only for a user who
/// has none, and renewed only while it is live.
pub open spec fn spares_single_sessions(query: Query<Seq<char>>, tables: Tables, now: i64) -> bool {
    match query {
        Query::CreateSession { user_id, .. } => tables.no_live_session(user_id, now),
        Query::RenewSession { session_id, .. } => tables.sessions.dom().contains(session_id)
            ==> live(tables.sessions[session_id], now),
        _ => true,
    }
}

/// Whether `step` belongs to a request that arrived at `now`, and asks
/// nothing that could give a user a second live session.
pub open spec fn on_time(step: Step<Seq<char>>, tables: Tables, now: i64) -> bool {
    step matches Step::Ask { pending, query } ==> spares_single_sessions(query, tables, now)
        && match pending {
        Pending::SignupCollision { lease, .. } => lease.now == now,
        Pending::SignupInsert { lease, .. } => lease.now == now,
        Pending::SignupUserId { lease } => lease.now == now,
        Pending::LoginUser { lease, .. } => lease.now == now,
        Pending::SessionLookup { user_id, .. } => query == (Query::<Seq<char>>::LiveSessionOfUser {
            user_id,
            now,
        }),
        _ => true,
    }
}

/// The first step of every operation is on time for the moment at which the
/// request arrived.
pub proof fn service_begins_on_time(
    tables: Tables,
    username: Seq<char>,
    password: Seq<char>,
    email: Seq<char>,
    session_id: Seq<char>,
    user_id: u64,
    lease: Lease,
    greeting: Greeting,
)
    ensures
        on_time(signup(username, password, email, lease), tables, lease.now),
        on_time(login(username, password, lease), tables, lease.now),
        on_time(verification(session_id, lease.now), tables, lease.now),
        on_time(logout(session_id), tables, lease.now),
        on_time(issue(user_id, lease, greeting), tables, lease.now),
{
}

/// As time goes by sessions expire, and none comes to life: tables without
/// a user of two live sessions stay so.
pub proof fn single_sessions_last(tables: Tables, now: i64, later: i64)
    requires
        tables.single_sessions(now),
        now <= later,
    ensures
        tables.single_sessions(later),
{
    assert forall|user_id: u64| #[trigger] tables.single_session(user_id, later) by {
        assert(tables.single_session(user_id, now));
        assert forall|a: Seq<char>, b: Seq<char>|
            tables.live_session_of(a, user_id, later) && tables.live_session_of(
                b,
                user_id,
                later,
            ) implies a == b by {
            assert(tables.live_session_of(a, user_id, now));
            assert(tables.live_session_of(b, user_id, now));
        }
    }
}

/// The find-or-renew protocol keeps every user at one live session at most:
/// where no user has two sessions that are live when a request arrives, none
/// has two when the request has been served. This holds of requests served
/// one after the other; two that run at once can both create a session.
pub proof fn run_keeps_single_sessions(
    step: Step<Seq<char>>,
    tables: Tables,
    script: Seq<Turn>,
    outcome: Outcome<Seq<char>>,
    after: Tables,
    now: i64,
)
    requires
        tables.single_sessions(now),
        on_time(step, tables, now),
        run(step, tables, script) == Some((outcome, after)),
    ensures
        after.single_sessions(now),
    decreases script.len(),
{
    match step {
        Step::Finish(_) => {},
        Step::Ask { pending, query } => {
            let turn = script[0];
            let next = advance(pending, turn.reply, turn.supply);
            assert(turn.after.single_sessions(now)) by {
                assert forall|user_id: u64| #[trigger] turn.after.single_session(user_id, now) by {
                    assert(tables.single_session(user_id, now));
                    assert forall|a: Seq<char>, b: Seq<char>|
                        turn.after.live_session_of(a, user_id, now) && turn.after.live_session_of(
                            b,
                            user_id,
                            now,
                        ) implies a == b by {
                        if a != b {
                            match query {
                                Query::CreateSession { session_id, user_id: owner, .. } => {
                                    if a == session_id || b == session_id {
                                        let other = if a == session_id {
                                            b
                                        } else {
                                            a
                                        };
                                        assert(tables.live_session_of(other, owner, now));
                                    }
                                },
                                _ => {},
                            }
                            assert(tables.live_session_of(a, user_id, now));
                            assert(tables.live_session_of(b, user_id, now));
                        }
                    }
                }
            }
            assert(on_time(next, turn.after, now));
            run_keeps_single_sessions(next, turn.after, script.drop_first(), outcome, after, now);
        },
    }
}

} // verus!
