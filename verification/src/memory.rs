//! A store that keeps its two tables in memory. It answers every query as
//! the model of the tables says, and fails only where the schema forbids a
//! write.

use crate::script::{reads_succeed, run, steps_left, Turn};
use crate::service::{advance, fulfils, need, Outcome, Step};
use crate::store::{answers, clashes, goes_by, text_view, Query, Reply, Session, Tables, User};
use vstd::prelude::*;

verus! {

/// The users and the sessions, each in the order in which they came. The
/// user in place `i` has the id `i + 1`.
pub struct MemoryStore {
    users: Vec<User<String>>,
    sessions: Vec<Session<String>>,
}

spec fn users_fit(rows: Seq<User<String>>) -> bool {
    &&& forall|i: int| 0 <= i < rows.len() ==> (#[trigger] rows[i]).id == i + 1
    &&& forall|i: int, j: int|
        #![trigger rows[i], rows[j]]
        0 <= i < j < rows.len() ==> !clashes(rows[i]@, rows[j].username@, text_view(rows[j].email))
}

spec fn sessions_fit(rows: Seq<Session<String>>) -> bool {
    forall|i: int, j: int|
        #![trigger rows[i], rows[j]]
        0 <= i < j < rows.len() ==> rows[i].session_id@ != rows[j].session_id@
}

spec fn user_table(rows: Seq<User<String>>) -> Map<u64, User<Seq<char>>> {
    Map::new(|id: u64| 1 <= id <= rows.len(), |id: u64| rows[id - 1]@)
}

spec fn holds(rows: Seq<Session<String>>, sid: Seq<char>) -> bool {
    exists|i: int| 0 <= i < rows.len() && (#[trigger] rows[i]).session_id@ == sid
}

spec fn place(rows: Seq<Session<String>>, sid: Seq<char>) -> int {
    choose|i: int| 0 <= i < rows.len() && (#[trigger] rows[i]).session_id@ == sid
}

spec fn session_table(rows: Seq<Session<String>>) -> Map<Seq<char>, Session<Seq<char>>> {
    Map::new(|sid: Seq<char>| holds(rows, sid), |sid: Seq<char>| rows[place(rows, sid)]@)
}

/// Each row is found in the table under its own session id.
proof fn rows_are_in_table(rows: Seq<Session<String>>)
    requires
        sessions_fit(rows),
    ensures
        forall|i: int|
            0 <= i < rows.len() ==> session_table(rows).dom().contains(
                (#[trigger] rows[i]).session_id@,
            ) && session_table(rows)[rows[i].session_id@] == rows[i]@,
{
    assert forall|i: int| 0 <= i < rows.len() implies session_table(rows).dom().contains(
        (#[trigger] rows[i]).session_id@,
    ) && session_table(rows)[rows[i].session_id@] == rows[i]@ by {
        let sid = rows[i].session_id@;
        assert(holds(rows, sid));
        let at = place(rows, sid);
        assert(at == i) by {
            if at < i {
                assert(rows[at].session_id@ != rows[i].session_id@);
            } else if i < at {
                assert(rows[i].session_id@ != rows[at].session_id@);
            }
        }
    }
}

/// Tables made of fitting rows meet the schema's constraints.
proof fn fitting_rows_are_consistent(users: Seq<User<String>>, sessions: Seq<Session<String>>)
    requires
        users_fit(users),
        sessions_fit(sessions),
    ensures
        (Tables { users: user_table(users), sessions: session_table(sessions) }).consistent(),
{
    let tables = Tables { users: user_table(users), sessions: session_table(sessions) };
    rows_are_in_table(sessions);
    assert forall|a: u64, b: u64|
        #![trigger tables.users[a], tables.users[b]]
        tables.users.dom().contains(a) && tables.users.dom().contains(b) && a != b implies {
        &&& tables.users[a].username != tables.users[b].username
        &&& tables.users[a].email is Some ==> tables.users[a].email != tables.users[b].email
    } by {
        let (i, j) = if a < b {
            (a - 1, b - 1)
        } else {
            (b - 1, a - 1)
        };
        assert(!clashes(users[i]@, users[j].username@, text_view(users[j].email)));
    }
    assert forall|sid: Seq<char>| #[trigger]
        tables.sessions.dom().contains(sid) implies tables.sessions[sid].session_id == sid by {
        assert(holds(sessions, sid));
    }
}

/// Adding a row under a session id that no row has adds it to the table.
proof fn push_adds_session(rows: Seq<Session<String>>, row: Session<String>)
    requires
        sessions_fit(rows),
        !holds(rows, row.session_id@),
    ensures
        sessions_fit(rows.push(row)),
        session_table(rows.push(row)) =~= session_table(rows).insert(row.session_id@, row@),
{
    let grown = rows.push(row);
    assert forall|i: int, j: int|
        #![trigger grown[i], grown[j]]
        0 <= i < j < grown.len() implies grown[i].session_id@ != grown[j].session_id@ by {
        if j == rows.len() {
            assert(rows[i].session_id@ != row.session_id@);
        } else {
            assert(rows[i].session_id@ != rows[j].session_id@);
        }
    }
    rows_are_in_table(rows);
    rows_are_in_table(grown);
    assert forall|sid: Seq<char>| holds(grown, sid) <==> holds(rows, sid) || sid
        == row.session_id@ by {
        if holds(grown, sid) {
            let i = place(grown, sid);
            if i < rows.len() {
                assert(rows[i].session_id@ == sid);
            }
        }
        if holds(rows, sid) {
            let i = place(rows, sid);
            assert(grown[i].session_id@ == sid);
        }
        if sid == row.session_id@ {
            assert(grown[rows.len() as int].session_id@ == sid);
        }
    }
    assert forall|sid: Seq<char>| holds(rows, sid) implies session_table(grown)[sid]
        == session_table(rows)[sid] by {
        let i = place(rows, sid);
        assert(grown[i] == rows[i]);
    }
    assert(grown[rows.len() as int] == row);
}

/// Replacing a row by one with the same session id replaces it in the table.
proof fn update_replaces_session(rows: Seq<Session<String>>, at: int, row: Session<String>)
    requires
        sessions_fit(rows),
        0 <= at < rows.len(),
        rows[at].session_id@ == row.session_id@,
    ensures
        sessions_fit(rows.update(at, row)),
        session_table(rows.update(at, row)) =~= session_table(rows).insert(row.session_id@, row@),
{
    let changed = rows.update(at, row);
    assert forall|i: int, j: int|
        #![trigger changed[i], changed[j]]
        0 <= i < j < changed.len() implies changed[i].session_id@ != changed[j].session_id@ by {
        assert(rows[i].session_id@ != rows[j].session_id@);
    }
    rows_are_in_table(rows);
    rows_are_in_table(changed);
    assert forall|sid: Seq<char>| holds(changed, sid) <==> holds(rows, sid) by {
        if holds(changed, sid) {
            let i = place(changed, sid);
            assert(rows[i].session_id@ == sid);
        }
        if holds(rows, sid) {
            let i = place(rows, sid);
            assert(changed[i].session_id@ == sid);
        }
    }
    assert(holds(rows, row.session_id@)) by {
        assert(rows[at].session_id@ == row.session_id@);
    }
    assert forall|sid: Seq<char>| holds(rows, sid) && sid != row.session_id@ implies session_table(
        changed,
    )[sid] == session_table(rows)[sid] by {
        let i = place(rows, sid);
        assert(changed[i] == rows[i]);
    }
    assert(changed[at] == row);
}

/// Taking a row out takes its session out of the table.
proof fn remove_drops_session(rows: Seq<Session<String>>, at: int)
    requires
        sessions_fit(rows),
        0 <= at < rows.len(),
    ensures
        sessions_fit(rows.remove(at)),
        session_table(rows.remove(at)) =~= session_table(rows).remove(rows[at].session_id@),
{
    let fewer = rows.remove(at);
    let gone = rows[at].session_id@;
    assert forall|i: int| 0 <= i < fewer.len() implies (#[trigger] fewer[i]) == rows[if i < at {
        i
    } else {
        i + 1
    }] by {}
    assert forall|i: int, j: int|
        #![trigger fewer[i], fewer[j]]
        0 <= i < j < fewer.len() implies fewer[i].session_id@ != fewer[j].session_id@ by {
        let a = if i < at {
            i
        } else {
            i + 1
        };
        let b = if j < at {
            j
        } else {
            j + 1
        };
        assert(rows[a].session_id@ != rows[b].session_id@);
    }
    rows_are_in_table(rows);
    rows_are_in_table(fewer);
    assert forall|sid: Seq<char>| holds(fewer, sid) <==> holds(rows, sid) && sid != gone by {
        if holds(fewer, sid) {
            let i = place(fewer, sid);
            let a = if i < at {
                i
            } else {
                i + 1
            };
            assert(rows[a].session_id@ == sid);
            if a < at {
                assert(rows[a].session_id@ != rows[at].session_id@);
            } else {
                assert(rows[at].session_id@ != rows[a].session_id@);
            }
        }
        if holds(rows, sid) && sid != gone {
            let i = place(rows, sid);
            let a = if i < at {
                i
            } else {
                i - 1
            };
            assert(fewer[a].session_id@ == sid);
        }
    }
    assert forall|sid: Seq<char>| holds(fewer, sid) implies session_table(fewer)[sid]
        == session_table(rows)[sid] by {
        let i = place(fewer, sid);
        let a = if i < at {
            i
        } else {
            i + 1
        };
        assert(fewer[i] == rows[a]);
    }
}

/// Whether tables of this store have no id left for a new user: ids are
/// given out in order, and the last one is taken.
pub open spec fn out_of_ids(tables: Tables) -> bool {
    tables.users.dom().contains(u64::MAX)
}

/// Whether this store refuses `query` on `tables`: a new user whose username
/// or email is taken, or for whom no id is left, and a new session whose id
/// is taken. It refuses nothing else.
pub open spec fn refused_in(tables: Tables, query: Query<Seq<char>>) -> bool {
    match query {
        Query::InsertUser { username, email, .. } => tables.taken(username, email) || out_of_ids(
            tables,
        ),
        Query::CreateSession { session_id, .. } => tables.sessions.dom().contains(session_id),
        _ => false,
    }
}

/// The tables on which the query of turn `i` is asked, in a run that begins
/// on `tables`.
pub open spec fn tables_before(tables: Tables, script: Seq<Turn>, i: int) -> Tables {
    if i == 0 {
        tables
    } else {
        script[i - 1].after
    }
}

/// The tables at the end of a run that begins on `tables`.
pub open spec fn tables_after(tables: Tables, script: Seq<Turn>) -> Tables {
    tables_before(tables, script, script.len() as int)
}

/// Whether the queries that fail in the run are those that this store
/// refuses, and no others.
pub open spec fn fails_where_refused(tables: Tables, script: Seq<Turn>) -> bool {
    forall|i: int|
        0 <= i < script.len() ==> ((#[trigger] script[i]).reply is Failed <==> refused_in(
            tables_before(tables, script, i),
            script[i].query,
        ))
}

/// No read fails in a run in which only what this store refuses fails.
pub proof fn refusals_spare_reads(tables: Tables, script: Seq<Turn>)
    requires
        fails_where_refused(tables, script),
    ensures
        reads_succeed(script),
{
}

/// A run that begins with `turn` and goes on with `rest` is a run of the
/// step that asked, if `rest` is a run of the step that follows.
proof fn run_unfolds(
    step: Step<Seq<char>>,
    tables: Tables,
    turn: Turn,
    rest: Seq<Turn>,
)
    requires
        step matches Step::Ask { pending, query } && turn.query == query && answers(
            tables,
            query,
            turn.after,
            turn.reply,
        ) && fulfils(need(pending, turn.reply), turn.supply),
    ensures
        step matches Step::Ask { pending, .. } && run(step, tables, seq![turn] + rest) == run(
            advance(pending, turn.reply, turn.supply),
            turn.after,
            rest,
        ),
{
    let script = seq![turn] + rest;
    assert(script[0] == turn);
    assert(script.drop_first() =~= rest);
}

impl MemoryStore {
    /// Whether the rows are as the store keeps them: ids in order, and no
    /// username, email or session id twice.
    pub closed spec fn wf(&self) -> bool {
        users_fit(self.users@) && sessions_fit(self.sessions@)
    }

    /// The tables that the store holds.
    pub closed spec fn view(&self) -> Tables {
        Tables { users: user_table(self.users@), sessions: session_table(self.sessions@) }
    }

    /// The tables of a well-formed store meet the schema's constraints.
    pub proof fn tables_are_consistent(&self)
        requires
            self.wf(),
        ensures
            self@.consistent(),
    {
        fitting_rows_are_consistent(self.users@, self.sessions@);
    }

    /// Whether the store has given out every id it has.
    pub open spec fn full(&self) -> bool {
        out_of_ids(self@)
    }

    /// A store without users and without sessions.
    pub fn new() -> (store: MemoryStore)
        ensures
            store@.users =~= Map::empty(),
            store@.sessions =~= Map::empty(),
            store.wf(),
            store@.sound(),
            !store.full(),
    {
        MemoryStore { users: Vec::new(), sessions: Vec::new() }
    }

    fn clash_at(&self, username: &String, email: &Option<String>) -> (at: Option<usize>)
        requires
            self.wf(),
        ensures
            match at {
                Some(i) => i < self.users@.len() && clashes(
                    self.users@[i as int]@,
                    username@,
                    text_view(*email),
                ),
                None => forall|i: int|
                    0 <= i < self.users@.len() ==> !clashes(
                        (#[trigger] self.users@[i])@,
                        username@,
                        text_view(*email),
                    ),
            },
    {
        let mut i: usize = 0;
        while i < self.users.len()
            invariant
                self.wf(),
                i <= self.users@.len(),
                forall|k: int|
                    0 <= k < i ==> !clashes(
                        (#[trigger] self.users@[k])@,
                        username@,
                        text_view(*email),
                    ),
            decreases self.users@.len() - i,
        {
            let same_name = self.users[i].username == *username;
            let same_email = match (&self.users[i].email, email) {
                (Some(theirs), Some(ours)) => *theirs == *ours,
                _ => false,
            };
            if same_name || same_email {
                return Some(i);
            }
            i = i + 1;
        }
        None
    }

    /// Whether a user holds the username, or the email.
    pub fn exists_by_username_or_email(&self, username: &String, email: &String) -> (found: bool)
        requires
            self.wf(),
        ensures
            found == self@.taken(username@, Some(email@)),
    {
        let wanted = Some(email.clone());
        match self.clash_at(username, &wanted) {
            Some(i) => {
                proof {
                    let id = self.users@[i as int].id;
                    assert(self@.users.dom().contains(id));
                    assert(self@.users[id] == self.users@[i as int]@);
                }
                true
            },
            None => {
                assert forall|id: u64| self@.users.dom().contains(id) implies !clashes(
                    #[trigger] self@.users[id],
                    username@,
                    Some(email@),
                ) by {
                    assert(self@.users[id] == self.users@[id - 1]@);
                }
                false
            },
        }
    }

    /// Adds a user and returns the id that the user got. Where the username
    /// or the email is taken, or no id is left, nothing is added.
    pub fn insert(&mut self, username: String, password_hash: String, email: Option<String>) -> (id:
        Option<u64>)
        requires
            old(self).wf(),
        ensures
            final(self).wf(),
            id is None <==> old(self)@.taken(username@, text_view(email)) || old(self).full(),
            id is None ==> final(self)@ == old(self)@,
            id matches Some(new_id) ==> !old(self)@.users.dom().contains(new_id) && final(self)@
                == old(self)@.with_user(
                User {
                    id: new_id,
                    username: username@,
                    email: text_view(email),
                    password_hash: password_hash@,
                },
            ),
            final(self)@.consistent(),
    {
        proof {
            fitting_rows_are_consistent(self.users@, self.sessions@);
        }
        match self.clash_at(&username, &email) {
            Some(i) => {
                proof {
                    let clashing = self.users@[i as int].id;
                    assert(self@.users.dom().contains(clashing));
                    assert(self@.users[clashing] == self.users@[i as int]@);
                }
                return None;
            },
            None => {
                assert forall|id: u64| self@.users.dom().contains(id) implies !clashes(
                    #[trigger] self@.users[id],
                    username@,
                    text_view(email),
                ) by {
                    assert(self@.users[id] == self.users@[id - 1]@);
                }
            },
        }
        let count = self.users.len();
        if count as u64 >= u64::MAX {
            return None;
        }
        let new_id: u64 = count as u64 + 1;
        let ghost user = User {
            id: new_id,
            username: username@,
            email: text_view(email),
            password_hash: password_hash@,
        };
        let ghost before = self.users@;
        self.users.push(User { id: new_id, username, email, password_hash });
        proof {
            assert(users_fit(self.users@)) by {
                assert forall|i: int, j: int|
                    #![trigger self.users@[i], self.users@[j]]
                    0 <= i < j < self.users@.len() implies !clashes(
                    self.users@[i]@,
                    self.users@[j].username@,
                    text_view(self.users@[j].email),
                ) by {
                    if j < count {
                        assert(!clashes(before[i]@, before[j].username@, text_view(before[j].email)));
                    } else {
                        assert(!clashes(before[i]@, user.username, user.email));
                    }
                }
            }
            assert(user_table(self.users@) =~= user_table(before).insert(new_id, user));
            fitting_rows_are_consistent(self.users@, self.sessions@);
        }
        Some(new_id)
    }

    /// The id of the user called `username`.
    pub fn find_id_by_username(&self, username: &String) -> (found: Option<u64>)
        requires
            self.wf(),
        ensures
            match found {
                Some(id) => self@.named(id, username@),
                None => self@.nobody_named(username@),
            },
    {
        let mut i: usize = 0;
        while i < self.users.len()
            invariant
                self.wf(),
                i <= self.users@.len(),
                forall|k: int| 0 <= k < i ==> (#[trigger] self.users@[k]).username@ != username@,
            decreases self.users@.len() - i,
        {
            if self.users[i].username == *username {
                proof {
                    let id = self.users@[i as int].id;
                    assert(self@.users[id] == self.users@[i as int]@);
                }
                return Some(self.users[i].id);
            }
            i = i + 1;
        }
        assert forall|id: u64| !#[trigger] self@.named(id, username@) by {
            if self@.users.dom().contains(id) {
                assert(self@.users[id] == self.users@[id - 1]@);
            }
        }
        None
    }

    /// The user who goes by `identifier`, as username or as email: the one
    /// of the least id, where there are two.
    pub fn find_by_username_or_email(&self, identifier: &String) -> (found: Option<User<String>>)
        requires
            self.wf(),
        ensures
            match found {
                Some(user) => {
                    &&& self@.users.dom().contains(user.id)
                    &&& self@.users[user.id] == user@
                    &&& goes_by(user@, identifier@)
                    &&& forall|id: u64|
                        id < user.id && self@.users.dom().contains(id) ==> !goes_by(
                            #[trigger] self@.users[id],
                            identifier@,
                        )
                },
                None => !self@.knows(identifier@),
            },
    {
        let mut i: usize = 0;
        while i < self.users.len()
            invariant
                self.wf(),
                i <= self.users@.len(),
                forall|k: int| 0 <= k < i ==> !goes_by((#[trigger] self.users@[k])@, identifier@),
            decreases self.users@.len() - i,
        {
            let row = &self.users[i];
            let by_name = row.username == *identifier;
            let by_email = match &row.email {
                Some(email) => *email == *identifier,
                None => false,
            };
            if by_name || by_email {
                let email = match &row.email {
                    Some(email) => Some(email.clone()),
                    None => None,
                };
                let user = User {
                    id: row.id,
                    username: row.username.clone(),
                    email,
                    password_hash: row.password_hash.clone(),
                };
                proof {
                    assert(self@.users[row.id] == self.users@[i as int]@);
                    assert forall|id: u64|
                        id < user.id && self@.users.dom().contains(id) implies !goes_by(
                        #[trigger] self@.users[id],
                        identifier@,
                    ) by {
                        assert(self@.users[id] == self.users@[id - 1]@);
                    }
                }
                return Some(user);
            }
            i = i + 1;
        }
        assert forall|id: u64| self@.users.dom().contains(id) implies !goes_by(
            #[trigger] self@.users[id],
            identifier@,
        ) by {
            assert(self@.users[id] == self.users@[id - 1]@);
        }
        None
    }

    /// The username of the user with this id.
    pub fn find_username_by_id(&self, user_id: u64) -> (found: Option<String>)
        requires
            self.wf(),
        ensures
            text_view(found) == if self@.users.dom().contains(user_id) {
                Some(self@.users[user_id].username)
            } else {
                None
            },
    {
        if 1 <= user_id && user_id - 1 < self.users.len() as u64 {
            let at = (user_id - 1) as usize;
            Some(self.users[at].username.clone())
        } else {
            None
        }
    }

    fn session_at(&self, session_id: &String) -> (at: Option<usize>)
        requires
            self.wf(),
        ensures
            match at {
                Some(i) => i < self.sessions@.len() && self.sessions@[i as int].session_id@
                    == session_id@ && self@.sessions.dom().contains(session_id@)
                    && self@.sessions[session_id@] == self.sessions@[i as int]@,
                None => !self@.sessions.dom().contains(session_id@),
            },
    {
        let mut i: usize = 0;
        while i < self.sessions.len()
            invariant
                self.wf(),
                i <= self.sessions@.len(),
                forall|k: int|
                    0 <= k < i ==> (#[trigger] self.sessions@[k]).session_id@ != session_id@,
            decreases self.sessions@.len() - i,
        {
            if self.sessions[i].session_id == *session_id {
                proof {
                    rows_are_in_table(self.sessions@);
                }
                return Some(i);
            }
            i = i + 1;
        }
        None
    }

    /// A session of the user that is live at `now`.
    pub fn find_live_session(&self, user_id: u64, now: i64) -> (found: Option<String>)
        requires
            self.wf(),
        ensures
            match found {
                Some(session_id) => self@.live_session_of(session_id@, user_id, now),
                None => self@.no_live_session(user_id, now),
            },
    {
        proof {
            rows_are_in_table(self.sessions@);
        }
        let mut i: usize = 0;
        while i < self.sessions.len()
            invariant
                self.wf(),
                i <= self.sessions@.len(),
                forall|k: int|
                    0 <= k < i ==> !((#[trigger] self.sessions@[k]).user_id == user_id
                        && self.sessions@[k].expires_at > now),
            decreases self.sessions@.len() - i,
        {
            if self.sessions[i].user_id == user_id && self.sessions[i].expires_at > now {
                proof {
                    rows_are_in_table(self.sessions@);
                }
                return Some(self.sessions[i].session_id.clone());
            }
            i = i + 1;
        }
        assert forall|sid: Seq<char>| !#[trigger] self@.live_session_of(sid, user_id, now) by {
            if self@.sessions.dom().contains(sid) {
                assert(holds(self.sessions@, sid));
                let k = place(self.sessions@, sid);
                assert(self@.sessions[sid] == self.sessions@[k]@);
            }
        }
        None
    }

    /// Sets the expiry of the session; does nothing where there is no such
    /// session.
    pub fn renew(&mut self, session_id: &String, expires_at: i64)
        requires
            old(self).wf(),
        ensures
            final(self).wf(),
            final(self)@ == old(self)@.renewed(session_id@, expires_at),
            final(self).full() == old(self).full(),
    {
        match self.session_at(session_id) {
            Some(i) => {
                let row = Session {
                    session_id: self.sessions[i].session_id.clone(),
                    user_id: self.sessions[i].user_id,
                    expires_at,
                };
                proof {
                    update_replaces_session(self.sessions@, i as int, row);
                }
                self.sessions.set(i, row);
            },
            None => {},
        }
    }

    /// Adds a session, unless there is one of that id already. Tells whether
    /// it was added.
    pub fn create(&mut self, session_id: String, user_id: u64, expires_at: i64) -> (created: bool)
        requires
            old(self).wf(),
        ensures
            final(self).wf(),
            created == !old(self)@.sessions.dom().contains(session_id@),
            created ==> final(self)@ == old(self)@.with_session(
                Session { session_id: session_id@, user_id, expires_at },
            ),
            !created ==> final(self)@ == old(self)@,
            final(self).full() == old(self).full(),
    {
        match self.session_at(&session_id) {
            Some(_) => false,
            None => {
                let row = Session { session_id, user_id, expires_at };
                proof {
                    push_adds_session(self.sessions@, row);
                }
                self.sessions.push(row);
                true
            },
        }
    }

    /// The owner of the session, if it is live at `now`.
    pub fn find_user_by_live_session(&self, session_id: &String, now: i64) -> (owner: Option<u64>)
        requires
            self.wf(),
        ensures
            owner == self@.live_owner(session_id@, now),
    {
        match self.session_at(session_id) {
            Some(i) => if self.sessions[i].expires_at > now {
                Some(self.sessions[i].user_id)
            } else {
                None
            },
            None => None,
        }
    }

    /// The owner of the session, live or not.
    pub fn find_user_by_session_id(&self, session_id: &String) -> (owner: Option<u64>)
        requires
            self.wf(),
        ensures
            owner == self@.owner(session_id@),
    {
        match self.session_at(session_id) {
            Some(i) => Some(self.sessions[i].user_id),
            None => None,
        }
    }

    /// Removes the session; does nothing where there is no such session.
    pub fn delete(&mut self, session_id: &String)
        requires
            old(self).wf(),
        ensures
            final(self).wf(),
            final(self)@ == old(self)@.without_session(session_id@),
            final(self).full() == old(self).full(),
    {
        match self.session_at(session_id) {
            Some(i) => {
                proof {
                    remove_drops_session(self.sessions@, i as int);
                }
                let _ = self.sessions.remove(i);
            },
            None => {
                assert(self@.sessions.remove(session_id@) =~= self@.sessions);
            },
        }
    }

    /// Whether the store fails on `query`: it does so on a write that the
    /// schema forbids, and on nothing else.
    pub open spec fn refuses(&self, query: Query<Seq<char>>) -> bool {
        refused_in(self@, query)
    }

    /// Carries `query` out and gives the reply.
    pub fn answer(&mut self, query: &Query<String>) -> (reply: Reply<String>)
        requires
            old(self).wf(),
        ensures
            final(self).wf(),
            answers(old(self)@, query@, final(self)@, reply@),
            reply@ is Failed <==> old(self).refuses(query@),
    {
        match query {
            Query::UserExists { username, email } => Reply::Exists(
                self.exists_by_username_or_email(username, email),
            ),
            Query::InsertUser { username, password_hash, email } => {
                let email = match email {
                    Some(email) => Some(email.clone()),
                    None => None,
                };
                match self.insert(username.clone(), password_hash.clone(), email) {
                    Some(_) => Reply::Done,
                    None => Reply::Failed,
                }
            },
            Query::UserIdByUsername { username } => Reply::UserId(self.find_id_by_username(username)),
            Query::UserByIdentifier { identifier } => Reply::User(
                self.find_by_username_or_email(identifier),
            ),
            Query::UsernameById { user_id } => Reply::Username(self.find_username_by_id(*user_id)),
            Query::LiveSessionOfUser { user_id, now } => Reply::SessionId(
                self.find_live_session(*user_id, *now),
            ),
            Query::RenewSession { session_id, expires_at } => {
                self.renew(session_id, *expires_at);
                Reply::Done
            },
            Query::CreateSession { session_id, user_id, expires_at } => {
                if self.create(session_id.clone(), *user_id, *expires_at) {
                    Reply::Done
                } else {
                    Reply::Failed
                }
            },
            Query::UserOfLiveSession { session_id, now } => Reply::UserId(
                self.find_user_by_live_session(session_id, *now),
            ),
            Query::UserOfSession { session_id } => Reply::UserId(
                self.find_user_by_session_id(session_id),
            ),
            Query::DeleteSession { session_id } => {
                self.delete(session_id);
                Reply::Done
            },
        }
    }

    /// Serves an operation to its end: answers each query that the service
    /// asks and resumes the service with the reply. What comes out is the
    /// response of a run of the operation against the tables of this store,
    /// a run in which a query fails where the store refuses it, and nowhere
    /// else: no read fails, and no write that the schema allows.
    pub fn serve(&mut self, step: Step<String>) -> (outcome: Outcome<String>)
        requires
            old(self).wf(),
        ensures
            final(self).wf(),
            exists|script: Seq<Turn>|
                {
                    &&& #[trigger] run(step@, old(self)@, script) == Some((outcome@, final(self)@))
                    &&& fails_where_refused(old(self)@, script)
                    &&& reads_succeed(script)
                },
    {
        let ghost script: Seq<Turn> = Seq::empty();
        let mut current = step;
        loop
            invariant
                self.wf(),
                self@ == tables_after(old(self)@, script),
                fails_where_refused(old(self)@, script),
                reads_succeed(script),
                forall|rest: Seq<Turn>| #[trigger]
                    run(current@, self@, rest) is Some ==> run(step@, old(self)@, script + rest)
                        == run(current@, self@, rest),
            decreases steps_left(current@),
        {
            match current {
                Step::Finish(outcome) => {
                    proof {
                        let done = Seq::<Turn>::empty();
                        assert(run(current@, self@, done) == Some((outcome@, self@)));
                        assert(script + done =~= script);
                    }
                    return outcome;
                },
                Step::Ask { pending, query } => {
                    let ghost asked = current@;
                    let ghost before = self@;
                    let reply = self.answer(&query);
                    let supply = pending.provide(&reply);
                    let ghost turn = Turn {
                        query: query@,
                        reply: reply@,
                        supply: supply@,
                        after: self@,
                    };
                    current = pending.resume_with(reply, supply);
                    proof {
                        assert forall|rest: Seq<Turn>| #[trigger]
                            run(current@, self@, rest) is Some implies run(
                            step@,
                            old(self)@,
                            script.push(turn) + rest,
                        ) == run(current@, self@, rest) by {
                            run_unfolds(asked, before, turn, rest);
                            assert(script.push(turn) + rest =~= script + (seq![turn] + rest));
                        }
                        let longer = script.push(turn);
                        assert forall|i: int| 0 <= i < longer.len() implies ((#[trigger] longer[i]).reply
                            is Failed <==> refused_in(
                            tables_before(old(self)@, longer, i),
                            longer[i].query,
                        )) by {
                            if i < script.len() {
                                assert(longer[i] == script[i]);
                                assert(tables_before(old(self)@, longer, i) == tables_before(
                                    old(self)@,
                                    script,
                                    i,
                                ));
                            } else {
                                assert(tables_before(old(self)@, longer, i) == before);
                            }
                        }
                        script = longer;
                    }
                },
            }
        }
    }
}

} // verus!
