//! Runs of the service against a store that answers rightly.
//!
//! A run of an operation is written down as a script: for each query, in the
//! order asked, the query, the store's reply, what the hashing engine or the
//! random source supplied for the next step, and the tables after the query.

use crate::service::{advance, fulfils, need, queries_left, Outcome, Step, Supply};
use crate::store::{answers, reads_only, Query, Reply, Tables};
use vstd::prelude::*;

verus! {

/// One exchange with the store.
pub ghost struct Turn {
    pub query: Query<Seq<char>>,
    pub reply: Reply<Seq<char>>,
    pub supply: Supply<Seq<char>>,
    pub after: Tables,
}

/// The response and the tables at the end of `script`, when `script` is a
/// complete run of the operation that stands at `step` against a store that
/// holds `tables`: the store answers each query rightly, each supply is one
/// that the step can get, and the script ends where the operation does.
/// `None` when it is no such run.
pub open spec fn run(step: Step<Seq<char>>, tables: Tables, script: Seq<Turn>) -> Option<
    (Outcome<Seq<char>>, Tables),
>
    decreases script.len(),
{
    match step {
        Step::Finish(outcome) => if script.len() == 0 {
            Some((outcome, tables))
        } else {
            None
        },
        Step::Ask { pending, query } => if script.len() > 0 && script[0].query == query && answers(
            tables,
            query,
            script[0].after,
            script[0].reply,
        ) && fulfils(need(pending, script[0].reply), script[0].supply) {
            run(
                advance(pending, script[0].reply, script[0].supply),
                script[0].after,
                script.drop_first(),
            )
        } else {
            None
        },
    }
}

/// Whether no query of the script failed.
pub open spec fn unfailing(script: Seq<Turn>) -> bool {
    forall|i: int| 0 <= i < script.len() ==> !((#[trigger] script[i]).reply is Failed)
}

/// Whether the script holds no query that changes the tables.
pub open spec fn only_reads(script: Seq<Turn>) -> bool {
    forall|i: int| 0 <= i < script.len() ==> reads_only((#[trigger] script[i]).query)
}

/// Whether every query of the script that failed was a write.
pub open spec fn reads_succeed(script: Seq<Turn>) -> bool {
    forall|i: int|
        0 <= i < script.len() && reads_only((#[trigger] script[i]).query) ==> !(script[i].reply
            is Failed)
}

/// A script of reads in which every read succeeds holds no failure.
pub proof fn reads_that_succeed_do_not_fail(script: Seq<Turn>)
    requires
        only_reads(script),
        reads_succeed(script),
    ensures
        unfailing(script),
{
}

/// The most queries that the operation at `step` can still ask.
pub open spec fn steps_left(step: Step<Seq<char>>) -> nat {
    match step {
        Step::Ask { pending, .. } => queries_left(pending),
        Step::Finish(_) => 0,
    }
}

/// No operation asks more than five queries: a run is as long as the
/// queries left at its first step, or shorter.
pub proof fn run_is_short(
    step: Step<Seq<char>>,
    tables: Tables,
    script: Seq<Turn>,
    outcome: Outcome<Seq<char>>,
    after: Tables,
)
    requires
        run(step, tables, script) == Some((outcome, after)),
    ensures
        script.len() <= steps_left(step) <= 5,
    decreases script.len(),
{
    match step {
        Step::Finish(_) => {},
        Step::Ask { pending, query } => {
            let turn = script[0];
            run_is_short(
                advance(pending, turn.reply, turn.supply),
                turn.after,
                script.drop_first(),
                outcome,
                after,
            );
        },
    }
}

} // verus!
