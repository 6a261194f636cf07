//! Setting or clearing a user's rate of a post, as a state machine: the caller
//! performs each requested database action inside one transaction and hands the
//! outcome back as the next event.

use crate::db::DbError;
use crate::posts::{PostsService, RateKind, UpdateRateError};
use vstd::prelude::*;

verus! {

/// What a rate contributes to a post's `(likes, dislikes)` counters.
pub open spec fn contribution(rate: Option<RateKind>) -> (int, int) {
    match rate {
        Some(RateKind::Like) => (1, 0),
        Some(RateKind::Dislike) => (0, 1),
        None => (0, 0),
    }
}

/// The change of the counters when a user's rate goes from `old` to `new`.
pub open spec fn rate_delta_spec(old: Option<RateKind>, new: Option<RateKind>) -> (int, int) {
    (contribution(new).0 - contribution(old).0, contribution(new).1 - contribution(old).1)
}

/// The `(likes, dislikes)` change for a user's rate going from `old_rate` to `new_rate`.
pub fn rate_delta(old_rate: Option<RateKind>, new_rate: Option<RateKind>) -> (delta: (i32, i32))
    ensures
        delta.0 == rate_delta_spec(old_rate, new_rate).0,
        delta.1 == rate_delta_spec(old_rate, new_rate).1,
{
    let mut likes: i32 = 0;
    let mut dislikes: i32 = 0;
    if let Some(old_rate) = old_rate {
        match old_rate {
            RateKind::Like => likes -= 1,
            RateKind::Dislike => dislikes -= 1,
        }
    }
    if let Some(new_rate) = new_rate {
        match new_rate {
            RateKind::Like => likes += 1,
            RateKind::Dislike => dislikes += 1,
        }
    }
    (likes, dislikes)
}

/// Changing a rate and changing it back leaves the counters as they were.
pub proof fn lemma_rate_change_undone(a: Option<RateKind>, b: Option<RateKind>)
    ensures
        rate_delta_spec(a, b).0 + rate_delta_spec(b, a).0 == 0,
        rate_delta_spec(a, b).1 + rate_delta_spec(b, a).1 == 0,
{
}

/// Two successive changes move the counters as the single change from the
/// first rate to the last does, so after any sequence of changes the counters
/// differ from the start by the contribution of the latest rate less that of
/// the first.
pub proof fn lemma_rate_changes_compose(a: Option<RateKind>, b: Option<RateKind>, c: Option<RateKind>)
    ensures
        rate_delta_spec(a, b).0 + rate_delta_spec(b, c).0 == rate_delta_spec(a, c).0,
        rate_delta_spec(a, b).1 + rate_delta_spec(b, c).1 == rate_delta_spec(a, c).1,
{
}

/// Keeping the same rate changes no counter, and any other change moves each
/// counter by at most one.
pub proof fn lemma_rate_delta_bounds(a: Option<RateKind>, b: Option<RateKind>)
    ensures
        a == b <==> rate_delta_spec(a, b) == (0int, 0int),
        -1 <= rate_delta_spec(a, b).0 <= 1,
        -1 <= rate_delta_spec(a, b).1 <= 1,
{
}

/// The rate a user wants to give a post (`None` clears it).
#[derive(Debug, Clone, Copy, PartialEq, Eq, Structural)]
pub struct RateRequest {
    pub post_id: i32,
    pub user_id: i32,
    pub new_rate: Option<RateKind>,
}

/// Which outcome the update waits for.
#[derive(Debug, Clone, Copy, PartialEq, Eq, Structural)]
pub enum RatePhase {
    AwaitTransaction,
    AwaitExistence,
    AwaitOldRate,
    AwaitCounters,
    AwaitRateWrite,
    AwaitCommit,
    Done,
}

/// An update of one rate in progress.
#[derive(Debug)]
pub struct RateUpdate {
    pub request: RateRequest,
    pub phase: RatePhase,
}

/// The outcome of the last requested action.
#[derive(Debug)]
pub enum RateEvent {
    /// The transaction was opened.
    TransactionBegun,
    /// Whether the user and the post exist.
    Existence { user_exists: bool, post_exists: bool },
    /// The user's current rate of the post.
    OldRate(Option<RateKind>),
    /// The requested write went through.
    Executed,
    /// The transaction was committed.
    Committed,
    /// The requested action failed in the database.
    DbFailed(DbError),
}

/// What the caller is to do next.
#[derive(Debug)]
pub enum RateAction {
    /// Open a transaction; every later action runs in it.
    BeginTransaction,
    /// Ask whether the user and the post exist.
    CheckExistence { user_id: i32, post_id: i32 },
    /// Read the user's current rate of the post.
    FetchOldRate { post_id: i32, user_id: i32 },
    /// Add `likes` and `dislikes` to the post's counters.
    AdjustCounters { post_id: i32, likes: i32, dislikes: i32 },
    /// Insert the user's rate of the post, or replace it.
    UpsertRate { post_id: i32, user_id: i32, rate: RateKind },
    /// Delete the user's rate of the post.
    DeletePostRate { post_id: i32, user_id: i32 },
    /// Commit the transaction.
    Commit,
    /// Stop with this result; an open transaction is dropped, which rolls it back.
    Finish(Result<(), UpdateRateError>),
}

/// The events the update can take in each phase: the outcome it asked for, or a
/// database failure. A finished update takes none.
pub open spec fn accepts(phase: RatePhase, event: RateEvent) -> bool {
    match event {
        RateEvent::DbFailed(_) => phase != RatePhase::Done,
        RateEvent::TransactionBegun => phase == RatePhase::AwaitTransaction,
        RateEvent::Existence { .. } => phase == RatePhase::AwaitExistence,
        RateEvent::OldRate(_) => phase == RatePhase::AwaitOldRate,
        RateEvent::Executed => phase == RatePhase::AwaitCounters || phase == RatePhase::AwaitRateWrite,
        RateEvent::Committed => phase == RatePhase::AwaitCommit,
    }
}

/// The next phase and action of an update of `request` in `phase` on `event`.
pub open spec fn rate_step(request: RateRequest, phase: RatePhase, event: RateEvent) -> (RatePhase, RateAction) {
    match event {
        RateEvent::DbFailed(e) => (RatePhase::Done, RateAction::Finish(Err(UpdateRateError::Db(e)))),
        RateEvent::TransactionBegun => (
            RatePhase::AwaitExistence,
            RateAction::CheckExistence { user_id: request.user_id, post_id: request.post_id },
        ),
        RateEvent::Existence { user_exists, post_exists } => if !user_exists {
            (RatePhase::Done, RateAction::Finish(Err(UpdateRateError::UnknownUserId)))
        } else if !post_exists {
            (RatePhase::Done, RateAction::Finish(Err(UpdateRateError::UnknownPostId)))
        } else {
            (
                RatePhase::AwaitOldRate,
                RateAction::FetchOldRate { post_id: request.post_id, user_id: request.user_id },
            )
        },
        RateEvent::OldRate(old_rate) => if old_rate == request.new_rate {
            (RatePhase::Done, RateAction::Finish(Ok(())))
        } else {
            (
                RatePhase::AwaitCounters,
                RateAction::AdjustCounters {
                    post_id: request.post_id,
                    likes: rate_delta_spec(old_rate, request.new_rate).0 as i32,
                    dislikes: rate_delta_spec(old_rate, request.new_rate).1 as i32,
                },
            )
        },
        RateEvent::Executed => if phase == RatePhase::AwaitCounters {
            (
                RatePhase::AwaitRateWrite,
                match request.new_rate {
                    Some(rate) => RateAction::UpsertRate {
                        post_id: request.post_id,
                        user_id: request.user_id,
                        rate,
                    },
                    None => RateAction::DeletePostRate { post_id: request.post_id, user_id: request.user_id },
                },
            )
        } else {
            (RatePhase::AwaitCommit, RateAction::Commit)
        },
        RateEvent::Committed => (RatePhase::Done, RateAction::Finish(Ok(()))),
    }
}

/// The events of a run are each accepted by the phase the run has reached.
pub open spec fn accepted_run(request: RateRequest, phase: RatePhase, events: Seq<RateEvent>) -> bool
    decreases events.len(),
{
    events.len() == 0 || (accepts(phase, events[0]) && accepted_run(
        request,
        rate_step(request, phase, events[0]).0,
        events.drop_first(),
    ))
}

/// The actions an update in `phase` requests while it takes `events` in turn.
pub open spec fn run_actions(request: RateRequest, phase: RatePhase, events: Seq<RateEvent>) -> Seq<RateAction>
    decreases events.len(),
{
    if events.len() == 0 {
        Seq::empty()
    } else {
        let (next, action) = rate_step(request, phase, events[0]);
        seq![action] + run_actions(request, next, events.drop_first())
    }
}

/// The run's last action finished the update with success.
pub open spec fn finishes_ok(actions: Seq<RateAction>) -> bool {
    actions.len() > 0 && actions.last() == RateAction::Finish(Ok(()))
}

/// The action that records the new rate.
pub open spec fn rate_write(request: RateRequest) -> RateAction {
    match request.new_rate {
        Some(rate) => RateAction::UpsertRate { post_id: request.post_id, user_id: request.user_id, rate },
        None => RateAction::DeletePostRate { post_id: request.post_id, user_id: request.user_id },
    }
}

/// What an update that found the user's rate `old_rate` and succeeded requested
/// after its transaction was opened: nothing written when the rate was already
/// the wanted one; otherwise the counters moved by exactly the change, the new
/// rate recorded, and the transaction committed.
pub open spec fn successful_actions(request: RateRequest, old_rate: Option<RateKind>) -> Seq<RateAction> {
    let checks = seq![
        RateAction::CheckExistence { user_id: request.user_id, post_id: request.post_id },
        RateAction::FetchOldRate { post_id: request.post_id, user_id: request.user_id },
    ];
    if old_rate == request.new_rate {
        checks.push(RateAction::Finish(Ok(())))
    } else {
        checks + seq![
            RateAction::AdjustCounters {
                post_id: request.post_id,
                likes: rate_delta_spec(old_rate, request.new_rate).0 as i32,
                dislikes: rate_delta_spec(old_rate, request.new_rate).1 as i32,
            },
            rate_write(request),
            RateAction::Commit,
            RateAction::Finish(Ok(())),
        ]
    }
}

proof fn lemma_done_takes_nothing(request: RateRequest, events: Seq<RateEvent>)
    requires
        accepted_run(request, RatePhase::Done, events),
    ensures
        events.len() == 0,
{
}

proof fn lemma_ok_from_commit(request: RateRequest, events: Seq<RateEvent>)
    requires
        accepted_run(request, RatePhase::AwaitCommit, events),
        finishes_ok(run_actions(request, RatePhase::AwaitCommit, events)),
    ensures
        run_actions(request, RatePhase::AwaitCommit, events) == seq![RateAction::Finish(Ok(()))],
{
    let rest = events.drop_first();
    lemma_done_takes_nothing(request, rest);
    assert(run_actions(request, RatePhase::Done, rest) == Seq::<RateAction>::empty());
}

proof fn lemma_ok_from_rate_write(request: RateRequest, events: Seq<RateEvent>)
    requires
        accepted_run(request, RatePhase::AwaitRateWrite, events),
        finishes_ok(run_actions(request, RatePhase::AwaitRateWrite, events)),
    ensures
        run_actions(request, RatePhase::AwaitRateWrite, events) == seq![
            RateAction::Commit,
            RateAction::Finish(Ok(())),
        ],
{
    let rest = events.drop_first();
    match events[0] {
        RateEvent::Executed => {
            lemma_ok_from_commit(request, rest);
            assert(run_actions(request, RatePhase::AwaitRateWrite, events)
                == seq![RateAction::Commit] + run_actions(request, RatePhase::AwaitCommit, rest));
            assert(seq![RateAction::Commit] + seq![RateAction::Finish(Ok(()))] == seq![
                RateAction::Commit,
                RateAction::Finish(Ok(())),
            ]);
        },
        _ => {
            lemma_done_takes_nothing(request, rest);
            assert(run_actions(request, RatePhase::Done, rest) == Seq::<RateAction>::empty());
        },
    }
}

proof fn lemma_ok_from_counters(request: RateRequest, events: Seq<RateEvent>)
    requires
        accepted_run(request, RatePhase::AwaitCounters, events),
        finishes_ok(run_actions(request, RatePhase::AwaitCounters, events)),
    ensures
        run_actions(request, RatePhase::AwaitCounters, events) == seq![
            rate_write(request),
            RateAction::Commit,
            RateAction::Finish(Ok(())),
        ],
{
    let rest = events.drop_first();
    match events[0] {
        RateEvent::Executed => {
            lemma_ok_from_rate_write(request, rest);
            assert(run_actions(request, RatePhase::AwaitCounters, events)
                == seq![rate_write(request)] + run_actions(request, RatePhase::AwaitRateWrite, rest));
            assert(seq![rate_write(request)] + seq![RateAction::Commit, RateAction::Finish(Ok(()))] == seq![
                rate_write(request),
                RateAction::Commit,
                RateAction::Finish(Ok(())),
            ]);
        },
        _ => {
            lemma_done_takes_nothing(request, rest);
            assert(run_actions(request, RatePhase::Done, rest) == Seq::<RateAction>::empty());
        },
    }
}

proof fn lemma_ok_from_old_rate(request: RateRequest, events: Seq<RateEvent>) -> (old_rate: Option<RateKind>)
    requires
        accepted_run(request, RatePhase::AwaitOldRate, events),
        finishes_ok(run_actions(request, RatePhase::AwaitOldRate, events)),
    ensures
        seq![RateAction::FetchOldRate { post_id: request.post_id, user_id: request.user_id }]
            + run_actions(request, RatePhase::AwaitOldRate, events)
            == successful_actions(request, old_rate).drop_first(),
        events[0] == RateEvent::OldRate(old_rate),
{
    let rest = events.drop_first();
    let fetch = RateAction::FetchOldRate { post_id: request.post_id, user_id: request.user_id };
    match events[0] {
        RateEvent::OldRate(old_rate) => {
            if old_rate == request.new_rate {
                lemma_done_takes_nothing(request, rest);
                assert(run_actions(request, RatePhase::Done, rest) == Seq::<RateAction>::empty());
            } else {
                lemma_ok_from_counters(request, rest);
            }
            assert(seq![fetch] + run_actions(request, RatePhase::AwaitOldRate, events)
                == successful_actions(request, old_rate).drop_first());
            old_rate
        },
        _ => {
            lemma_done_takes_nothing(request, rest);
            assert(run_actions(request, RatePhase::Done, rest) == Seq::<RateAction>::empty());
            None
        },
    }
}

/// A rate update that succeeds has, after opening its transaction, checked that
/// the user and the post exist and read the user's old rate (its third event); then either the
/// old rate already was the wanted one and nothing was written, or the post's
/// counters moved by exactly the change of rate, the new rate was recorded
/// (or deleted when the rate is cleared) and the transaction
/// was committed.
#[verifier::rlimit(40)]
pub proof fn lemma_successful_rate_update(request: RateRequest, events: Seq<RateEvent>)
    requires
        accepted_run(request, RatePhase::AwaitTransaction, events),
        finishes_ok(run_actions(request, RatePhase::AwaitTransaction, events)),
    ensures
        events.len() >= 3,
        events[2] is OldRate,
        run_actions(request, RatePhase::AwaitTransaction, events) == successful_actions(
            request,
            events[2]->OldRate_0,
        ),
{
    let e1 = events.drop_first();
    let check = RateAction::CheckExistence { user_id: request.user_id, post_id: request.post_id };
    match events[0] {
        RateEvent::TransactionBegun => {
            assert(run_actions(request, RatePhase::AwaitTransaction, events)
                == seq![check] + run_actions(request, RatePhase::AwaitExistence, e1));
            if e1.len() == 0 {
                assert(run_actions(request, RatePhase::AwaitExistence, e1) == Seq::<RateAction>::empty());
                assert(run_actions(request, RatePhase::AwaitTransaction, events) == seq![check]);
            } else {
                let e2 = e1.drop_first();
                assert(accepted_run(request, RatePhase::AwaitExistence, e1));
                assert(accepted_run(request, rate_step(request, RatePhase::AwaitExistence, e1[0]).0, e2));
                match e1[0] {
                    RateEvent::Existence { user_exists, post_exists } => {
                        if user_exists && post_exists {
                            let fetch = RateAction::FetchOldRate { post_id: request.post_id, user_id: request.user_id };
                            assert(run_actions(request, RatePhase::AwaitExistence, e1)
                                == seq![fetch] + run_actions(request, RatePhase::AwaitOldRate, e2));
                            if e2.len() == 0 {
                                assert(run_actions(request, RatePhase::AwaitOldRate, e2) == Seq::<RateAction>::empty());
                                assert(run_actions(request, RatePhase::AwaitTransaction, events) == seq![check, fetch]);
                            } else {
                                assert(finishes_ok(run_actions(request, RatePhase::AwaitOldRate, e2)));
                                let old_rate = lemma_ok_from_old_rate(request, e2);
                                assert(e2[0] == events[2]);
                                let tail = successful_actions(request, old_rate);
                                assert(tail == seq![check] + tail.drop_first());
                                assert(run_actions(request, RatePhase::AwaitTransaction, events) == tail);
                            }
                        } else {
                            lemma_done_takes_nothing(request, e2);
                            assert(run_actions(request, RatePhase::Done, e2) == Seq::<RateAction>::empty());
                        }
                    },
                    _ => {
                        lemma_done_takes_nothing(request, e2);
                        assert(run_actions(request, RatePhase::Done, e2) == Seq::<RateAction>::empty());
                    },
                }
            }
        },
        _ => {
            lemma_done_takes_nothing(request, e1);
            assert(run_actions(request, RatePhase::Done, e1) == Seq::<RateAction>::empty());
        },
    }
}

/// A rate update for a user or a post that does not exist writes nothing: it
/// stops right after the existence check, with the matching error.
pub proof fn lemma_unknown_user_or_post_writes_nothing(request: RateRequest, events: Seq<RateEvent>)
    requires
        accepted_run(request, RatePhase::AwaitTransaction, events),
        events.len() >= 2,
        events[1] matches RateEvent::Existence { user_exists, post_exists } && !(user_exists && post_exists),
    ensures
        run_actions(request, RatePhase::AwaitTransaction, events) == seq![
            RateAction::CheckExistence { user_id: request.user_id, post_id: request.post_id },
            RateAction::Finish(Err(
                if events[1]->user_exists { UpdateRateError::UnknownPostId } else { UpdateRateError::UnknownUserId },
            )),
        ],
{
    let e1 = events.drop_first();
    let e2 = e1.drop_first();
    assert(e1[0] == events[1]);
    assert(accepted_run(request, rate_step(request, RatePhase::AwaitTransaction, events[0]).0, e1));
    assert(accepts(rate_step(request, RatePhase::AwaitTransaction, events[0]).0, e1[0]));
    assert(events[0] is TransactionBegun);
    assert(accepted_run(request, rate_step(request, RatePhase::AwaitExistence, e1[0]).0, e2));
    lemma_done_takes_nothing(request, e2);
    assert(run_actions(request, RatePhase::Done, e2) == Seq::<RateAction>::empty());
    let finish = rate_step(request, RatePhase::AwaitExistence, e1[0]).1;
    assert(run_actions(request, RatePhase::AwaitExistence, e1) == seq![finish]);
    let check = RateAction::CheckExistence { user_id: request.user_id, post_id: request.post_id };
    assert(run_actions(request, RatePhase::AwaitTransaction, events) == seq![check] + seq![finish]);
    assert(seq![check] + seq![finish] == seq![check, finish]);
}

/// The rates table: the rate of each `(post id, user id)` pair.
pub type RatesTable = Map<(i32, i32), RateKind>;

/// The counters table: the `(likes, dislikes)` of each post id.
pub type CountersTable = Map<i32, (int, int)>;

/// The rows of the rates table for `post` with rate `kind`.
pub open spec fn rows_of(rates: RatesTable, post: i32, kind: RateKind) -> Set<(i32, i32)> {
    rates.dom().filter(|key: (i32, i32)| key.0 == post && rates[key] == kind)
}

/// Every post's counters equal the number of its likes and dislikes.
pub open spec fn counters_match(rates: RatesTable, counters: CountersTable) -> bool {
    forall|post: i32|
        #[trigger] counters.contains_key(post) ==> counters[post] == (
            rows_of(rates, post, RateKind::Like).len() as int,
            rows_of(rates, post, RateKind::Dislike).len() as int,
        )
}

/// The user's rate of the post in the rates table.
pub open spec fn rate_of(rates: RatesTable, post: i32, user: i32) -> Option<RateKind> {
    if rates.contains_key((post, user)) {
        Some(rates[(post, user)])
    } else {
        None
    }
}

/// The rates table with the user's rate of the post set to `rate` (`None` deletes it).
pub open spec fn with_rate(rates: RatesTable, post: i32, user: i32, rate: Option<RateKind>) -> RatesTable {
    match rate {
        Some(r) => rates.insert((post, user), r),
        None => rates.remove((post, user)),
    }
}

/// What a database action does to the two tables; reads, transaction control
/// and the final answer change neither.
pub open spec fn apply_action(tables: (RatesTable, CountersTable), action: RateAction) -> (RatesTable, CountersTable) {
    let (rates, counters) = tables;
    match action {
        RateAction::AdjustCounters { post_id, likes, dislikes } => if counters.contains_key(post_id) {
            (rates, counters.insert(post_id, (counters[post_id].0 + likes, counters[post_id].1 + dislikes)))
        } else {
            tables
        },
        RateAction::UpsertRate { post_id, user_id, rate } => (rates.insert((post_id, user_id), rate), counters),
        RateAction::DeletePostRate { post_id, user_id } => (rates.remove((post_id, user_id)), counters),
        _ => tables,
    }
}

/// The two tables after the actions, in order.
pub open spec fn apply_actions(tables: (RatesTable, CountersTable), actions: Seq<RateAction>) -> (RatesTable, CountersTable)
    decreases actions.len(),
{
    if actions.len() == 0 {
        tables
    } else {
        apply_actions(apply_action(tables, actions[0]), actions.drop_first())
    }
}

/// The tables after a successful update of `request` that read `old_rate`.
pub open spec fn after_update(tables: (RatesTable, CountersTable), request: RateRequest, old_rate: Option<RateKind>) -> (
    RatesTable,
    CountersTable,
) {
    apply_actions(tables, successful_actions(request, old_rate))
}

proof fn lemma_rows_after_write(rates: RatesTable, post: i32, user: i32, rate: Option<RateKind>, q: i32, kind: RateKind)
    requires
        rates.dom().finite(),
    ensures
        rows_of(rates, q, kind).finite(),
        q != post ==> rows_of(with_rate(rates, post, user, rate), q, kind) == rows_of(rates, q, kind),
        q == post ==> rows_of(with_rate(rates, post, user, rate), q, kind).len() == rows_of(rates, q, kind).len()
            + (if rate == Some(kind) { 1int } else { 0int }) - (if rate_of(rates, post, user) == Some(kind) {
            1int
        } else {
            0int
        }),
{
    let before = rows_of(rates, q, kind);
    let after = rows_of(with_rate(rates, post, user, rate), q, kind);
    assert(before == rates.dom().intersect(Set::new(|key: (i32, i32)| key.0 == q && rates[key] == kind)));
    if q != post {
        assert(after =~= before);
    } else {
        assert(before.contains((post, user)) <==> rate_of(rates, post, user) == Some(kind));
        if rate == Some(kind) {
            assert(after =~= before.insert((post, user)));
        } else {
            assert(after =~= before.remove((post, user)));
        }
    }
}

/// The actions that write to a table.
pub open spec fn writes_table(action: RateAction) -> bool {
    action is AdjustCounters || action is UpsertRate || action is DeletePostRate
}

proof fn lemma_apply_reads_only(tables: (RatesTable, CountersTable), actions: Seq<RateAction>)
    requires
        forall|i: int| 0 <= i < actions.len() ==> !writes_table(#[trigger] actions[i]),
    ensures
        apply_actions(tables, actions) == tables,
    decreases actions.len(),
{
    if actions.len() > 0 {
        assert(!writes_table(actions[0]));
        assert forall|i: int| 0 <= i < actions.drop_first().len() implies !writes_table(#[trigger] actions.drop_first()[i]) by {
            assert(actions.drop_first()[i] == actions[i + 1]);
        }
        lemma_apply_reads_only(tables, actions.drop_first());
    }
}

proof fn lemma_apply_concat(tables: (RatesTable, CountersTable), first: Seq<RateAction>, then: Seq<RateAction>)
    ensures
        apply_actions(tables, first + then) == apply_actions(apply_actions(tables, first), then),
    decreases first.len(),
{
    if first.len() == 0 {
        assert(first + then == then);
    } else {
        assert((first + then).drop_first() == first.drop_first() + then);
        assert((first + then)[0] == first[0]);
        lemma_apply_concat(apply_action(tables, first[0]), first.drop_first(), then);
    }
}

proof fn lemma_apply_two(tables: (RatesTable, CountersTable), a: RateAction, b: RateAction)
    ensures
        apply_actions(tables, seq![a, b]) == apply_action(apply_action(tables, a), b),
{
    let s = seq![a, b];
    let t1 = apply_action(tables, a);
    assert(s.drop_first() == seq![b]);
    assert(seq![b].drop_first() == Seq::<RateAction>::empty());
    assert(apply_actions(apply_action(t1, b), Seq::<RateAction>::empty()) == apply_action(t1, b));
    assert(apply_actions(t1, seq![b]) == apply_action(t1, b));
    assert(apply_actions(tables, s) == apply_actions(t1, seq![b]));
}

proof fn lemma_committed_ends_run(request: RateRequest, phase: RatePhase, events: Seq<RateEvent>, i: int)
    requires
        accepted_run(request, phase, events),
        0 <= i < events.len(),
        events[i] is Committed,
    ensures
        i == events.len() - 1,
        run_actions(request, phase, events).len() == events.len(),
        run_actions(request, phase, events)[i] == RateAction::Finish(Ok(())),
    decreases events.len(),
{
    let rest = events.drop_first();
    let next = rate_step(request, phase, events[0]).0;
    if i == 0 {
        lemma_done_takes_nothing(request, rest);
        assert(run_actions(request, RatePhase::Done, rest) == Seq::<RateAction>::empty());
    } else {
        assert(rest[i - 1] == events[i]);
        lemma_committed_ends_run(request, next, rest, i - 1);
    }
}

/// Once the transaction is committed the update has succeeded: whatever rate
/// was asked for, an accepted run that takes the commit confirmation ends
/// there, with `Finish(Ok(()))`; a committed update never reports an error.
pub proof fn lemma_committed_update_succeeds(request: RateRequest, events: Seq<RateEvent>, i: int)
    requires
        accepted_run(request, RatePhase::AwaitTransaction, events),
        0 <= i < events.len(),
        events[i] is Committed,
    ensures
        i == events.len() - 1,
        finishes_ok(run_actions(request, RatePhase::AwaitTransaction, events)),
{
    lemma_committed_ends_run(request, RatePhase::AwaitTransaction, events, i);
}

/// The effect of a successful update on the tables: the user's rate of the
/// post becomes the wanted one, and only that post's counters move, by the
/// change of rate.
pub proof fn lemma_update_effect(
    rates: RatesTable,
    counters: CountersTable,
    request: RateRequest,
)
    requires
        counters.contains_key(request.post_id),
    ensures
        ({
            let old_rate = rate_of(rates, request.post_id, request.user_id);
            let (rates2, counters2) = after_update((rates, counters), request, old_rate);
            let delta = rate_delta_spec(old_rate, request.new_rate);
            &&& rates2 == with_rate(rates, request.post_id, request.user_id, request.new_rate)
            &&& counters2 == counters.insert(
                request.post_id,
                (counters[request.post_id].0 + delta.0, counters[request.post_id].1 + delta.1),
            )
        }),
{
    let p = request.post_id;
    let u = request.user_id;
    let old_rate = rate_of(rates, p, u);
    let actions = successful_actions(request, old_rate);
    let delta = rate_delta_spec(old_rate, request.new_rate);
    lemma_rate_delta_bounds(old_rate, request.new_rate);
    let checks = seq![
        RateAction::CheckExistence { user_id: u, post_id: p },
        RateAction::FetchOldRate { post_id: p, user_id: u },
    ];
    if old_rate == request.new_rate {
        lemma_apply_reads_only((rates, counters), actions);
        assert(counters.insert(p, (counters[p].0 + delta.0, counters[p].1 + delta.1)) =~= counters);
        match old_rate {
            Some(r) => {
                assert(rates.insert((p, u), r) =~= rates);
            },
            None => {
                assert(rates.remove((p, u)) =~= rates);
            },
        }
    } else {
        let writes = seq![
            RateAction::AdjustCounters { post_id: p, likes: delta.0 as i32, dislikes: delta.1 as i32 },
            rate_write(request),
        ];
        let ends = seq![RateAction::Commit, RateAction::Finish(Ok(()))];
        assert(actions == checks + writes + ends);
        lemma_apply_concat((rates, counters), checks + writes, ends);
        lemma_apply_concat((rates, counters), checks, writes);
        lemma_apply_reads_only((rates, counters), checks);
        lemma_apply_two((rates, counters), writes[0], writes[1]);
        let written = apply_actions((rates, counters), checks + writes);
        lemma_apply_reads_only(written, ends);
        assert(written.0 == with_rate(rates, p, u, request.new_rate));
    }
}

/// Counters that match the rates table keep matching it, for every post,
/// through a successful update that read the user's current rate.
pub proof fn lemma_update_keeps_counters_matching(
    rates: RatesTable,
    counters: CountersTable,
    request: RateRequest,
)
    requires
        rates.dom().finite(),
        counters_match(rates, counters),
        counters.contains_key(request.post_id),
    ensures
        ({
            let (rates2, counters2) = after_update(
                (rates, counters),
                request,
                rate_of(rates, request.post_id, request.user_id),
            );
            &&& rates2.dom().finite()
            &&& counters_match(rates2, counters2)
            &&& counters2.dom() == counters.dom()
        }),
{
    let p = request.post_id;
    let u = request.user_id;
    lemma_update_effect(rates, counters, request);
    let old_rate = rate_of(rates, p, u);
    let (rates2, counters2) = after_update((rates, counters), request, old_rate);
    assert(counters2.dom() =~= counters.dom());
    assert forall|q: i32| #[trigger] counters2.contains_key(q) implies counters2[q] == (
        rows_of(rates2, q, RateKind::Like).len() as int,
        rows_of(rates2, q, RateKind::Dislike).len() as int,
    ) by {
        lemma_rows_after_write(rates, p, u, request.new_rate, q, RateKind::Like);
        lemma_rows_after_write(rates, p, u, request.new_rate, q, RateKind::Dislike);
        assert(counters.contains_key(q));
    }
}

/// Setting the same rate twice: the second update finds the rate already set
/// and changes nothing.
pub proof fn lemma_repeated_update_changes_nothing(
    rates: RatesTable,
    counters: CountersTable,
    request: RateRequest,
)
    requires
        counters.contains_key(request.post_id),
    ensures
        ({
            let tables2 = after_update((rates, counters), request, rate_of(rates, request.post_id, request.user_id));
            &&& rate_of(tables2.0, request.post_id, request.user_id) == request.new_rate
            &&& after_update(tables2, request, request.new_rate) == tables2
        }),
{
    lemma_update_effect(rates, counters, request);
    let tables2 = after_update((rates, counters), request, rate_of(rates, request.post_id, request.user_id));
    lemma_apply_reads_only(tables2, successful_actions(request, request.new_rate));
}

/// Setting a rate and then setting back the rate the user had restores both
/// tables.
pub proof fn lemma_update_undone(rates: RatesTable, counters: CountersTable, request: RateRequest)
    requires
        counters.contains_key(request.post_id),
    ensures
        ({
            let old_rate = rate_of(rates, request.post_id, request.user_id);
            let back = RateRequest { new_rate: old_rate, ..request };
            let tables2 = after_update((rates, counters), request, old_rate);
            after_update(tables2, back, rate_of(tables2.0, request.post_id, request.user_id)) == (rates, counters)
        }),
{
    let p = request.post_id;
    let u = request.user_id;
    let old_rate = rate_of(rates, p, u);
    let back = RateRequest { new_rate: old_rate, ..request };
    lemma_update_effect(rates, counters, request);
    let tables2 = after_update((rates, counters), request, old_rate);
    assert(tables2.1.contains_key(p));
    lemma_update_effect(tables2.0, tables2.1, back);
    let restored = with_rate(tables2.0, p, u, old_rate);
    assert(restored =~= rates);
    lemma_rate_change_undone(old_rate, request.new_rate);
    let tables3 = after_update(tables2, back, rate_of(tables2.0, p, u));
    assert(tables3.1 =~= counters);
}

/// A complete successful run, whose read of the old rate saw the rates table,
/// leaves every post's counters matching its rates, and moves only the rated
/// post's counters and only the rated pair's row.
pub proof fn lemma_successful_run_keeps_counters_matching(
    rates: RatesTable,
    counters: CountersTable,
    request: RateRequest,
    events: Seq<RateEvent>,
)
    requires
        rates.dom().finite(),
        counters_match(rates, counters),
        counters.contains_key(request.post_id),
        accepted_run(request, RatePhase::AwaitTransaction, events),
        finishes_ok(run_actions(request, RatePhase::AwaitTransaction, events)),
        forall|i: int| 0 <= i < events.len() && #[trigger] events[i] is OldRate
            ==> events[i]->OldRate_0 == rate_of(rates, request.post_id, request.user_id),
    ensures
        ({
            let (rates2, counters2) = apply_actions(
                (rates, counters),
                run_actions(request, RatePhase::AwaitTransaction, events),
            );
            &&& counters_match(rates2, counters2)
            &&& rates2 == with_rate(rates, request.post_id, request.user_id, request.new_rate)
            &&& forall|q: i32| q != request.post_id && #[trigger] counters.contains_key(q) ==> counters2[q] == counters[q]
        }),
{
    lemma_successful_rate_update(request, events);
    assert(events[2] is OldRate);
    lemma_update_keeps_counters_matching(rates, counters, request);
    lemma_update_effect(rates, counters, request);
}

fn same_rate(a: Option<RateKind>, b: Option<RateKind>) -> (same: bool)
    ensures
        same == (a == b),
{
    match (a, b) {
        (None, None) => true,
        (Some(RateKind::Like), Some(RateKind::Like)) => true,
        (Some(RateKind::Dislike), Some(RateKind::Dislike)) => true,
        _ => false,
    }
}

impl PostsService {
    /// Starts setting the rate of `user_id` for `post_id` to `new_rate`
    /// (`None` removes it): the first action opens the transaction.
    pub fn update_user_rate(post_id: i32, user_id: i32, new_rate: Option<RateKind>) -> (start: (RateUpdate, RateAction))
        ensures
            start.0.request == (RateRequest { post_id, user_id, new_rate }),
            start.0.phase == RatePhase::AwaitTransaction,
            start.1 == RateAction::BeginTransaction,
    {
        (
            RateUpdate { request: RateRequest { post_id, user_id, new_rate }, phase: RatePhase::AwaitTransaction },
            RateAction::BeginTransaction,
        )
    }
}

impl RateUpdate {
    /// Whether the update is over (its last action was `Finish`).
    pub fn is_done(&self) -> (done: bool)
        ensures
            done == (self.phase == RatePhase::Done),
    {
        self.phase == RatePhase::Done
    }

    /// Takes the outcome of the last action and tells what to do next.
    pub fn resume(self, event: RateEvent) -> (next: (RateUpdate, RateAction))
        requires
            accepts(self.phase, event),
        ensures
            next.0.request == self.request,
            (next.0.phase, next.1) == rate_step(self.request, self.phase, event),
    {
        let request = self.request;
        let (phase, action) = match event {
            RateEvent::DbFailed(e) => (RatePhase::Done, RateAction::Finish(Err(UpdateRateError::Db(e)))),
            RateEvent::TransactionBegun => (
                RatePhase::AwaitExistence,
                RateAction::CheckExistence { user_id: request.user_id, post_id: request.post_id },
            ),
            RateEvent::Existence { user_exists, post_exists } => {
                if !user_exists {
                    (RatePhase::Done, RateAction::Finish(Err(UpdateRateError::UnknownUserId)))
                } else if !post_exists {
                    (RatePhase::Done, RateAction::Finish(Err(UpdateRateError::UnknownPostId)))
                } else {
                    (
                        RatePhase::AwaitOldRate,
                        RateAction::FetchOldRate { post_id: request.post_id, user_id: request.user_id },
                    )
                }
            },
            RateEvent::OldRate(old_rate) => {
                if same_rate(old_rate, request.new_rate) {
                    (RatePhase::Done, RateAction::Finish(Ok(())))
                } else {
                    let (likes, dislikes) = rate_delta(old_rate, request.new_rate);
                    (
                        RatePhase::AwaitCounters,
                        RateAction::AdjustCounters { post_id: request.post_id, likes, dislikes },
                    )
                }
            },
            RateEvent::Executed => {
                if self.phase == RatePhase::AwaitCounters {
                    let write = match request.new_rate {
                        Some(rate) => RateAction::UpsertRate {
                            post_id: request.post_id,
                            user_id: request.user_id,
                            rate,
                        },
                        None => RateAction::DeletePostRate { post_id: request.post_id, user_id: request.user_id },
                    };
                    (RatePhase::AwaitRateWrite, write)
                } else {
                    (RatePhase::AwaitCommit, RateAction::Commit)
                }
            },
            RateEvent::Committed => (RatePhase::Done, RateAction::Finish(Ok(()))),
        };
        (RateUpdate { request, phase }, action)
    }
}

} // verus!
