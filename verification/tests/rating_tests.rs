use rust_backend::db::DbError;
use rust_backend::posts::{PostsService, RateKind, UpdateRateError};
use rust_backend::posts::RateKind::{Dislike, Like};
use rust_backend::rating::{rate_delta, RateAction, RateEvent, RatePhase, RateUpdate};

fn run(new_rate: Option<RateKind>, events: Vec<RateEvent>) -> Vec<RateAction> {
    let (mut update, first): (RateUpdate, RateAction) = PostsService::update_user_rate(7, 3, new_rate);
    let mut actions = vec![first];
    for event in events {
        let (next, action) = update.resume(event);
        update = next;
        actions.push(action);
    }
    actions
}

#[test]
fn deltas_of_every_change() {
    assert_eq!(rate_delta(None, Some(Like)), (1, 0));
    assert_eq!(rate_delta(None, Some(Dislike)), (0, 1));
    assert_eq!(rate_delta(Some(Like), None), (-1, 0));
    assert_eq!(rate_delta(Some(Dislike), None), (0, -1));
    assert_eq!(rate_delta(Some(Like), Some(Dislike)), (-1, 1));
    assert_eq!(rate_delta(Some(Dislike), Some(Like)), (1, -1));
    assert_eq!(rate_delta(Some(Like), Some(Like)), (0, 0));
    assert_eq!(rate_delta(None, None), (0, 0));
}

#[test]
fn change_and_change_back_cancel() {
    let rates = [None, Some(Like), Some(Dislike)];
    for a in rates {
        for b in rates {
            let (l1, d1) = rate_delta(a, b);
            let (l2, d2) = rate_delta(b, a);
            assert_eq!((l1 + l2, d1 + d2), (0, 0));
            for c in rates {
                let (l3, d3) = rate_delta(b, c);
                assert_eq!((l1 + l3, d1 + d3), rate_delta(a, c));
            }
        }
    }
}

#[test]
fn like_a_post_rated_dislike() {
    let actions = run(
        Some(RateKind::Like),
        vec![
            RateEvent::TransactionBegun,
            RateEvent::Existence { user_exists: true, post_exists: true },
            RateEvent::OldRate(Some(RateKind::Dislike)),
            RateEvent::Executed,
            RateEvent::Executed,
            RateEvent::Committed,
        ],
    );
    assert!(matches!(actions[0], RateAction::BeginTransaction));
    assert!(matches!(actions[1], RateAction::CheckExistence { user_id: 3, post_id: 7 }));
    assert!(matches!(actions[2], RateAction::FetchOldRate { post_id: 7, user_id: 3 }));
    assert!(matches!(actions[3], RateAction::AdjustCounters { post_id: 7, likes: 1, dislikes: -1 }));
    assert!(matches!(actions[4], RateAction::UpsertRate { post_id: 7, user_id: 3, rate: RateKind::Like }));
    assert!(matches!(actions[5], RateAction::Commit));
    assert!(matches!(actions[6], RateAction::Finish(Ok(()))));
}

#[test]
fn clearing_a_like_deletes_that_rate() {
    let actions = run(
        None,
        vec![
            RateEvent::TransactionBegun,
            RateEvent::Existence { user_exists: true, post_exists: true },
            RateEvent::OldRate(Some(RateKind::Like)),
            RateEvent::Executed,
            RateEvent::Executed,
            RateEvent::Committed,
        ],
    );
    assert!(matches!(actions[3], RateAction::AdjustCounters { post_id: 7, likes: -1, dislikes: 0 }));
    assert!(matches!(actions[4], RateAction::DeletePostRate { post_id: 7, user_id: 3 }));
    assert!(matches!(actions[6], RateAction::Finish(Ok(()))));
}

#[test]
fn same_rate_again_writes_nothing() {
    let actions = run(
        Some(RateKind::Dislike),
        vec![
            RateEvent::TransactionBegun,
            RateEvent::Existence { user_exists: true, post_exists: true },
            RateEvent::OldRate(Some(RateKind::Dislike)),
        ],
    );
    assert_eq!(actions.len(), 4);
    assert!(matches!(actions[3], RateAction::Finish(Ok(()))));
}

#[test]
fn unknown_user_is_reported_before_unknown_post() {
    let actions = run(
        Some(RateKind::Like),
        vec![RateEvent::TransactionBegun, RateEvent::Existence { user_exists: false, post_exists: false }],
    );
    assert!(matches!(actions[2], RateAction::Finish(Err(UpdateRateError::UnknownUserId))));
    let actions = run(
        Some(RateKind::Like),
        vec![RateEvent::TransactionBegun, RateEvent::Existence { user_exists: true, post_exists: false }],
    );
    assert!(matches!(actions[2], RateAction::Finish(Err(UpdateRateError::UnknownPostId))));
}

#[test]
fn database_failure_ends_the_update() {
    let (update, _) = PostsService::update_user_rate(1, 2, Some(RateKind::Like));
    let (update, _) = update.resume(RateEvent::TransactionBegun);
    let (update, action) = update.resume(RateEvent::DbFailed(DbError::Other { message: "lost".to_string() }));
    assert!(update.is_done());
    assert_eq!(update.phase, RatePhase::Done);
    assert!(matches!(action, RateAction::Finish(Err(UpdateRateError::Db(DbError::Other { .. })))));
}
