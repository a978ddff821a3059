use backend::calendar::{date_from_ymd, Date};
use backend::records::{Ticket, TicketStatus, UserRelation};
use backend::ticket_flow::{
    create_ticket_start, create_ticket_step, delete_ticket_start, delete_ticket_step, CreateTicketState,
    DeleteTicketState, TicketAction, TicketEvent, TransactionEnd,
};
use backend::ticket_query::TicketCondition;
use backend::ticket_service::{CreateTicketParams, TicketServiceError};

fn ymd(year: i32, month: u32, day: u32) -> Date {
    date_from_ymd(year, month, day).unwrap()
}

fn relation(first_1: Option<Date>) -> UserRelation {
    UserRelation {
        id: 3,
        user_1_giving_ticket_img: None,
        user_2_giving_ticket_img: None,
        created_at: 1,
        updated_at: 1,
        user_1_id: 1,
        user_2_id: 2,
        use_slack: false,
        first_diary_date: None,
        first_user_1_giving_ticket_date: first_1,
        first_user_2_giving_ticket_date: None,
    }
}

fn stored(id: i64, gift_date: Date) -> Ticket {
    Ticket {
        id,
        description: "tea".to_string(),
        gift_date,
        status: TicketStatus::Unread.to_value(),
        is_special: false,
        created_at: 50,
        updated_at: 50,
        giving_user_id: 1,
        user_relation_id: 3,
    }
}

fn params(gift_date: Date) -> CreateTicketParams {
    CreateTicketParams { gift_date, description: "tea".to_string(), user_relation_id: 3, is_special: false, is_draft: false }
}

#[test]
fn creating_an_earlier_ticket_updates_the_relation() {
    let (state, action) = create_ticket_start(1, params(ymd(2025, 4, 1)), 50);
    match action {
        TicketAction::FindRelation(s) => assert_eq!((s.id, s.member), (Some(3), 1)),
        other => panic!("unexpected {:?}", other),
    }
    assert!(state.accepts(&TicketEvent::RelationFound(None)));
    assert!(!state.accepts(&TicketEvent::RelationUpdated));
    let (state, action) = create_ticket_step(state, TicketEvent::RelationFound(Some(relation(Some(ymd(2025, 5, 1))))));
    match action {
        Some(TicketAction::InsertTicket(row)) => {
            assert_eq!((row.giving_user_id, row.gift_date, row.status.as_str()), (1, ymd(2025, 4, 1), "unread"));
            assert_eq!((row.created_at, row.updated_at), (50, 50));
        }
        other => panic!("unexpected {:?}", other),
    }
    let (state, action) = create_ticket_step(state, TicketEvent::TicketInserted(stored(9, ymd(2025, 4, 1))));
    match action {
        Some(TicketAction::UpdateRelation(r)) => {
            assert_eq!(r.first_user_1_giving_ticket_date, Some(ymd(2025, 4, 1)));
            assert_eq!(r.updated_at, 50);
        }
        other => panic!("unexpected {:?}", other),
    }
    let (state, action) = create_ticket_step(state, TicketEvent::RelationUpdated);
    assert!(action.is_none());
    match state {
        CreateTicketState::Done(Ok(t)) => assert_eq!(t.id, 9),
        other => panic!("unexpected {:?}", other),
    }
}

#[test]
fn creating_a_later_ticket_leaves_the_relation() {
    let (state, _) = create_ticket_start(1, params(ymd(2025, 6, 1)), 50);
    let (state, _) = create_ticket_step(state, TicketEvent::RelationFound(Some(relation(Some(ymd(2025, 5, 1))))));
    let (state, action) = create_ticket_step(state, TicketEvent::TicketInserted(stored(9, ymd(2025, 6, 1))));
    assert!(action.is_none());
    assert!(matches!(state, CreateTicketState::Done(Ok(_))));
}

#[test]
fn creating_in_an_unknown_relation_fails() {
    let (state, _) = create_ticket_start(1, params(ymd(2025, 6, 1)), 50);
    let (state, action) = create_ticket_step(state, TicketEvent::RelationFound(None));
    assert!(action.is_none());
    assert!(matches!(state, CreateTicketState::Done(Err(TicketServiceError::UserRelationNotFound(3)))));
}

#[test]
fn a_database_failure_ends_the_flow() {
    let (state, _) = create_ticket_start(1, params(ymd(2025, 6, 1)), 50);
    let (state, _) = create_ticket_step(state, TicketEvent::RelationFound(Some(relation(None))));
    let (state, action) = create_ticket_step(state, TicketEvent::DbFailed("disk full".to_string()));
    assert!(action.is_none());
    match state {
        CreateTicketState::Done(Err(TicketServiceError::DbErr(m))) => assert_eq!(m, "disk full"),
        other => panic!("unexpected {:?}", other),
    }
}

#[test]
fn deleting_the_first_ticket_recounts_from_the_oldest_left() {
    let ticket = stored(9, ymd(2025, 5, 1));
    let (state, _) = delete_ticket_start(1, ticket);
    let (state, action) = delete_ticket_step(state, TicketEvent::RelationFound(Some(relation(Some(ymd(2025, 5, 1))))), 70);
    assert!(matches!(action, Some(TicketAction::DeleteTicket(9))));
    let (state, action) = delete_ticket_step(state, TicketEvent::TicketDeleted, 70);
    match action {
        Some(TicketAction::FindFirstTicket(q)) => {
            assert_eq!(q.conditions.len(), 2);
            assert!(matches!(q.conditions[0], TicketCondition::UserRelation(3)));
            assert!(matches!(q.conditions[1], TicketCondition::GivingUser(1)));
        }
        other => panic!("unexpected {:?}", other),
    }
    assert!(matches!(state, DeleteTicketState::FindingOldest { .. }));
    let (state, action) = delete_ticket_step(state, TicketEvent::TicketFound(Some(stored(4, ymd(2025, 7, 7)))), 80);
    match action {
        Some(TicketAction::UpdateRelation(r)) => {
            assert_eq!(r.first_user_1_giving_ticket_date, Some(ymd(2025, 7, 7)));
            assert_eq!(r.updated_at, 80);
        }
        other => panic!("unexpected {:?}", other),
    }
    let (state, action) = delete_ticket_step(state, TicketEvent::RelationUpdated, 80);
    assert!(action.is_none());
    assert!(matches!(state, DeleteTicketState::Done(Ok(()))));
}

#[test]
fn deleting_the_last_ticket_clears_the_first_date() {
    let (state, _) = delete_ticket_start(1, stored(9, ymd(2025, 5, 1)));
    let (state, _) = delete_ticket_step(state, TicketEvent::RelationFound(Some(relation(Some(ymd(2025, 5, 1))))), 70);
    let (state, _) = delete_ticket_step(state, TicketEvent::TicketDeleted, 70);
    let (_, action) = delete_ticket_step(state, TicketEvent::TicketFound(None), 90);
    match action {
        Some(TicketAction::UpdateRelation(r)) => assert_eq!(r.first_user_1_giving_ticket_date, None),
        other => panic!("unexpected {:?}", other),
    }
}

#[test]
fn deleting_a_later_ticket_needs_no_recount() {
    let (state, _) = delete_ticket_start(1, stored(9, ymd(2025, 6, 1)));
    let (state, _) = delete_ticket_step(state, TicketEvent::RelationFound(Some(relation(Some(ymd(2025, 5, 1))))), 70);
    let (state, action) = delete_ticket_step(state, TicketEvent::TicketDeleted, 70);
    assert!(action.is_none());
    assert!(matches!(state, DeleteTicketState::Done(Ok(()))));
}

#[test]
fn deleting_outside_the_users_relations_fails() {
    let (state, _) = delete_ticket_start(2, stored(9, ymd(2025, 6, 1)));
    let (state, _) = delete_ticket_step(state, TicketEvent::RelationFound(None), 70);
    assert!(matches!(state, DeleteTicketState::Done(Err(TicketServiceError::UserRelationNotFound(3)))));
}

#[test]
fn flows_commit_on_success_and_roll_back_on_failure() {
    let (state, _) = create_ticket_start(1, params(ymd(2025, 6, 1)), 50);
    assert_eq!(state.transaction_end(), None);
    let (failed, _) = create_ticket_step(state, TicketEvent::DbFailed("lost".to_string()));
    assert_eq!(failed.transaction_end(), Some(TransactionEnd::Rollback));
    let (state, _) = create_ticket_start(1, params(ymd(2025, 6, 1)), 50);
    let (state, _) = create_ticket_step(state, TicketEvent::RelationFound(Some(relation(Some(ymd(2025, 5, 1))))));
    let (done, _) = create_ticket_step(state, TicketEvent::TicketInserted(stored(9, ymd(2025, 6, 1))));
    assert_eq!(done.transaction_end(), Some(TransactionEnd::Commit));
    let (state, _) = delete_ticket_start(1, stored(9, ymd(2025, 6, 1)));
    let (failed, _) = delete_ticket_step(state, TicketEvent::RelationFound(None), 70);
    assert_eq!(failed.transaction_end(), Some(TransactionEnd::Rollback));
}
