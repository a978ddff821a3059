use backend::calendar::{date_from_ymd, Date};
use backend::diary_api::{
    create_diary_endpoint_answer, list_diary_endpoint_answer, mark_diary_read_endpoint_answer,
    update_diary_endpoint_answer, DiaryMarkReadError, DiaryServiceError, DiaryUpdateError, DiaryVisible,
    EndpointAnswer,
};
use backend::diary_flow::{
    create_diary_start, create_diary_step, service_create_diary_start, service_create_diary_step, CreateDiaryState,
    DiaryAction, DiaryEvent, ServiceCreateDiaryState,
};
use backend::diary_query::{DiaryTagQuery, TagCondition};
use backend::diary_store::{tag_ids_or_empty, CreateDiaryParams, DbReadError};
use backend::query::Order;
use backend::records::{Diary, DiaryTagRecord, ReadStatus};
use backend::ticket_flow::TransactionEnd;

fn ymd(year: i32, month: u32, day: u32) -> Date {
    date_from_ymd(year, month, day).unwrap()
}

fn params(tag_ids: Vec<u128>) -> CreateDiaryParams {
    CreateDiaryParams {
        entry: "picnic".to_string(),
        date: ymd(2025, 6, 1),
        user_relation_id: 3,
        user_1_status: ReadStatus::Read,
        user_2_status: ReadStatus::Unread,
        tag_ids,
    }
}

fn stored_diary(action: DiaryAction) -> Diary {
    match action {
        DiaryAction::InsertDiary(d) => d,
        other => panic!("unexpected {:?}", other),
    }
}

fn tag(id: u128) -> DiaryTagRecord {
    DiaryTagRecord { id, text: "sea".to_string(), sort_no: 0, created_at: 1, updated_at: 1, user_relation_id: 3 }
}

#[test]
fn creating_without_tags_returns_no_tags() {
    let (state, action) = create_diary_start(params(vec![]), 77, 500);
    let diary = stored_diary(action);
    assert_eq!((diary.id, diary.entry.as_str(), diary.created_at), (77, "picnic", 500));
    let (state, action) = create_diary_step(state, DiaryEvent::DiaryInserted(diary));
    assert!(action.is_none());
    match state {
        CreateDiaryState::Done(Ok((d, tags))) => {
            assert_eq!(d.id, 77);
            assert!(tags.is_empty());
        }
        other => panic!("unexpected {:?}", other),
    }
}

#[test]
fn creating_with_tags_links_then_fetches_them() {
    let (state, action) = create_diary_start(params(vec![7, 8]), 77, 500);
    let diary = stored_diary(action);
    let (state, action) = create_diary_step(state, DiaryEvent::DiaryInserted(diary));
    match action {
        Some(DiaryAction::InsertLinks(links)) => {
            assert_eq!(links.len(), 2);
            assert_eq!((links[0].diary_id, links[0].tag_master_id, links[1].tag_master_id), (77, 7, 8));
        }
        other => panic!("unexpected {:?}", other),
    }
    let (state, action) = create_diary_step(state, DiaryEvent::LinksInserted);
    match action {
        Some(DiaryAction::FindTags(q)) => {
            assert!(!q.join_user_relation);
            assert!(matches!(&q.conditions[0], TagCondition::IdIn(ids) if ids == &vec![7, 8]));
        }
        other => panic!("unexpected {:?}", other),
    }
    let (state, _) = create_diary_step(state, DiaryEvent::TagsFound(vec![tag(7), tag(8)]));
    assert!(matches!(state, CreateDiaryState::Done(Ok((_, ref tags))) if tags.len() == 2));
}

#[test]
fn service_creation_links_only_accessible_tags_and_rolls_back_on_failure() {
    let (state, action) = service_create_diary_start(4, params(vec![7, 8]), 77, 500);
    let diary = stored_diary(action);
    assert!(state.transaction_end().is_none());
    let (state, action) = service_create_diary_step(state, DiaryEvent::DiaryInserted(diary));
    match action {
        Some(DiaryAction::FindTags(q)) => {
            assert!(q.join_user_relation);
            assert!(matches!(q.conditions[0], TagCondition::UserHasAccess(4)));
        }
        other => panic!("unexpected {:?}", other),
    }
    let (state, action) = service_create_diary_step(state, DiaryEvent::TagsFound(vec![tag(7)]));
    match action {
        Some(DiaryAction::InsertNewLinks(links)) => {
            assert_eq!(links.len(), 1);
            assert_eq!((links[0].diary_id, links[0].tag_master_id), (77, 7));
        }
        other => panic!("unexpected {:?}", other),
    }
    let (done, _) = service_create_diary_step(state, DiaryEvent::LinksInserted);
    assert_eq!(done.transaction_end(), Some(TransactionEnd::Commit));

    let (state, action) = service_create_diary_start(4, params(vec![]), 78, 500);
    let diary = stored_diary(action);
    let (state, _) = service_create_diary_step(state, DiaryEvent::DiaryInserted(diary));
    let (failed, action) = service_create_diary_step(state, DiaryEvent::DbFailed("deadlock".to_string()));
    assert!(action.is_none());
    assert_eq!(failed.transaction_end(), Some(TransactionEnd::Rollback));
    match failed {
        ServiceCreateDiaryState::Done(Err(DiaryServiceError::DbTransactionErr(m))) => assert_eq!(m, "deadlock"),
        other => panic!("unexpected {:?}", other),
    }
}

fn visible() -> DiaryVisible {
    DiaryVisible { id: 1, entry: "a".to_string(), date: ymd(2025, 1, 1), status: ReadStatus::Read, tags: vec![] }
}

#[test]
fn endpoints_answer_401_without_a_user() {
    for answer in [
        update_diary_endpoint_answer(None),
        create_diary_endpoint_answer(None),
    ] {
        match answer {
            EndpointAnswer::Failure(r) => {
                assert_eq!((r.status_code, r.message.as_str()), (401, "You are not authorized."))
            }
            other => panic!("unexpected {:?}", other),
        }
    }
    assert!(matches!(list_diary_endpoint_answer(None), EndpointAnswer::Failure(ref r) if r.status_code == 401));
    assert!(matches!(mark_diary_read_endpoint_answer(None), EndpointAnswer::Failure(ref r) if r.status_code == 401));
}

#[test]
fn endpoints_answer_success_with_the_body() {
    match update_diary_endpoint_answer(Some(Ok(visible()))) {
        EndpointAnswer::Success { status_code, body } => assert_eq!((status_code, body.id), (200, 1)),
        other => panic!("unexpected {:?}", other),
    }
    match list_diary_endpoint_answer(Some(Ok(vec![visible()]))) {
        EndpointAnswer::Success { status_code, body } => assert_eq!((status_code, body.len()), (200, 1)),
        other => panic!("unexpected {:?}", other),
    }
    assert!(matches!(create_diary_endpoint_answer(Some(Ok(visible()))), EndpointAnswer::Success { status_code: 201, .. }));
    assert!(matches!(mark_diary_read_endpoint_answer(Some(Ok(()))), EndpointAnswer::Success { status_code: 200, .. }));
}

#[test]
fn endpoints_answer_errors() {
    match update_diary_endpoint_answer(Some(Err(DiaryUpdateError::DiaryNotFound))) {
        EndpointAnswer::Failure(r) => assert_eq!((r.status_code, r.message.as_str()), (404, "Diary not found.")),
        other => panic!("unexpected {:?}", other),
    }
    match mark_diary_read_endpoint_answer(Some(Err(DiaryMarkReadError::InternalServerError("x".to_string())))) {
        EndpointAnswer::Failure(r) => assert_eq!(r.status_code, 500),
        other => panic!("unexpected {:?}", other),
    }
}

#[test]
fn tag_ids_read_maps_the_null_to_no_tags() {
    assert_eq!(tag_ids_or_empty(Ok(vec![7, 8])).unwrap(), vec![7, 8]);
    let null = DbReadError::Type("A null value was encountered while decoding \"tag_master_id\"".to_string());
    assert_eq!(tag_ids_or_empty(Err(null)).unwrap(), Vec::<u128>::new());
    assert!(matches!(tag_ids_or_empty(Err(DbReadError::Type("other".to_string()))), Err(DbReadError::Type(_))));
    assert!(matches!(tag_ids_or_empty(Err(DbReadError::Other("gone".to_string()))), Err(DbReadError::Other(_))));
}

#[test]
fn tag_listing_is_in_sort_order() {
    let listing = DiaryTagQuery::init_query().filter_by_relation(3).get_diary_tags_with_diary_count();
    assert_eq!(listing.order_by_sort_no, Order::Asc);
    assert!(matches!(listing.tags.conditions[0], TagCondition::UserRelation(3)));
}
