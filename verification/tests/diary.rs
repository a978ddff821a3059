use backend::calendar::{date_from_ymd, Date};
use backend::diary_api::{
    create_diary_error_response, create_params, list_diary_error_response, list_params,
    mark_diary_read_error_response, update_diary_error_response, update_params, visible_diaries,
    CreateDiaryRequest, DiaryCreateError, DiaryListError, DiaryMarkReadError, DiaryServiceError, DiaryTag,
    DiaryTagInner, DiaryUpdateError, DiaryVisible, DiaryWithTags, ListDiaryQueryParam, UpdateDiaryRequest,
};
use backend::diary_query::{accessible_tags_query, list_with_tags_query, DiaryCondition, ListParam, TagCondition};
use backend::diary_store::{
    is_missing_tag_id_error, links_for_tags, new_diary_at, new_tags_at, tag_changes_at, tag_links_at,
    updated_diary_at, BulkUpdateDiaryTagItem, CreateDiaryParams, NewDiaryTagLink, UpdateDiaryParams,
};
use backend::error_responses::{response_400, response_401, response_403, response_404, response_500};
use backend::query::Order;
use backend::records::{Diary, DiaryStatus, DiaryTagRecord};

fn ymd(year: i32, month: u32, day: u32) -> Date {
    date_from_ymd(year, month, day).unwrap()
}

fn tag(id: u128, text: &str, sort_no: i32) -> DiaryTagRecord {
    DiaryTagRecord { id, text: text.to_string(), sort_no, created_at: 1, updated_at: 1, user_relation_id: 3 }
}

fn create_diary_params() -> CreateDiaryParams {
    CreateDiaryParams {
        entry: "We went to the sea.".to_string(),
        date: ymd(2025, 8, 1),
        user_relation_id: 3,
        user_1_status: DiaryStatus::Read,
        user_2_status: DiaryStatus::Unread,
        tag_ids: vec![7, 8],
    }
}

#[test]
fn new_diary_row() {
    let d = new_diary_at(&create_diary_params(), 99, 1234);
    assert_eq!(d.id, 99);
    assert_eq!(d.entry, "We went to the sea.");
    assert_eq!(d.date, ymd(2025, 8, 1));
    assert_eq!(d.user_relation_id, 3);
    assert_eq!(d.user_1_status, "read");
    assert_eq!(d.user_2_status, "unread");
    assert_eq!((d.created_at, d.updated_at), (1234, 1234));
}

#[test]
fn tag_links_follow_tag_ids() {
    let links = tag_links_at(99, &vec![7, 8, 9], 55);
    assert_eq!(links.len(), 3);
    for (link, tag_id) in links.iter().zip([7u128, 8, 9]) {
        assert_eq!(link.diary_id, 99);
        assert_eq!(link.tag_master_id, tag_id);
        assert_eq!((link.created_at, link.updated_at), (55, 55));
    }
    let links = links_for_tags(99, &vec![tag(7, "sea", 0), tag(8, "food", 1)]);
    assert_eq!(
        links,
        vec![NewDiaryTagLink { diary_id: 99, tag_master_id: 7 }, NewDiaryTagLink { diary_id: 99, tag_master_id: 8 }]
    );
    assert!(links_for_tags(99, &vec![]).is_empty());
}

#[test]
fn diary_updates_change_only_what_is_asked() {
    let d = new_diary_at(&create_diary_params(), 99, 10);
    let u = updated_diary_at(
        d.clone(),
        UpdateDiaryParams { entry: None, date: Some(ymd(2025, 8, 2)), user_1_status: None, user_2_status: Some(DiaryStatus::Read) },
        20,
    );
    assert_eq!(u.entry, d.entry);
    assert_eq!(u.date, ymd(2025, 8, 2));
    assert_eq!(u.user_1_status, "read");
    assert_eq!(u.user_2_status, "read");
    assert_eq!((u.created_at, u.updated_at), (10, 20));
    let u: Diary = updated_diary_at(
        d,
        UpdateDiaryParams { entry: Some("x".to_string()), date: None, user_1_status: Some(DiaryStatus::Unread), user_2_status: None },
        30,
    );
    assert_eq!(u.entry, "x");
    assert_eq!(u.date, ymd(2025, 8, 1));
    assert_eq!(u.user_1_status, "unread");
    assert_eq!(u.user_2_status, "unread");
}

#[test]
fn missing_tag_id_error_is_recognised() {
    assert!(is_missing_tag_id_error("A null value was encountered while decoding \"tag_master_id\""));
    assert!(!is_missing_tag_id_error("A null value was encountered while decoding \"id\""));
    assert!(!is_missing_tag_id_error(""));
}

#[test]
fn bulk_tag_updates() {
    let items = vec![
        BulkUpdateDiaryTagItem::from(&tag(7, "sea", 0)),
        BulkUpdateDiaryTagItem { id: Some(8), text: "food".to_string(), sort_no: 1 },
    ];
    let changes = tag_changes_at(&items, 77);
    assert_eq!(changes.len(), 2);
    assert_eq!((changes[0].id, changes[0].text.as_str(), changes[0].sort_no, changes[0].updated_at), (7, "sea", 0, 77));
    assert_eq!((changes[1].id, changes[1].text.as_str(), changes[1].sort_no), (8, "food", 1));
    let fresh = vec![BulkUpdateDiaryTagItem { id: None, text: "walk".to_string(), sort_no: 4 }];
    let created = new_tags_at(&fresh, 3, 88);
    assert_eq!(created.len(), 1);
    assert_eq!(created[0].text, "walk");
    assert_eq!(created[0].sort_no, 4);
    assert_eq!(created[0].user_relation_id, 3);
    assert_eq!((created[0].created_at, created[0].updated_at), (88, 88));
}

#[test]
fn visible_diaries_keep_order_and_tags() {
    let diaries = vec![
        DiaryWithTags {
            id: 1,
            entry: "a".to_string(),
            date: ymd(2025, 8, 2),
            status: DiaryStatus::Unread,
            tags: vec![DiaryTagInner { id: 7, text: "sea".to_string(), sort_no: 0 }],
        },
        DiaryWithTags { id: 2, entry: "b".to_string(), date: ymd(2025, 8, 1), status: DiaryStatus::Read, tags: vec![] },
    ];
    let visible = visible_diaries(diaries);
    assert_eq!(visible.len(), 2);
    assert_eq!(visible[0].id, 1);
    assert_eq!(visible[0].tags.len(), 1);
    assert_eq!((visible[0].tags[0].id, visible[0].tags[0].text.as_str()), (7, "sea"));
    assert_eq!(visible[1].status, DiaryStatus::Read);
    let one = DiaryVisible::from(DiaryWithTags {
        id: 5,
        entry: "c".to_string(),
        date: ymd(2025, 1, 1),
        status: DiaryStatus::Read,
        tags: vec![],
    });
    assert_eq!(one.entry, "c");
    let t = DiaryTag::from(&tag(9, "home", 2));
    assert_eq!((t.id, t.text.as_str(), t.sort_no), (9, "home", 2));
}

#[test]
fn request_parameters() {
    let p = create_params(4, CreateDiaryRequest { user_relation_id: 3, entry: "e".to_string(), date: ymd(2025, 3, 3), tag_ids: vec![1] });
    assert_eq!((p.creator_id, p.user_relation_id, p.entry.as_str(), p.tag_ids.clone()), (4, 3, "e", vec![1]));
    let u = update_params(4, 77, UpdateDiaryRequest { entry: "f".to_string(), date: ymd(2025, 3, 4), tag_ids: vec![] });
    assert_eq!((u.updater_id, u.diary_id, u.entry.as_str(), u.date), (4, 77, "f", ymd(2025, 3, 4)));
    let l = list_params(
        4,
        ListDiaryQueryParam { user_relation_id: 3, date_gte: Some(ymd(2025, 1, 1)), date_lte: None },
        Some(vec!["sea".to_string()]),
    );
    assert_eq!((l.user_id, l.user_relation_id), (4, 3));
    assert_eq!(l.text_query, Some(vec!["sea".to_string()]));
    assert_eq!(l.date_gte, Some(ymd(2025, 1, 1)));
    assert_eq!(l.date_lte, None);
}

#[test]
fn list_query_is_latest_first_and_restricted_to_the_relation() {
    let q = list_with_tags_query(&ListParam {
        user_id: 4,
        user_relation_id: 3,
        text_query: None,
        date_gte: None,
        date_lte: None,
    });
    assert!(q.join_user_relation);
    assert!(q.join_tags);
    assert_eq!(q.order_by_date, vec![Order::Desc]);
    assert!(q.conditions.iter().any(|c| matches!(c, DiaryCondition::UserHasAccess(4))));
    assert!(q.conditions.iter().any(|c| matches!(c, DiaryCondition::UserRelation(3))));
}

#[test]
fn diary_service_errors_become_use_case_errors() {
    assert!(matches!(DiaryCreateError::from(DiaryServiceError::UserRelationNotFound), DiaryCreateError::UserRelationNotFound));
    match DiaryCreateError::from(DiaryServiceError::DbErr("boom".to_string())) {
        DiaryCreateError::InternalServerError(m) => assert_eq!(m, "boom"),
        other => panic!("unexpected {:?}", other),
    }
    match DiaryCreateError::from(DiaryServiceError::DiaryNotFound) {
        DiaryCreateError::InternalServerError(m) => assert_eq!(m, "Diary not found."),
        other => panic!("unexpected {:?}", other),
    }
    assert!(matches!(DiaryListError::from(DiaryServiceError::UserRelationNotFound), DiaryListError::UserRelationNotFound));
    assert!(matches!(DiaryMarkReadError::from(DiaryServiceError::DiaryNotFound), DiaryMarkReadError::DiaryNotFound));
    assert!(matches!(DiaryUpdateError::from(DiaryServiceError::DiaryNotFound), DiaryUpdateError::DiaryNotFound));
    assert!(matches!(DiaryUpdateError::from(DiaryServiceError::UserRelationNotFound), DiaryUpdateError::UserRelationNotFound));
    assert_eq!(DiaryUpdateError::DiaryNotFound.message(), "Diary not found.");
    assert_eq!(DiaryMarkReadError::UserRelationNotFound.message(), "UserRelation not found.");
}

#[test]
fn diary_error_answers() {
    let r = create_diary_error_response(&DiaryCreateError::UserRelationNotFound);
    assert_eq!((r.status_code, r.message.as_str()), (404, "UserRelation not found."));
    let r = create_diary_error_response(&DiaryCreateError::InternalServerError("db down".to_string()));
    assert_eq!((r.status_code, r.message.as_str()), (500, "Some unexpected error happened. Please try again later."));
    let r = list_diary_error_response(&DiaryListError::UserRelationNotFound);
    assert_eq!(r.status_code, 404);
    let r = update_diary_error_response(&DiaryUpdateError::DiaryNotFound);
    assert_eq!((r.status_code, r.message.as_str()), (404, "Diary not found."));
    let r = mark_diary_read_error_response(&DiaryMarkReadError::InternalServerError("x".to_string()));
    assert_eq!(r.status_code, 500);
    let r = mark_diary_read_error_response(&DiaryMarkReadError::DiaryNotFound);
    assert_eq!((r.status_code, r.message.as_str()), (404, "Diary not found."));
}

#[test]
fn plain_error_answers() {
    let r = response_400("bad");
    assert_eq!((r.status_code, r.message.as_str()), (400, "bad"));
    let r = response_401();
    assert_eq!((r.status_code, r.message.as_str()), (401, "You are not authorized."));
    let r = response_403("no");
    assert_eq!((r.status_code, r.message.as_str()), (403, "no"));
    let r = response_404("gone".to_string());
    assert_eq!((r.status_code, r.message.as_str()), (404, "gone"));
    let r = response_500();
    assert_eq!(r.status_code, 500);
}

#[test]
fn new_entries_link_only_accessible_tags() {
    let q = accessible_tags_query(4, vec![7, 8]);
    assert!(q.join_user_relation);
    assert_eq!(q.conditions.len(), 2);
    assert!(matches!(q.conditions[0], TagCondition::UserHasAccess(4)));
    match &q.conditions[1] {
        TagCondition::IdIn(ids) => assert_eq!(ids, &vec![7, 8]),
        other => panic!("unexpected {:?}", other),
    }
}
