//! Creating a diary entry with its tags, as steps against the database: the
//! plain creation, which links the given tag ids, and the service's creation,
//! which runs in one transaction and links only the tags the user may use.

use crate::diary_api::DiaryServiceError;
use crate::diary_query::{accessible_tags_query, TagCondition, TagRow, TagSelection};
use crate::diary_store::{
    links_for_tags, new_diary_at, tag_links_at, CreateDiaryParams, NewDiaryTagLink,
};
use crate::records::{Diary, DiaryTagLink, DiaryTagRecord, Timestamp};
use crate::ticket_flow::{settled, TransactionEnd};
use vstd::prelude::*;

verus! {

/// What creating a diary entry asks the database to do next.
#[derive(Clone, Debug)]
pub enum DiaryAction {
    /// Insert the entry; answered by `DiaryInserted` with the stored row.
    InsertDiary(Diary),
    /// Insert links with their ids and times; answered by `LinksInserted`.
    InsertLinks(Vec<DiaryTagLink>),
    /// Insert links whose ids and times the database fills in; answered by
    /// `LinksInserted`.
    InsertNewLinks(Vec<NewDiaryTagLink>),
    /// Fetch the tags that the query selects; answered by `TagsFound`.
    FindTags(TagSelection),
}

/// What the database answered.
#[derive(Clone, Debug)]
pub enum DiaryEvent {
    DiaryInserted(Diary),
    LinksInserted,
    TagsFound(Vec<DiaryTagRecord>),
    /// The database failed, with its message.
    DbFailed(String),
}

/// `row` is the entry that `params` describes, under `id`, stamped `now`.
pub open spec fn is_new_diary(row: Diary, params: CreateDiaryParams, id: u128, now: Timestamp) -> bool {
    &&& row.id == id
    &&& row.entry@ == params.entry@
    &&& row.date == params.date
    &&& row.user_relation_id == params.user_relation_id
    &&& row.user_1_status@ == params.user_1_status.value()
    &&& row.user_2_status@ == params.user_2_status.value()
    &&& row.created_at == now
    &&& row.updated_at == now
}

/// `links` attach each of `tag_ids`, in order, to the entry `diary_id`, stamped `now`.
pub open spec fn links_each_tag(links: Seq<DiaryTagLink>, diary_id: u128, tag_ids: Seq<u128>, now: Timestamp) -> bool {
    &&& links.len() == tag_ids.len()
    &&& forall|i: int|
        0 <= i < links.len() ==> {
            &&& (#[trigger] links[i]).diary_id == diary_id
            &&& links[i].tag_master_id == tag_ids[i]
            &&& links[i].created_at == now
            &&& links[i].updated_at == now
        }
}

/// `q` selects the tags whose id is among `tag_ids`, joining nothing.
pub open spec fn finds_tags_by_id(q: TagSelection, tag_ids: Seq<u128>) -> bool {
    &&& !q.join_user_relation
    &&& forall|row: TagRow| #[trigger] q.admits(row) <==> tag_ids.contains(row.tag.id)
}

// ---------------------------------------------------------------------------
// The plain creation.

/// Where the plain creation of an entry stands.
#[derive(Debug)]
pub enum CreateDiaryState {
    /// Waiting for the stored entry.
    InsertingDiary { tag_ids: Vec<u128>, now: Timestamp },
    /// Waiting for the links to be stored.
    InsertingLinks { diary: Diary, tag_ids: Vec<u128> },
    /// Waiting for the tags.
    FindingTags { diary: Diary },
    /// The outcome: the entry and its tags, or the database's message.
    Done(Result<(Diary, Vec<DiaryTagRecord>), String>),
}

impl CreateDiaryState {
    /// The flow waits for `event` (a failure may come at any step).
    pub open spec fn expects(self, event: DiaryEvent) -> bool {
        match (self, event) {
            (CreateDiaryState::Done(_), _) => false,
            (_, DiaryEvent::DbFailed(_)) => true,
            (CreateDiaryState::InsertingDiary { .. }, DiaryEvent::DiaryInserted(_)) => true,
            (CreateDiaryState::InsertingLinks { .. }, DiaryEvent::LinksInserted) => true,
            (CreateDiaryState::FindingTags { .. }, DiaryEvent::TagsFound(_)) => true,
            _ => false,
        }
    }

    /// Whether the flow waits for `event`.
    pub fn accepts(&self, event: &DiaryEvent) -> (res: bool)
        ensures
            res == self.expects(*event),
    {
        match (self, event) {
            (CreateDiaryState::Done(_), _) => false,
            (_, DiaryEvent::DbFailed(_)) => true,
            (CreateDiaryState::InsertingDiary { .. }, DiaryEvent::DiaryInserted(_)) => true,
            (CreateDiaryState::InsertingLinks { .. }, DiaryEvent::LinksInserted) => true,
            (CreateDiaryState::FindingTags { .. }, DiaryEvent::TagsFound(_)) => true,
            _ => false,
        }
    }
}

/// Starts creating the entry that `params` describes under `id` at time
/// `now`: first the entry is inserted.
pub fn create_diary_start(params: CreateDiaryParams, id: u128, now: Timestamp) -> (res: (
    CreateDiaryState,
    DiaryAction,
))
    ensures
        res.0 == (CreateDiaryState::InsertingDiary { tag_ids: params.tag_ids, now }),
        res.1 matches DiaryAction::InsertDiary(row) && is_new_diary(row, params, id, now),
{
    let row = new_diary_at(&params, id, now);
    (CreateDiaryState::InsertingDiary { tag_ids: params.tag_ids, now }, DiaryAction::InsertDiary(row))
}

/// What one step of the plain creation does.
pub open spec fn create_diary_step_spec(
    state: CreateDiaryState,
    event: DiaryEvent,
    res: (CreateDiaryState, Option<DiaryAction>),
) -> bool {
    match (state, event) {
        (_, DiaryEvent::DbFailed(m)) => res.0 == CreateDiaryState::Done(Err(m)) && res.1 is None,
        (CreateDiaryState::InsertingDiary { tag_ids, now }, DiaryEvent::DiaryInserted(diary)) => {
            if tag_ids@.len() == 0 {
                &&& res.0 matches CreateDiaryState::Done(Ok((d, tags))) && d == diary && tags@.len() == 0
                &&& res.1 is None
            } else {
                &&& res.0 == (CreateDiaryState::InsertingLinks { diary, tag_ids })
                &&& res.1 matches Some(DiaryAction::InsertLinks(links)) && links_each_tag(
                    links@,
                    diary.id,
                    tag_ids@,
                    now,
                )
            }
        },
        (CreateDiaryState::InsertingLinks { diary, tag_ids }, DiaryEvent::LinksInserted) => {
            &&& res.0 == (CreateDiaryState::FindingTags { diary })
            &&& res.1 matches Some(DiaryAction::FindTags(q)) && finds_tags_by_id(q, tag_ids@)
        },
        (CreateDiaryState::FindingTags { diary }, DiaryEvent::TagsFound(tags)) => res.0
            == CreateDiaryState::Done(Ok((diary, tags))) && res.1 is None,
        _ => false,
    }
}

/// One step of the plain creation: a failure ends it with the database's
/// message; the stored entry ends it with no tags when no tag ids were
/// given, and otherwise leads to linking each tag id and then fetching those
/// tags, which end it.
pub fn create_diary_step(state: CreateDiaryState, event: DiaryEvent) -> (res: (
    CreateDiaryState,
    Option<DiaryAction>,
))
    requires
        state.expects(event),
    ensures
        create_diary_step_spec(state, event, res),
        match (state, event) {
            (CreateDiaryState::InsertingDiary { tag_ids, now }, DiaryEvent::DiaryInserted(diary)) => tag_ids@.len()
                > 0 ==> (res.1 matches Some(DiaryAction::InsertLinks(links)) && links@.len()
                == tag_ids@.len() && forall|i: int|
                0 <= i < links@.len() ==> (#[trigger] links@[i]).diary_id == diary.id
                    && links@[i].tag_master_id == tag_ids@[i]),
            (CreateDiaryState::InsertingLinks { diary, tag_ids }, DiaryEvent::LinksInserted) => res.1 matches Some(
                DiaryAction::FindTags(q),
            ) && forall|row: TagRow| #[trigger] q.admits(row) <==> tag_ids@.contains(row.tag.id),
            _ => true,
        },
{
    match event {
        DiaryEvent::DbFailed(m) => (CreateDiaryState::Done(Err(m)), None),
        DiaryEvent::DiaryInserted(diary) => match state {
            CreateDiaryState::InsertingDiary { tag_ids, now } => {
                if tag_ids.len() == 0 {
                    (CreateDiaryState::Done(Ok((diary, Vec::new()))), None)
                } else {
                    let links = tag_links_at(diary.id, &tag_ids, now);
                    (
                        CreateDiaryState::InsertingLinks { diary, tag_ids },
                        Some(DiaryAction::InsertLinks(links)),
                    )
                }
            },
            _ => {
                proof {
                    assert(false);
                }
                (state, None)
            },
        },
        DiaryEvent::LinksInserted => match state {
            CreateDiaryState::InsertingLinks { diary, tag_ids } => {
                let ids = tag_ids.clone();
                let q = TagSelection { join_user_relation: false, conditions: vec![TagCondition::IdIn(ids)] };
                proof {
                    assert forall|row: TagRow| #[trigger] q.admits(row) <==> tag_ids@.contains(row.tag.id) by {
                        if tag_ids@.contains(row.tag.id) {
                            assert forall|i: int| 0 <= i < q.conditions@.len() implies
                                crate::diary_query::tag_condition_holds(#[trigger] q.conditions@[i], row) by {}
                        }
                        if q.admits(row) {
                            assert(crate::diary_query::tag_condition_holds(q.conditions@[0], row));
                        }
                    }
                }
                (CreateDiaryState::FindingTags { diary }, Some(DiaryAction::FindTags(q)))
            },
            _ => {
                proof {
                    assert(false);
                }
                (state, None)
            },
        },
        DiaryEvent::TagsFound(tags) => match state {
            CreateDiaryState::FindingTags { diary } => (CreateDiaryState::Done(Ok((diary, tags))), None),
            _ => {
                proof {
                    assert(false);
                }
                (state, None)
            },
        },
    }
}

// ---------------------------------------------------------------------------
// The service's creation, in one transaction.

/// Where the service's creation of an entry stands.
#[derive(Debug)]
pub enum ServiceCreateDiaryState {
    /// Waiting for the stored entry.
    InsertingDiary { user_id: i64, tag_ids: Vec<u128> },
    /// Waiting for the tags among the given ids that the user may use.
    FindingTags { diary: Diary },
    /// Waiting for the links to those tags to be stored.
    InsertingLinks { diary: Diary, tags: Vec<DiaryTagRecord> },
    /// The outcome: the entry and its tags, or the failed transaction.
    Done(Result<(Diary, Vec<DiaryTagRecord>), DiaryServiceError>),
}

impl ServiceCreateDiaryState {
    /// The flow waits for `event` (a failure may come at any step).
    pub open spec fn expects(self, event: DiaryEvent) -> bool {
        match (self, event) {
            (ServiceCreateDiaryState::Done(_), _) => false,
            (_, DiaryEvent::DbFailed(_)) => true,
            (ServiceCreateDiaryState::InsertingDiary { .. }, DiaryEvent::DiaryInserted(_)) => true,
            (ServiceCreateDiaryState::FindingTags { .. }, DiaryEvent::TagsFound(_)) => true,
            (ServiceCreateDiaryState::InsertingLinks { .. }, DiaryEvent::LinksInserted) => true,
            _ => false,
        }
    }

    /// Whether the flow waits for `event`.
    pub fn accepts(&self, event: &DiaryEvent) -> (res: bool)
        ensures
            res == self.expects(*event),
    {
        match (self, event) {
            (ServiceCreateDiaryState::Done(_), _) => false,
            (_, DiaryEvent::DbFailed(_)) => true,
            (ServiceCreateDiaryState::InsertingDiary { .. }, DiaryEvent::DiaryInserted(_)) => true,
            (ServiceCreateDiaryState::FindingTags { .. }, DiaryEvent::TagsFound(_)) => true,
            (ServiceCreateDiaryState::InsertingLinks { .. }, DiaryEvent::LinksInserted) => true,
            _ => false,
        }
    }

    /// How the transaction ends once the flow is done: committed after
    /// success, rolled back after a failure, so that a failed creation leaves
    /// neither the entry nor any link.
    pub open spec fn end(self) -> Option<TransactionEnd> {
        match self {
            ServiceCreateDiaryState::Done(Ok(_)) => Some(TransactionEnd::Commit),
            ServiceCreateDiaryState::Done(Err(_)) => Some(TransactionEnd::Rollback),
            _ => None,
        }
    }

    /// How the transaction ends, if the flow is done.
    pub fn transaction_end(&self) -> (res: Option<TransactionEnd>)
        ensures
            res == self.end(),
    {
        match self {
            ServiceCreateDiaryState::Done(Ok(_)) => Some(TransactionEnd::Commit),
            ServiceCreateDiaryState::Done(Err(_)) => Some(TransactionEnd::Rollback),
            _ => None,
        }
    }
}

/// Starts the service's creation of the entry that `user_id` asks for, under
/// `id` at time `now`: first the entry is inserted.
pub fn service_create_diary_start(user_id: i64, params: CreateDiaryParams, id: u128, now: Timestamp) -> (res: (
    ServiceCreateDiaryState,
    DiaryAction,
))
    ensures
        res.0 == (ServiceCreateDiaryState::InsertingDiary { user_id, tag_ids: params.tag_ids }),
        res.1 matches DiaryAction::InsertDiary(row) && is_new_diary(row, params, id, now),
{
    let row = new_diary_at(&params, id, now);
    (ServiceCreateDiaryState::InsertingDiary { user_id, tag_ids: params.tag_ids }, DiaryAction::InsertDiary(row))
}

/// What one step of the service's creation does.
pub open spec fn service_create_diary_step_spec(
    state: ServiceCreateDiaryState,
    event: DiaryEvent,
    res: (ServiceCreateDiaryState, Option<DiaryAction>),
) -> bool {
    match (state, event) {
        (_, DiaryEvent::DbFailed(m)) => res.0 == ServiceCreateDiaryState::Done(
            Err(DiaryServiceError::DbTransactionErr(m)),
        ) && res.1 is None,
        (ServiceCreateDiaryState::InsertingDiary { user_id, tag_ids }, DiaryEvent::DiaryInserted(diary)) => {
            &&& res.0 == (ServiceCreateDiaryState::FindingTags { diary })
            &&& res.1 matches Some(DiaryAction::FindTags(q)) && q.join_user_relation && (forall|row: TagRow|
                #[trigger] q.admits(row) <==> (row.relation matches Some(r) && r.has_member(user_id)
                    && tag_ids@.contains(row.tag.id)))
        },
        (ServiceCreateDiaryState::FindingTags { diary }, DiaryEvent::TagsFound(tags)) => {
            &&& res.0 == (ServiceCreateDiaryState::InsertingLinks { diary, tags })
            &&& res.1 matches Some(DiaryAction::InsertNewLinks(links)) && links@.len() == tags@.len() && (
            forall|i: int|
                0 <= i < links@.len() ==> #[trigger] links@[i] == (NewDiaryTagLink {
                    diary_id: diary.id,
                    tag_master_id: tags@[i].id,
                }))
        },
        (ServiceCreateDiaryState::InsertingLinks { diary, tags }, DiaryEvent::LinksInserted) => res.0
            == ServiceCreateDiaryState::Done(Ok((diary, tags))) && res.1 is None,
        _ => false,
    }
}

/// One step of the service's creation: a failure ends it with the failed
/// transaction; the stored entry leads to fetching the given tags that the
/// user may use, those to linking each of them, and the stored links end it
/// with the entry and those tags.
pub fn service_create_diary_step(state: ServiceCreateDiaryState, event: DiaryEvent) -> (res: (
    ServiceCreateDiaryState,
    Option<DiaryAction>,
))
    requires
        state.expects(event),
    ensures
        service_create_diary_step_spec(state, event, res),
        match (state, event) {
            (ServiceCreateDiaryState::InsertingDiary { user_id, tag_ids }, DiaryEvent::DiaryInserted(_)) => res.1 matches Some(
                DiaryAction::FindTags(q),
            ) && forall|row: TagRow|
                #[trigger] q.admits(row) ==> (tag_ids@.contains(row.tag.id) && (row.relation matches Some(r)
                    && (r.user_1_id == user_id || r.user_2_id == user_id))),
            (ServiceCreateDiaryState::FindingTags { diary }, DiaryEvent::TagsFound(tags)) => res.1 matches Some(
                DiaryAction::InsertNewLinks(links),
            ) && links@.len() == tags@.len() && forall|i: int|
                0 <= i < links@.len() ==> (#[trigger] links@[i]).diary_id == diary.id
                    && links@[i].tag_master_id == tags@[i].id,
            _ => true,
        },
{
    match event {
        DiaryEvent::DbFailed(m) => (ServiceCreateDiaryState::Done(Err(DiaryServiceError::DbTransactionErr(m))), None),
        DiaryEvent::DiaryInserted(diary) => match state {
            ServiceCreateDiaryState::InsertingDiary { user_id, tag_ids } => {
                let q = accessible_tags_query(user_id, tag_ids);
                (ServiceCreateDiaryState::FindingTags { diary }, Some(DiaryAction::FindTags(q)))
            },
            _ => {
                proof {
                    assert(false);
                }
                (state, None)
            },
        },
        DiaryEvent::TagsFound(tags) => match state {
            ServiceCreateDiaryState::FindingTags { diary } => {
                let links = links_for_tags(diary.id, &tags);
                (ServiceCreateDiaryState::InsertingLinks { diary, tags }, Some(DiaryAction::InsertNewLinks(links)))
            },
            _ => {
                proof {
                    assert(false);
                }
                (state, None)
            },
        },
        DiaryEvent::LinksInserted => match state {
            ServiceCreateDiaryState::InsertingLinks { diary, tags } => (
                ServiceCreateDiaryState::Done(Ok((diary, tags))),
                None,
            ),
            _ => {
                proof {
                    assert(false);
                }
                (state, None)
            },
        },
    }
}

/// A failed service creation persists nothing: every failure ends the flow
/// with the failed transaction, and a flow that ends so is rolled back.
pub proof fn law_failed_service_create_is_rolled_back<D>(
    state: ServiceCreateDiaryState,
    message: String,
    res: (ServiceCreateDiaryState, Option<DiaryAction>),
    before: D,
    written: D,
)
    requires
        state.expects(DiaryEvent::DbFailed(message)),
        service_create_diary_step_spec(state, DiaryEvent::DbFailed(message), res),
    ensures
        res.0 == ServiceCreateDiaryState::Done(Err(DiaryServiceError::DbTransactionErr(message))),
        res.0.end() == Some(TransactionEnd::Rollback),
        settled(before, written, res.0.end().unwrap()) == before,
        res.1 is None,
{
}


/// Every given tag gets linked: once the entry is stored, a non-empty list of
/// tag ids never ends the creation but leads to inserting one link per given
/// id, in order, each from the stored entry to that tag; only an empty list
/// ends the creation at once, with the stored entry and no tags.
pub proof fn law_stored_entry_links_every_given_tag(
    tag_ids: Vec<u128>,
    now: Timestamp,
    diary: Diary,
    res: (CreateDiaryState, Option<DiaryAction>),
)
    requires
        create_diary_step_spec(
            CreateDiaryState::InsertingDiary { tag_ids, now },
            DiaryEvent::DiaryInserted(diary),
            res,
        ),
    ensures
        tag_ids@.len() > 0 ==> !(res.0 is Done),
        tag_ids@.len() > 0 ==> (res.1 matches Some(DiaryAction::InsertLinks(links)) && links@.len()
            == tag_ids@.len() && forall|i: int|
            0 <= i < tag_ids@.len() ==> (#[trigger] links@[i]).diary_id == diary.id
                && links@[i].tag_master_id == tag_ids@[i]),
        tag_ids@.len() == 0 ==> res.1 is None,
        tag_ids@.len() == 0 ==> (res.0 matches CreateDiaryState::Done(Ok((d, tags))) && d == diary
            && tags@.len() == 0),
{
}

/// Once the links are stored, the plain creation fetches exactly the tags
/// whose id was given: a tag is fetched if and only if its id is among them.
pub proof fn law_linked_tags_are_fetched_by_id(
    diary: Diary,
    tag_ids: Vec<u128>,
    res: (CreateDiaryState, Option<DiaryAction>),
    row: TagRow,
)
    requires
        create_diary_step_spec(
            CreateDiaryState::InsertingLinks { diary, tag_ids },
            DiaryEvent::LinksInserted,
            res,
        ),
    ensures
        res.1 matches Some(DiaryAction::FindTags(q)) && (q.admits(row) <==> tag_ids@.contains(row.tag.id)),
{
}

/// The service links only tags that the user asked for and may use: once the
/// entry is stored, the tag lookup admits a tag if and only if its id is
/// among the requested ids and it belongs to a relation of the user.
pub proof fn law_service_looks_up_only_requested_accessible_tags(
    user_id: i64,
    tag_ids: Vec<u128>,
    diary: Diary,
    res: (ServiceCreateDiaryState, Option<DiaryAction>),
    row: TagRow,
)
    requires
        service_create_diary_step_spec(
            ServiceCreateDiaryState::InsertingDiary { user_id, tag_ids },
            DiaryEvent::DiaryInserted(diary),
            res,
        ),
    ensures
        res.1 matches Some(DiaryAction::FindTags(q)) && (q.admits(row) ==> tag_ids@.contains(row.tag.id)),
        res.1 matches Some(DiaryAction::FindTags(q)) && (q.admits(row) ==> (row.relation matches Some(r)
            && (r.user_1_id == user_id || r.user_2_id == user_id))),
        res.1 matches Some(DiaryAction::FindTags(q)) && ((tag_ids@.contains(row.tag.id) && (
        row.relation matches Some(r) && (r.user_1_id == user_id || r.user_2_id == user_id)))
            ==> q.admits(row)),
{
}

/// The service links the stored entry to each found tag and to nothing else:
/// one link per found tag, in order, from the entry to that tag.
pub proof fn law_service_links_each_found_tag(
    diary: Diary,
    tags: Vec<DiaryTagRecord>,
    res: (ServiceCreateDiaryState, Option<DiaryAction>),
)
    requires
        service_create_diary_step_spec(
            ServiceCreateDiaryState::FindingTags { diary },
            DiaryEvent::TagsFound(tags),
            res,
        ),
    ensures
        res.1 matches Some(DiaryAction::InsertNewLinks(links)) && links@.len() == tags@.len() && forall|i: int|
            0 <= i < tags@.len() ==> (#[trigger] links@[i]).diary_id == diary.id && links@[i].tag_master_id
                == tags@[i].id,
{
}

} // verus!
