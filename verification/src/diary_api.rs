//! The diary interface: what clients send and receive, how the diary
//! service's results and errors are turned into answers.

use crate::calendar::Date;
use crate::diary_query::ListParam;
use crate::error_responses::{internal_error_message, response_401, response_404, response_500, ErrorResponse};
use crate::records::{DiaryStatus, DiaryTagRecord};
use vstd::prelude::*;
use vstd::std_specs::convert::FromSpecImpl;

verus! {

/// A tag as clients see it.
#[derive(Clone, Debug)]
pub struct DiaryTag {
    pub id: u128,
    pub text: String,
    pub sort_no: i32,
}

/// A tag as the diary service returns it with an entry.
#[derive(Clone, Debug)]
pub struct DiaryTagInner {
    pub id: u128,
    pub text: String,
    pub sort_no: i32,
}

/// A diary entry with its tags, as the diary service returns it; `status` is
/// the entry's read state for the requesting user.
#[derive(Clone, Debug)]
pub struct DiaryWithTags {
    pub id: u128,
    pub entry: String,
    pub date: Date,
    pub status: DiaryStatus,
    pub tags: Vec<DiaryTagInner>,
}

/// A diary entry as clients see it.
#[derive(Clone, Debug)]
pub struct DiaryVisible {
    pub id: u128,
    pub entry: String,
    pub date: Date,
    pub status: DiaryStatus,
    pub tags: Vec<DiaryTag>,
}

/// What a client sends to create a diary entry.
#[derive(Clone, Debug)]
pub struct CreateDiaryRequest {
    pub user_relation_id: i64,
    pub entry: String,
    pub date: Date,
    pub tag_ids: Vec<u128>,
}

/// What a client sends to change a diary entry.
#[derive(Clone, Debug)]
pub struct UpdateDiaryRequest {
    pub entry: String,
    pub date: Date,
    pub tag_ids: Vec<u128>,
}

/// What a client may narrow the diary list by.
#[derive(Clone, Debug)]
pub struct ListDiaryQueryParam {
    pub user_relation_id: i64,
    pub date_gte: Option<Date>,
    pub date_lte: Option<Date>,
}

/// What the diary service needs to create an entry.
#[derive(Clone, Debug)]
pub struct DiaryCreateParams {
    pub entry: String,
    pub date: Date,
    pub creator_id: i64,
    pub user_relation_id: i64,
    pub tag_ids: Vec<u128>,
}

/// What the diary service needs to change an entry.
#[derive(Clone, Debug)]
pub struct DiaryUpdateParams {
    pub updater_id: i64,
    pub diary_id: u128,
    pub entry: String,
    pub date: Date,
    pub tag_ids: Vec<u128>,
}

impl From<&DiaryTagRecord> for DiaryTag {
    fn from(value: &DiaryTagRecord) -> (res: DiaryTag) {
        DiaryTag { id: value.id, text: value.text.clone(), sort_no: value.sort_no }
    }
}

impl FromSpecImpl<&DiaryTagRecord> for DiaryTag {
    open spec fn obeys_from_spec() -> bool {
        true
    }

    open spec fn from_spec(value: &DiaryTagRecord) -> DiaryTag {
        DiaryTag { id: value.id, text: value.text, sort_no: value.sort_no }
    }
}

impl From<&DiaryTagInner> for DiaryTag {
    fn from(value: &DiaryTagInner) -> (res: DiaryTag) {
        DiaryTag { id: value.id, text: value.text.clone(), sort_no: value.sort_no }
    }
}

impl FromSpecImpl<&DiaryTagInner> for DiaryTag {
    open spec fn obeys_from_spec() -> bool {
        true
    }

    open spec fn from_spec(value: &DiaryTagInner) -> DiaryTag {
        DiaryTag { id: value.id, text: value.text, sort_no: value.sort_no }
    }
}

impl DiaryVisible {
    /// The entry as clients see it, with its tags in the same order.
    pub fn from(value: DiaryWithTags) -> (res: DiaryVisible)
        ensures
            res.id == value.id,
            res.entry == value.entry,
            res.date == value.date,
            res.status == value.status,
            res.tags@.len() == value.tags@.len(),
            forall|i: int|
                0 <= i < res.tags@.len() ==> #[trigger] res.tags@[i] == (DiaryTag {
                    id: value.tags@[i].id,
                    text: value.tags@[i].text,
                    sort_no: value.tags@[i].sort_no,
                }),
    {
        let mut tags: Vec<DiaryTag> = Vec::new();
        let mut i: usize = 0;
        while i < value.tags.len()
            invariant
                i <= value.tags@.len(),
                tags@.len() == i,
                forall|j: int|
                    0 <= j < i ==> #[trigger] tags@[j] == (DiaryTag {
                        id: value.tags@[j].id,
                        text: value.tags@[j].text,
                        sort_no: value.tags@[j].sort_no,
                    }),
            decreases value.tags@.len() - i,
        {
            let tag = DiaryTag::from(&value.tags[i]);
            tags.push(tag);
            i = i + 1;
        }
        DiaryVisible { id: value.id, entry: value.entry, date: value.date, status: value.status, tags }
    }
}

/// The entries as clients see them, in the same order.
pub fn visible_diaries(diaries: Vec<DiaryWithTags>) -> (res: Vec<DiaryVisible>)
    ensures
        res@.len() == diaries@.len(),
        forall|i: int|
            0 <= i < res@.len() ==> {
                &&& (#[trigger] res@[i]).id == diaries@[i].id
                &&& res@[i].entry == diaries@[i].entry
                &&& res@[i].date == diaries@[i].date
                &&& res@[i].status == diaries@[i].status
                &&& res@[i].tags@.len() == diaries@[i].tags@.len()
                &&& forall|j: int|
                    0 <= j < res@[i].tags@.len() ==> #[trigger] res@[i].tags@[j] == (DiaryTag {
                        id: diaries@[i].tags@[j].id,
                        text: diaries@[i].tags@[j].text,
                        sort_no: diaries@[i].tags@[j].sort_no,
                    })
            },
{
    let mut res: Vec<DiaryVisible> = Vec::new();
    let mut rest = diaries;
    let ghost all = rest@;
    let mut taken: usize = 0;
    let total = rest.len();
    assert(all.len() == total);
    while rest.len() > 0
        invariant
            taken + rest@.len() == all.len(),
            all.len() <= usize::MAX,
            res@.len() == taken,
            rest@ == all.subrange(taken as int, all.len() as int),
            forall|j: int|
                0 <= j < taken ==> {
                    &&& (#[trigger] res@[j]).id == all[j].id
                    &&& res@[j].entry == all[j].entry
                    &&& res@[j].date == all[j].date
                    &&& res@[j].status == all[j].status
                    &&& res@[j].tags@.len() == all[j].tags@.len()
                    &&& forall|k: int|
                        0 <= k < res@[j].tags@.len() ==> #[trigger] res@[j].tags@[k] == (DiaryTag {
                            id: all[j].tags@[k].id,
                            text: all[j].tags@[k].text,
                            sort_no: all[j].tags@[k].sort_no,
                        })
                },
        decreases rest@.len(),
    {
        let d = rest.remove(0);
        assert(d == all[taken as int]);
        res.push(DiaryVisible::from(d));
        taken = taken + 1;
        assert(rest@ =~= all.subrange(taken as int, all.len() as int));
    }
    res
}

/// The diary service's parameters for creating the entry that `user_id` asked for.
pub fn create_params(user_id: i64, req: CreateDiaryRequest) -> (res: DiaryCreateParams)
    ensures
        res.entry == req.entry,
        res.date == req.date,
        res.creator_id == user_id,
        res.user_relation_id == req.user_relation_id,
        res.tag_ids@ == req.tag_ids@,
{
    DiaryCreateParams {
        entry: req.entry,
        date: req.date,
        creator_id: user_id,
        user_relation_id: req.user_relation_id,
        tag_ids: req.tag_ids,
    }
}

/// The diary service's parameters for changing the entry `diary_id` as `user_id` asked.
pub fn update_params(user_id: i64, diary_id: u128, req: UpdateDiaryRequest) -> (res: DiaryUpdateParams)
    ensures
        res.updater_id == user_id,
        res.diary_id == diary_id,
        res.entry == req.entry,
        res.date == req.date,
        res.tag_ids@ == req.tag_ids@,
{
    DiaryUpdateParams {
        updater_id: user_id,
        diary_id,
        entry: req.entry,
        date: req.date,
        tag_ids: req.tag_ids,
    }
}

/// The diary service's list parameters for what `user_id` asked for.
pub fn list_params(user_id: i64, params: ListDiaryQueryParam, text_query: Option<Vec<String>>) -> (res:
    ListParam)
    ensures
        res.user_id == user_id,
        res.user_relation_id == params.user_relation_id,
        res.text_query == text_query,
        res.date_gte == params.date_gte,
        res.date_lte == params.date_lte,
{
    ListParam {
        user_id,
        user_relation_id: params.user_relation_id,
        text_query,
        date_gte: params.date_gte,
        date_lte: params.date_lte,
    }
}

// ---------------------------------------------------------------------------
// Errors.

/// Why the diary service could not do what was asked.
#[derive(Clone, Debug)]
pub enum DiaryServiceError {
    DiaryNotFound,
    UserRelationNotFound,
    /// The database failed; its message.
    DbErr(String),
    /// A transaction failed and was rolled back; the database's message.
    DbTransactionErr(String),
}

impl DiaryServiceError {
    pub open spec fn text(self) -> Seq<char> {
        match self {
            DiaryServiceError::DiaryNotFound => "Diary not found."@,
            DiaryServiceError::UserRelationNotFound => "UserRelation not found."@,
            DiaryServiceError::DbErr(m) => m@,
            DiaryServiceError::DbTransactionErr(m) => m@,
        }
    }

    /// The error's message.
    pub fn message(&self) -> (res: String)
        ensures
            res@ == self.text(),
    {
        match self {
            DiaryServiceError::DiaryNotFound => String::from_str("Diary not found."),
            DiaryServiceError::UserRelationNotFound => String::from_str("UserRelation not found."),
            DiaryServiceError::DbErr(m) => m.clone(),
            DiaryServiceError::DbTransactionErr(m) => m.clone(),
        }
    }
}

/// Why creating a diary entry failed.
#[derive(Clone, Debug)]
pub enum DiaryCreateError {
    UserRelationNotFound,
    InternalServerError(String),
}

/// Why listing diary entries failed.
#[derive(Clone, Debug)]
pub enum DiaryListError {
    UserRelationNotFound,
    InternalServerError(String),
}

/// Why marking a diary entry as read failed.
#[derive(Clone, Debug)]
pub enum DiaryMarkReadError {
    DiaryNotFound,
    UserRelationNotFound,
    InternalServerError(String),
}

/// Why changing a diary entry failed.
#[derive(Clone, Debug)]
pub enum DiaryUpdateError {
    DiaryNotFound,
    UserRelationNotFound,
    InternalServerError(String),
}

impl DiaryCreateError {
    /// A missing relation stays such; any other failure is internal, with the
    /// service error's message.
    pub fn from(e: DiaryServiceError) -> (res: DiaryCreateError)
        ensures
            match e {
                DiaryServiceError::UserRelationNotFound => res is UserRelationNotFound,
                _ => res matches DiaryCreateError::InternalServerError(m) && m@ == e.text(),
            },
    {
        match e {
            DiaryServiceError::UserRelationNotFound => DiaryCreateError::UserRelationNotFound,
            _ => DiaryCreateError::InternalServerError(e.message()),
        }
    }

    pub open spec fn text(self) -> Seq<char> {
        match self {
            DiaryCreateError::UserRelationNotFound => "UserRelation not found."@,
            DiaryCreateError::InternalServerError(m) => m@,
        }
    }

    /// The error's message.
    pub fn message(&self) -> (res: String)
        ensures
            res@ == self.text(),
    {
        match self {
            DiaryCreateError::UserRelationNotFound => String::from_str("UserRelation not found."),
            DiaryCreateError::InternalServerError(m) => m.clone(),
        }
    }
}

impl DiaryListError {
    /// A missing relation stays such; any other failure is internal, with the
    /// service error's message.
    pub fn from(e: DiaryServiceError) -> (res: DiaryListError)
        ensures
            match e {
                DiaryServiceError::UserRelationNotFound => res is UserRelationNotFound,
                _ => res matches DiaryListError::InternalServerError(m) && m@ == e.text(),
            },
    {
        match e {
            DiaryServiceError::UserRelationNotFound => DiaryListError::UserRelationNotFound,
            _ => DiaryListError::InternalServerError(e.message()),
        }
    }

    pub open spec fn text(self) -> Seq<char> {
        match self {
            DiaryListError::UserRelationNotFound => "UserRelation not found."@,
            DiaryListError::InternalServerError(m) => m@,
        }
    }

    /// The error's message.
    pub fn message(&self) -> (res: String)
        ensures
            res@ == self.text(),
    {
        match self {
            DiaryListError::UserRelationNotFound => String::from_str("UserRelation not found."),
            DiaryListError::InternalServerError(m) => m.clone(),
        }
    }
}

impl DiaryMarkReadError {
    /// Missing entries and relations stay such; any other failure is
    /// internal, with the service error's message.
    pub fn from(e: DiaryServiceError) -> (res: DiaryMarkReadError)
        ensures
            match e {
                DiaryServiceError::DiaryNotFound => res is DiaryNotFound,
                DiaryServiceError::UserRelationNotFound => res is UserRelationNotFound,
                _ => res matches DiaryMarkReadError::InternalServerError(m) && m@ == e.text(),
            },
    {
        match e {
            DiaryServiceError::DiaryNotFound => DiaryMarkReadError::DiaryNotFound,
            DiaryServiceError::UserRelationNotFound => DiaryMarkReadError::UserRelationNotFound,
            _ => DiaryMarkReadError::InternalServerError(e.message()),
        }
    }

    pub open spec fn text(self) -> Seq<char> {
        match self {
            DiaryMarkReadError::DiaryNotFound => "Diary not found."@,
            DiaryMarkReadError::UserRelationNotFound => "UserRelation not found."@,
            DiaryMarkReadError::InternalServerError(m) => m@,
        }
    }

    /// The error's message.
    pub fn message(&self) -> (res: String)
        ensures
            res@ == self.text(),
    {
        match self {
            DiaryMarkReadError::DiaryNotFound => String::from_str("Diary not found."),
            DiaryMarkReadError::UserRelationNotFound => String::from_str("UserRelation not found."),
            DiaryMarkReadError::InternalServerError(m) => m.clone(),
        }
    }
}

impl DiaryUpdateError {
    /// Missing entries and relations stay such; any other failure is
    /// internal, with the service error's message.
    pub fn from(e: DiaryServiceError) -> (res: DiaryUpdateError)
        ensures
            match e {
                DiaryServiceError::DiaryNotFound => res is DiaryNotFound,
                DiaryServiceError::UserRelationNotFound => res is UserRelationNotFound,
                _ => res matches DiaryUpdateError::InternalServerError(m) && m@ == e.text(),
            },
    {
        match e {
            DiaryServiceError::DiaryNotFound => DiaryUpdateError::DiaryNotFound,
            DiaryServiceError::UserRelationNotFound => DiaryUpdateError::UserRelationNotFound,
            _ => DiaryUpdateError::InternalServerError(e.message()),
        }
    }

    pub open spec fn text(self) -> Seq<char> {
        match self {
            DiaryUpdateError::DiaryNotFound => "Diary not found."@,
            DiaryUpdateError::UserRelationNotFound => "UserRelation not found."@,
            DiaryUpdateError::InternalServerError(m) => m@,
        }
    }

    /// The error's message.
    pub fn message(&self) -> (res: String)
        ensures
            res@ == self.text(),
    {
        match self {
            DiaryUpdateError::DiaryNotFound => String::from_str("Diary not found."),
            DiaryUpdateError::UserRelationNotFound => String::from_str("UserRelation not found."),
            DiaryUpdateError::InternalServerError(m) => m.clone(),
        }
    }
}

// ---------------------------------------------------------------------------
// Answers of the diary endpoints on failure.

/// A missing relation is answered Not Found with the error's message; any
/// other failure is an internal error.
pub fn create_diary_error_response(e: &DiaryCreateError) -> (res: ErrorResponse)
    ensures
        match e {
            DiaryCreateError::UserRelationNotFound => res.status_code == 404 && res.message@
                == e.text(),
            DiaryCreateError::InternalServerError(_) => res.status_code == 500 && res.message@ == internal_error_message(),
        },
{
    match e {
        DiaryCreateError::UserRelationNotFound => response_404(e.message()),
        DiaryCreateError::InternalServerError(_) => response_500(),
    }
}

/// A missing relation is answered Not Found with the error's message; any
/// other failure is an internal error.
pub fn list_diary_error_response(e: &DiaryListError) -> (res: ErrorResponse)
    ensures
        match e {
            DiaryListError::UserRelationNotFound => res.status_code == 404 && res.message@
                == e.text(),
            DiaryListError::InternalServerError(_) => res.status_code == 500 && res.message@ == internal_error_message(),
        },
{
    match e {
        DiaryListError::UserRelationNotFound => response_404(e.message()),
        DiaryListError::InternalServerError(_) => response_500(),
    }
}

/// A missing entry or relation is answered Not Found with the error's
/// message; any other failure is an internal error.
pub fn update_diary_error_response(e: &DiaryUpdateError) -> (res: ErrorResponse)
    ensures
        match e {
            DiaryUpdateError::InternalServerError(_) => res.status_code == 500 && res.message@ == internal_error_message(),
            _ => res.status_code == 404 && res.message@ == e.text(),
        },
{
    match e {
        DiaryUpdateError::DiaryNotFound | DiaryUpdateError::UserRelationNotFound => response_404(
            e.message(),
        ),
        DiaryUpdateError::InternalServerError(_) => response_500(),
    }
}

/// A missing entry or relation is answered Not Found with the error's
/// message; any other failure is an internal error.
pub fn mark_diary_read_error_response(e: &DiaryMarkReadError) -> (res: ErrorResponse)
    ensures
        match e {
            DiaryMarkReadError::InternalServerError(_) => res.status_code == 500 && res.message@ == internal_error_message(),
            _ => res.status_code == 404 && res.message@ == e.text(),
        },
{
    match e {
        DiaryMarkReadError::UserRelationNotFound | DiaryMarkReadError::DiaryNotFound => response_404(
            e.message(),
        ),
        _ => response_500(),
    }
}

// ---------------------------------------------------------------------------
// Answers of the diary endpoints.

/// What a diary endpoint answers: a success status with its body, or an
/// error answer.
#[derive(Debug)]
pub enum EndpointAnswer<T> {
    Success { status_code: u16, body: T },
    Failure(ErrorResponse),
}

/// The answer to a request without a signed-in user.
pub open spec fn is_unauthorized<T>(a: EndpointAnswer<T>) -> bool {
    a matches EndpointAnswer::Failure(r) && r.status_code == 401 && r.message@ == "You are not authorized."@
}

/// The answer of the create endpoint to the outcome of creating the entry
/// (`None` when no user is signed in): 401 without a user, 201 with the
/// entry, else the error's answer.
pub fn create_diary_endpoint_answer(outcome: Option<Result<DiaryVisible, DiaryCreateError>>) -> (res:
    EndpointAnswer<DiaryVisible>)
    ensures
        match outcome {
            None => is_unauthorized(res),
            Some(Ok(d)) => res == (EndpointAnswer::Success { status_code: 201, body: d }),
            Some(Err(e)) => res matches EndpointAnswer::Failure(r) && {
                &&& e matches DiaryCreateError::UserRelationNotFound ==> r.status_code == 404 && r.message@
                    == e.text()
                &&& e matches DiaryCreateError::InternalServerError(_) ==> r.status_code == 500
                    && r.message@ == internal_error_message()
            },
        },
{
    match outcome {
        None => EndpointAnswer::Failure(response_401()),
        Some(Ok(d)) => EndpointAnswer::Success { status_code: 201, body: d },
        Some(Err(e)) => EndpointAnswer::Failure(create_diary_error_response(&e)),
    }
}

/// The answer of the list endpoint to the outcome of listing the entries
/// (`None` when no user is signed in): 401 without a user, 200 with the
/// entries, else the error's answer.
pub fn list_diary_endpoint_answer(outcome: Option<Result<Vec<DiaryVisible>, DiaryListError>>) -> (res:
    EndpointAnswer<Vec<DiaryVisible>>)
    ensures
        match outcome {
            None => is_unauthorized(res),
            Some(Ok(v)) => res == (EndpointAnswer::Success { status_code: 200, body: v }),
            Some(Err(e)) => res matches EndpointAnswer::Failure(r) && {
                &&& e matches DiaryListError::UserRelationNotFound ==> r.status_code == 404 && r.message@
                    == e.text()
                &&& e matches DiaryListError::InternalServerError(_) ==> r.status_code == 500
                    && r.message@ == internal_error_message()
            },
        },
{
    match outcome {
        None => EndpointAnswer::Failure(response_401()),
        Some(Ok(v)) => EndpointAnswer::Success { status_code: 200, body: v },
        Some(Err(e)) => EndpointAnswer::Failure(list_diary_error_response(&e)),
    }
}

/// The answer of the update endpoint to the outcome of changing the entry
/// (`None` when no user is signed in): 401 without a user, 200 with the
/// entry, else the error's answer.
pub fn update_diary_endpoint_answer(outcome: Option<Result<DiaryVisible, DiaryUpdateError>>) -> (res:
    EndpointAnswer<DiaryVisible>)
    ensures
        match outcome {
            None => is_unauthorized(res),
            Some(Ok(d)) => res == (EndpointAnswer::Success { status_code: 200, body: d }),
            Some(Err(e)) => res matches EndpointAnswer::Failure(r) && {
                &&& e matches DiaryUpdateError::InternalServerError(_) ==> r.status_code == 500
                    && r.message@ == internal_error_message()
                &&& !(e matches DiaryUpdateError::InternalServerError(_)) ==> r.status_code == 404
                    && r.message@ == e.text()
            },
        },
{
    match outcome {
        None => EndpointAnswer::Failure(response_401()),
        Some(Ok(d)) => EndpointAnswer::Success { status_code: 200, body: d },
        Some(Err(e)) => EndpointAnswer::Failure(update_diary_error_response(&e)),
    }
}

/// The answer of the mark-read endpoint to the outcome of marking the entry
/// (`None` when no user is signed in): 401 without a user, 200 with no
/// body, else the error's answer.
pub fn mark_diary_read_endpoint_answer(outcome: Option<Result<(), DiaryMarkReadError>>) -> (res:
    EndpointAnswer<()>)
    ensures
        match outcome {
            None => is_unauthorized(res),
            Some(Ok(())) => res == (EndpointAnswer::Success { status_code: 200, body: () }),
            Some(Err(e)) => res matches EndpointAnswer::Failure(r) && {
                &&& e matches DiaryMarkReadError::InternalServerError(_) ==> r.status_code == 500
                    && r.message@ == internal_error_message()
                &&& !(e matches DiaryMarkReadError::InternalServerError(_)) ==> r.status_code == 404
                    && r.message@ == e.text()
            },
        },
{
    match outcome {
        None => EndpointAnswer::Failure(response_401()),
        Some(Ok(())) => EndpointAnswer::Success { status_code: 200, body: () },
        Some(Err(e)) => EndpointAnswer::Failure(mark_diary_read_error_response(&e)),
    }
}

} // verus!
