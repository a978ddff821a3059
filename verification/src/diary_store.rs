//! The diary side of the database: which rows creating, updating and tagging
//! a diary entry writes, and which rows the diary queries select.

use crate::calendar::Date;
use crate::clock::{current_timestamp, new_uuid_v7};
use crate::records::{Diary, DiaryStatus, DiaryTagLink, DiaryTagRecord, Timestamp, UserRelation};
use crate::query::{Order, TextMatch};
use vstd::multiset::Multiset;
use vstd::prelude::*;

verus! {

/// What creating a diary entry needs.
#[derive(Clone, Debug)]
pub struct CreateDiaryParams {
    pub entry: String,
    pub date: Date,
    pub user_relation_id: i64,
    pub user_1_status: DiaryStatus,
    pub user_2_status: DiaryStatus,
    pub tag_ids: Vec<u128>,
}

/// The fields of a diary entry that an update may change; `None` keeps a field.
#[derive(Clone, Debug)]
pub struct UpdateDiaryParams {
    pub entry: Option<String>,
    pub date: Option<Date>,
    pub user_1_status: Option<DiaryStatus>,
    pub user_2_status: Option<DiaryStatus>,
}

/// The diary row to insert for `params`, with id `id`, stamped `now`.
pub fn new_diary_at(params: &CreateDiaryParams, id: u128, now: Timestamp) -> (res: Diary)
    ensures
        res.id == id,
        res.entry@ == params.entry@,
        res.date == params.date,
        res.user_relation_id == params.user_relation_id,
        res.user_1_status@ == params.user_1_status.value(),
        res.user_2_status@ == params.user_2_status.value(),
        res.created_at == now,
        res.updated_at == now,
{
    Diary {
        id,
        entry: params.entry.clone(),
        date: params.date,
        created_at: now,
        updated_at: now,
        user_relation_id: params.user_relation_id,
        user_1_status: params.user_1_status.to_value(),
        user_2_status: params.user_2_status.to_value(),
    }
}

/// The links that attach each of `tag_ids`, in order, to the diary entry
/// `diary_id`, each under a fresh id, stamped `now`.
pub fn tag_links_at(diary_id: u128, tag_ids: &Vec<u128>, now: Timestamp) -> (res: Vec<DiaryTagLink>)
    ensures
        res@.len() == tag_ids@.len(),
        forall|i: int|
            0 <= i < res@.len() ==> {
                &&& (#[trigger] res@[i]).diary_id == diary_id
                &&& res@[i].tag_master_id == tag_ids@[i]
                &&& res@[i].created_at == now
                &&& res@[i].updated_at == now
            },
{
    let mut links: Vec<DiaryTagLink> = Vec::new();
    let mut i: usize = 0;
    while i < tag_ids.len()
        invariant
            i <= tag_ids@.len(),
            links@.len() == i,
            forall|j: int|
                0 <= j < i ==> {
                    &&& (#[trigger] links@[j]).diary_id == diary_id
                    &&& links@[j].tag_master_id == tag_ids@[j]
                    &&& links@[j].created_at == now
                    &&& links@[j].updated_at == now
                },
        decreases tag_ids@.len() - i,
    {
        links.push(
            DiaryTagLink {
                id: new_uuid_v7(),
                created_at: now,
                updated_at: now,
                diary_id,
                tag_master_id: tag_ids[i],
            },
        );
        i = i + 1;
    }
    links
}

/// The rows that creating a diary entry writes: the entry under a fresh id,
/// and, when tags are given, one link per tag id; all stamped with the same
/// current time.
pub fn diary_creation_rows(params: &CreateDiaryParams) -> (res: (Diary, Vec<DiaryTagLink>))
    ensures
        res.0.entry@ == params.entry@,
        res.0.date == params.date,
        res.0.user_relation_id == params.user_relation_id,
        res.0.user_1_status@ == params.user_1_status.value(),
        res.0.user_2_status@ == params.user_2_status.value(),
        res.0.created_at == res.0.updated_at,
        res.1@.len() == params.tag_ids@.len(),
        forall|i: int|
            0 <= i < res.1@.len() ==> {
                &&& (#[trigger] res.1@[i]).diary_id == res.0.id
                &&& res.1@[i].tag_master_id == params.tag_ids@[i]
                &&& res.1@[i].created_at == res.0.created_at
                &&& res.1@[i].updated_at == res.0.created_at
            },
{
    let now = current_timestamp();
    let diary = new_diary_at(params, new_uuid_v7(), now);
    let links = if params.tag_ids.len() == 0 {
        Vec::new()
    } else {
        tag_links_at(diary.id, &params.tag_ids, now)
    };
    (diary, links)
}

/// The links that attach `tag_ids` to the diary entry `diary_id`, stamped
/// with the current time (what linking tags to an entry inserts).
pub fn tag_links(diary_id: u128, tag_ids: &Vec<u128>) -> (res: Vec<DiaryTagLink>)
    ensures
        res@.len() == tag_ids@.len(),
        forall|i: int|
            0 <= i < res@.len() ==> {
                &&& (#[trigger] res@[i]).diary_id == diary_id
                &&& res@[i].tag_master_id == tag_ids@[i]
                &&& res@[i].created_at == res@[i].updated_at
            },
{
    let now = current_timestamp();
    tag_links_at(diary_id, tag_ids, now)
}

/// The diary entry with the changes that `params` asks for, stamped `now`.
pub fn updated_diary_at(diary: Diary, params: UpdateDiaryParams, now: Timestamp) -> (res: Diary)
    ensures
        res.id == diary.id,
        res.entry == (match params.entry {
            Some(e) => e,
            None => diary.entry,
        }),
        res.date == (match params.date {
            Some(d) => d,
            None => diary.date,
        }),
        res.user_1_status@ == (match params.user_1_status {
            Some(s) => s.value(),
            None => diary.user_1_status@,
        }),
        res.user_2_status@ == (match params.user_2_status {
            Some(s) => s.value(),
            None => diary.user_2_status@,
        }),
        res.created_at == diary.created_at,
        res.updated_at == now,
        res.user_relation_id == diary.user_relation_id,
{
    let mut diary = diary;
    if let Some(entry) = params.entry {
        diary.entry = entry;
    }
    if let Some(date) = params.date {
        diary.date = date;
    }
    if let Some(s) = params.user_1_status {
        diary.user_1_status = s.to_value();
    }
    if let Some(s) = params.user_2_status {
        diary.user_2_status = s.to_value();
    }
    diary.updated_at = now;
    diary
}

/// The diary entry with the changes that `params` asks for, stamped with the
/// current time.
pub fn updated_diary(diary: Diary, params: UpdateDiaryParams) -> (res: Diary)
    ensures
        res.id == diary.id,
        res.entry == (match params.entry {
            Some(e) => e,
            None => diary.entry,
        }),
        res.date == (match params.date {
            Some(d) => d,
            None => diary.date,
        }),
        res.user_1_status@ == (match params.user_1_status {
            Some(s) => s.value(),
            None => diary.user_1_status@,
        }),
        res.user_2_status@ == (match params.user_2_status {
            Some(s) => s.value(),
            None => diary.user_2_status@,
        }),
        res.created_at == diary.created_at,
        res.user_relation_id == diary.user_relation_id,
{
    let now = current_timestamp();
    updated_diary_at(diary, params, now)
}

/// The message with which the database reports a diary entry without tags
/// when tag ids are read through the link table.
pub open spec fn missing_tag_id_message() -> Seq<char> {
    "A null value was encountered while decoding \"tag_master_id\""@
}

/// Whether a type error from reading an entry's tag ids means that the entry
/// has no tags (and so an empty list is the answer).
pub fn is_missing_tag_id_error(type_error_message: &str) -> (res: bool)
    ensures
        res == (type_error_message@ == missing_tag_id_message()),
{
    String::from_str(type_error_message) == String::from_str(
        "A null value was encountered while decoding \"tag_master_id\"",
    )
}

/// How reading from the database failed: a value could not be decoded into
/// its type, or anything else; with the database's message.
#[derive(Clone, Debug)]
pub enum DbReadError {
    Type(String),
    Other(String),
}

/// `res` is what the tag ids read `read` comes to: the ids read, none for
/// the null of an entry without tags, or the failure passed on.
pub open spec fn tag_ids_outcome(read: Result<Vec<u128>, DbReadError>, res: Result<Vec<u128>, DbReadError>) -> bool {
    match read {
        Ok(ids) => res == Ok::<Vec<u128>, DbReadError>(ids),
        Err(DbReadError::Type(m)) => if m@ == missing_tag_id_message() {
            res matches Ok(ids) && ids@.len() == 0
        } else {
            res == Err::<Vec<u128>, DbReadError>(DbReadError::Type(m))
        },
        Err(e) => res == Err::<Vec<u128>, DbReadError>(e),
    }
}

/// The tag ids of the entries that a query selects, from what reading the
/// link table through a left join gave: the ids read, or none at all when the
/// read stopped at an entry without tags (the link column is then null);
/// any other failure is passed on.
pub fn tag_ids_or_empty(read: Result<Vec<u128>, DbReadError>) -> (res: Result<Vec<u128>, DbReadError>)
    ensures
        tag_ids_outcome(read, res),
{
    match read {
        Ok(ids) => Ok(ids),
        Err(DbReadError::Type(m)) => {
            if is_missing_tag_id_error(m.as_str()) {
                Ok(Vec::new())
            } else {
                Err(DbReadError::Type(m))
            }
        },
        Err(e) => Err(e),
    }
}

/// The tag ids of the links whose entry is among `entries`, counted with
/// their repetitions.
pub open spec fn linked_tag_ids(links: Seq<DiaryTagLink>, entries: Seq<u128>) -> Multiset<u128>
    decreases links.len(),
{
    if links.len() == 0 {
        Multiset::empty()
    } else {
        let rest = linked_tag_ids(links.drop_last(), entries);
        if entries.contains(links.last().diary_id) {
            rest.insert(links.last().tag_master_id)
        } else {
            rest
        }
    }
}

/// No link belongs to the entry.
pub open spec fn has_no_link(links: Seq<DiaryTagLink>, entry: u128) -> bool {
    forall|l: int| 0 <= l < links.len() ==> #[trigger] links[l].diary_id != entry
}

/// What the database answers to reading the tag ids of the entries
/// `entries` through a left join on `links`: an entry without any link
/// contributes a null, which stops the read with the decoding error;
/// otherwise the tag ids of their links, in some order.
pub open spec fn is_tag_id_read(
    read: Result<Vec<u128>, DbReadError>,
    entries: Seq<u128>,
    links: Seq<DiaryTagLink>,
) -> bool {
    if exists|e: int| 0 <= e < entries.len() && has_no_link(links, #[trigger] entries[e]) {
        read matches Err(DbReadError::Type(m)) && m@ == missing_tag_id_message()
    } else {
        read matches Ok(ids) && ids@.to_multiset() == linked_tag_ids(links, entries)
    }
}

proof fn lemma_no_links_no_ids(links: Seq<DiaryTagLink>, entry: u128)
    requires
        has_no_link(links, entry),
    ensures
        linked_tag_ids(links, seq![entry]) =~= Multiset::empty(),
    decreases links.len(),
{
    if links.len() > 0 {
        assert(links.last() == links[links.len() - 1]);
        assert(!seq![entry].contains(links.last().diary_id)) by {
            if seq![entry].contains(links.last().diary_id) {
                assert(seq![entry][0] == entry);
            }
        }
        lemma_no_links_no_ids(links.drop_last(), entry);
    }
}

/// The tag ids of one entry are those of its links: whether the read gives
/// them or stops at the null of an entry without links, what it comes to
/// holds exactly the tag ids of the entry's links (none, if it has none).
pub proof fn law_tag_ids_of_one_entry(
    read: Result<Vec<u128>, DbReadError>,
    res: Result<Vec<u128>, DbReadError>,
    entry: u128,
    links: Seq<DiaryTagLink>,
)
    requires
        is_tag_id_read(read, seq![entry], links),
        tag_ids_outcome(read, res),
    ensures
        res matches Ok(ids) && ids@.to_multiset() == linked_tag_ids(links, seq![entry]),
{
    let entries = seq![entry];
    if exists|e: int| 0 <= e < entries.len() && has_no_link(links, #[trigger] entries[e]) {
        let e = choose|e: int| 0 <= e < entries.len() && has_no_link(links, #[trigger] entries[e]);
        assert(entries[e] == entry);
        lemma_no_links_no_ids(links, entry);
        let ids = res->Ok_0@;
        ids.to_multiset_ensures();
        assert forall|a: u128| #[trigger] ids.to_multiset().count(a) == 0 by {
            assert(!ids.contains(a));
        }
        assert(ids.to_multiset() =~= Multiset::empty());
    }
}

/// A link row whose id and timestamps the database fills in.
#[derive(Clone, Copy, Debug, PartialEq, Eq, Structural)]
pub struct NewDiaryTagLink {
    pub diary_id: u128,
    pub tag_master_id: u128,
}

/// The links that attach each of `tags`, in order, to the entry `diary_id`
/// (what creating an entry through the diary service inserts for the tags it
/// found).
pub fn links_for_tags(diary_id: u128, tags: &Vec<DiaryTagRecord>) -> (res: Vec<NewDiaryTagLink>)
    ensures
        res@.len() == tags@.len(),
        forall|i: int|
            0 <= i < res@.len() ==> #[trigger] res@[i] == (NewDiaryTagLink {
                diary_id,
                tag_master_id: tags@[i].id,
            }),
{
    let mut links: Vec<NewDiaryTagLink> = Vec::new();
    let mut i: usize = 0;
    while i < tags.len()
        invariant
            i <= tags@.len(),
            links@.len() == i,
            forall|j: int|
                0 <= j < i ==> #[trigger] links@[j] == (NewDiaryTagLink {
                    diary_id,
                    tag_master_id: tags@[j].id,
                }),
        decreases tags@.len() - i,
    {
        links.push(NewDiaryTagLink { diary_id, tag_master_id: tags[i].id });
        i = i + 1;
    }
    links
}

/// A new diary entry of a user is linked only to tags that the user asked for
/// and that belong to one of the user's relations: the links come from the
/// tags that the accessible-tags query found.
pub proof fn law_entry_links_only_accessible_tags(
    user_id: i64,
    tag_ids: Seq<u128>,
    found: Seq<crate::diary_query::TagRow>,
    links: Seq<NewDiaryTagLink>,
    diary_id: u128,
)
    requires
        forall|i: int|
            0 <= i < found.len() ==> ((#[trigger] found[i]).relation matches Some(r) && r.has_member(
                user_id,
            ) && tag_ids.contains(found[i].tag.id)),
        links.len() == found.len(),
        forall|i: int|
            0 <= i < links.len() ==> #[trigger] links[i] == (NewDiaryTagLink {
                diary_id,
                tag_master_id: found[i].tag.id,
            }),
    ensures
        forall|i: int|
            0 <= i < links.len() ==> {
                &&& (#[trigger] links[i]).diary_id == diary_id
                &&& tag_ids.contains(links[i].tag_master_id)
                &&& found[i].tag.id == links[i].tag_master_id
                &&& found[i].relation matches Some(r) && r.has_member(user_id)
            },
{
    assert forall|i: int| 0 <= i < links.len() implies {
        &&& (#[trigger] links[i]).diary_id == diary_id
        &&& tag_ids.contains(links[i].tag_master_id)
        &&& found[i].tag.id == links[i].tag_master_id
        &&& found[i].relation matches Some(r) && r.has_member(user_id)
    } by {
        assert(found[i].relation matches Some(r) && r.has_member(user_id) && tag_ids.contains(
            found[i].tag.id,
        ));
    }
}

/// One tag in a bulk edit of a relation's tags: a new tag (no id) or an
/// existing one.
#[derive(Clone, Debug)]
pub struct BulkUpdateDiaryTagItem {
    pub id: Option<u128>,
    pub text: String,
    pub sort_no: i32,
}

/// A tag with the number of diary entries that carry it.
#[derive(Clone, Debug)]
pub struct DiaryTagVisible {
    pub id: u128,
    pub text: String,
    pub sort_no: i32,
    pub diary_count: i64,
}

/// The changes to write to an existing tag.
#[derive(Clone, Debug)]
pub struct DiaryTagChange {
    pub id: u128,
    pub text: String,
    pub sort_no: i32,
    pub updated_at: Timestamp,
}

impl BulkUpdateDiaryTagItem {
    /// The edit item that stands for an existing tag.
    pub fn from(value: &DiaryTagRecord) -> (res: BulkUpdateDiaryTagItem)
        ensures
            res.id == Some(value.id),
            res.text == value.text,
            res.sort_no == value.sort_no,
    {
        BulkUpdateDiaryTagItem { id: Some(value.id), text: value.text.clone(), sort_no: value.sort_no }
    }
}

/// The tag rows to insert for `items` in the relation `user_relation_id`,
/// each under a fresh id, stamped `now`.
pub fn new_tags_at(items: &Vec<BulkUpdateDiaryTagItem>, user_relation_id: i64, now: Timestamp) -> (res: Vec<
    DiaryTagRecord,
>)
    ensures
        res@.len() == items@.len(),
        forall|i: int|
            0 <= i < res@.len() ==> {
                &&& (#[trigger] res@[i]).text == items@[i].text
                &&& res@[i].sort_no == items@[i].sort_no
                &&& res@[i].user_relation_id == user_relation_id
                &&& res@[i].created_at == now
                &&& res@[i].updated_at == now
            },
{
    let mut tags: Vec<DiaryTagRecord> = Vec::new();
    let mut i: usize = 0;
    while i < items.len()
        invariant
            i <= items@.len(),
            tags@.len() == i,
            forall|j: int|
                0 <= j < i ==> {
                    &&& (#[trigger] tags@[j]).text == items@[j].text
                    &&& tags@[j].sort_no == items@[j].sort_no
                    &&& tags@[j].user_relation_id == user_relation_id
                    &&& tags@[j].created_at == now
                    &&& tags@[j].updated_at == now
                },
        decreases items@.len() - i,
    {
        tags.push(
            DiaryTagRecord {
                id: new_uuid_v7(),
                text: items[i].text.clone(),
                sort_no: items[i].sort_no,
                created_at: now,
                updated_at: now,
                user_relation_id,
            },
        );
        i = i + 1;
    }
    tags
}

/// The tag rows to insert for `items` in the relation, stamped with the
/// current time (what `create_many` inserts).
pub fn new_tags(items: &Vec<BulkUpdateDiaryTagItem>, user_relation: &UserRelation) -> (res: Vec<
    DiaryTagRecord,
>)
    ensures
        res@.len() == items@.len(),
        forall|i: int|
            0 <= i < res@.len() ==> {
                &&& (#[trigger] res@[i]).text == items@[i].text
                &&& res@[i].sort_no == items@[i].sort_no
                &&& res@[i].user_relation_id == user_relation.id
                &&& res@[i].created_at == res@[i].updated_at
            },
{
    let now = current_timestamp();
    new_tags_at(items, user_relation.id, now)
}

/// The changes to write for `items`, which all name existing tags, stamped
/// `now` (what `update_many` writes, one tag after another).
pub fn tag_changes_at(items: &Vec<BulkUpdateDiaryTagItem>, now: Timestamp) -> (res: Vec<DiaryTagChange>)
    requires
        forall|i: int| 0 <= i < items@.len() ==> (#[trigger] items@[i]).id is Some,
    ensures
        res@.len() == items@.len(),
        forall|i: int|
            0 <= i < res@.len() ==> {
                &&& Some((#[trigger] res@[i]).id) == items@[i].id
                &&& res@[i].text == items@[i].text
                &&& res@[i].sort_no == items@[i].sort_no
                &&& res@[i].updated_at == now
            },
{
    let mut changes: Vec<DiaryTagChange> = Vec::new();
    let mut i: usize = 0;
    while i < items.len()
        invariant
            i <= items@.len(),
            changes@.len() == i,
            forall|j: int| 0 <= j < items@.len() ==> (#[trigger] items@[j]).id is Some,
            forall|j: int|
                0 <= j < i ==> {
                    &&& Some((#[trigger] changes@[j]).id) == items@[j].id
                    &&& changes@[j].text == items@[j].text
                    &&& changes@[j].sort_no == items@[j].sort_no
                    &&& changes@[j].updated_at == now
                },
        decreases items@.len() - i,
    {
        let item = &items[i];
        assert(items@[i as int].id is Some);
        changes.push(
            DiaryTagChange {
                id: item.id.unwrap(),
                text: item.text.clone(),
                sort_no: item.sort_no,
                updated_at: now,
            },
        );
        i = i + 1;
    }
    changes
}

/// The changes to write for `items`, stamped with the current time.
pub fn tag_changes(items: &Vec<BulkUpdateDiaryTagItem>) -> (res: Vec<DiaryTagChange>)
    requires
        forall|i: int| 0 <= i < items@.len() ==> (#[trigger] items@[i]).id is Some,
    ensures
        res@.len() == items@.len(),
        forall|i: int|
            0 <= i < res@.len() ==> {
                &&& Some((#[trigger] res@[i]).id) == items@[i].id
                &&& res@[i].text == items@[i].text
                &&& res@[i].sort_no == items@[i].sort_no
            },
{
    let now = current_timestamp();
    tag_changes_at(items, now)
}

} // verus!
