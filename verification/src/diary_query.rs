//! Descriptions of the diary and diary tag queries: which rows they select and
//! in which order.

use crate::calendar::Date;
use crate::query::{copy_terms, lemma_same_terms_pass, terms_view, Order, TextMatch};
use crate::diary_store::DiaryTagVisible;
use crate::records::{Diary, DiaryTagLink, DiaryTagRecord, UserRelation};
use vstd::prelude::*;

verus! {

/// A diary entry with the rows that the query joins to it: its relation and
/// one of its tags (`None` where there is none or where nothing is joined).
#[derive(Clone, Debug)]
pub struct DiaryRow {
    pub diary: Diary,
    pub relation: Option<UserRelation>,
    pub tag: Option<DiaryTagRecord>,
}

/// One condition of a diary query.
#[derive(Clone, Debug)]
pub enum DiaryCondition {
    /// The joined relation has the user as one of its two users.
    UserHasAccess(i64),
    UserRelation(i64),
    Id(u128),
    /// Each term occurs in the entry or in the joined tag's text.
    ContainsAllTexts(Vec<String>),
    DateFrom(Date),
    DateTo(Date),
}

/// A query over diary entries: the joins, the conditions (all must hold), and
/// the sort order by date, most significant first.
#[derive(Clone, Debug)]
pub struct DiarySelection {
    pub join_user_relation: bool,
    pub join_tags: bool,
    pub conditions: Vec<DiaryCondition>,
    pub order_by_date: Vec<Order>,
}

pub open spec fn diary_condition_holds(c: DiaryCondition, row: DiaryRow, text_match: TextMatch) -> bool {
    match c {
        DiaryCondition::UserHasAccess(user_id) => row.relation matches Some(r) && r.has_member(
            user_id,
        ),
        DiaryCondition::UserRelation(id) => row.diary.user_relation_id == id,
        DiaryCondition::Id(id) => row.diary.id == id,
        DiaryCondition::ContainsAllTexts(terms) => forall|i: int|
            0 <= i < terms@.len() ==> {
                ||| text_match(row.diary.entry@, #[trigger] terms@[i]@)
                ||| row.tag matches Some(t) && text_match(t.text@, terms@[i]@)
            },
        DiaryCondition::DateFrom(d) => d.not_after(row.diary.date),
        DiaryCondition::DateTo(d) => row.diary.date.not_after(d),
    }
}

impl DiarySelection {
    /// The query selects `row`.
    pub open spec fn admits(self, row: DiaryRow, text_match: TextMatch) -> bool {
        forall|i: int|
            0 <= i < self.conditions@.len() ==> diary_condition_holds(
                #[trigger] self.conditions@[i],
                row,
                text_match,
            )
    }

    /// The same query with one more condition.
    pub fn with_condition(self, c: DiaryCondition) -> (res: DiarySelection)
        ensures
            res.join_user_relation == self.join_user_relation,
            res.join_tags == self.join_tags,
            res.conditions@ == self.conditions@.push(c),
            res.order_by_date@ == self.order_by_date@,
    {
        let mut res = self;
        res.conditions.push(c);
        res
    }
}

/// Pushing a condition onto a diary query narrows it by that condition.
pub proof fn law_diary_condition_narrows(
    prev: DiarySelection,
    next: DiarySelection,
    c: DiaryCondition,
)
    requires
        next.conditions@ == prev.conditions@.push(c),
    ensures
        forall|row: DiaryRow, text_match: TextMatch|
            next.admits(row, text_match) <==> (prev.admits(row, text_match) && diary_condition_holds(
                c,
                row,
                text_match,
            )),
{
    let n = prev.conditions@.len() as int;
    assert(next.conditions@[n] == c);
    assert forall|row: DiaryRow, text_match: TextMatch|
        next.admits(row, text_match) <==> (prev.admits(row, text_match) && diary_condition_holds(
            c,
            row,
            text_match,
        )) by {
        if prev.admits(row, text_match) && diary_condition_holds(c, row, text_match) {
            assert forall|i: int| 0 <= i < next.conditions@.len() implies diary_condition_holds(
                #[trigger] next.conditions@[i],
                row,
                text_match,
            ) by {
                if i < n {
                    assert(next.conditions@[i] == prev.conditions@[i]);
                }
            }
        }
        if next.admits(row, text_match) {
            assert(diary_condition_holds(next.conditions@[n], row, text_match));
            assert forall|i: int| 0 <= i < n implies diary_condition_holds(
                #[trigger] prev.conditions@[i],
                row,
                text_match,
            ) by {
                assert(next.conditions@[i] == prev.conditions@[i]);
            }
        }
    }
}

/// The diary query builder: each step adds a join, a condition or a sort key.
#[derive(Clone, Debug)]
pub struct DiaryQuery {
    pub query: DiarySelection,
}

impl DiaryQuery {
    /// A query over all diary entries.
    pub fn init() -> (res: DiaryQuery)
        ensures
            !res.query.join_user_relation,
            !res.query.join_tags,
            res.query.conditions@ == Seq::<DiaryCondition>::empty(),
            res.query.order_by_date@ == Seq::<Order>::empty(),
    {
        DiaryQuery {
            query: DiarySelection {
                join_user_relation: false,
                join_tags: false,
                conditions: Vec::new(),
                order_by_date: Vec::new(),
            },
        }
    }

    /// Keeps the entries of relations that `user_id` belongs to.
    pub fn filter_which_user_has_access(self, user_id: i64) -> (res: DiaryQuery)
        ensures
            res.query.join_user_relation,
            res.query.join_tags == self.query.join_tags,
            res.query.conditions@ == self.query.conditions@.push(
                DiaryCondition::UserHasAccess(user_id),
            ),
            res.query.order_by_date@ == self.query.order_by_date@,
    {
        let mut query = self.query;
        query.join_user_relation = true;
        DiaryQuery { query: query.with_condition(DiaryCondition::UserHasAccess(user_id)) }
    }

    /// Keeps the entries of one relation.
    pub fn filter_by_relation(self, user_relation_id: i64) -> (res: DiaryQuery)
        ensures
            res.query.join_user_relation == self.query.join_user_relation,
            res.query.join_tags == self.query.join_tags,
            res.query.conditions@ == self.query.conditions@.push(
                DiaryCondition::UserRelation(user_relation_id),
            ),
            res.query.order_by_date@ == self.query.order_by_date@,
    {
        DiaryQuery { query: self.query.with_condition(DiaryCondition::UserRelation(user_relation_id)) }
    }

    /// Keeps the entry with id `diary_id`.
    pub fn filter_by_id(self, diary_id: u128) -> (res: DiaryQuery)
        ensures
            res.query.join_user_relation == self.query.join_user_relation,
            res.query.join_tags == self.query.join_tags,
            res.query.conditions@ == self.query.conditions@.push(DiaryCondition::Id(diary_id)),
            res.query.order_by_date@ == self.query.order_by_date@,
    {
        DiaryQuery { query: self.query.with_condition(DiaryCondition::Id(diary_id)) }
    }

    /// Keeps the entries whose text, or one of whose tags, contains each of `texts`.
    pub fn filter_contains_texts(self, texts: Vec<String>) -> (res: DiaryQuery)
        ensures
            res.query.join_user_relation == self.query.join_user_relation,
            res.query.join_tags == self.query.join_tags,
            res.query.conditions@ == self.query.conditions@.push(
                DiaryCondition::ContainsAllTexts(texts),
            ),
            res.query.order_by_date@ == self.query.order_by_date@,
    {
        DiaryQuery { query: self.query.with_condition(DiaryCondition::ContainsAllTexts(texts)) }
    }

    /// Keeps the entries dated on or after `date`.
    pub fn filter_date_gte(self, date: Date) -> (res: DiaryQuery)
        ensures
            res.query.join_user_relation == self.query.join_user_relation,
            res.query.join_tags == self.query.join_tags,
            res.query.conditions@ == self.query.conditions@.push(DiaryCondition::DateFrom(date)),
            res.query.order_by_date@ == self.query.order_by_date@,
    {
        DiaryQuery { query: self.query.with_condition(DiaryCondition::DateFrom(date)) }
    }

    /// Keeps the entries dated on or before `date`.
    pub fn filter_date_lte(self, date: Date) -> (res: DiaryQuery)
        ensures
            res.query.join_user_relation == self.query.join_user_relation,
            res.query.join_tags == self.query.join_tags,
            res.query.conditions@ == self.query.conditions@.push(DiaryCondition::DateTo(date)),
            res.query.order_by_date@ == self.query.order_by_date@,
    {
        DiaryQuery { query: self.query.with_condition(DiaryCondition::DateTo(date)) }
    }

    /// Sorts by date.
    pub fn order_by_date(self, order: Order) -> (res: DiaryQuery)
        ensures
            res.query.join_user_relation == self.query.join_user_relation,
            res.query.join_tags == self.query.join_tags,
            res.query.conditions@ == self.query.conditions@,
            res.query.order_by_date@ == self.query.order_by_date@.push(order),
    {
        let mut query = self.query;
        query.order_by_date.push(order);
        DiaryQuery { query }
    }
}

/// What the diary list may be narrowed by.
#[derive(Clone, Debug)]
pub struct ListParam {
    pub user_id: i64,
    pub user_relation_id: i64,
    pub text_query: Option<Vec<String>>,
    pub date_gte: Option<Date>,
    pub date_lte: Option<Date>,
}

pub open spec fn diary_matches_terms(row: DiaryRow, terms: Option<Vec<String>>, text_match: TextMatch) -> bool {
    terms matches Some(terms) ==> forall|i: int|
        0 <= i < terms@.len() ==> {
            ||| text_match(row.diary.entry@, #[trigger] terms@[i]@)
            ||| row.tag matches Some(t) && text_match(t.text@, terms@[i]@)
        }
}

/// The row `row` is listed under `params`.
pub open spec fn diary_listed_for(row: DiaryRow, params: ListParam, text_match: TextMatch) -> bool {
    &&& row.relation matches Some(r) && r.has_member(params.user_id)
    &&& row.diary.user_relation_id == params.user_relation_id
    &&& diary_matches_terms(row, params.text_query, text_match)
    &&& params.date_gte matches Some(d) ==> d.not_after(row.diary.date)
    &&& params.date_lte matches Some(d) ==> row.diary.date.not_after(d)
}

proof fn lemma_diary_terms_condition(
    terms: Vec<String>,
    text_query: Vec<String>,
    row: DiaryRow,
    text_match: TextMatch,
)
    requires
        terms_view(terms@) == terms_view(text_query@),
    ensures
        diary_condition_holds(DiaryCondition::ContainsAllTexts(terms), row, text_match)
            <==> diary_matches_terms(row, Some(text_query), text_match),
{
    let pass = |text: Seq<char>|
        text_match(row.diary.entry@, text) || (row.tag matches Some(t) && text_match(t.text@, text));
    lemma_same_terms_pass(terms@, text_query@, pass);
    let c = DiaryCondition::ContainsAllTexts(terms);
    assert(c matches DiaryCondition::ContainsAllTexts(t) && t == terms);
    let q = Some(text_query);
    assert(q matches Some(t) && t == text_query);
    assert(diary_condition_holds(c, row, text_match) == (forall|j: int|
        0 <= j < terms@.len() ==> pass(#[trigger] terms@[j]@)));
    assert(diary_matches_terms(row, q, text_match) == (forall|j: int|
        0 <= j < text_query@.len() ==> pass(#[trigger] text_query@[j]@)));
}

/// The diary list keeps to its bounds: every listed entry lies in the asked
/// relation, which the user belongs to, and is dated on or after `date_gte`
/// and on or before `date_lte` where these are given.
pub proof fn law_diary_list_within_bounds(
    params: ListParam,
    q: DiarySelection,
    row: DiaryRow,
    text_match: TextMatch,
)
    requires
        forall|r: DiaryRow, m: TextMatch| q.admits(r, m) <==> diary_listed_for(r, params, m),
        q.admits(row, text_match),
    ensures
        params.date_gte matches Some(d) ==> d.not_after(row.diary.date),
        params.date_lte matches Some(d) ==> row.diary.date.not_after(d),
        row.diary.user_relation_id == params.user_relation_id,
        row.relation matches Some(r) && (r.user_1_id == params.user_id || r.user_2_id == params.user_id),
{
    assert(diary_listed_for(row, params, text_match));
}

/// The diary entries with their tags that a user sees in a relation, narrowed
/// by search terms (each in the entry or a tag) and date bounds, latest first.
pub fn list_with_tags_query(params: &ListParam) -> (res: DiarySelection)
    ensures
        res.join_user_relation,
        res.join_tags,
        res.order_by_date@ == seq![Order::Desc],
        forall|row: DiaryRow, text_match: TextMatch|
            res.admits(row, text_match) <==> diary_listed_for(row, *params, text_match),
        forall|row: DiaryRow, text_match: TextMatch|
            #[trigger] res.admits(row, text_match) ==> {
                &&& params.date_gte matches Some(d) ==> d.not_after(row.diary.date)
                &&& params.date_lte matches Some(d) ==> row.diary.date.not_after(d)
                &&& row.diary.user_relation_id == params.user_relation_id
            },
{
    let q0 = DiaryQuery::init().filter_which_user_has_access(params.user_id).filter_by_relation(
        params.user_relation_id,
    );
    let mut query = q0.query;
    query.join_tags = true;
    proof {
        assert forall|row: DiaryRow, text_match: TextMatch|
            query.admits(row, text_match) <==> (row.relation matches Some(r) && r.has_member(
                params.user_id,
            ) && row.diary.user_relation_id == params.user_relation_id) by {
            if query.admits(row, text_match) {
                assert(diary_condition_holds(query.conditions@[0], row, text_match));
                assert(diary_condition_holds(query.conditions@[1], row, text_match));
            } else if row.relation matches Some(r) && r.has_member(params.user_id)
                && row.diary.user_relation_id == params.user_relation_id {
                assert forall|i: int| 0 <= i < query.conditions@.len() implies diary_condition_holds(
                    #[trigger] query.conditions@[i],
                    row,
                    text_match,
                ) by {}
            }
        }
    }
    if let Some(text_query) = &params.text_query {
        let ghost prev = query;
        let terms = copy_terms(text_query);
        let ghost c = DiaryCondition::ContainsAllTexts(terms);
        query = query.with_condition(DiaryCondition::ContainsAllTexts(terms));
        proof {
            law_diary_condition_narrows(prev, query, c);
            assert forall|row: DiaryRow, text_match: TextMatch|
                diary_condition_holds(c, row, text_match) <==> diary_matches_terms(
                    row,
                    params.text_query,
                    text_match,
                ) by {
                lemma_diary_terms_condition(terms, *text_query, row, text_match);
            }
        }
    }
    assert(forall|row: DiaryRow, text_match: TextMatch|
        query.admits(row, text_match) <==> (row.relation matches Some(r) && r.has_member(
            params.user_id,
        ) && row.diary.user_relation_id == params.user_relation_id && diary_matches_terms(
            row,
            params.text_query,
            text_match,
        )));
    if let Some(date_gte) = params.date_gte {
        let ghost prev = query;
        query = query.with_condition(DiaryCondition::DateFrom(date_gte));
        proof {
            law_diary_condition_narrows(prev, query, DiaryCondition::DateFrom(date_gte));
        }
    }
    if let Some(date_lte) = params.date_lte {
        let ghost prev = query;
        query = query.with_condition(DiaryCondition::DateTo(date_lte));
        proof {
            law_diary_condition_narrows(prev, query, DiaryCondition::DateTo(date_lte));
        }
    }
    assert(forall|row: DiaryRow, text_match: TextMatch|
        query.admits(row, text_match) <==> diary_listed_for(row, *params, text_match));
    let ghost filtered = query;
    query.order_by_date.push(Order::Desc);
    assert(query.order_by_date@ =~= seq![Order::Desc]);
    assert(query.conditions@ == filtered.conditions@);
    assert forall|row: DiaryRow, text_match: TextMatch|
        query.admits(row, text_match) == filtered.admits(row, text_match) by {}
    query
}

// ---------------------------------------------------------------------------
// Diary tags.

/// A tag with the relation that the query joins to it.
#[derive(Clone, Debug)]
pub struct TagRow {
    pub tag: DiaryTagRecord,
    pub relation: Option<UserRelation>,
}

/// One condition of a diary tag query.
#[derive(Clone, Debug)]
pub enum TagCondition {
    /// The joined relation has the user as one of its two users.
    UserHasAccess(i64),
    UserRelation(i64),
    IdIn(Vec<u128>),
}

/// A query over diary tags.
#[derive(Clone, Debug)]
pub struct TagSelection {
    pub join_user_relation: bool,
    pub conditions: Vec<TagCondition>,
}

pub open spec fn tag_condition_holds(c: TagCondition, row: TagRow) -> bool {
    match c {
        TagCondition::UserHasAccess(user_id) => row.relation matches Some(r) && r.has_member(user_id),
        TagCondition::UserRelation(id) => row.tag.user_relation_id == id,
        TagCondition::IdIn(ids) => ids@.contains(row.tag.id),
    }
}

impl TagSelection {
    pub open spec fn admits(self, row: TagRow) -> bool {
        forall|i: int|
            0 <= i < self.conditions@.len() ==> tag_condition_holds(#[trigger] self.conditions@[i], row)
    }
}

/// The diary tag query builder; the tags it selects are listed with the
/// number of entries carrying each, in the tags' sort order.
#[derive(Clone, Debug)]
pub struct DiaryTagQuery {
    pub query: TagSelection,
}

impl DiaryTagQuery {
    /// A query over all tags.
    pub fn init_query() -> (res: DiaryTagQuery)
        ensures
            !res.query.join_user_relation,
            res.query.conditions@ == Seq::<TagCondition>::empty(),
    {
        DiaryTagQuery { query: TagSelection { join_user_relation: false, conditions: Vec::new() } }
    }

    /// Keeps the tags of relations that `user_id` belongs to.
    pub fn filter_by_user(self, user_id: i64) -> (res: DiaryTagQuery)
        ensures
            res.query.join_user_relation,
            res.query.conditions@ == self.query.conditions@.push(TagCondition::UserHasAccess(user_id)),
    {
        let mut query = self.query;
        query.join_user_relation = true;
        query.conditions.push(TagCondition::UserHasAccess(user_id));
        DiaryTagQuery { query }
    }

    /// Keeps the tags of one relation.
    pub fn filter_by_relation(self, user_relation_id: i64) -> (res: DiaryTagQuery)
        ensures
            res.query.join_user_relation == self.query.join_user_relation,
            res.query.conditions@ == self.query.conditions@.push(
                TagCondition::UserRelation(user_relation_id),
            ),
    {
        let mut query = self.query;
        query.conditions.push(TagCondition::UserRelation(user_relation_id));
        DiaryTagQuery { query }
    }
}

/// A listing of tags with the number of diary entries that carry each.
#[derive(Clone, Debug)]
pub struct TagCountListing {
    /// The tags listed.
    pub tags: TagSelection,
    /// The order of the listing by the tags' sort numbers.
    pub order_by_sort_no: Order,
}

impl DiaryTagQuery {
    /// The tags that the query keeps, each with the number of entries that
    /// carry it, in ascending sort order.
    pub fn get_diary_tags_with_diary_count(self) -> (res: TagCountListing)
        ensures
            res.tags == self.query,
            res.order_by_sort_no == Order::Asc,
    {
        TagCountListing { tags: self.query, order_by_sort_no: Order::Asc }
    }
}

/// The number of links to the tag whose entry exists.
pub open spec fn diary_count(tag_id: u128, links: Seq<DiaryTagLink>, entries: Set<u128>) -> nat
    decreases links.len(),
{
    if links.len() == 0 {
        0
    } else {
        let l = links.last();
        diary_count(tag_id, links.drop_last(), entries) + if l.tag_master_id == tag_id && entries.contains(
            l.diary_id,
        ) {
            1nat
        } else {
            0nat
        }
    }
}

/// `answer` is what the listing gives on the tag rows `rows` (each tag with
/// its joined relation), the link rows `links` and the ids `entries` of the
/// diary entries: one element for each tag that the listing's query keeps,
/// with the tag's id, text and sort number and its entry count, ordered by
/// sort number as the listing says.
pub open spec fn is_tag_count_answer(
    listing: TagCountListing,
    rows: Seq<TagRow>,
    links: Seq<DiaryTagLink>,
    entries: Set<u128>,
    answer: Seq<DiaryTagVisible>,
) -> bool {
    &&& forall|i: int|
        0 <= i < answer.len() ==> exists|j: int|
            0 <= j < rows.len() && #[trigger] listing.tags.admits(rows[j]) && {
                let t = rows[j].tag;
                &&& (#[trigger] answer[i]).id == t.id
                &&& answer[i].text == t.text
                &&& answer[i].sort_no == t.sort_no
                &&& answer[i].diary_count == diary_count(t.id, links, entries)
            }
    &&& forall|j: int|
        0 <= j < rows.len() && #[trigger] listing.tags.admits(rows[j]) ==> exists|i: int|
            0 <= i < answer.len() && #[trigger] answer[i].id == rows[j].tag.id
    &&& forall|i: int, k: int| 0 <= i < k < answer.len() ==> answer[i].id != answer[k].id
    &&& forall|i: int, k: int|
        0 <= i < k < answer.len() ==> match listing.order_by_sort_no {
            Order::Asc => answer[i].sort_no <= answer[k].sort_no,
            Order::Desc => answer[i].sort_no >= answer[k].sort_no,
        }
}

/// The tags among `tag_ids` that belong to relations of `user_id`: the only
/// tags a new diary entry of that user may carry.
pub fn accessible_tags_query(user_id: i64, tag_ids: Vec<u128>) -> (res: TagSelection)
    ensures
        res.join_user_relation,
        forall|row: TagRow|
            res.admits(row) <==> (row.relation matches Some(r) && r.has_member(user_id)
                && tag_ids@.contains(row.tag.id)),
{
    let ghost ids = tag_ids@;
    let mut query = DiaryTagQuery::init_query().filter_by_user(user_id).query;
    query.conditions.push(TagCondition::IdIn(tag_ids));
    assert forall|row: TagRow|
        query.admits(row) <==> (row.relation matches Some(r) && r.has_member(user_id) && ids.contains(
            row.tag.id,
        )) by {
        if query.admits(row) {
            assert(tag_condition_holds(query.conditions@[0], row));
            assert(tag_condition_holds(query.conditions@[1], row));
        } else if row.relation matches Some(r) && r.has_member(user_id) && ids.contains(row.tag.id) {
            assert forall|i: int| 0 <= i < query.conditions@.len() implies tag_condition_holds(
                #[trigger] query.conditions@[i],
                row,
            ) by {}
        }
    }
    query
}

} // verus!
