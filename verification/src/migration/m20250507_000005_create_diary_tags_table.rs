//! Creates the tables of diary tags and of the links between tags and entries.

use super::{
    lemma_plan_again, only_adds,
    apply_op, apply_ops, column, column_names, column_spec, columns_view, foreign_key, foreign_key_spec,
    foreign_keys_view, lemma_drop_created_index, lemma_drop_created_table, ops_view, ColumnDef,
    ColumnDefView, ColumnType, ForeignKeyDef, ForeignKeyView, SchemaModel, SchemaOp, SchemaOpView,
};
use vstd::prelude::*;

verus! {

pub const INDEX_NAME: &'static str = "diaries_diarytag_user_relation_2_id_2b103aee";

pub const DIARY_ID_INDEX_NAME: &'static str = "diaries_diarytagrelation_diary_id_6967acd7";

pub const TAG_MASTER_ID_INDEX_NAME: &'static str = "diaries_diarytagrelation_tag_master_id_9023d046";

/// The columns of the diary tags table.
#[derive(Clone, Copy, Debug, PartialEq, Eq, Structural)]
pub enum DiariesDiarytag {
    Table,
    Id,
    Text,
    SortNo,
    CreatedAt,
    UpdatedAt,
    UserRelationId,
}

impl DiariesDiarytag {
    pub open spec fn iden_text(self) -> Seq<char> {
        match self {
            DiariesDiarytag::Table => "diaries_diarytag"@,
            DiariesDiarytag::Id => "id"@,
            DiariesDiarytag::Text => "text"@,
            DiariesDiarytag::SortNo => "sort_no"@,
            DiariesDiarytag::CreatedAt => "created_at"@,
            DiariesDiarytag::UpdatedAt => "updated_at"@,
            DiariesDiarytag::UserRelationId => "user_relation_id"@,
        }
    }

    /// The table's or the column's name in the database.
    pub fn iden(&self) -> (res: &'static str)
        ensures
            res@ == self.iden_text(),
    {
        match self {
            DiariesDiarytag::Table => "diaries_diarytag",
            DiariesDiarytag::Id => "id",
            DiariesDiarytag::Text => "text",
            DiariesDiarytag::SortNo => "sort_no",
            DiariesDiarytag::CreatedAt => "created_at",
            DiariesDiarytag::UpdatedAt => "updated_at",
            DiariesDiarytag::UserRelationId => "user_relation_id",
        }
    }
}

/// The columns of the table that links tags to diary entries.
#[derive(Clone, Copy, Debug, PartialEq, Eq, Structural)]
pub enum DiariesDiarytagrelation {
    Table,
    Id,
    CreatedAt,
    UpdatedAt,
    DiaryId,
    TagMasterId,
}

impl DiariesDiarytagrelation {
    pub open spec fn iden_text(self) -> Seq<char> {
        match self {
            DiariesDiarytagrelation::Table => "diaries_diarytagrelation"@,
            DiariesDiarytagrelation::Id => "id"@,
            DiariesDiarytagrelation::CreatedAt => "created_at"@,
            DiariesDiarytagrelation::UpdatedAt => "updated_at"@,
            DiariesDiarytagrelation::DiaryId => "diary_id"@,
            DiariesDiarytagrelation::TagMasterId => "tag_master_id"@,
        }
    }

    /// The table's or the column's name in the database.
    pub fn iden(&self) -> (res: &'static str)
        ensures
            res@ == self.iden_text(),
    {
        match self {
            DiariesDiarytagrelation::Table => "diaries_diarytagrelation",
            DiariesDiarytagrelation::Id => "id",
            DiariesDiarytagrelation::CreatedAt => "created_at",
            DiariesDiarytagrelation::UpdatedAt => "updated_at",
            DiariesDiarytagrelation::DiaryId => "diary_id",
            DiariesDiarytagrelation::TagMasterId => "tag_master_id",
        }
    }
}

/// The user relations table, as far as tags refer to it.
#[derive(Clone, Copy, Debug, PartialEq, Eq, Structural)]
pub enum UserRelationsUserrelation {
    Table,
    Id,
}

impl UserRelationsUserrelation {
    pub open spec fn iden_text(self) -> Seq<char> {
        match self {
            UserRelationsUserrelation::Table => "user_relations_userrelation"@,
            UserRelationsUserrelation::Id => "id"@,
        }
    }

    /// The table's or the column's name in the database.
    pub fn iden(&self) -> (res: &'static str)
        ensures
            res@ == self.iden_text(),
    {
        match self {
            UserRelationsUserrelation::Table => "user_relations_userrelation",
            UserRelationsUserrelation::Id => "id",
        }
    }
}

/// The diary entries table, as far as links refer to it.
#[derive(Clone, Copy, Debug, PartialEq, Eq, Structural)]
pub enum DiariesDiary {
    Table,
    Id,
}

impl DiariesDiary {
    pub open spec fn iden_text(self) -> Seq<char> {
        match self {
            DiariesDiary::Table => "diaries_diary"@,
            DiariesDiary::Id => "id"@,
        }
    }

    /// The table's or the column's name in the database.
    pub fn iden(&self) -> (res: &'static str)
        ensures
            res@ == self.iden_text(),
    {
        match self {
            DiariesDiary::Table => "diaries_diary",
            DiariesDiary::Id => "id",
        }
    }
}

/// Creates the diary tag tables.
#[derive(Clone, Copy, Debug)]
pub struct Migration;

pub open spec fn tag_columns() -> Seq<ColumnDefView> {
    seq![
        ColumnDefView { primary_key: true, ..column_spec(DiariesDiarytag::Id.iden_text(), ColumnType::Uuid) },
        column_spec(DiariesDiarytag::Text.iden_text(), ColumnType::StringLen(256)),
        column_spec(DiariesDiarytag::SortNo.iden_text(), ColumnType::Integer),
        column_spec(DiariesDiarytag::CreatedAt.iden_text(), ColumnType::TimestampWithTimeZone),
        column_spec(DiariesDiarytag::UpdatedAt.iden_text(), ColumnType::TimestampWithTimeZone),
        column_spec(DiariesDiarytag::UserRelationId.iden_text(), ColumnType::BigInteger),
    ]
}

pub open spec fn tag_foreign_keys() -> Seq<ForeignKeyView> {
    seq![
        foreign_key_spec(
            INDEX_NAME@,
            DiariesDiarytag::UserRelationId.iden_text(),
            UserRelationsUserrelation::Table.iden_text(),
            UserRelationsUserrelation::Id.iden_text(),
        ),
    ]
}

pub open spec fn link_columns() -> Seq<ColumnDefView> {
    seq![
        ColumnDefView {
            primary_key: true,
            ..column_spec(DiariesDiarytagrelation::Id.iden_text(), ColumnType::Uuid)
        },
        column_spec(DiariesDiarytagrelation::CreatedAt.iden_text(), ColumnType::TimestampWithTimeZone),
        column_spec(DiariesDiarytagrelation::UpdatedAt.iden_text(), ColumnType::TimestampWithTimeZone),
        column_spec(DiariesDiarytagrelation::DiaryId.iden_text(), ColumnType::Uuid),
        column_spec(DiariesDiarytagrelation::TagMasterId.iden_text(), ColumnType::Uuid),
    ]
}

pub open spec fn link_foreign_keys() -> Seq<ForeignKeyView> {
    seq![
        foreign_key_spec(
            DIARY_ID_INDEX_NAME@,
            DiariesDiarytagrelation::DiaryId.iden_text(),
            DiariesDiary::Table.iden_text(),
            DiariesDiary::Id.iden_text(),
        ),
        foreign_key_spec(
            TAG_MASTER_ID_INDEX_NAME@,
            DiariesDiarytagrelation::TagMasterId.iden_text(),
            DiariesDiarytag::Table.iden_text(),
            DiariesDiarytag::Id.iden_text(),
        ),
    ]
}

impl Migration {
    /// The migration's name, which the migration table records.
    pub fn name(&self) -> (res: &'static str)
        ensures
            res@ == "m20250507_000005_create_diary_tags_table"@,
    {
        "m20250507_000005_create_diary_tags_table"
    }

    pub open spec fn up_plan() -> Seq<SchemaOpView> {
        let tags = DiariesDiarytag::Table.iden_text();
        let links = DiariesDiarytagrelation::Table.iden_text();
        seq![
            SchemaOpView::CreateTable {
                table: tags,
                if_not_exists: true,
                columns: tag_columns(),
                foreign_keys: tag_foreign_keys(),
            },
            SchemaOpView::CreateIndex {
                name: INDEX_NAME@,
                table: tags,
                column: DiariesDiarytag::UserRelationId.iden_text(),
                if_not_exists: true,
            },
            SchemaOpView::CreateTable {
                table: links,
                if_not_exists: true,
                columns: link_columns(),
                foreign_keys: link_foreign_keys(),
            },
            SchemaOpView::CreateIndex {
                name: DIARY_ID_INDEX_NAME@,
                table: links,
                column: DiariesDiarytagrelation::DiaryId.iden_text(),
                if_not_exists: true,
            },
            SchemaOpView::CreateIndex {
                name: TAG_MASTER_ID_INDEX_NAME@,
                table: links,
                column: DiariesDiarytagrelation::TagMasterId.iden_text(),
                if_not_exists: true,
            },
        ]
    }

    /// The schema after the `up` plan, on a schema without the two tables and their indexes.
    pub open spec fn applied(s: SchemaModel) -> SchemaModel {
        let tags = DiariesDiarytag::Table.iden_text();
        let links = DiariesDiarytagrelation::Table.iden_text();
        SchemaModel {
            tables: s.tables.insert(tags, column_names(tag_columns())).insert(links, column_names(link_columns())),
            indexes: s.indexes.insert(INDEX_NAME@, tags).insert(DIARY_ID_INDEX_NAME@, links).insert(
                TAG_MASTER_ID_INDEX_NAME@,
                links,
            ),
        }
    }

    pub open spec fn down_plan() -> Seq<SchemaOpView> {
        seq![
            SchemaOpView::DropIndex { name: TAG_MASTER_ID_INDEX_NAME@, if_exists: true },
            SchemaOpView::DropIndex { name: DIARY_ID_INDEX_NAME@, if_exists: true },
            SchemaOpView::DropTable {
                table: DiariesDiarytagrelation::Table.iden_text(),
                if_exists: true,
            },
            SchemaOpView::DropIndex { name: INDEX_NAME@, if_exists: true },
            SchemaOpView::DropTable { table: DiariesDiarytag::Table.iden_text(), if_exists: true },
        ]
    }

    /// Creates the tags table and its index, then the links table and its
    /// two indexes.
    pub fn up(&self) -> (res: Vec<SchemaOp>)
        ensures
            ops_view(res@) == Self::up_plan(),
    {
        let tag_cols: Vec<ColumnDef> = vec![
            column(DiariesDiarytag::Id.iden(), ColumnType::Uuid).primary_key(),
            column(DiariesDiarytag::Text.iden(), ColumnType::StringLen(256)),
            column(DiariesDiarytag::SortNo.iden(), ColumnType::Integer),
            column(DiariesDiarytag::CreatedAt.iden(), ColumnType::TimestampWithTimeZone),
            column(DiariesDiarytag::UpdatedAt.iden(), ColumnType::TimestampWithTimeZone),
            column(DiariesDiarytag::UserRelationId.iden(), ColumnType::BigInteger),
        ];
        assert(columns_view(tag_cols@) =~= tag_columns());
        let tag_keys: Vec<ForeignKeyDef> = vec![
            foreign_key(
                INDEX_NAME,
                DiariesDiarytag::UserRelationId.iden(),
                UserRelationsUserrelation::Table.iden(),
                UserRelationsUserrelation::Id.iden(),
            ),
        ];
        assert(foreign_keys_view(tag_keys@) =~= tag_foreign_keys());
        let link_cols: Vec<ColumnDef> = vec![
            column(DiariesDiarytagrelation::Id.iden(), ColumnType::Uuid).primary_key(),
            column(DiariesDiarytagrelation::CreatedAt.iden(), ColumnType::TimestampWithTimeZone),
            column(DiariesDiarytagrelation::UpdatedAt.iden(), ColumnType::TimestampWithTimeZone),
            column(DiariesDiarytagrelation::DiaryId.iden(), ColumnType::Uuid),
            column(DiariesDiarytagrelation::TagMasterId.iden(), ColumnType::Uuid),
        ];
        assert(columns_view(link_cols@) =~= link_columns());
        let link_keys: Vec<ForeignKeyDef> = vec![
            foreign_key(
                DIARY_ID_INDEX_NAME,
                DiariesDiarytagrelation::DiaryId.iden(),
                DiariesDiary::Table.iden(),
                DiariesDiary::Id.iden(),
            ),
            foreign_key(
                TAG_MASTER_ID_INDEX_NAME,
                DiariesDiarytagrelation::TagMasterId.iden(),
                DiariesDiarytag::Table.iden(),
                DiariesDiarytag::Id.iden(),
            ),
        ];
        assert(foreign_keys_view(link_keys@) =~= link_foreign_keys());
        let tags = DiariesDiarytag::Table.iden();
        let links = DiariesDiarytagrelation::Table.iden();
        let res = vec![
            SchemaOp::CreateTable { table: tags, if_not_exists: true, columns: tag_cols, foreign_keys: tag_keys },
            SchemaOp::CreateIndex {
                name: INDEX_NAME,
                table: tags,
                column: DiariesDiarytag::UserRelationId.iden(),
                if_not_exists: true,
            },
            SchemaOp::CreateTable {
                table: links,
                if_not_exists: true,
                columns: link_cols,
                foreign_keys: link_keys,
            },
            SchemaOp::CreateIndex {
                name: DIARY_ID_INDEX_NAME,
                table: links,
                column: DiariesDiarytagrelation::DiaryId.iden(),
                if_not_exists: true,
            },
            SchemaOp::CreateIndex {
                name: TAG_MASTER_ID_INDEX_NAME,
                table: links,
                column: DiariesDiarytagrelation::TagMasterId.iden(),
                if_not_exists: true,
            },
        ];
        assert(ops_view(res@) =~= Self::up_plan());
        res
    }

    /// Drops the links table's indexes and the table, then the tags table's
    /// index and the table.
    pub fn down(&self) -> (res: Vec<SchemaOp>)
        ensures
            ops_view(res@) == Self::down_plan(),
    {
        let res = vec![
            SchemaOp::DropIndex { name: TAG_MASTER_ID_INDEX_NAME, if_exists: true },
            SchemaOp::DropIndex { name: DIARY_ID_INDEX_NAME, if_exists: true },
            SchemaOp::DropTable { table: DiariesDiarytagrelation::Table.iden(), if_exists: true },
            SchemaOp::DropIndex { name: INDEX_NAME, if_exists: true },
            SchemaOp::DropTable { table: DiariesDiarytag::Table.iden(), if_exists: true },
        ];
        assert(ops_view(res@) =~= Self::down_plan());
        res
    }
}

/// Undoing the migration restores the schema: on a schema without the two
/// tables and their indexes, running the `up` plan and then the `down` plan
/// succeeds and leaves the schema as it was.
pub proof fn law_down_undoes_up(s: SchemaModel)
    requires
        s.well_formed(),
        !s.tables.contains_key(DiariesDiarytag::Table.iden_text()),
        !s.tables.contains_key(DiariesDiarytagrelation::Table.iden_text()),
        !s.indexes.contains_key(INDEX_NAME@),
        !s.indexes.contains_key(DIARY_ID_INDEX_NAME@),
        !s.indexes.contains_key(TAG_MASTER_ID_INDEX_NAME@),
    ensures
        apply_ops(s, Migration::up_plan()) matches Some(after) && after.well_formed() && apply_ops(
            after,
            Migration::down_plan(),
        ) == Some(s),
        apply_ops(s, Migration::up_plan()) == Some(Migration::applied(s)),
{
    reveal_with_fuel(apply_ops, 6);
    reveal_strlit("diaries_diarytag_user_relation_2_id_2b103aee");
    reveal_strlit("diaries_diarytagrelation_diary_id_6967acd7");
    reveal_strlit("diaries_diarytagrelation_tag_master_id_9023d046");
    reveal_strlit("diaries_diarytag");
    reveal_strlit("diaries_diarytagrelation");
    assert(INDEX_NAME@ != DIARY_ID_INDEX_NAME@) by {
        assert(INDEX_NAME@[16] != DIARY_ID_INDEX_NAME@[16]);
    }
    assert(INDEX_NAME@ != TAG_MASTER_ID_INDEX_NAME@) by {
        assert(INDEX_NAME@[16] != TAG_MASTER_ID_INDEX_NAME@[16]);
    }
    assert(DIARY_ID_INDEX_NAME@ != TAG_MASTER_ID_INDEX_NAME@) by {
        assert(DIARY_ID_INDEX_NAME@[25] != TAG_MASTER_ID_INDEX_NAME@[25]);
    }
    let tags = DiariesDiarytag::Table.iden_text();
    let links = DiariesDiarytagrelation::Table.iden_text();
    assert(tags != links) by {
        assert(tags.len() != links.len());
    }
    let s1 = SchemaModel { tables: s.tables.insert(tags, column_names(tag_columns())), ..s };
    let s2 = SchemaModel { indexes: s1.indexes.insert(INDEX_NAME@, tags), ..s1 };
    let s3 = SchemaModel { tables: s2.tables.insert(links, column_names(link_columns())), ..s2 };
    let s4 = SchemaModel { indexes: s3.indexes.insert(DIARY_ID_INDEX_NAME@, links), ..s3 };
    let s5 = SchemaModel { indexes: s4.indexes.insert(TAG_MASTER_ID_INDEX_NAME@, links), ..s4 };
    let up = Migration::up_plan();
    assert(up.drop_first() =~= seq![up[1], up[2], up[3], up[4]]);
    assert(up.drop_first().drop_first() =~= seq![up[2], up[3], up[4]]);
    assert(up.drop_first().drop_first().drop_first() =~= seq![up[3], up[4]]);
    assert(up.drop_first().drop_first().drop_first().drop_first() =~= seq![up[4]]);
    assert(up.drop_first().drop_first().drop_first().drop_first().drop_first()
        =~= Seq::<SchemaOpView>::empty());
    assert(apply_ops(s, up) == Some(s5));
    assert(s2.well_formed());
    assert(s5.well_formed());
    let down = Migration::down_plan();
    assert(down.drop_first() =~= seq![down[1], down[2], down[3], down[4]]);
    assert(down.drop_first().drop_first() =~= seq![down[2], down[3], down[4]]);
    assert(down.drop_first().drop_first().drop_first() =~= seq![down[3], down[4]]);
    assert(down.drop_first().drop_first().drop_first().drop_first() =~= seq![down[4]]);
    assert(down.drop_first().drop_first().drop_first().drop_first().drop_first()
        =~= Seq::<SchemaOpView>::empty());
    lemma_drop_created_index(s4, TAG_MASTER_ID_INDEX_NAME@, links, true);
    lemma_drop_created_index(s3, DIARY_ID_INDEX_NAME@, links, true);
    lemma_drop_created_table(s2, links, column_names(link_columns()), true);
    lemma_drop_created_index(s1, INDEX_NAME@, tags, true);
    lemma_drop_created_table(s, tags, column_names(tag_columns()), true);
}

/// Running the migration again changes nothing: on any schema on which the
/// `up` plan went through, a second run goes through too and leaves the
/// schema as the first run left it, since every step creates its table or
/// index, or adds its column, only where it does not exist yet.
pub proof fn law_up_again_changes_nothing(s: SchemaModel)
    requires
        apply_ops(s, Migration::up_plan()) is Some,
    ensures
        apply_ops(apply_ops(s, Migration::up_plan())->0, Migration::up_plan()) == apply_ops(
            s,
            Migration::up_plan(),
        ),
{
    let up = Migration::up_plan();
    assert forall|i: int| 0 <= i < up.len() implies only_adds(#[trigger] up[i]) by {}
    lemma_plan_again(s, up, apply_ops(s, up)->0);
}

} // verus!
