//! Creates the table of diary entries.

use super::{
    lemma_plan_again, only_adds,
    apply_op, apply_ops, column, column_names, column_spec, columns_view, foreign_key, foreign_key_spec,
    foreign_keys_view, lemma_drop_created_index, lemma_drop_created_table, ops_view, ColumnDef,
    ColumnDefView, ColumnType, ForeignKeyDef, ForeignKeyView, SchemaModel, SchemaOp, SchemaOpView,
};
use vstd::prelude::*;

verus! {

pub const INDEX_NAME: &'static str = "diaries_diary_user_relation_2_id_9559c671";

/// The columns of the diary entries table.
#[derive(Clone, Copy, Debug, PartialEq, Eq, Structural)]
pub enum DiariesDiary {
    Table,
    Id,
    Entry,
    Date,
    CreatedAt,
    UpdatedAt,
    UserRelationId,
    User1Status,
    User2Status,
}

impl DiariesDiary {
    pub open spec fn iden_text(self) -> Seq<char> {
        match self {
            DiariesDiary::Table => "diaries_diary"@,
            DiariesDiary::Id => "id"@,
            DiariesDiary::Entry => "entry"@,
            DiariesDiary::Date => "date"@,
            DiariesDiary::CreatedAt => "created_at"@,
            DiariesDiary::UpdatedAt => "updated_at"@,
            DiariesDiary::UserRelationId => "user_relation_id"@,
            DiariesDiary::User1Status => "user_1_status"@,
            DiariesDiary::User2Status => "user_2_status"@,
        }
    }

    /// The table's or the column's name in the database.
    pub fn iden(&self) -> (res: &'static str)
        ensures
            res@ == self.iden_text(),
    {
        match self {
            DiariesDiary::Table => "diaries_diary",
            DiariesDiary::Id => "id",
            DiariesDiary::Entry => "entry",
            DiariesDiary::Date => "date",
            DiariesDiary::CreatedAt => "created_at",
            DiariesDiary::UpdatedAt => "updated_at",
            DiariesDiary::UserRelationId => "user_relation_id",
            DiariesDiary::User1Status => "user_1_status",
            DiariesDiary::User2Status => "user_2_status",
        }
    }
}

/// The user relations table, as far as diary entries refer to it.
#[derive(Clone, Copy, Debug, PartialEq, Eq, Structural)]
pub enum UserRelationsUserrelation {
    Table,
    Id,
}

impl UserRelationsUserrelation {
    pub open spec fn iden_text(self) -> Seq<char> {
        match self {
            UserRelationsUserrelation::Table => "user_relations_userrelation"@,
            UserRelationsUserrelation::Id => "id"@,
        }
    }

    /// The table's or the column's name in the database.
    pub fn iden(&self) -> (res: &'static str)
        ensures
            res@ == self.iden_text(),
    {
        match self {
            UserRelationsUserrelation::Table => "user_relations_userrelation",
            UserRelationsUserrelation::Id => "id",
        }
    }
}

/// Creates the diary entries table.
#[derive(Clone, Copy, Debug)]
pub struct Migration;

pub open spec fn diary_columns() -> Seq<ColumnDefView> {
    seq![
        ColumnDefView { primary_key: true, ..column_spec(DiariesDiary::Id.iden_text(), ColumnType::Uuid) },
        column_spec(DiariesDiary::Entry.iden_text(), ColumnType::Text),
        column_spec(DiariesDiary::Date.iden_text(), ColumnType::Date),
        column_spec(DiariesDiary::CreatedAt.iden_text(), ColumnType::TimestampWithTimeZone),
        column_spec(DiariesDiary::UpdatedAt.iden_text(), ColumnType::TimestampWithTimeZone),
        column_spec(DiariesDiary::UserRelationId.iden_text(), ColumnType::BigInteger),
        column_spec(DiariesDiary::User1Status.iden_text(), ColumnType::StringLen(8)),
        column_spec(DiariesDiary::User2Status.iden_text(), ColumnType::StringLen(8)),
    ]
}

pub open spec fn diary_foreign_keys() -> Seq<ForeignKeyView> {
    seq![
        foreign_key_spec(
            INDEX_NAME@,
            DiariesDiary::UserRelationId.iden_text(),
            UserRelationsUserrelation::Table.iden_text(),
            UserRelationsUserrelation::Id.iden_text(),
        ),
    ]
}

impl Migration {
    /// The migration's name, which the migration table records.
    pub fn name(&self) -> (res: &'static str)
        ensures
            res@ == "m20250507_000004_create_diaries_table"@,
    {
        "m20250507_000004_create_diaries_table"
    }

    pub open spec fn up_plan() -> Seq<SchemaOpView> {
        let t = DiariesDiary::Table.iden_text();
        seq![
            SchemaOpView::CreateTable {
                table: t,
                if_not_exists: true,
                columns: diary_columns(),
                foreign_keys: diary_foreign_keys(),
            },
            SchemaOpView::CreateIndex {
                name: INDEX_NAME@,
                table: t,
                column: DiariesDiary::UserRelationId.iden_text(),
                if_not_exists: true,
            },
        ]
    }

    /// The schema after the `up` plan, on a schema without the table and its index.
    pub open spec fn applied(s: SchemaModel) -> SchemaModel {
        let t = DiariesDiary::Table.iden_text();
        SchemaModel {
            tables: s.tables.insert(t, column_names(diary_columns())),
            indexes: s.indexes.insert(INDEX_NAME@, t),
        }
    }

    pub open spec fn down_plan() -> Seq<SchemaOpView> {
        seq![
            SchemaOpView::DropIndex { name: INDEX_NAME@, if_exists: true },
            SchemaOpView::DropTable { table: DiariesDiary::Table.iden_text(), if_exists: true },
        ]
    }

    /// Creates the table, then an index on the relation.
    pub fn up(&self) -> (res: Vec<SchemaOp>)
        ensures
            ops_view(res@) == Self::up_plan(),
    {
        let columns: Vec<ColumnDef> = vec![
            column(DiariesDiary::Id.iden(), ColumnType::Uuid).primary_key(),
            column(DiariesDiary::Entry.iden(), ColumnType::Text),
            column(DiariesDiary::Date.iden(), ColumnType::Date),
            column(DiariesDiary::CreatedAt.iden(), ColumnType::TimestampWithTimeZone),
            column(DiariesDiary::UpdatedAt.iden(), ColumnType::TimestampWithTimeZone),
            column(DiariesDiary::UserRelationId.iden(), ColumnType::BigInteger),
            column(DiariesDiary::User1Status.iden(), ColumnType::StringLen(8)),
            column(DiariesDiary::User2Status.iden(), ColumnType::StringLen(8)),
        ];
        assert(columns_view(columns@) =~= diary_columns());
        let foreign_keys: Vec<ForeignKeyDef> = vec![
            foreign_key(
                INDEX_NAME,
                DiariesDiary::UserRelationId.iden(),
                UserRelationsUserrelation::Table.iden(),
                UserRelationsUserrelation::Id.iden(),
            ),
        ];
        assert(foreign_keys_view(foreign_keys@) =~= diary_foreign_keys());
        let t = DiariesDiary::Table.iden();
        let res = vec![
            SchemaOp::CreateTable { table: t, if_not_exists: true, columns, foreign_keys },
            SchemaOp::CreateIndex {
                name: INDEX_NAME,
                table: t,
                column: DiariesDiary::UserRelationId.iden(),
                if_not_exists: true,
            },
        ];
        assert(ops_view(res@) =~= Self::up_plan());
        res
    }

    /// Drops the index, then the table.
    pub fn down(&self) -> (res: Vec<SchemaOp>)
        ensures
            ops_view(res@) == Self::down_plan(),
    {
        let res = vec![
            SchemaOp::DropIndex { name: INDEX_NAME, if_exists: true },
            SchemaOp::DropTable { table: DiariesDiary::Table.iden(), if_exists: true },
        ];
        assert(ops_view(res@) =~= Self::down_plan());
        res
    }
}

/// Undoing the migration restores the schema: on a schema without the diary
/// entries table and its index, running the `up` plan and then the `down`
/// plan succeeds and leaves the schema as it was.
pub proof fn law_down_undoes_up(s: SchemaModel)
    requires
        s.well_formed(),
        !s.tables.contains_key(DiariesDiary::Table.iden_text()),
        !s.indexes.contains_key(INDEX_NAME@),
    ensures
        apply_ops(s, Migration::up_plan()) matches Some(after) && after.well_formed() && apply_ops(
            after,
            Migration::down_plan(),
        ) == Some(s),
        apply_ops(s, Migration::up_plan()) == Some(Migration::applied(s)),
{
    reveal_with_fuel(apply_ops, 3);
    let t = DiariesDiary::Table.iden_text();
    let s1 = SchemaModel { tables: s.tables.insert(t, column_names(diary_columns())), ..s };
    let s2 = SchemaModel { indexes: s1.indexes.insert(INDEX_NAME@, t), ..s1 };
    let up = Migration::up_plan();
    assert(up.drop_first() =~= seq![up[1]]);
    assert(up.drop_first().drop_first() =~= Seq::<SchemaOpView>::empty());
    assert(apply_ops(s, up) == Some(s2));
    let down = Migration::down_plan();
    assert(down.drop_first() =~= seq![down[1]]);
    assert(down.drop_first().drop_first() =~= Seq::<SchemaOpView>::empty());
    lemma_drop_created_index(s1, INDEX_NAME@, t, true);
    lemma_drop_created_table(s, t, column_names(diary_columns()), true);
    assert(s2.well_formed());
}

/// Running the migration again changes nothing: on any schema on which the
/// `up` plan went through, a second run goes through too and leaves the
/// schema as the first run left it, since every step creates its table or
/// index, or adds its column, only where it does not exist yet.
pub proof fn law_up_again_changes_nothing(s: SchemaModel)
    requires
        apply_ops(s, Migration::up_plan()) is Some,
    ensures
        apply_ops(apply_ops(s, Migration::up_plan())->0, Migration::up_plan()) == apply_ops(
            s,
            Migration::up_plan(),
        ),
{
    let up = Migration::up_plan();
    assert forall|i: int| 0 <= i < up.len() implies only_adds(#[trigger] up[i]) by {}
    lemma_plan_again(s, up, apply_ops(s, up)->0);
}

} // verus!
