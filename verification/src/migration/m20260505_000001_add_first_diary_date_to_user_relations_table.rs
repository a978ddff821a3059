//! Adds to each relation the date of its first diary entry, filled in from
//! the entries already written.

use super::{
    lemma_plan_again, only_adds,
    apply_op, apply_ops, column, column_spec, ops_view, ColumnDefView, ColumnType, SchemaModel,
    SchemaOp, SchemaOpView,
};
use vstd::prelude::*;

verus! {

/// Sets each relation's first diary date to the date of its earliest entry,
/// where it has any.
pub const FILL_FIRST_DIARY_DATE_SQL: &'static str = "UPDATE user_relations_userrelation
                SET first_diary_date =(
                    SELECT date
                    FROM diaries_diary
                    WHERE diaries_diary.user_relation_id = user_relations_userrelation.id
                    ORDER BY diaries_diary.date ASC
                    LIMIT 1
                )
                WHERE EXISTS (
                    SELECT date
                    FROM diaries_diary
                    WHERE diaries_diary.user_relation_id = user_relations_userrelation.id
                    ORDER BY diaries_diary.date ASC
                    LIMIT 1
                );
            ";

/// The user relations table, as far as this migration changes it.
#[derive(Clone, Copy, Debug, PartialEq, Eq, Structural)]
pub enum UserRelationsUserrelation {
    Table,
    FirstDiaryDate,
}

impl UserRelationsUserrelation {
    pub open spec fn iden_text(self) -> Seq<char> {
        match self {
            UserRelationsUserrelation::Table => "user_relations_userrelation"@,
            UserRelationsUserrelation::FirstDiaryDate => "first_diary_date"@,
        }
    }

    /// The table's or the column's name in the database.
    pub fn iden(&self) -> (res: &'static str)
        ensures
            res@ == self.iden_text(),
    {
        match self {
            UserRelationsUserrelation::Table => "user_relations_userrelation",
            UserRelationsUserrelation::FirstDiaryDate => "first_diary_date",
        }
    }
}

/// Adds the first diary date to the relations.
#[derive(Clone, Copy, Debug)]
pub struct Migration;

pub open spec fn first_diary_date_column() -> ColumnDefView {
    ColumnDefView {
        nullable: true,
        ..column_spec(UserRelationsUserrelation::FirstDiaryDate.iden_text(), ColumnType::Date)
    }
}

impl Migration {
    /// The migration's name, which the migration table records.
    pub fn name(&self) -> (res: &'static str)
        ensures
            res@ == "m20260505_000001_add_first_diary_date_to_user_relations_table"@,
    {
        "m20260505_000001_add_first_diary_date_to_user_relations_table"
    }

    pub open spec fn up_plan() -> Seq<SchemaOpView> {
        seq![
            SchemaOpView::AddColumn {
                table: UserRelationsUserrelation::Table.iden_text(),
                column: first_diary_date_column(),
            },
            SchemaOpView::ExecuteSql { sql: FILL_FIRST_DIARY_DATE_SQL@ },
        ]
    }

    pub open spec fn down_plan() -> Seq<SchemaOpView> {
        seq![
            SchemaOpView::DropColumn {
                table: UserRelationsUserrelation::Table.iden_text(),
                column: UserRelationsUserrelation::FirstDiaryDate.iden_text(),
            },
        ]
    }

    /// Adds the column, then fills it in.
    pub fn up(&self) -> (res: Vec<SchemaOp>)
        ensures
            ops_view(res@) == Self::up_plan(),
    {
        let res = vec![
            SchemaOp::AddColumn {
                table: UserRelationsUserrelation::Table.iden(),
                column: column(UserRelationsUserrelation::FirstDiaryDate.iden(), ColumnType::Date).null(),
            },
            SchemaOp::ExecuteSql { sql: String::from_str(FILL_FIRST_DIARY_DATE_SQL) },
        ];
        assert(ops_view(res@) =~= Self::up_plan());
        res
    }

    /// Drops the column.
    pub fn down(&self) -> (res: Vec<SchemaOp>)
        ensures
            ops_view(res@) == Self::down_plan(),
    {
        let res = vec![
            SchemaOp::DropColumn {
                table: UserRelationsUserrelation::Table.iden(),
                column: UserRelationsUserrelation::FirstDiaryDate.iden(),
            },
        ];
        assert(ops_view(res@) =~= Self::down_plan());
        res
    }
}

/// Undoing the migration restores the schema: on a schema whose relations
/// table has no first diary date, running the `up` plan and then the `down`
/// plan succeeds and leaves the schema as it was.
pub proof fn law_down_undoes_up(s: SchemaModel)
    requires
        s.well_formed(),
        s.tables.contains_key(UserRelationsUserrelation::Table.iden_text()),
        !s.tables[UserRelationsUserrelation::Table.iden_text()].contains(
            UserRelationsUserrelation::FirstDiaryDate.iden_text(),
        ),
    ensures
        apply_ops(s, Migration::up_plan()) matches Some(after) && after.well_formed() && apply_ops(
            after,
            Migration::down_plan(),
        ) == Some(s),
{
    reveal_with_fuel(apply_ops, 3);
    let t = UserRelationsUserrelation::Table.iden_text();
    let c = UserRelationsUserrelation::FirstDiaryDate.iden_text();
    let cols = s.tables[t];
    let s1 = SchemaModel { tables: s.tables.insert(t, cols.insert(c)), ..s };
    let up = Migration::up_plan();
    assert(up.drop_first() =~= seq![up[1]]);
    assert(up.drop_first().drop_first() =~= Seq::<SchemaOpView>::empty());
    assert(apply_op(s, up[0]) == Some(s1));
    assert(apply_ops(s, up) == Some(s1));
    assert(s1.well_formed());
    let down = Migration::down_plan();
    assert(down.drop_first() =~= Seq::<SchemaOpView>::empty());
    assert(cols.insert(c).remove(c) =~= cols);
    let s2 = SchemaModel { tables: s1.tables.insert(t, cols.insert(c).remove(c)), ..s1 };
    assert(s2.tables =~= s.tables);
    assert(apply_op(s1, down[0]) == Some(s2));
}

/// Running the migration again changes nothing: on any schema on which the
/// `up` plan went through, a second run goes through too and leaves the
/// schema as the first run left it, since every step creates its table or
/// index, or adds its column, only where it does not exist yet.
pub proof fn law_up_again_changes_nothing(s: SchemaModel)
    requires
        apply_ops(s, Migration::up_plan()) is Some,
    ensures
        apply_ops(apply_ops(s, Migration::up_plan())->0, Migration::up_plan()) == apply_ops(
            s,
            Migration::up_plan(),
        ),
{
    let up = Migration::up_plan();
    assert forall|i: int| 0 <= i < up.len() implies only_adds(#[trigger] up[i]) by {}
    lemma_plan_again(s, up, apply_ops(s, up)->0);
}

} // verus!
