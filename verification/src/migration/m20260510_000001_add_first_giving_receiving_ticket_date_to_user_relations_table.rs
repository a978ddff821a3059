//! Adds to each relation, for each of its two users, the gift date of the
//! first ticket that user gave, filled in from the tickets already given.

use super::{
    lemma_plan_again, only_adds,
    apply_op, apply_ops, column, column_spec, ops_view, ColumnDefView, ColumnType, SchemaModel,
    SchemaOp, SchemaOpView,
};
use crate::records::{Ticket, UserRelation};
use crate::ticket_service::{backfilled_first_giving_dates, first_giving_dates_consistent};
use vstd::prelude::*;

verus! {

/// Sets each relation's first giving date of its first user to the earliest
/// gift date of the tickets that user gave in it, where there is any (as
/// `Migration::backfill` computes it).
pub const FILL_USER_1_SQL: &'static str = "UPDATE user_relations_userrelation
                SET first_user_1_giving_ticket_date =(
                    SELECT gift_date
                    FROM tickets_ticket
                    WHERE tickets_ticket.user_relation_id = user_relations_userrelation.id
                        AND tickets_ticket.giving_user_id = user_relations_userrelation.user_1_id
                    ORDER BY tickets_ticket.gift_date ASC
                    LIMIT 1
                )
                WHERE EXISTS (
                    SELECT gift_date
                    FROM tickets_ticket
                    WHERE tickets_ticket.user_relation_id = user_relations_userrelation.id
                        AND tickets_ticket.giving_user_id = user_relations_userrelation.user_1_id
                    ORDER BY tickets_ticket.gift_date ASC
                    LIMIT 1
                );
            ";

/// The same for the relation's second user.
pub const FILL_USER_2_SQL: &'static str = "UPDATE user_relations_userrelation
                SET first_user_2_giving_ticket_date =(
                    SELECT gift_date
                    FROM tickets_ticket
                    WHERE tickets_ticket.user_relation_id = user_relations_userrelation.id
                        AND tickets_ticket.giving_user_id = user_relations_userrelation.user_2_id
                    ORDER BY tickets_ticket.gift_date ASC
                    LIMIT 1
                )
                WHERE EXISTS (
                    SELECT gift_date
                    FROM tickets_ticket
                    WHERE tickets_ticket.user_relation_id = user_relations_userrelation.id
                        AND tickets_ticket.giving_user_id = user_relations_userrelation.user_2_id
                    ORDER BY tickets_ticket.gift_date ASC
                    LIMIT 1
                );
            ";

/// The user relations table, as far as this migration changes it.
#[derive(Clone, Copy, Debug, PartialEq, Eq, Structural)]
pub enum UserRelationsUserrelation {
    Table,
    FirstUser1GivingTicketDate,
    FirstUser2GivingTicketDate,
}

impl UserRelationsUserrelation {
    pub open spec fn iden_text(self) -> Seq<char> {
        match self {
            UserRelationsUserrelation::Table => "user_relations_userrelation"@,
            UserRelationsUserrelation::FirstUser1GivingTicketDate => "first_user_1_giving_ticket_date"@,
            UserRelationsUserrelation::FirstUser2GivingTicketDate => "first_user_2_giving_ticket_date"@,
        }
    }

    /// The table's or the column's name in the database.
    pub fn iden(&self) -> (res: &'static str)
        ensures
            res@ == self.iden_text(),
    {
        match self {
            UserRelationsUserrelation::Table => "user_relations_userrelation",
            UserRelationsUserrelation::FirstUser1GivingTicketDate => "first_user_1_giving_ticket_date",
            UserRelationsUserrelation::FirstUser2GivingTicketDate => "first_user_2_giving_ticket_date",
        }
    }
}

/// Adds the first giving dates to the relations.
#[derive(Clone, Copy, Debug)]
pub struct Migration;

pub open spec fn date_column(c: UserRelationsUserrelation) -> ColumnDefView {
    ColumnDefView { nullable: true, ..column_spec(c.iden_text(), ColumnType::Date) }
}

impl Migration {
    /// The migration's name, which the migration table records.
    pub fn name(&self) -> (res: &'static str)
        ensures
            res@ == "m20260510_000001_add_first_giving_receiving_ticket_date_to_user_relations_table"@,
    {
        "m20260510_000001_add_first_giving_receiving_ticket_date_to_user_relations_table"
    }

    pub open spec fn up_plan() -> Seq<SchemaOpView> {
        let t = UserRelationsUserrelation::Table.iden_text();
        seq![
            SchemaOpView::AddColumn {
                table: t,
                column: date_column(UserRelationsUserrelation::FirstUser1GivingTicketDate),
            },
            SchemaOpView::AddColumn {
                table: t,
                column: date_column(UserRelationsUserrelation::FirstUser2GivingTicketDate),
            },
            SchemaOpView::ExecuteSql { sql: FILL_USER_1_SQL@ },
            SchemaOpView::ExecuteSql { sql: FILL_USER_2_SQL@ },
        ]
    }

    pub open spec fn down_plan() -> Seq<SchemaOpView> {
        let t = UserRelationsUserrelation::Table.iden_text();
        seq![
            SchemaOpView::DropColumn {
                table: t,
                column: UserRelationsUserrelation::FirstUser1GivingTicketDate.iden_text(),
            },
            SchemaOpView::DropColumn {
                table: t,
                column: UserRelationsUserrelation::FirstUser2GivingTicketDate.iden_text(),
            },
        ]
    }

    /// Adds the two columns, then fills them in.
    pub fn up(&self) -> (res: Vec<SchemaOp>)
        ensures
            ops_view(res@) == Self::up_plan(),
    {
        let t = UserRelationsUserrelation::Table.iden();
        let res = vec![
            SchemaOp::AddColumn {
                table: t,
                column: column(
                    UserRelationsUserrelation::FirstUser1GivingTicketDate.iden(),
                    ColumnType::Date,
                ).null(),
            },
            SchemaOp::AddColumn {
                table: t,
                column: column(
                    UserRelationsUserrelation::FirstUser2GivingTicketDate.iden(),
                    ColumnType::Date,
                ).null(),
            },
            SchemaOp::ExecuteSql { sql: String::from_str(FILL_USER_1_SQL) },
            SchemaOp::ExecuteSql { sql: String::from_str(FILL_USER_2_SQL) },
        ];
        assert(ops_view(res@) =~= Self::up_plan());
        res
    }

    /// Drops the two columns.
    pub fn down(&self) -> (res: Vec<SchemaOp>)
        ensures
            ops_view(res@) == Self::down_plan(),
    {
        let t = UserRelationsUserrelation::Table.iden();
        let res = vec![
            SchemaOp::DropColumn {
                table: t,
                column: UserRelationsUserrelation::FirstUser1GivingTicketDate.iden(),
            },
            SchemaOp::DropColumn {
                table: t,
                column: UserRelationsUserrelation::FirstUser2GivingTicketDate.iden(),
            },
        ];
        assert(ops_view(res@) =~= Self::down_plan());
        res
    }
}

impl Migration {
    /// The relations with their first giving dates filled in: each one's
    /// first giving dates become the earliest gift dates of its two users
    /// among `tickets` (none where a user gave none); nothing else changes.
    ///
    /// This is what `FILL_USER_1_SQL` and `FILL_USER_2_SQL` are written to
    /// compute. The `up` plan hands those statements to the database, which
    /// runs them; nothing here proves that the SQL text computes this, so the
    /// link between the two is an assumption about the statements.
    pub fn backfill(relations: Vec<UserRelation>, tickets: &Vec<Ticket>) -> (res: Vec<UserRelation>)
        ensures
            res@.len() == relations@.len(),
            forall|i: int|
                0 <= i < res@.len() ==> {
                    &&& #[trigger] res@[i] == (UserRelation {
                        first_user_1_giving_ticket_date: res@[i].first_user_1_giving_ticket_date,
                        first_user_2_giving_ticket_date: res@[i].first_user_2_giving_ticket_date,
                        ..relations@[i]
                    })
                    &&& first_giving_dates_consistent(res@[i], tickets@)
                },
    {
        let ghost all = relations@;
        let mut rest = relations;
        let mut res: Vec<UserRelation> = Vec::new();
        let mut i: usize = 0;
        assert(all.len() == rest.len());
        while rest.len() > 0
            invariant
                i + rest@.len() == all.len(),
                all.len() <= usize::MAX,
                rest@ == all.subrange(i as int, all.len() as int),
                res@.len() == i,
                forall|j: int|
                    0 <= j < i ==> {
                        &&& #[trigger] res@[j] == (UserRelation {
                            first_user_1_giving_ticket_date: res@[j].first_user_1_giving_ticket_date,
                            first_user_2_giving_ticket_date: res@[j].first_user_2_giving_ticket_date,
                            ..all[j]
                        })
                        &&& first_giving_dates_consistent(res@[j], tickets@)
                    },
            decreases rest@.len(),
        {
            let r = rest.remove(0);
            assert(r == all[i as int]);
            res.push(backfilled_first_giving_dates(r, tickets));
            i = i + 1;
            assert(rest@ =~= all.subrange(i as int, all.len() as int));
        }
        res
    }
}

/// Undoing the migration restores the schema: on a schema whose relations
/// table has neither first giving date, running the `up` plan and then the
/// `down` plan succeeds and leaves the schema as it was.
pub proof fn law_down_undoes_up(s: SchemaModel)
    requires
        s.well_formed(),
        s.tables.contains_key(UserRelationsUserrelation::Table.iden_text()),
        !s.tables[UserRelationsUserrelation::Table.iden_text()].contains(
            UserRelationsUserrelation::FirstUser1GivingTicketDate.iden_text(),
        ),
        !s.tables[UserRelationsUserrelation::Table.iden_text()].contains(
            UserRelationsUserrelation::FirstUser2GivingTicketDate.iden_text(),
        ),
    ensures
        apply_ops(s, Migration::up_plan()) matches Some(after) && after.well_formed() && apply_ops(
            after,
            Migration::down_plan(),
        ) == Some(s),
{
    reveal_with_fuel(apply_ops, 5);
    let t = UserRelationsUserrelation::Table.iden_text();
    let c1 = UserRelationsUserrelation::FirstUser1GivingTicketDate.iden_text();
    let c2 = UserRelationsUserrelation::FirstUser2GivingTicketDate.iden_text();
    let cols = s.tables[t];
    reveal_strlit("first_user_1_giving_ticket_date");
    reveal_strlit("first_user_2_giving_ticket_date");
    assert(c1[11] != c2[11]);
    assert(c1 != c2);
    let s1 = SchemaModel { tables: s.tables.insert(t, cols.insert(c1)), ..s };
    let s2 = SchemaModel { tables: s1.tables.insert(t, cols.insert(c1).insert(c2)), ..s1 };
    let up = Migration::up_plan();
    assert(up.drop_first() =~= up.subrange(1, 4));
    assert(up.drop_first().drop_first() =~= up.subrange(2, 4));
    assert(up.drop_first().drop_first().drop_first() =~= up.subrange(3, 4));
    assert(up.subrange(3, 4).drop_first() =~= Seq::<SchemaOpView>::empty());
    assert(apply_op(s, up[0]) == Some(s1));
    assert(apply_op(s1, up[1]) == Some(s2));
    assert(apply_ops(s, up) == Some(s2));
    assert(s2.well_formed());
    let down = Migration::down_plan();
    assert(down.drop_first() =~= seq![down[1]]);
    assert(down.drop_first().drop_first() =~= Seq::<SchemaOpView>::empty());
    let s3 = SchemaModel { tables: s2.tables.insert(t, cols.insert(c1).insert(c2).remove(c1)), ..s2 };
    assert(apply_op(s2, down[0]) == Some(s3));
    assert(s3.tables[t].contains(c2));
    assert(cols.insert(c1).insert(c2).remove(c1).remove(c2) =~= cols);
    let s4 = SchemaModel {
        tables: s3.tables.insert(t, cols.insert(c1).insert(c2).remove(c1).remove(c2)),
        ..s3
    };
    assert(apply_op(s3, down[1]) == Some(s4));
    assert(s4.tables =~= s.tables);
}

/// Running the migration again changes nothing: on any schema on which the
/// `up` plan went through, a second run goes through too and leaves the
/// schema as the first run left it, since every step creates its table or
/// index, or adds its column, only where it does not exist yet.
pub proof fn law_up_again_changes_nothing(s: SchemaModel)
    requires
        apply_ops(s, Migration::up_plan()) is Some,
    ensures
        apply_ops(apply_ops(s, Migration::up_plan())->0, Migration::up_plan()) == apply_ops(
            s,
            Migration::up_plan(),
        ),
{
    let up = Migration::up_plan();
    assert forall|i: int| 0 <= i < up.len() implies only_adds(#[trigger] up[i]) by {}
    lemma_plan_again(s, up, apply_ops(s, up)->0);
}

} // verus!
