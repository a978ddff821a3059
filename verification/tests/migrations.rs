use backend::migration::{Migrator, RegisteredMigration, SchemaOp};
use backend::migration::m20250507_000003_create_tickets_table;
use backend::migration::m20260505_000001_add_first_diary_date_to_user_relations_table as first_diary_date;
use backend::migration::m20260510_000001_add_first_giving_receiving_ticket_date_to_user_relations_table as first_giving_dates;

#[test]
fn migrator_runs_the_registered_migrations_in_order() {
    let names: Vec<&str> = Migrator::migrations().iter().map(|m| m.name()).collect();
    assert_eq!(
        names,
        vec![
            "m20250507_000001_create_users_table",
            "m20250507_000002_create_user_relations_table",
            "m20250507_000003_create_tickets_table",
            "m20250507_000004_create_diaries_table",
            "m20250507_000005_create_diary_tags_table",
            "m20260301_000001_create_web_push_subscriptions_table",
            "m20260330_000001_create_wishes_table",
        ]
    );
}

#[test]
fn every_registered_migration_can_be_undone() {
    for m in Migrator::migrations() {
        let up = m.up();
        let down = m.down();
        assert!(!up.is_empty(), "{} has no steps", m.name());
        assert!(!down.is_empty(), "{} cannot be undone", m.name());
    }
}

#[test]
fn users_table_is_created_and_dropped() {
    let m = RegisteredMigration::CreateUsersTable;
    match &m.up()[0] {
        SchemaOp::CreateTable { table, if_not_exists, columns, .. } => {
            assert_eq!(*table, "users_user");
            assert!(*if_not_exists);
            assert!(columns.iter().any(|c| c.name == "id" && c.primary_key));
        }
        other => panic!("unexpected first step {:?}", other),
    }
    assert!(matches!(m.down().last(), Some(SchemaOp::DropTable { table: "users_user", .. })));
}

#[test]
fn tickets_migration_names_itself() {
    assert_eq!(m20250507_000003_create_tickets_table::Migration.name(), "m20250507_000003_create_tickets_table");
}

#[test]
fn first_diary_date_is_added_then_filled() {
    let up = first_diary_date::Migration.up();
    assert_eq!(up.len(), 2);
    match &up[0] {
        SchemaOp::AddColumn { table, column } => {
            assert_eq!(*table, "user_relations_userrelation");
            assert_eq!(column.name, "first_diary_date");
            assert!(column.nullable);
        }
        other => panic!("unexpected {:?}", other),
    }
    assert!(matches!(&up[1], SchemaOp::ExecuteSql { sql } if sql.contains("SET first_diary_date")));
    let down = first_diary_date::Migration.down();
    assert!(matches!(down[0], SchemaOp::DropColumn { table: "user_relations_userrelation", column: "first_diary_date" }));
}

#[test]
fn first_giving_dates_are_added_for_both_users() {
    let up = first_giving_dates::Migration.up();
    assert_eq!(up.len(), 4);
    let added: Vec<&str> = up
        .iter()
        .filter_map(|op| match op {
            SchemaOp::AddColumn { column, .. } => Some(column.name),
            _ => None,
        })
        .collect();
    assert_eq!(added, vec!["first_user_1_giving_ticket_date", "first_user_2_giving_ticket_date"]);
    assert_eq!(first_giving_dates::Migration.down().len(), 2);
}

use std::collections::{BTreeMap, BTreeSet};

#[derive(Debug, Default, PartialEq)]
struct Schema {
    tables: BTreeMap<String, BTreeSet<String>>,
    indexes: BTreeMap<String, String>,
}

/// What a step does to the tables and indexes of a database.
fn apply(s: &mut Schema, op: &SchemaOp) -> Result<(), String> {
    match op {
        SchemaOp::CreateTable { table, if_not_exists, columns, .. } => {
            if s.tables.contains_key(*table) {
                return if *if_not_exists { Ok(()) } else { Err(format!("{} exists", table)) };
            }
            s.tables.insert(table.to_string(), columns.iter().map(|c| c.name.to_string()).collect());
        }
        SchemaOp::DropTable { table, if_exists } => {
            if s.tables.remove(*table).is_none() && !*if_exists {
                return Err(format!("{} missing", table));
            }
            s.indexes.retain(|_, t| t != table);
        }
        SchemaOp::CreateIndex { name, table, if_not_exists, .. } => {
            if !s.tables.contains_key(*table) {
                return Err(format!("{} missing", table));
            }
            if s.indexes.contains_key(*name) {
                return if *if_not_exists { Ok(()) } else { Err(format!("{} exists", name)) };
            }
            s.indexes.insert(name.to_string(), table.to_string());
        }
        SchemaOp::CreateIndexSql { name, table, .. } => {
            if !s.tables.contains_key(*table) {
                return Err(format!("{} missing", table));
            }
            s.indexes.entry(name.to_string()).or_insert(table.to_string());
        }
        SchemaOp::DropIndex { name, if_exists } => {
            if s.indexes.remove(*name).is_none() && !*if_exists {
                return Err(format!("{} missing", name));
            }
        }
        SchemaOp::AddColumn { table, column } => {
            s.tables.get_mut(*table).ok_or(format!("{} missing", table))?.insert(column.name.to_string());
        }
        SchemaOp::DropColumn { table, column } => {
            let columns = s.tables.get_mut(*table).ok_or(format!("{} missing", table))?;
            if !columns.remove(*column) {
                return Err(format!("{}.{} missing", table, column));
            }
        }
        SchemaOp::ExecuteSql { .. } => {}
    }
    Ok(())
}

#[test]
fn migrations_apply_on_a_fresh_database_and_revert_to_empty() {
    let mut s = Schema::default();
    let migrations = Migrator::migrations();
    for m in &migrations {
        for op in m.up() {
            apply(&mut s, &op).unwrap();
        }
    }
    assert_eq!(s.tables.len(), 8);
    assert!(s.tables["wish"].contains("description"));
    assert!(!s.tables["tickets_ticket"].contains("use_date"));
    for m in migrations.iter().rev() {
        for op in m.down() {
            apply(&mut s, &op).unwrap();
        }
    }
    assert_eq!(s, Schema::default());
}
