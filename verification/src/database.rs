//! Small statements on any table: whether a row exists, which key it has,
//! how many rows refer to a key, and whether a table can be read at all.
//!
//! Tables and columns are named by the closed sets of `sql`, never by a
//! text that a caller chose.

use crate::sql::{
    column_name, column_str, plain_statement, statement_with, table_name, table_str, values,
    Column, Statement, Table, Value, ValueView,
};
use vstd::prelude::*;
use vstd::string::*;

verus! {

/// The statement that reads nothing and succeeds wherever the store can be
/// reached.
pub const HEALTH_CHECK: &'static str = "SELECT 1";

/// `SELECT EXISTS(SELECT 1 FROM table WHERE column = $1)`
pub open spec fn exists_sql(table: Table, column: Column) -> Seq<char> {
    "SELECT EXISTS(SELECT 1 FROM "@ + table_name(table) + " WHERE "@ + column_name(column)
        + " = $1)"@
}

/// `SELECT id_column FROM table WHERE search_column = $1`
pub open spec fn get_id_sql(table: Table, id_column: Column, search_column: Column) -> Seq<char> {
    "SELECT "@ + column_name(id_column) + " FROM "@ + table_name(table) + " WHERE "@ + column_name(
        search_column,
    ) + " = $1"@
}

/// `SELECT COUNT(*) FROM table WHERE fk_column = $1`
pub open spec fn count_sql(table: Table, fk_column: Column) -> Seq<char> {
    "SELECT COUNT(*) FROM "@ + table_name(table) + " WHERE "@ + column_name(fk_column) + " = $1"@
}

/// `SELECT 1 FROM table LIMIT 1`
pub open spec fn table_access_sql(table: Table) -> Seq<char> {
    "SELECT 1 FROM "@ + table_name(table) + " LIMIT 1"@
}

fn exists_text(table: Table, column: Column) -> (sql: String)
    ensures
        sql@ == exists_sql(table, column),
{
    let mut sql = "SELECT EXISTS(SELECT 1 FROM ".to_owned();
    sql.append(table_str(table));
    sql.append(" WHERE ");
    sql.append(column_str(column, false));
    sql.append(" = $1)");
    sql
}

/// Whether a record exists in a table, by its key.
pub fn exists_by_id(table: Table, id_column: Column, id: i32) -> (s: Statement)
    ensures
        s.sql@ == exists_sql(table, id_column),
        values(s.binds@) == seq![ValueView::Int(id)],
{
    statement_with(exists_text(table, id_column), Value::Int(id))
}

/// Whether a record exists in a table, by a text column.
pub fn exists_by_string(table: Table, column: Column, value: &str) -> (s: Statement)
    ensures
        s.sql@ == exists_sql(table, column),
        values(s.binds@) == seq![ValueView::Text(value@)],
{
    statement_with(exists_text(table, column), Value::Text(value.to_owned()))
}

/// The key of the record that holds a text in a column.
pub fn get_id_by_string(table: Table, id_column: Column, search_column: Column, value: &str) -> (s:
    Statement)
    ensures
        s.sql@ == get_id_sql(table, id_column, search_column),
        values(s.binds@) == seq![ValueView::Text(value@)],
{
    let mut sql = "SELECT ".to_owned();
    sql.append(column_str(id_column, false));
    sql.append(" FROM ");
    sql.append(table_str(table));
    sql.append(" WHERE ");
    sql.append(column_str(search_column, false));
    sql.append(" = $1");
    statement_with(sql, Value::Text(value.to_owned()))
}

/// How many records of a table refer to a key.
pub fn count_by_foreign_key(table: Table, fk_column: Column, fk_id: i32) -> (s: Statement)
    ensures
        s.sql@ == count_sql(table, fk_column),
        values(s.binds@) == seq![ValueView::Int(fk_id)],
{
    let mut sql = "SELECT COUNT(*) FROM ".to_owned();
    sql.append(table_str(table));
    sql.append(" WHERE ");
    sql.append(column_str(fk_column, false));
    sql.append(" = $1");
    statement_with(sql, Value::Int(fk_id))
}

/// A statement that succeeds exactly where the table can be read.
pub fn verify_table_access(table: Table) -> (s: Statement)
    ensures
        s.sql@ == table_access_sql(table),
        s.binds@.len() == 0,
{
    let mut sql = "SELECT 1 FROM ".to_owned();
    sql.append(table_str(table));
    sql.append(" LIMIT 1");
    Statement { sql, binds: Vec::new() }
}

/// The statement that checks that the store answers.
pub fn health_check() -> (s: Statement)
    ensures
        s.sql@ == HEALTH_CHECK@,
        s.binds@.len() == 0,
{
    plain_statement(HEALTH_CHECK)
}

} // verus!
