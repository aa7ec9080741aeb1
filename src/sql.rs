//! SQL statements for the one table, written by sea-query for SQLite.
use vstd::prelude::*;

use crate::codec::views;
use sea_query::{Alias, ColumnDef, Expr, ExprTrait, Order, Query, SqliteQueryBuilder, Table};

verus! {

/// The text sea-query writes for a `CREATE TABLE IF NOT EXISTS` with an
/// auto-increment integer key, non-null text columns and a non-null date-time
/// column, in that order.
pub uninterp spec fn create_table_text(
    table: Seq<char>,
    id_col: Seq<char>,
    text_cols: Seq<Seq<char>>,
    time_col: Seq<char>,
) -> Seq<char>;

/// The text sea-query writes for an `INSERT` of one row of string values.
pub uninterp spec fn insert_text(
    table: Seq<char>,
    cols: Seq<Seq<char>>,
    values: Seq<Seq<char>>,
) -> Seq<char>;

/// The text sea-query writes for a `SELECT` of every row, newest key first.
pub uninterp spec fn select_desc_text(
    table: Seq<char>,
    cols: Seq<Seq<char>>,
    order_col: Seq<char>,
) -> Seq<char>;

/// The text sea-query writes for a `SELECT` of the rows whose `key_col`
/// equals `key`, at most `limit` of them.
pub uninterp spec fn select_where_text(
    table: Seq<char>,
    cols: Seq<Seq<char>>,
    key_col: Seq<char>,
    key: Seq<char>,
    limit: nat,
) -> Seq<char>;

/// The text sea-query writes for a `DELETE` of the rows whose `key_col`
/// equals `key`.
pub uninterp spec fn delete_where_text(table: Seq<char>, key_col: Seq<char>, key: Seq<char>) -> Seq<
    char,
>;

/// The text sea-query writes for a `DELETE` with no filter, which SQLite
/// carries out as a clear of the whole table.
pub uninterp spec fn delete_all_text(table: Seq<char>) -> Seq<char>;

/// Relies on sea-query's `Table::create` and `ColumnDef` builders, rendered by
/// `SqliteQueryBuilder`: a text that depends on the arguments alone.
#[verifier::external_body]
pub(crate) fn create_table_sql(table: &str, id_col: &str, text_cols: &Vec<String>, time_col: &str) -> (r: String)
    ensures
        r@ == create_table_text(table@, id_col@, views(text_cols@), time_col@),
{
    let mut stmt = Table::create();
    stmt.table(Alias::new(table)).if_not_exists();
    stmt.col(ColumnDef::new(Alias::new(id_col)).integer().not_null().auto_increment().primary_key());
    for c in text_cols.iter() {
        stmt.col(ColumnDef::new(Alias::new(c.as_str())).string().not_null());
    }
    stmt.col(ColumnDef::new(Alias::new(time_col)).date_time().not_null());
    stmt.build(SqliteQueryBuilder)
}

/// Relies on sea-query's `Query::insert`, rendered by `SqliteQueryBuilder`.
/// `values_panic` panics when the counts of columns and values differ.
#[verifier::external_body]
pub(crate) fn insert_sql(table: &str, cols: &Vec<String>, values: &Vec<String>) -> (r: String)
    requires
        cols@.len() == values@.len(),
    ensures
        r@ == insert_text(table@, views(cols@), views(values@)),
{
    Query::insert()
        .into_table(Alias::new(table))
        .columns(cols.iter().map(|c| Alias::new(c.as_str())))
        .values_panic(values.iter().map(|v| Expr::from(v.as_str())))
        .to_string(SqliteQueryBuilder)
}

/// Relies on sea-query's `Query::select` with `Order::Desc`, rendered by
/// `SqliteQueryBuilder`.
#[verifier::external_body]
pub(crate) fn select_desc_sql(table: &str, cols: &Vec<String>, order_col: &str) -> (r: String)
    ensures
        r@ == select_desc_text(table@, views(cols@), order_col@),
{
    Query::select()
        .columns(cols.iter().map(|c| Alias::new(c.as_str())))
        .from(Alias::new(table))
        .order_by(Alias::new(order_col), Order::Desc)
        .to_string(SqliteQueryBuilder)
}

/// Relies on sea-query's `Query::select` with an `Expr::col(..).eq(..)`
/// filter and a limit, rendered by `SqliteQueryBuilder`.
#[verifier::external_body]
pub(crate) fn select_where_sql(
    table: &str,
    cols: &Vec<String>,
    key_col: &str,
    key: &str,
    limit: u64,
) -> (r: String)
    ensures
        r@ == select_where_text(table@, views(cols@), key_col@, key@, limit as nat),
{
    Query::select()
        .columns(cols.iter().map(|c| Alias::new(c.as_str())))
        .from(Alias::new(table))
        .and_where(Expr::col(Alias::new(key_col)).eq(key))
        .limit(limit)
        .to_string(SqliteQueryBuilder)
}

/// Relies on sea-query's `Query::delete` with an `Expr::col(..).eq(..)`
/// filter, rendered by `SqliteQueryBuilder`.
#[verifier::external_body]
pub(crate) fn delete_where_sql(table: &str, key_col: &str, key: &str) -> (r: String)
    ensures
        r@ == delete_where_text(table@, key_col@, key@),
{
    Query::delete()
        .from_table(Alias::new(table))
        .and_where(Expr::col(Alias::new(key_col)).eq(key))
        .to_string(SqliteQueryBuilder)
}

/// Relies on sea-query's `Query::delete` with no filter, rendered by
/// `SqliteQueryBuilder` (its `Table::truncate` panics for SQLite).
#[verifier::external_body]
pub(crate) fn delete_all_sql(table: &str) -> (r: String)
    ensures
        r@ == delete_all_text(table@),
{
    Query::delete().from_table(Alias::new(table)).to_string(SqliteQueryBuilder)
}

} // verus!
