//! The statements that the durable record of addresses is kept with.
//!
//! The record is one table with one row per blacklisted address, keyed by
//! the address's 32-bit value. Every statement takes at most one parameter,
//! the address, bound as `?1`.
use vstd::prelude::*;
use vstd::string::*;

use crate::config::DatabaseConfig;
use crate::Addr;

verus! {

/// What one request to the durable record asks for.
#[derive(Clone, Copy, Debug, PartialEq, Eq, Structural)]
pub enum StoreOp {
    /// Create the table if it is absent.
    InitSchema,
    /// Enumerate every recorded address.
    ListAll,
    /// Record the address if it is not recorded yet.
    Insert(Addr),
    /// Remove the address's record if there is one.
    Delete(Addr),
    /// Ask whether the address is recorded.
    Contains(Addr),
}

/// An SQL statement with the address bound to its `?1`, if it has one.
#[derive(Clone, Debug)]
pub struct Statement {
    pub sql: String,
    pub param: Option<Addr>,
}

/// The record's contents after `op` succeeded on a record holding `before`.
pub open spec fn apply_store_op(before: Set<Addr>, op: StoreOp) -> Set<Addr> {
    match op {
        StoreOp::Insert(a) => before.insert(a),
        StoreOp::Delete(a) => before.remove(a),
        _ => before,
    }
}

/// `op` changes the record on success.
pub open spec fn is_mutation(op: StoreOp) -> bool {
    op is Insert || op is Delete
}

pub open spec fn create_table_sql(table: Seq<char>) -> Seq<char> {
    "CREATE TABLE IF NOT EXISTS "@ + table + " (id INTEGER PRIMARY KEY, addr INTEGER(4))"@
}

pub open spec fn list_sql(table: Seq<char>) -> Seq<char> {
    "SELECT addr FROM "@ + table
}

pub open spec fn insert_sql(table: Seq<char>) -> Seq<char> {
    "INSERT INTO "@ + table + " (addr) SELECT ?1 WHERE NOT EXISTS (SELECT 1 FROM "@ + table
        + " WHERE addr = ?1)"@
}

pub open spec fn delete_sql(table: Seq<char>) -> Seq<char> {
    "DELETE FROM "@ + table + " WHERE addr = ?1"@
}

pub open spec fn exists_sql(table: Seq<char>) -> Seq<char> {
    "SELECT EXISTS(SELECT 1 FROM "@ + table + " WHERE addr = ?1)"@
}

/// The statement that creates the address table if it is absent.
pub fn create_table(config: &DatabaseConfig) -> (r: Statement)
    ensures
        r.sql@ == create_table_sql(config.table_name@),
        r.param is None,
{
    let mut sql = "CREATE TABLE IF NOT EXISTS ".to_owned();
    sql.append(config.table_name.as_str());
    sql.append(" (id INTEGER PRIMARY KEY, addr INTEGER(4))");
    Statement { sql, param: None }
}

/// The query whose rows are every recorded address.
pub fn get_all_addrs(config: &DatabaseConfig) -> (r: Statement)
    ensures
        r.sql@ == list_sql(config.table_name@),
        r.param is None,
{
    let mut sql = "SELECT addr FROM ".to_owned();
    sql.append(config.table_name.as_str());
    Statement { sql, param: None }
}

/// The statement that records `addr` unless it is recorded already.
pub fn add_addr(addr: Addr, config: &DatabaseConfig) -> (r: Statement)
    ensures
        r.sql@ == insert_sql(config.table_name@),
        r.param == Some(addr),
{
    let mut sql = "INSERT INTO ".to_owned();
    sql.append(config.table_name.as_str());
    sql.append(" (addr) SELECT ?1 WHERE NOT EXISTS (SELECT 1 FROM ");
    sql.append(config.table_name.as_str());
    sql.append(" WHERE addr = ?1)");
    Statement { sql, param: Some(addr) }
}

/// The statement that removes the record of `addr`, if there is one.
pub fn remove_addr(addr: Addr, config: &DatabaseConfig) -> (r: Statement)
    ensures
        r.sql@ == delete_sql(config.table_name@),
        r.param == Some(addr),
{
    let mut sql = "DELETE FROM ".to_owned();
    sql.append(config.table_name.as_str());
    sql.append(" WHERE addr = ?1");
    Statement { sql, param: Some(addr) }
}

/// The query whose one row is 1 where `addr` is recorded and 0 where not.
pub fn check_addr(addr: Addr, config: &DatabaseConfig) -> (r: Statement)
    ensures
        r.sql@ == exists_sql(config.table_name@),
        r.param == Some(addr),
{
    let mut sql = "SELECT EXISTS(SELECT 1 FROM ".to_owned();
    sql.append(config.table_name.as_str());
    sql.append(" WHERE addr = ?1)");
    Statement { sql, param: Some(addr) }
}

/// The statement that carries out `op`.
pub fn statement_for(op: StoreOp, config: &DatabaseConfig) -> (r: Statement)
    ensures
        r.sql@ == match op {
            StoreOp::InitSchema => create_table_sql(config.table_name@),
            StoreOp::ListAll => list_sql(config.table_name@),
            StoreOp::Insert(_) => insert_sql(config.table_name@),
            StoreOp::Delete(_) => delete_sql(config.table_name@),
            StoreOp::Contains(_) => exists_sql(config.table_name@),
        },
        r.param == match op {
            StoreOp::Insert(a) => Some(a),
            StoreOp::Delete(a) => Some(a),
            StoreOp::Contains(a) => Some(a),
            _ => None::<Addr>,
        },
{
    match op {
        StoreOp::InitSchema => create_table(config),
        StoreOp::ListAll => get_all_addrs(config),
        StoreOp::Insert(a) => add_addr(a, config),
        StoreOp::Delete(a) => remove_addr(a, config),
        StoreOp::Contains(a) => check_addr(a, config),
    }
}

} // verus!
