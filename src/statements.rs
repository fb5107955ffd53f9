//! The fixed connection settings and the statements sent to the service.

use vstd::prelude::*;
use vstd::string::StringExecFns;
use crate::ident::{hex_of, WorkspaceId};

verus! {

/// The address of the shared database service.
pub const ENDPOINT: &'static str = "localhost:8000";

/// The root user name used to sign in.
pub const ROOT_USER: &'static str = "root";

/// The root password used to sign in.
pub const ROOT_PASSWORD: &'static str = "root";

/// The logical database selected inside every workspace.
pub const DATABASE: &'static str = "testing";

/// A read-only query that creates nothing: it counts to one.
pub const COUNT_QUERY: &'static str = "SELECT * FROM count(1)";

/// The statement that removes a namespace and everything in it.
pub open spec fn remove_namespace_text(ns: Seq<char>) -> Seq<char> {
    "REMOVE NAMESPACE "@ + ns + ";"@
}

/// The statement that removes a table and its records.
pub open spec fn remove_table_text(table: Seq<char>) -> Seq<char> {
    "REMOVE TABLE "@ + table
}

/// The query that computes the area of a geometry given as GeoJSON.
pub open spec fn area_query_text(geometry: Seq<char>) -> Seq<char> {
    "SELECT * FROM geo::area("@ + geometry + ")"@
}

/// The statement that removes the workspace named by `id`.
pub fn remove_namespace_statement(id: &WorkspaceId) -> (r: String)
    ensures
        r@ == remove_namespace_text(hex_of(id@)),
{
    let mut s = String::from_str("REMOVE NAMESPACE ");
    let ns = id.simple();
    s.append(ns.as_str());
    s.append(";");
    s
}

/// The statement that removes the table `table`.
pub fn remove_table_statement(table: &str) -> (r: String)
    ensures
        r@ == remove_table_text(table@),
{
    let mut s = String::from_str("REMOVE TABLE ");
    s.append(table);
    s
}

/// The query that computes the area of `geometry`, a GeoJSON text.
pub fn area_query(geometry: &str) -> (r: String)
    ensures
        r@ == area_query_text(geometry@),
{
    let mut s = String::from_str("SELECT * FROM geo::area(");
    s.append(geometry);
    s.append(")");
    s
}

} // verus!
