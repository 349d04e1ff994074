use vstd::prelude::*;

use crate::module::db::config::{ModuleDBType, ModuleDBConfig, distinct_column_names};
use crate::module::db::escape::is_sql_identifier;
use crate::types::error::ServiceError;

verus! {

/// The columns of a table as names and types.
pub open spec fn column_views(cols: Seq<(String, ModuleDBType)>) -> Seq<(Seq<char>, ModuleDBType)> {
    cols.map_values(|c: (String, ModuleDBType)| (c.0@, c.1))
}

/// A column named `name` of type `ty`.
pub fn column(name: &str, ty: ModuleDBType) -> (r: (String, ModuleDBType))
    ensures
        r.0@ == name@,
        r.1 == ty,
{
    (String::from_str(name), ty)
}

/// The description of a table whose names are known to be identifiers.
pub fn known_table(table_name: &str, primary_key: &str, columns: Vec<(String, ModuleDBType)>) -> (r: ModuleDBConfig)
    requires
        is_sql_identifier(table_name@),
        is_sql_identifier(primary_key@),
        distinct_column_names(columns@),
    ensures
        r.spec_table_name() == table_name@,
        r.spec_primary_key() == primary_key@,
        r.spec_columns() == columns@,
{
    let made: Result<ModuleDBConfig, ServiceError> = ModuleDBConfig::factory(
        String::from_str(table_name),
        String::from_str(primary_key),
        columns,
    );
    made.unwrap()
}

} // verus!
