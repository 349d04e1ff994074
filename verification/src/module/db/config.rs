use vstd::prelude::*;

use crate::types::error::{ServiceError, db_access_error};
use crate::module::db::escape::{ModuleDBEscape, is_sql_identifier};

verus! {

/// The type of a column, which decides how a value is written into SQL.
#[derive(Debug)]
#[allow(non_camel_case_types)]
pub enum ModuleDBType {
    ARRAY(Box<ModuleDBType>),
    NULLABLE(Box<ModuleDBType>),
    SERIAL,
    BIG_SERIAL,
    INT,
    BIG_INT,
    TEXT,
    OBJECT,
}

/// Whether a column of this type takes a value in an INSERT (serial columns are filled by the database).
pub open spec fn insertable(ty: ModuleDBType) -> bool {
    !(ty is SERIAL || ty is BIG_SERIAL)
}

impl ModuleDBType {
    /// Whether a column of this type takes a value in an INSERT.
    pub fn insartable(&self) -> (r: bool)
        ensures
            r == insertable(*self),
    {
        match self {
            ModuleDBType::SERIAL | ModuleDBType::BIG_SERIAL => false,
            _ => true,
        }
    }
}

/// Whether no two columns have the same name: the columns are a map from
/// name to type, kept in the order they were declared.
pub open spec fn distinct_column_names(cols: Seq<(String, ModuleDBType)>) -> bool {
    forall|i: int, j: int| 0 <= i < j < cols.len() ==> #[trigger] cols[i].0@ != #[trigger] cols[j].0@
}

/// The description of a table: its name, its primary key and its columns.
pub struct ModuleDBConfig {
    table_name: String,
    primary_key: String,
    table_column: Vec<(String, ModuleDBType)>,
}

impl ModuleDBConfig {
    /// The name of the table.
    pub closed spec fn spec_table_name(&self) -> Seq<char> {
        self.table_name@
    }

    /// The name of the primary key column.
    pub closed spec fn spec_primary_key(&self) -> Seq<char> {
        self.primary_key@
    }

    /// The columns, each with its type, in their declared order.
    pub closed spec fn spec_columns(&self) -> Seq<(String, ModuleDBType)> {
        self.table_column@
    }

    /// Describes a table; the table and key names must be SQL identifiers.
    pub fn factory(
        table_name: String,
        primary_key: String,
        table_column: Vec<(String, ModuleDBType)>,
    ) -> (r: Result<Self, ServiceError>)
        requires
            distinct_column_names(table_column@),
        ensures
            r is Ok <==> (is_sql_identifier(table_name@) && is_sql_identifier(primary_key@)),
            r matches Ok(c) ==> {
                &&& c.spec_table_name() == table_name@
                &&& c.spec_primary_key() == primary_key@
                &&& c.spec_columns() == table_column@
            },
            r matches Err(e) ==> e == db_access_error(),
    {
        let t = match table_name.try_escape_to_string(()) {
            Ok(t) => t,
            Err(e) => {
                return Err(e);
            },
        };
        let p = match primary_key.try_escape_to_string(()) {
            Ok(p) => p,
            Err(e) => {
                return Err(e);
            },
        };
        Ok(ModuleDBConfig { table_name: t, primary_key: p, table_column: table_column })
    }

    /// The name of the table.
    pub fn get_table_name(&self) -> (r: String)
        ensures
            r@ == self.spec_table_name(),
    {
        self.table_name.clone()
    }

    /// The name of the primary key column.
    pub fn get_primary_key(&self) -> (r: String)
        ensures
            r@ == self.spec_primary_key(),
    {
        self.primary_key.clone()
    }

    /// The columns, each with its type.
    pub fn get_columns(self) -> (r: Vec<(String, ModuleDBType)>)
        ensures
            r@ == self.spec_columns(),
    {
        self.table_column
    }
}

/// A record type that is stored in a table.
pub trait ModuleDBMeta {
    /// The description of the table that holds records of this type.
    fn config() -> ModuleDBConfig;
}

} // verus!
