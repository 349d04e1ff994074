//! The database side of the records: column types, table descriptions,
//! escaping of identifiers and values, and the SQL statements.

pub mod config;
pub mod escape;
pub mod search;
pub mod order;
pub mod action;

pub use self::config::{ModuleDBType, ModuleDBConfig, ModuleDBMeta};
pub use self::escape::ModuleDBEscape;
pub use self::search::{ModuleDBSearch, ModuleDBSearchBuilder};
pub use self::order::{ModuleDBOrder, ModuleDBPager, ModuleDBOrderBuilder};
pub use self::action::{ModuleActionFromChild, ModuleActionFromParent};
