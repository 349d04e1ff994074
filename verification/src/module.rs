//! The records that the service stores (pages, actions, templates), their
//! database description, and the SQL that reads and writes them.

pub mod db;
pub mod sub;
pub mod columns;
pub mod page;
pub mod action;
pub mod template;

pub use self::page::Page;
pub use self::action::{Action, ChildTemplate};
pub use self::template::Template;
pub use self::db::{ModuleDBMeta, ModuleDBConfig, ModuleDBType};
