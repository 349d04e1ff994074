//! Parts of records: authorisation settings and the tree of templates that
//! an action runs.

pub mod auth;
pub mod template_tree;
pub mod page_action;

pub use self::auth::Auth;
pub use self::template_tree::TemplateTree;
pub use self::page_action::PageAction;
