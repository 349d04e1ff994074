use vstd::prelude::*;

use crate::module::{Page, Action};

verus! {

/// A page together with one of its actions, as one row of a join reads them.
#[derive(Debug)]
pub struct PageAction {
    pub page: Page,
    pub action: Action,
}

/// The query that reads every page joined with each of its actions, by path.
pub open spec fn page_action_query() -> Seq<char> {
    "SELECT
            p.id as page_id,
            p.mode as page_mode,
            p.page as page_page,
            p.path as page_path,
            p.param as page_param,
            a.id as action_id,
            a.mode as action_mode,
            a.page as action_page,
            a.template as action_template,
            a.method as action_method,
            a.content as action_content,
            a.auth as action_auth
        FROM
            t_page p join t_action a
        ON
            p.id = a.page
        ORDER BY
            p.path ASC
        "@
}

impl PageAction {
    /// The query that reads every page joined with each of its actions, by path.
    pub fn get_sql_all() -> (r: String)
        ensures
            r@ == page_action_query(),
    {
        String::from_str("SELECT
            p.id as page_id,
            p.mode as page_mode,
            p.page as page_page,
            p.path as page_path,
            p.param as page_param,
            a.id as action_id,
            a.mode as action_mode,
            a.page as action_page,
            a.template as action_template,
            a.method as action_method,
            a.content as action_content,
            a.auth as action_auth
        FROM
            t_page p join t_action a
        ON
            p.id = a.page
        ORDER BY
            p.path ASC
        ")
    }
}

} // verus!
