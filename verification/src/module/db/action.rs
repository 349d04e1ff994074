use vstd::prelude::*;

use crate::json::{JsonValue, json_get};
use crate::text::{join_with, views_of, join_strings};
use crate::module::db::config::{ModuleDBType, ModuleDBConfig, insertable};
use crate::module::db::escape::{ModuleDBEscape, escaped_value, is_sql_identifier, is_safe_sql_value, lemma_escaped_value_is_safe};
use crate::module::db::search::ModuleDBSearchBuilder;
use crate::module::db::order::ModuleDBOrderBuilder;

verus! {

/// The query that reads the rows of `table` that the WHERE part `where_part` selects.
pub open spec fn select_statement(table: Seq<char>, where_part: Seq<char>) -> Seq<char> {
    "SELECT * FROM "@ + table + " "@ + where_part
}

/// The query that lists the rows of `table` with a WHERE part and an ORDER part.
pub open spec fn list_statement(table: Seq<char>, where_part: Seq<char>, order_part: Seq<char>) -> Seq<char> {
    "SELECT * FROM "@ + table + " "@ + where_part + " "@ + order_part
}

/// The column names and the SQL values that an INSERT of `value` writes, taking
/// the columns in order and skipping serial ones; `None` when a column name is
/// not an identifier, or the value lacks a column or has one that does not fit its type.
pub open spec fn insert_parts(cols: Seq<(String, ModuleDBType)>, value: JsonValue) -> Option<(Seq<Seq<char>>, Seq<Seq<char>>)>
    decreases cols.len(),
{
    if cols.len() == 0 {
        Some((Seq::empty(), Seq::empty()))
    } else {
        match insert_parts(cols.drop_last(), value) {
            None => None,
            Some(parts) => {
                let key = cols.last().0@;
                let ty = cols.last().1;
                if !insertable(ty) {
                    Some(parts)
                } else if !is_sql_identifier(key) {
                    None
                } else {
                    match json_get(value, key) {
                        None => None,
                        Some(v) => match escaped_value(ty, v) {
                            None => None,
                            Some(e) => Some((parts.0.push(key), parts.1.push(e))),
                        },
                    }
                }
            },
        }
    }
}

/// The statement that inserts a row with the columns `names` set to `vals`.
pub open spec fn insert_statement(table: Seq<char>, names: Seq<Seq<char>>, vals: Seq<Seq<char>>) -> Seq<char> {
    "INSERT INTO "@ + table + "("@ + join_with(names, ","@) + ") VALUES("@ + join_with(vals, ","@) + ") RETURNING *"@
}

/// The primary key value and the assignments that an UPDATE of `value` writes,
/// taking the columns in order; `None` when a column that is written is missing
/// from the value or does not fit its type, or a written column name is not an identifier.
pub open spec fn update_parts(cols: Seq<(String, ModuleDBType)>, pk: Seq<char>, value: JsonValue) -> Option<(Option<Seq<char>>, Seq<Seq<char>>)>
    decreases cols.len(),
{
    if cols.len() == 0 {
        Some((None, Seq::empty()))
    } else {
        match update_parts(cols.drop_last(), pk, value) {
            None => None,
            Some(parts) => {
                let key = cols.last().0@;
                let ty = cols.last().1;
                if key == pk {
                    match json_get(value, key) {
                        None => None,
                        Some(v) => match escaped_value(ty, v) {
                            None => None,
                            Some(e) => Some((Some(e), parts.1)),
                        },
                    }
                } else if insertable(ty) {
                    if !is_sql_identifier(key) {
                        None
                    } else {
                        match json_get(value, key) {
                            None => None,
                            Some(v) => match escaped_value(ty, v) {
                                None => None,
                                Some(e) => Some((parts.0, parts.1.push(key + " = "@ + e))),
                            },
                        }
                    }
                } else {
                    Some(parts)
                }
            },
        }
    }
}

/// The statement that an UPDATE sends: it sets `sets` in the row whose primary
/// key is `key`, or only asks `SELECT False` when the value has no key.
pub open spec fn update_statement(table: Seq<char>, pk: Seq<char>, key: Option<Seq<char>>, sets: Seq<Seq<char>>) -> Seq<char> {
    match key {
        Some(k) => "UPDATE "@ + table + " SET "@ + join_with(sets, ","@) + " WHERE "@ + pk + " = "@ + k + " RETURNING "@ + pk + " as id"@,
        None => "SELECT False"@,
    }
}

/// The primary key value that a DELETE of `value` uses (the last column named
/// as the primary key decides); `None` when that column is missing from the
/// value or does not fit its type.
pub open spec fn delete_key(cols: Seq<(String, ModuleDBType)>, pk: Seq<char>, value: JsonValue) -> Option<Option<Seq<char>>>
    decreases cols.len(),
{
    if cols.len() == 0 {
        Some(None)
    } else {
        match delete_key(cols.drop_last(), pk, value) {
            None => None,
            Some(k) => {
                let key = cols.last().0@;
                let ty = cols.last().1;
                if key == pk {
                    match json_get(value, key) {
                        None => None,
                        Some(v) => match escaped_value(ty, v) {
                            None => None,
                            Some(e) => Some(Some(e)),
                        },
                    }
                } else {
                    Some(k)
                }
            },
        }
    }
}

/// The statement that a DELETE sends: it deletes the row whose primary key is
/// `key`, or only asks `SELECT False` when the value has no key.
pub open spec fn delete_statement(table: Seq<char>, pk: Seq<char>, key: Option<Seq<char>>) -> Seq<char> {
    match key {
        Some(k) => "DELETE FROM "@ + table + " WHERE "@ + pk + " = "@ + k + " RETURNING *"@,
        None => "SELECT False"@,
    }
}

proof fn lemma_insert_parts_none(cols: Seq<(String, ModuleDBType)>, value: JsonValue, k: int)
    requires
        0 <= k <= cols.len(),
        insert_parts(cols.take(k), value) is None,
    ensures
        insert_parts(cols, value) is None,
    decreases cols.len() - k,
{
    if k < cols.len() {
        assert(cols.take(k + 1).drop_last() =~= cols.take(k));
        lemma_insert_parts_none(cols, value, k + 1);
    } else {
        assert(cols.take(k) =~= cols);
    }
}

proof fn lemma_update_parts_none(cols: Seq<(String, ModuleDBType)>, pk: Seq<char>, value: JsonValue, k: int)
    requires
        0 <= k <= cols.len(),
        update_parts(cols.take(k), pk, value) is None,
    ensures
        update_parts(cols, pk, value) is None,
    decreases cols.len() - k,
{
    if k < cols.len() {
        assert(cols.take(k + 1).drop_last() =~= cols.take(k));
        lemma_update_parts_none(cols, pk, value, k + 1);
    } else {
        assert(cols.take(k) =~= cols);
    }
}

proof fn lemma_delete_key_none(cols: Seq<(String, ModuleDBType)>, pk: Seq<char>, value: JsonValue, k: int)
    requires
        0 <= k <= cols.len(),
        delete_key(cols.take(k), pk, value) is None,
    ensures
        delete_key(cols, pk, value) is None,
    decreases cols.len() - k,
{
    if k < cols.len() {
        assert(cols.take(k + 1).drop_last() =~= cols.take(k));
        lemma_delete_key_none(cols, pk, value, k + 1);
    } else {
        assert(cols.take(k) =~= cols);
    }
}

/// The query that reads one record of a table: the rows that `search` selects.
pub fn select_sql(config: &ModuleDBConfig, search: &ModuleDBSearchBuilder) -> (r: String)
    ensures
        r@ == select_statement(config.spec_table_name(), search.spec_where()),
{
    let mut r = String::from_str("SELECT * FROM ");
    r.append(config.get_table_name().as_str());
    r.append(" ");
    r.append(search.to_where().as_str());
    r
}

/// The query that lists records of a table, selected by `search`, ordered and paged by `order`.
pub fn list_sql(config: &ModuleDBConfig, search: &ModuleDBSearchBuilder, order: &ModuleDBOrderBuilder) -> (r: String)
    ensures
        r@ == list_statement(config.spec_table_name(), search.spec_where(), order.spec_where()),
{
    let mut r = String::from_str("SELECT * FROM ");
    r.append(config.get_table_name().as_str());
    r.append(" ");
    r.append(search.to_where().as_str());
    r.append(" ");
    r.append(order.to_where().as_str());
    r
}

/// The statement that inserts `value` as a new row: every column that is not
/// serial is written, in the order of the columns. `None` exactly when a
/// written column name is not an identifier, or `value` lacks such a column or
/// holds one that does not fit the column's type.
#[verifier::loop_isolation(false)]
pub fn insert_sql(config: ModuleDBConfig, value: &JsonValue) -> (r: Option<String>)
    ensures
        match insert_parts(config.spec_columns(), *value) {
            Some(parts) => r matches Some(s) && s@ == insert_statement(config.spec_table_name(), parts.0, parts.1),
            None => r is None,
        },
{
    let table_name = config.get_table_name();
    let ghost cols_view = config.spec_columns();
    let columns = config.get_columns();
    let mut col_nm: Vec<String> = Vec::new();
    let mut col_val: Vec<String> = Vec::new();
    let mut i: usize = 0;
    while i < columns.len()
        invariant
            i <= columns@.len(),
            columns@ == cols_view,
            insert_parts(cols_view.take(i as int), *value) == Some((views_of(col_nm@), views_of(col_val@))),
        decreases columns@.len() - i,
    {
        assert(cols_view.take(i as int + 1).drop_last() =~= cols_view.take(i as int));
        assert(cols_view.take(i as int + 1).last() == cols_view[i as int]);
        let (key, types) = &columns[i];
        if types.insartable() {
            let name = match key.try_escape_to_string(()) {
                Ok(n) => n,
                Err(_) => {
                    proof { lemma_insert_parts_none(cols_view, *value, i as int + 1); }
                    return None;
                },
            };
            let item = match value.get(key) {
                Some(v) => v,
                None => {
                    proof { lemma_insert_parts_none(cols_view, *value, i as int + 1); }
                    return None;
                },
            };
            let val = match types.escape_value(item) {
                Some(v) => v,
                None => {
                    proof { lemma_insert_parts_none(cols_view, *value, i as int + 1); }
                    return None;
                },
            };
            let ghost before_n = col_nm@;
            let ghost before_v = col_val@;
            col_nm.push(name);
            col_val.push(val);
            assert(views_of(col_nm@) =~= views_of(before_n).push(key@));
            assert(views_of(col_val@) =~= views_of(before_v).push(val@));
        }
        i = i + 1;
    }
    assert(cols_view.take(columns@.len() as int) =~= cols_view);
    let mut r = String::from_str("INSERT INTO ");
    r.append(table_name.as_str());
    r.append("(");
    r.append(join_strings(&col_nm, ",").as_str());
    r.append(") VALUES(");
    r.append(join_strings(&col_val, ",").as_str());
    r.append(") RETURNING *");
    Some(r)
}

/// The statement that updates the row whose primary key `value` holds: every
/// other column that is not serial is set, in the order of the columns; when
/// the table has no column named as the primary key the statement is
/// `SELECT False`. `None` exactly when a column that is read is missing from
/// `value` or does not fit its type, or a set column name is not an identifier.
#[verifier::loop_isolation(false)]
pub fn update_sql(config: ModuleDBConfig, value: &JsonValue) -> (r: Option<String>)
    ensures
        match update_parts(config.spec_columns(), config.spec_primary_key(), *value) {
            Some(parts) => r matches Some(s) && s@ == update_statement(
                config.spec_table_name(), config.spec_primary_key(), parts.0, parts.1),
            None => r is None,
        },
{
    let table_name = config.get_table_name();
    let primary_key = config.get_primary_key();
    let ghost cols_view = config.spec_columns();
    let ghost pk = config.spec_primary_key();
    let columns = config.get_columns();
    let mut primary_val: Option<String> = None;
    let mut cols: Vec<String> = Vec::new();
    let mut i: usize = 0;
    while i < columns.len()
        invariant
            i <= columns@.len(),
            columns@ == cols_view,
            primary_key@ == pk,
            update_parts(cols_view.take(i as int), pk, *value) == Some((
                match primary_val { Some(s) => Some(s@), None => None },
                views_of(cols@),
            )),
        decreases columns@.len() - i,
    {
        assert(cols_view.take(i as int + 1).drop_last() =~= cols_view.take(i as int));
        assert(cols_view.take(i as int + 1).last() == cols_view[i as int]);
        let (key, types) = &columns[i];
        if *key == primary_key {
            let item = match value.get(key) {
                Some(v) => v,
                None => {
                    proof { lemma_update_parts_none(cols_view, pk, *value, i as int + 1); }
                    return None;
                },
            };
            match types.escape_value(item) {
                Some(v) => {
                    primary_val = Some(v);
                },
                None => {
                    proof { lemma_update_parts_none(cols_view, pk, *value, i as int + 1); }
                    return None;
                },
            }
        } else if types.insartable() {
            let name = match key.try_escape_to_string(()) {
                Ok(n) => n,
                Err(_) => {
                    proof { lemma_update_parts_none(cols_view, pk, *value, i as int + 1); }
                    return None;
                },
            };
            let item = match value.get(key) {
                Some(v) => v,
                None => {
                    proof { lemma_update_parts_none(cols_view, pk, *value, i as int + 1); }
                    return None;
                },
            };
            let val = match types.escape_value(item) {
                Some(v) => v,
                None => {
                    proof { lemma_update_parts_none(cols_view, pk, *value, i as int + 1); }
                    return None;
                },
            };
            let mut set = name;
            set.append(" = ");
            set.append(val.as_str());
            let ghost before = cols@;
            cols.push(set);
            assert(views_of(cols@) =~= views_of(before).push(key@ + " = "@ + val@));
        }
        i = i + 1;
    }
    assert(cols_view.take(columns@.len() as int) =~= cols_view);
    match primary_val {
        Some(key) => {
            let mut r = String::from_str("UPDATE ");
            r.append(table_name.as_str());
            r.append(" SET ");
            r.append(join_strings(&cols, ",").as_str());
            r.append(" WHERE ");
            r.append(primary_key.as_str());
            r.append(" = ");
            r.append(key.as_str());
            r.append(" RETURNING ");
            r.append(primary_key.as_str());
            r.append(" as id");
            Some(r)
        },
        None => Some(String::from_str("SELECT False")),
    }
}

/// The statement that deletes the row whose primary key `value` holds; when
/// the table has no column named as the primary key the statement is
/// `SELECT False`. `None` exactly when the primary key is missing from `value`
/// or does not fit its type.
#[verifier::loop_isolation(false)]
pub fn delete_sql(config: ModuleDBConfig, value: &JsonValue) -> (r: Option<String>)
    ensures
        match delete_key(config.spec_columns(), config.spec_primary_key(), *value) {
            Some(key) => r matches Some(s) && s@ == delete_statement(
                config.spec_table_name(), config.spec_primary_key(), key),
            None => r is None,
        },
{
    let table_name = config.get_table_name();
    let primary_key = config.get_primary_key();
    let ghost cols_view = config.spec_columns();
    let ghost pk = config.spec_primary_key();
    let columns = config.get_columns();
    let mut primary_val: Option<String> = None;
    let mut i: usize = 0;
    while i < columns.len()
        invariant
            i <= columns@.len(),
            columns@ == cols_view,
            primary_key@ == pk,
            delete_key(cols_view.take(i as int), pk, *value) == Some(
                match primary_val { Some(s) => Some(s@), None => None },
            ),
        decreases columns@.len() - i,
    {
        assert(cols_view.take(i as int + 1).drop_last() =~= cols_view.take(i as int));
        assert(cols_view.take(i as int + 1).last() == cols_view[i as int]);
        let (key, types) = &columns[i];
        if *key == primary_key {
            let item = match value.get(key) {
                Some(v) => v,
                None => {
                    proof { lemma_delete_key_none(cols_view, pk, *value, i as int + 1); }
                    return None;
                },
            };
            match types.escape_value(item) {
                Some(v) => {
                    primary_val = Some(v);
                },
                None => {
                    proof { lemma_delete_key_none(cols_view, pk, *value, i as int + 1); }
                    return None;
                },
            }
        }
        i = i + 1;
    }
    assert(cols_view.take(columns@.len() as int) =~= cols_view);
    match primary_val {
        Some(key) => {
            let mut r = String::from_str("DELETE FROM ");
            r.append(table_name.as_str());
            r.append(" WHERE ");
            r.append(primary_key.as_str());
            r.append(" = ");
            r.append(key.as_str());
            r.append(" RETURNING *");
            Some(r)
        },
        None => Some(String::from_str("SELECT False")),
    }
}

/// A record type that is read through one of its children.
pub trait ModuleActionFromChild<T> {}

/// A record type that is listed through its parent.
pub trait ModuleActionFromParent<T> {}

/// An INSERT writes only identifiers as column names and only safe SQL
/// values: each value is `Null`, an integer, or one string literal with its
/// quotes doubled.
pub proof fn lemma_insert_parts_safe(cols: Seq<(String, ModuleDBType)>, value: JsonValue)
    ensures
        insert_parts(cols, value) matches Some(parts) ==> {
            &&& parts.0.len() == parts.1.len()
            &&& forall|i: int| 0 <= i < parts.0.len() ==> is_sql_identifier(#[trigger] parts.0[i])
            &&& forall|i: int| 0 <= i < parts.1.len() ==> is_safe_sql_value(#[trigger] parts.1[i])
        },
    decreases cols.len(),
{
    if cols.len() > 0 {
        lemma_insert_parts_safe(cols.drop_last(), value);
        let key = cols.last().0@;
        let ty = cols.last().1;
        if let Some(v) = json_get(value, key) {
            lemma_escaped_value_is_safe(ty, v);
        }
    }
}

/// Whether `s` sets an identifier column to a safe SQL value.
pub open spec fn is_safe_assignment(s: Seq<char>) -> bool {
    exists|name: Seq<char>, v: Seq<char>|
        is_sql_identifier(name) && is_safe_sql_value(v) && s == #[trigger] assignment_text(name, v)
}

/// The text that sets the column `name` to `v`.
pub open spec fn assignment_text(name: Seq<char>, v: Seq<char>) -> Seq<char> {
    name + " = "@ + v
}

/// An UPDATE sets only identifier columns to safe SQL values, and names the
/// row by a safe SQL value.
pub proof fn lemma_update_parts_safe(cols: Seq<(String, ModuleDBType)>, pk: Seq<char>, value: JsonValue)
    ensures
        update_parts(cols, pk, value) matches Some(parts) ==> {
            &&& (parts.0 matches Some(k) ==> is_safe_sql_value(k))
            &&& forall|i: int| 0 <= i < parts.1.len() ==> is_safe_assignment(#[trigger] parts.1[i])
        },
    decreases cols.len(),
{
    if cols.len() > 0 {
        lemma_update_parts_safe(cols.drop_last(), pk, value);
        let key = cols.last().0@;
        let ty = cols.last().1;
        if let Some(v) = json_get(value, key) {
            lemma_escaped_value_is_safe(ty, v);
        }
        if let Some(parts) = update_parts(cols, pk, value) {
            let prev = update_parts(cols.drop_last(), pk, value)->0;
            if key != pk && insertable(ty) {
                let e = escaped_value(ty, json_get(value, key)->0)->0;
                assert(parts.1 == prev.1.push(key + " = "@ + e));
                assert(is_safe_assignment(assignment_text(key, e)));
                assert forall|i: int| 0 <= i < parts.1.len() implies is_safe_assignment(#[trigger] parts.1[i]) by {
                    if i < prev.1.len() {
                        assert(parts.1[i] == prev.1[i]);
                    } else {
                        assert(parts.1[i] == assignment_text(key, e));
                    }
                }
            } else {
                assert(parts.1 == prev.1);
            }
        }
    }
}

/// A DELETE names the row by a safe SQL value.
pub proof fn lemma_delete_key_safe(cols: Seq<(String, ModuleDBType)>, pk: Seq<char>, value: JsonValue)
    ensures
        delete_key(cols, pk, value) matches Some(Some(k)) ==> is_safe_sql_value(k),
    decreases cols.len(),
{
    if cols.len() > 0 {
        lemma_delete_key_safe(cols.drop_last(), pk, value);
        let key = cols.last().0@;
        let ty = cols.last().1;
        if let Some(v) = json_get(value, key) {
            lemma_escaped_value_is_safe(ty, v);
        }
    }
}

} // verus!

verus! {

/// The names of the columns that are not serial, in order.
pub open spec fn non_serial_names(cols: Seq<(String, ModuleDBType)>) -> Seq<Seq<char>>
    decreases cols.len(),
{
    if cols.len() == 0 {
        Seq::empty()
    } else {
        let rest = non_serial_names(cols.drop_last());
        match cols.last().1 {
            ModuleDBType::SERIAL | ModuleDBType::BIG_SERIAL => rest,
            _ => rest.push(cols.last().0@),
        }
    }
}

/// The names of the columns that are not serial and not the primary key `pk`, in order.
pub open spec fn non_serial_names_but(cols: Seq<(String, ModuleDBType)>, pk: Seq<char>) -> Seq<Seq<char>>
    decreases cols.len(),
{
    if cols.len() == 0 {
        Seq::empty()
    } else {
        let rest = non_serial_names_but(cols.drop_last(), pk);
        if cols.last().0@ == pk {
            rest
        } else {
            match cols.last().1 {
                ModuleDBType::SERIAL | ModuleDBType::BIG_SERIAL => rest,
                _ => rest.push(cols.last().0@),
            }
        }
    }
}

/// An INSERT writes every column whose type is not SERIAL or BIG_SERIAL (an
/// ARRAY, OBJECT or NULLABLE column too), in the order of the columns, each
/// with one value.
pub proof fn lemma_insert_writes_every_non_serial_column(cols: Seq<(String, ModuleDBType)>, value: JsonValue)
    ensures
        insert_parts(cols, value) matches Some(p) ==> p.0 == non_serial_names(cols) && p.1.len() == p.0.len(),
    decreases cols.len(),
{
    if cols.len() > 0 {
        lemma_insert_writes_every_non_serial_column(cols.drop_last(), value);
    }
}

/// An UPDATE sets every column whose type is not SERIAL or BIG_SERIAL, but
/// the primary key, in the order of the columns: the i-th assignment is the
/// i-th such column's name, " = " and its value.
pub proof fn lemma_update_sets_every_non_serial_column(cols: Seq<(String, ModuleDBType)>, pk: Seq<char>, value: JsonValue)
    ensures
        update_parts(cols, pk, value) matches Some(p) ==> {
            &&& p.1.len() == non_serial_names_but(cols, pk).len()
            &&& forall|i: int| 0 <= i < p.1.len() ==> #[trigger] p.1[i] == assignment_text(
                non_serial_names_but(cols, pk)[i], p.1[i].skip(non_serial_names_but(cols, pk)[i].len() as int + 3))
        },
    decreases cols.len(),
{
    if cols.len() > 0 {
        let pre = cols.drop_last();
        lemma_update_sets_every_non_serial_column(pre, pk, value);
        if let Some(p) = update_parts(cols, pk, value) {
            let q = update_parts(pre, pk, value)->0;
            let names = non_serial_names_but(cols, pk);
            let prev = non_serial_names_but(pre, pk);
            let key = cols.last().0@;
            let ty = cols.last().1;
            if key != pk && insertable(ty) {
                let e = escaped_value(ty, json_get(value, key)->0)->0;
                assert(p.1 == q.1.push(key + " = "@ + e));
                assert(names == prev.push(key));
                reveal_strlit(" = ");
                assert((key + " = "@ + e).skip(key.len() as int + 3) =~= e);
                assert forall|i: int| 0 <= i < p.1.len() implies #[trigger] p.1[i] == assignment_text(
                    names[i], p.1[i].skip(names[i].len() as int + 3)) by {
                    if i < q.1.len() {
                        assert(p.1[i] == q.1[i]);
                        assert(names[i] == prev[i]);
                    }
                }
            } else {
                assert(names == prev);
                assert(p.1 == q.1);
            }
        }
    }
}

} // verus!
