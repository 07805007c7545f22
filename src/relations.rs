pub mod belongs_to;
pub mod belongs_to_many;
pub mod has_many;
pub mod has_morph_many;
pub mod has_morph_one;
pub mod has_one;

use vstd::prelude::*;
use crate::value;
use crate::query;
use crate::model::Model;
use crate::query::{Query, QueryView};
use crate::value::{SqlValue, ValueView, int_to_text};

verus! {

/// The text a key value is compared as: an integer in decimal, a string as it is.
/// Other values give no text.
pub open spec fn key_text(v: Option<ValueView>) -> Option<Seq<char>> {
    match v {
        Some(ValueView::Int(n)) => Some(value::int_text(n as int)),
        Some(ValueView::Text(s)) => Some(s),
        _ => None,
    }
}

/// What an optional string holds.
pub open spec fn text_view(t: Option<String>) -> Option<Seq<char>> {
    match t {
        Some(s) => Some(s@),
        None => None,
    }
}

/// A fresh query on `table`, with `column = 'key'` when there is a key.
pub open spec fn keyed_query(table: Seq<char>, column: Seq<char>, key: Option<Seq<char>>) -> QueryView {
    match key {
        Some(k) => query::add_where(query::empty_query(table), query::equals_condition(column, k)),
        None => query::empty_query(table),
    }
}

/// A fresh query on `table` constrained on a type column and, when there is a key, on an
/// id column.
pub open spec fn morph_query(
    table: Seq<char>,
    type_column: Seq<char>,
    type_value: Seq<char>,
    id_column: Seq<char>,
    key: Option<Seq<char>>,
) -> QueryView {
    let typed = query::add_where(query::empty_query(table), query::equals_condition(type_column, type_value));
    match key {
        Some(k) => query::add_where(typed, query::equals_condition(id_column, k)),
        None => typed,
    }
}

/// The text of a key value: see `key_text`.
pub fn key_text_of(v: &Option<SqlValue>) -> (r: Option<String>)
    ensures
        text_view(r) == key_text(value::option_view(*v)),
{
    match v {
        Some(SqlValue::Int(n)) => Some(int_to_text(*n)),
        Some(SqlValue::Text(s)) => Some(s.clone()),
        _ => None,
    }
}

/// A query on `table` constrained by `column = key`; unconstrained when there is no key.
pub fn keyed<R: Model>(table: &str, column: &str, key: Option<String>) -> (r: Query<R>)
    ensures
        r@ == keyed_query(table@, column@, text_view(key)),
{
    let q = Query::on_table(table);
    match key {
        Some(k) => q.where_clause(column, k.as_str()),
        None => q,
    }
}

/// A query on `table` constrained by `type_column = type_value` and, when there is a
/// key, by `id_column = key`.
pub fn morph_keyed<R: Model>(
    table: &str,
    type_column: &str,
    type_value: &str,
    id_column: &str,
    key: Option<String>,
) -> (r: Query<R>)
    ensures
        r@ == morph_query(table@, type_column@, type_value@, id_column@, text_view(key)),
{
    let q = Query::on_table(table).where_clause(type_column, type_value);
    match key {
        Some(k) => q.where_clause(id_column, k.as_str()),
        None => q,
    }
}

/// The key columns that a created related row gets: `column` set to the owner's key
/// value, when the owner has one.
pub open spec fn key_stamp(column: Seq<char>, key: Option<ValueView>) -> Seq<(Seq<char>, ValueView)> {
    match key {
        Some(v) => seq![(column, v)],
        None => Seq::empty(),
    }
}

pub open spec fn attribute_views(v: Seq<(String, SqlValue)>) -> Seq<(Seq<char>, ValueView)> {
    v.map_values(|p: (String, SqlValue)| (p.0@, p.1@))
}

/// `column` paired with `key`, when there is a key.
pub fn key_stamp_of(column: &str, key: Option<SqlValue>) -> (r: Vec<(String, SqlValue)>)
    ensures
        attribute_views(r@) == key_stamp(column@, value::option_view(key)),
{
    let mut r: Vec<(String, SqlValue)> = Vec::new();
    match key {
        Some(v) => {
            r.push((String::from_str(column), v));
        },
        None => {},
    }
    proof {
        assert(attribute_views(r@) =~= key_stamp(column@, value::option_view(key)));
    }
    r
}

/// The columns a row created through a polymorphic relation gets: the type column set to
/// `type_value`, then the id column set to the owner's key when there is one.
pub open spec fn morph_stamp(
    type_column: Seq<char>,
    type_value: Seq<char>,
    id_column: Seq<char>,
    key: Option<ValueView>,
) -> Seq<(Seq<char>, ValueView)> {
    seq![(type_column, ValueView::Text(type_value))] + key_stamp(id_column, key)
}

/// The type column paired with `type_value`, then the id column paired with `key` when
/// there is a key.
pub fn morph_stamp_of(type_column: &str, type_value: String, id_column: &str, key: Option<SqlValue>) -> (r: Vec<(String, SqlValue)>)
    ensures
        attribute_views(r@) == morph_stamp(type_column@, type_value@, id_column@, value::option_view(key)),
{
    let mut r: Vec<(String, SqlValue)> = Vec::new();
    r.push((String::from_str(type_column), SqlValue::Text(type_value)));
    match key {
        Some(v) => {
            r.push((String::from_str(id_column), v));
        },
        None => {},
    }
    proof {
        assert(attribute_views(r@) =~= morph_stamp(type_column@, type_value@, id_column@, value::option_view(key)));
    }
    r
}

/// `given` when there is one, else `default`.
pub fn or_default(given: Option<String>, default: String) -> (r: String)
    ensures
        r@ == match given {
            Some(g) => g@,
            None => default@,
        },
{
    match given {
        Some(g) => g,
        None => default,
    }
}

} // verus!
