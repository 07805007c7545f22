use vstd::prelude::*;
use crate::query;
use crate::relations;
use crate::value;
use std::marker::PhantomData;
use crate::model::{Model, TableInfo, TableView};
use crate::naming::suffixed;
use crate::query::{Query, QueryView};
use crate::relations::{key_text_of, morph_keyed, morph_stamp_of, or_default};
use crate::value::{SqlValue, ValueView};

verus! {

/// The one related row that points back at its owner through a (type, id) column pair:
/// `post.image()`.
#[derive(Debug)]
pub struct HasMorphOne<T, R> {
    parent: T,
    owner: TableInfo,
    related: TableInfo,
    morph_type: String,
    morph_id: String,
    local_key: String,
    _marker: PhantomData<R>,
}

impl<T: Model, R: Model> HasMorphOne<T, R> {
    pub closed spec fn spec_parent(&self) -> T {
        self.parent
    }

    /// The names of the owner's table, as read when the relation was made.
    pub closed spec fn spec_owner(&self) -> TableView {
        self.owner@
    }

    /// The names of the related table, as read when the relation was made.
    pub closed spec fn spec_related(&self) -> TableView {
        self.related@
    }

    pub closed spec fn spec_morph_type(&self) -> Seq<char> {
        self.morph_type@
    }

    pub closed spec fn spec_morph_id(&self) -> Seq<char> {
        self.morph_id@
    }

    pub closed spec fn spec_local_key(&self) -> Seq<char> {
        self.local_key@
    }

    /// The related query when the owner's key value is `key`: `morph_type = <owner's
    /// table>` and, when there is a usable key, `morph_id = <key>`. Without a key only the
    /// type is constrained.
    pub open spec fn spec_query_for(&self, key: Option<ValueView>) -> QueryView {
        relations::morph_query(
            self.spec_related().table,
            self.spec_morph_type(),
            self.spec_owner().table,
            self.spec_morph_id(),
            relations::key_text(key),
        )
    }

    /// A relation from `parent`, given the names of both tables. Columns not given are
    /// `<name>_type` and `<name>_id`; the local key defaults to the related type's primary
    /// key.
    pub fn from_parts(
        parent: T,
        owner: TableInfo,
        related: TableInfo,
        name: &str,
        type_column: Option<String>,
        id_column: Option<String>,
        local_key: Option<String>,
    ) -> (r: Self)
        ensures
            r.spec_parent() == parent,
            r.spec_owner() == owner@,
            r.spec_related() == related@,
            r.spec_morph_type() == match type_column {
                Some(c) => c@,
                None => name@ + "_type"@,
            },
            r.spec_morph_id() == match id_column {
                Some(c) => c@,
                None => name@ + "_id"@,
            },
            r.spec_local_key() == match local_key {
                Some(k) => k@,
                None => related@.primary_key,
            },
    {
        let morph_type = match type_column {
            Some(c) => c,
            None => suffixed(name, "_type"),
        };
        let morph_id = match id_column {
            Some(c) => c,
            None => suffixed(name, "_id"),
        };
        let local_key = or_default(local_key, related.primary_key.clone());
        HasMorphOne { parent, owner, related, morph_type, morph_id, local_key, _marker: PhantomData }
    }

    /// A relation from `parent` to `R`, with the names that `T` and `R` give.
    pub fn new(
        parent: T,
        name: &str,
        type_column: Option<String>,
        id_column: Option<String>,
        local_key: Option<String>,
    ) -> (r: Self)
        ensures
            r.spec_parent() == parent,
            r.spec_morph_type() == match type_column {
                Some(c) => c@,
                None => name@ + "_type"@,
            },
            r.spec_morph_id() == match id_column {
                Some(c) => c@,
                None => name@ + "_id"@,
            },
            r.spec_local_key() == match local_key {
                Some(k) => k@,
                None => r.spec_related().primary_key,
            },
    {
        Self::from_parts(
            parent,
            TableInfo::of::<T>(),
            TableInfo::of::<R>(),
            name,
            type_column,
            id_column,
            local_key,
        )
    }

    /// The value stored in the type column for the owner: its table name.
    pub fn get_morph_type(&self) -> (r: String)
        ensures
            r@ == self.spec_owner().table,
    {
        self.owner.table.clone()
    }

    /// The related query for the owner's key value `key`.
    pub fn query_for_key(&self, key: Option<SqlValue>) -> (r: Query<R>)
        ensures
            r@ == self.spec_query_for(value::option_view(key)),
    {
        morph_keyed(
            self.related.table.as_str(),
            self.morph_type.as_str(),
            self.owner.table.as_str(),
            self.morph_id.as_str(),
            key_text_of(&key),
        )
    }

    /// The related query for the owner's current key value.
    pub fn get_query(&self) -> (r: Query<R>)
        ensures
            exists|key: Option<ValueView>| r@ == #[trigger] self.spec_query_for(key),
    {
        self.query_for_key(self.parent.get_key_value())
    }

    /// The columns a row created through this relation gets, for the owner's key value
    /// `key`: the type column, and the id column when there is a key.
    pub fn stamp_for_key(&self, key: Option<SqlValue>) -> (r: Vec<(String, SqlValue)>)
        ensures
            relations::attribute_views(r@) == relations::morph_stamp(
                self.spec_morph_type(),
                self.spec_owner().table,
                self.spec_morph_id(),
                value::option_view(key),
            ),
    {
        morph_stamp_of(
            self.morph_type.as_str(),
            self.owner.table.clone(),
            self.morph_id.as_str(),
            key,
        )
    }

    /// The columns a row created through this relation gets.
    pub fn key_attributes(&self) -> (r: Vec<(String, SqlValue)>)
        ensures
            exists|key: Option<ValueView>|
                relations::attribute_views(r@) == #[trigger] relations::morph_stamp(
                    self.spec_morph_type(),
                    self.spec_owner().table,
                    self.spec_morph_id(),
                    key,
                ),
    {
        self.stamp_for_key(self.parent.get_key_value())
    }

    /// The related query with `column = 'value'` added.
    pub fn where_clause(self, column: &str, value: &str) -> (r: Query<R>)
        ensures
            exists|key: Option<ValueView>|
                r@ == query::add_where(
                    #[trigger] self.spec_query_for(key),
                    query::equals_condition(column@, value@),
                ),
    {
        let q = self.get_query();
        let ghost base = q@;
        let r = q.where_clause(column, value);
        proof {
            let key = choose|key: Option<ValueView>| base == self.spec_query_for(key);
            assert(r@ == query::add_where(self.spec_query_for(key), query::equals_condition(column@, value@)));
        }
        r
    }
}

} // verus!
