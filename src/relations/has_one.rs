use vstd::prelude::*;
use crate::naming;
use crate::query;
use crate::relations;
use crate::value;
use std::marker::PhantomData;
use crate::model::{Model, TableInfo, TableView};
use crate::naming::foreign_key_of;
use crate::query::{Query, QueryView};
use crate::relations::{key_stamp_of, key_text_of, keyed, or_default};
use crate::value::{SqlValue, ValueView};

verus! {

/// The related row that holds the owner's key: `user.profile()`.
#[derive(Debug)]
pub struct HasOne<T, R> {
    parent: T,
    owner: TableInfo,
    related: TableInfo,
    foreign_key: String,
    local_key: String,
    _marker: PhantomData<R>,
}

impl<T: Model, R: Model> HasOne<T, R> {
    pub closed spec fn spec_parent(&self) -> T {
        self.parent
    }

    /// The names of the owner's table, as read when the relation was made.
    pub closed spec fn spec_owner(&self) -> TableView {
        self.owner@
    }

    /// The names of the related table, as read when the relation was made.
    pub closed spec fn spec_related(&self) -> TableView {
        self.related@
    }

    pub closed spec fn spec_foreign_key(&self) -> Seq<char> {
        self.foreign_key@
    }

    pub closed spec fn spec_local_key(&self) -> Seq<char> {
        self.local_key@
    }

    /// The related query when the owner's key value is `key`: `foreign_key = <key>`, or
    /// no constraint at all when there is no usable key.
    pub open spec fn spec_query_for(&self, key: Option<ValueView>) -> QueryView {
        relations::keyed_query(self.spec_related().table, self.spec_foreign_key(), relations::key_text(key))
    }

    /// A relation from `parent`, given the names of both tables. Keys not given follow
    /// the naming convention: the foreign key from the owner's table, the local key the
    /// related type's primary key.
    pub fn from_parts(
        parent: T,
        owner: TableInfo,
        related: TableInfo,
        foreign_key: Option<String>,
        local_key: Option<String>,
    ) -> (r: Self)
        ensures
            r.spec_parent() == parent,
            r.spec_owner() == owner@,
            r.spec_related() == related@,
            r.spec_foreign_key() == match foreign_key {
                Some(k) => k@,
                None => naming::foreign_key_for(owner@.table),
            },
            r.spec_local_key() == match local_key {
                Some(k) => k@,
                None => related@.primary_key,
            },
    {
        let foreign_key = match foreign_key {
            Some(k) => k,
            None => foreign_key_of(owner.table.as_str()),
        };
        let local_key = or_default(local_key, related.primary_key.clone());
        HasOne { parent, owner, related, foreign_key, local_key, _marker: PhantomData }
    }

    /// A relation from `parent` to `R`, with the names that `T` and `R` give.
    pub fn new(parent: T, foreign_key: Option<String>, local_key: Option<String>) -> (r: Self)
        ensures
            r.spec_parent() == parent,
            r.spec_foreign_key() == match foreign_key {
                Some(k) => k@,
                None => naming::foreign_key_for(r.spec_owner().table),
            },
            r.spec_local_key() == match local_key {
                Some(k) => k@,
                None => r.spec_related().primary_key,
            },
    {
        Self::from_parts(parent, TableInfo::of::<T>(), TableInfo::of::<R>(), foreign_key, local_key)
    }

    /// The related query for the owner's key value `key`.
    pub fn query_for_key(&self, key: Option<SqlValue>) -> (r: Query<R>)
        ensures
            r@ == self.spec_query_for(value::option_view(key)),
    {
        keyed(self.related.table.as_str(), self.foreign_key.as_str(), key_text_of(&key))
    }

    /// The related query for the owner's current key value.
    pub fn get_query(&self) -> (r: Query<R>)
        ensures
            exists|key: Option<ValueView>| r@ == #[trigger] self.spec_query_for(key),
    {
        self.query_for_key(self.parent.get_key_value())
    }

    /// The key columns a row created through this relation gets, for the owner's key
    /// value `key`.
    pub fn stamp_for_key(&self, key: Option<SqlValue>) -> (r: Vec<(String, SqlValue)>)
        ensures
            relations::attribute_views(r@) == relations::key_stamp(
                self.spec_foreign_key(),
                value::option_view(key),
            ),
    {
        key_stamp_of(self.foreign_key.as_str(), key)
    }

    /// The key columns a row created through this relation gets.
    pub fn key_attributes(&self) -> (r: Vec<(String, SqlValue)>)
        ensures
            exists|key: Option<ValueView>|
                relations::attribute_views(r@) == #[trigger] relations::key_stamp(
                    self.spec_foreign_key(),
                    key,
                ),
    {
        self.stamp_for_key(self.parent.get_key_value())
    }

    /// The related query with `column = 'value'` added.
    pub fn where_clause(self, column: &str, value: &str) -> (r: Query<R>)
        ensures
            exists|key: Option<ValueView>|
                r@ == query::add_where(
                    #[trigger] self.spec_query_for(key),
                    query::equals_condition(column@, value@),
                ),
    {
        let q = self.get_query();
        let ghost base = q@;
        let r = q.where_clause(column, value);
        proof {
            let key = choose|key: Option<ValueView>| base == self.spec_query_for(key);
            assert(r@ == query::add_where(self.spec_query_for(key), query::equals_condition(column@, value@)));
        }
        r
    }
}

} // verus!
