use vstd::prelude::*;
use crate::naming;
use crate::relations;
use crate::value;
use std::marker::PhantomData;
use crate::model::{Model, TableInfo, TableView};
use crate::naming::foreign_key_of;
use crate::query::{Query, QueryView};
use crate::relations::{key_text_of, keyed, or_default};
use crate::value::{SqlValue, ValueView};

verus! {

/// The owner row that the child points at through its foreign key: `post.user()`.
#[derive(Debug)]
pub struct BelongsTo<T, R> {
    child: T,
    owner: TableInfo,
    foreign_key: String,
    owner_key: String,
    _marker: PhantomData<R>,
}

impl<T: Model, R: Model> BelongsTo<T, R> {
    pub closed spec fn spec_child(&self) -> T {
        self.child
    }

    /// The names of the owner's table, as read when the relation was made.
    pub closed spec fn spec_owner(&self) -> TableView {
        self.owner@
    }

    pub closed spec fn spec_foreign_key(&self) -> Seq<char> {
        self.foreign_key@
    }

    pub closed spec fn spec_owner_key(&self) -> Seq<char> {
        self.owner_key@
    }

    /// The owner query when the child's foreign-key column holds `value`:
    /// `owner_key = <value>`, or no constraint at all when there is no usable value.
    pub open spec fn spec_query_for(&self, value: Option<ValueView>) -> QueryView {
        relations::keyed_query(self.spec_owner().table, self.spec_owner_key(), relations::key_text(value))
    }

    /// A relation from `child` to the owner table `owner`. Keys not given follow the
    /// naming convention: the foreign key from the owner's table, the owner key its
    /// primary key.
    pub fn from_parts(
        child: T,
        owner: TableInfo,
        foreign_key: Option<String>,
        owner_key: Option<String>,
    ) -> (r: Self)
        ensures
            r.spec_child() == child,
            r.spec_owner() == owner@,
            r.spec_foreign_key() == match foreign_key {
                Some(k) => k@,
                None => naming::foreign_key_for(owner@.table),
            },
            r.spec_owner_key() == match owner_key {
                Some(k) => k@,
                None => owner@.primary_key,
            },
    {
        let foreign_key = match foreign_key {
            Some(k) => k,
            None => foreign_key_of(owner.table.as_str()),
        };
        let owner_key = or_default(owner_key, owner.primary_key.clone());
        BelongsTo { child, owner, foreign_key, owner_key, _marker: PhantomData }
    }

    /// A relation from `child` to `R`, with the names that `R` gives.
    pub fn new(child: T, foreign_key: Option<String>, owner_key: Option<String>) -> (r: Self)
        ensures
            r.spec_child() == child,
            r.spec_foreign_key() == match foreign_key {
                Some(k) => k@,
                None => naming::foreign_key_for(r.spec_owner().table),
            },
            r.spec_owner_key() == match owner_key {
                Some(k) => k@,
                None => r.spec_owner().primary_key,
            },
    {
        Self::from_parts(child, TableInfo::of::<R>(), foreign_key, owner_key)
    }

    /// The value of the foreign-key column on the child.
    pub fn get_foreign_key_value(&self) -> Option<SqlValue> {
        self.child.get_attribute(self.foreign_key.as_str())
    }

    /// Whether the owner has been loaded already; this relation never caches it.
    pub fn is_loaded(&self) -> (r: bool)
        ensures
            !r,
    {
        false
    }

    /// The owner query for the foreign-key value `value`.
    pub fn query_for_value(&self, value: Option<SqlValue>) -> (r: Query<R>)
        ensures
            r@ == self.spec_query_for(value::option_view(value)),
    {
        keyed(self.owner.table.as_str(), self.owner_key.as_str(), key_text_of(&value))
    }

    /// The owner query for the value the child holds in its foreign-key column.
    pub fn get_query(&self) -> (r: Query<R>)
        ensures
            exists|value: Option<ValueView>| r@ == #[trigger] self.spec_query_for(value),
    {
        self.query_for_value(self.get_foreign_key_value())
    }
}

} // verus!
