use vstd::prelude::*;
use crate::naming;
use crate::query;
use crate::value;
use crate::model::Model;
use crate::query::{Query, QueryView};
use crate::clause::OrderView;
use crate::relations::belongs_to::BelongsTo;
use crate::relations::belongs_to_many::BelongsToMany;
use crate::relations::has_many::HasMany;
use crate::relations::has_morph_many::HasMorphMany;
use crate::relations::has_morph_one::HasMorphOne;
use crate::relations::has_one::HasOne;

verus! {

/// Entry points on a model type: queries on its table and relations from an instance.
/// Each relation holds a clone of the instance it starts from.
pub trait Eloquent: Model + Clone {
    fn query() -> (r: Query<Self>)
        ensures
            r@ == query::empty_query(r@.table),
    {
        Query::new()
    }

    /// A query with `field = 'value'`.
    fn where_(field: &str, value: &str) -> (r: Query<Self>)
        ensures
            r@ == query::add_where(
                query::empty_query(r@.table),
                query::equals_condition(field@, value@),
            ),
    {
        Query::new().where_clause(field, value)
    }

    fn all() -> (r: Query<Self>)
        ensures
            r@ == query::empty_query(r@.table),
    {
        Query::new()
    }

    /// A query for the row whose primary key is `id`.
    fn find_by_id(id: i64) -> (r: Query<Self>)
        ensures
            exists|column: Seq<char>|
                r@ == query::add_where(
                    query::empty_query(r@.table),
                    #[trigger] query::equals_condition(column, value::int_text(id as int)),
                ),
    {
        Query::new().where_key(id)
    }

    fn find_or_fail(id: i64) -> (r: Query<Self>)
        ensures
            exists|column: Seq<char>|
                r@ == query::add_where(
                    query::empty_query(r@.table),
                    #[trigger] query::equals_condition(column, value::int_text(id as int)),
                ),
    {
        Self::find_by_id(id)
    }

    /// Newest first, on `column` or `created_at`.
    fn latest(column: Option<&str>) -> (r: Query<Self>)
        ensures
            r@ == (QueryView {
                orders: seq![
                    OrderView { column: query::column_or_created_at(column), direction: "DESC"@ },
                ],
                ..query::empty_query(r@.table)
            }),
    {
        let r = Query::new().latest(column);
        proof {
            assert(r@.orders =~= seq![
                OrderView { column: query::column_or_created_at(column), direction: "DESC"@ },
            ]);
        }
        r
    }

    /// Oldest first, on `column` or `created_at`.
    fn oldest(column: Option<&str>) -> (r: Query<Self>)
        ensures
            r@ == (QueryView {
                orders: seq![
                    OrderView { column: query::column_or_created_at(column), direction: "ASC"@ },
                ],
                ..query::empty_query(r@.table)
            }),
    {
        let r = Query::new().oldest(column);
        proof {
            assert(r@.orders =~= seq![
                OrderView { column: query::column_or_created_at(column), direction: "ASC"@ },
            ]);
        }
        r
    }

    fn has_one<R: Model>(&self, foreign_key: Option<String>, local_key: Option<String>) -> (r:
        HasOne<Self, R>)
        ensures
            vstd::pervasive::strictly_cloned(*self, r.spec_parent()),
            r.spec_foreign_key() == match foreign_key {
                Some(k) => k@,
                None => naming::foreign_key_for(r.spec_owner().table),
            },
            r.spec_local_key() == match local_key {
                Some(k) => k@,
                None => r.spec_related().primary_key,
            },
    {
        HasOne::new(self.clone(), foreign_key, local_key)
    }

    fn has_many<R: Model>(&self, foreign_key: Option<String>, local_key: Option<String>) -> (r:
        HasMany<Self, R>)
        ensures
            vstd::pervasive::strictly_cloned(*self, r.spec_parent()),
            r.spec_foreign_key() == match foreign_key {
                Some(k) => k@,
                None => naming::foreign_key_for(r.spec_owner().table),
            },
            r.spec_local_key() == match local_key {
                Some(k) => k@,
                None => r.spec_related().primary_key,
            },
    {
        HasMany::new(self.clone(), foreign_key, local_key)
    }

    fn belongs_to<R: Model>(&self, foreign_key: Option<String>, owner_key: Option<String>) -> (r:
        BelongsTo<Self, R>)
        ensures
            vstd::pervasive::strictly_cloned(*self, r.spec_child()),
            r.spec_foreign_key() == match foreign_key {
                Some(k) => k@,
                None => naming::foreign_key_for(r.spec_owner().table),
            },
            r.spec_owner_key() == match owner_key {
                Some(k) => k@,
                None => r.spec_owner().primary_key,
            },
    {
        BelongsTo::new(self.clone(), foreign_key, owner_key)
    }

    fn belongs_to_many<R: Model>(
        &self,
        table: Option<String>,
        foreign_pivot_key: Option<String>,
        related_pivot_key: Option<String>,
        parent_key: Option<String>,
        related_key: Option<String>,
    ) -> (r: BelongsToMany<Self, R>)
        ensures
            vstd::pervasive::strictly_cloned(*self, r.spec_parent()),
            r.spec_table() == match table {
                Some(t) => t@,
                None => naming::pivot_table_for(r.spec_owner().table, r.spec_related().table),
            },
            r.spec_foreign_pivot_key() == match foreign_pivot_key {
                Some(k) => k@,
                None => naming::foreign_key_for(r.spec_owner().table),
            },
            r.spec_related_pivot_key() == match related_pivot_key {
                Some(k) => k@,
                None => naming::foreign_key_for(r.spec_related().table),
            },
            r.spec_parent_key() == match parent_key {
                Some(k) => k@,
                None => r.spec_owner().primary_key,
            },
            r.spec_related_key() == match related_key {
                Some(k) => k@,
                None => r.spec_related().primary_key,
            },
            r.spec_pivot_columns() == Seq::<Seq<char>>::empty(),
    {
        BelongsToMany::new(
            self.clone(),
            table,
            foreign_pivot_key,
            related_pivot_key,
            parent_key,
            related_key,
        )
    }

    fn morph_one<R: Model>(
        &self,
        name: &str,
        type_column: Option<String>,
        id_column: Option<String>,
        local_key: Option<String>,
    ) -> (r: HasMorphOne<Self, R>)
        ensures
            vstd::pervasive::strictly_cloned(*self, r.spec_parent()),
            r.spec_morph_type() == match type_column {
                Some(c) => c@,
                None => name@ + "_type"@,
            },
            r.spec_morph_id() == match id_column {
                Some(c) => c@,
                None => name@ + "_id"@,
            },
            r.spec_local_key() == match local_key {
                Some(k) => k@,
                None => r.spec_related().primary_key,
            },
    {
        HasMorphOne::new(self.clone(), name, type_column, id_column, local_key)
    }

    fn morph_many<R: Model>(
        &self,
        name: &str,
        type_column: Option<String>,
        id_column: Option<String>,
        local_key: Option<String>,
    ) -> (r: HasMorphMany<Self, R>)
        ensures
            vstd::pervasive::strictly_cloned(*self, r.spec_parent()),
            r.spec_morph_type() == match type_column {
                Some(c) => c@,
                None => name@ + "_type"@,
            },
            r.spec_morph_id() == match id_column {
                Some(c) => c@,
                None => name@ + "_id"@,
            },
            r.spec_local_key() == match local_key {
                Some(k) => k@,
                None => r.spec_related().primary_key,
            },
    {
        HasMorphMany::new(self.clone(), name, type_column, id_column, local_key)
    }
}

} // verus!
