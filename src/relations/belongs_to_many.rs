use vstd::prelude::*;
use crate::clause;
use crate::naming;
use crate::query;
use crate::relations;
use crate::value;
use std::marker::PhantomData;
use crate::model::{Model, TableInfo, TableView};
use crate::naming::{foreign_key_of, pivot_table_of};
use crate::query::{Query, QueryView};
use crate::relations::{key_text_of, or_default};
use crate::value::{SqlValue, ValueView, push_int_text, push_value_sql};

verus! {

/// The related rows reached through a pivot table that pairs owner keys with related
/// keys: `user.roles()`.
#[derive(Debug)]
pub struct BelongsToMany<T, R> {
    parent: T,
    owner: TableInfo,
    related: TableInfo,
    table: String,
    foreign_pivot_key: String,
    related_pivot_key: String,
    parent_key: String,
    related_key: String,
    pivot_columns: Vec<String>,
    _marker: PhantomData<R>,
}

/// `table.column`
pub open spec fn qualified(table: Seq<char>, column: Seq<char>) -> Seq<char> {
    table + "."@ + column
}

/// A fresh query that joins `pivot` to `related_table` on the related key and, when
/// there is an owner key, keeps the pivot rows of that owner. Without an owner key it
/// is unconstrained.
pub open spec fn pivot_query(
    pivot: Seq<char>,
    foreign_pivot_key: Seq<char>,
    related_pivot_key: Seq<char>,
    related_table: Seq<char>,
    related_key: Seq<char>,
    key: Option<Seq<char>>,
) -> QueryView {
    match key {
        Some(k) => {
            let joined = QueryView {
                joins: query::empty_query(related_table).joins.push(
                    clause::JoinView {
                        table: pivot,
                        first: qualified(pivot, related_pivot_key),
                        operator: "="@,
                        second: qualified(related_table, related_key),
                        join_type: "INNER"@,
                    },
                ),
                ..query::empty_query(related_table)
            };
            query::add_where(
                joined,
                query::equals_condition(qualified(pivot, foreign_pivot_key), k),
            )
        },
        None => query::empty_query(related_table),
    }
}

/// The ids to add to and to remove from a pivot table.
#[derive(Debug, Clone)]
pub struct PivotChanges {
    pub attach: Vec<i64>,
    pub detach: Vec<i64>,
}

/// The elements of `items`, in order, whose membership in `other` is `present`.
pub open spec fn select_by(items: Seq<i64>, other: Seq<i64>, present: bool) -> Seq<i64> {
    items.filter(|x: i64| other.contains(x) == present)
}

/// The ids attached after removing `detach` from `current` and adding `attach`.
pub open spec fn attached_after(current: Seq<i64>, attach: Seq<i64>, detach: Seq<i64>) -> Set<i64> {
    current.to_set().difference(detach.to_set()).union(attach.to_set())
}

/// An id is selected exactly when it is in `items` with the asked-for membership in `other`.
pub proof fn lemma_select_by_contains(items: Seq<i64>, other: Seq<i64>, present: bool, x: i64)
    ensures
        select_by(items, other, present).contains(x) <==> (items.contains(x) && other.contains(x)
            == present),
    decreases items.len(),
{
    reveal(Seq::filter);
    if items.len() > 0 {
        let rest = items.drop_last();
        lemma_select_by_contains(rest, other, present, x);
        let sub = select_by(rest, other, present);
        if items.contains(x) && other.contains(x) == present {
            if x == items.last() {
                assert(select_by(items, other, present).last() == x);
            } else {
                let i = choose|i: int| 0 <= i < items.len() && items[i] == x;
                assert(rest[i] == x);
                let j = choose|j: int| 0 <= j < sub.len() && sub[j] == x;
                assert(select_by(items, other, present)[j] == x);
            }
        }
        if select_by(items, other, present).contains(x) {
            let j = choose|j: int|
                0 <= j < select_by(items, other, present).len() && select_by(
                    items,
                    other,
                    present,
                )[j] == x;
            if j < sub.len() {
                assert(sub[j] == x);
                let i = choose|i: int| 0 <= i < rest.len() && rest[i] == x;
                assert(items[i] == x);
            } else {
                assert(items[items.len() - 1] == x);
            }
        }
    }
}

/// Syncing to `ids` leaves exactly the ids of `ids` attached, whatever was attached before.
pub proof fn lemma_sync_attaches_exactly(current: Seq<i64>, ids: Seq<i64>)
    ensures
        attached_after(current, select_by(ids, current, false), select_by(current, ids, false))
            == ids.to_set(),
{
    assert forall|x: i64|
        #[trigger] attached_after(
            current,
            select_by(ids, current, false),
            select_by(current, ids, false),
        ).contains(x) <==> ids.to_set().contains(x) by {
        lemma_select_by_contains(ids, current, false, x);
        lemma_select_by_contains(current, ids, false, x);
    }
    assert(attached_after(current, select_by(ids, current, false), select_by(current, ids, false))
        =~= ids.to_set());
}

/// Toggling `ids` flips the membership of each of them and keeps every other id as it was.
pub proof fn lemma_toggle_flips(current: Seq<i64>, ids: Seq<i64>)
    ensures
        attached_after(current, select_by(ids, current, false), select_by(ids, current, true))
            == current.to_set().difference(ids.to_set()).union(
            ids.to_set().difference(current.to_set()),
        ),
{
    assert forall|x: i64|
        #[trigger] attached_after(
            current,
            select_by(ids, current, false),
            select_by(ids, current, true),
        ).contains(x) <==> current.to_set().difference(ids.to_set()).union(
            ids.to_set().difference(current.to_set()),
        ).contains(x) by {
        lemma_select_by_contains(ids, current, false, x);
        lemma_select_by_contains(ids, current, true, x);
    }
    assert(attached_after(current, select_by(ids, current, false), select_by(ids, current, true))
        =~= current.to_set().difference(ids.to_set()).union(
        ids.to_set().difference(current.to_set()),
    ));
}

/// Whether `x` is among `items`.
pub fn contains_id(items: &Vec<i64>, x: i64) -> (r: bool)
    ensures
        r == items@.contains(x),
{
    let mut i: usize = 0;
    while i < items.len()
        invariant
            i <= items@.len(),
            forall|j: int| 0 <= j < i ==> items@[j] != x,
        decreases items@.len() - i,
    {
        if items[i] == x {
            return true;
        }
        i = i + 1;
    }
    false
}

/// The elements of `items`, in order, whose membership in `other` is `present`.
pub fn select_by_membership(items: &Vec<i64>, other: &Vec<i64>, present: bool) -> (r: Vec<i64>)
    ensures
        r@ == select_by(items@, other@, present),
{
    let mut r: Vec<i64> = Vec::new();
    let mut i: usize = 0;
    while i < items.len()
        invariant
            i <= items@.len(),
            r@ == select_by(items@.take(i as int), other@, present),
        decreases items@.len() - i,
    {
        let x = items[i];
        if contains_id(other, x) == present {
            r.push(x);
        }
        proof {
            reveal(Seq::filter);
            assert(items@.take(i + 1).drop_last() =~= items@.take(i as int));
        }
        i = i + 1;
    }
    proof {
        assert(items@.take(items@.len() as int) =~= items@);
    }
    r
}

/// What a sync to `ids` changes when `current` is attached: attach the ids of `ids` not
/// attached yet, detach the attached ids not in `ids`.
pub fn sync_changes(current: &Vec<i64>, ids: &Vec<i64>) -> (r: PivotChanges)
    ensures
        r.attach@ == select_by(ids@, current@, false),
        r.detach@ == select_by(current@, ids@, false),
{
    PivotChanges {
        attach: select_by_membership(ids, current, false),
        detach: select_by_membership(current, ids, false),
    }
}

/// What toggling `ids` changes when `current` is attached: attach those not attached,
/// detach those attached.
pub fn toggle_changes(current: &Vec<i64>, ids: &Vec<i64>) -> (r: PivotChanges)
    ensures
        r.attach@ == select_by(ids@, current@, false),
        r.detach@ == select_by(ids@, current@, true),
{
    PivotChanges {
        attach: select_by_membership(ids, current, false),
        detach: select_by_membership(ids, current, true),
    }
}

/// `INSERT INTO pivot (foreign_pivot_key, related_pivot_key) VALUES (key, id)`
pub open spec fn pivot_insert_sql(
    pivot: Seq<char>,
    foreign_pivot_key: Seq<char>,
    related_pivot_key: Seq<char>,
    key: ValueView,
    id: i64,
) -> Seq<char> {
    "INSERT INTO "@ + pivot + " ("@ + foreign_pivot_key + ", "@ + related_pivot_key
        + ") VALUES ("@ + value::value_sql(key) + ", "@ + value::int_text(id as int) + ")"@
}

/// `DELETE FROM pivot WHERE foreign_pivot_key = key AND related_pivot_key = id`
pub open spec fn pivot_delete_sql(
    pivot: Seq<char>,
    foreign_pivot_key: Seq<char>,
    related_pivot_key: Seq<char>,
    key: ValueView,
    id: i64,
) -> Seq<char> {
    "DELETE FROM "@ + pivot + " WHERE "@ + foreign_pivot_key + " = "@ + value::value_sql(key)
        + " AND "@ + related_pivot_key + " = "@ + value::int_text(id as int)
}

/// `SELECT related_pivot_key FROM pivot WHERE foreign_pivot_key = key`
pub open spec fn pivot_ids_sql(
    pivot: Seq<char>,
    foreign_pivot_key: Seq<char>,
    related_pivot_key: Seq<char>,
    key: ValueView,
) -> Seq<char> {
    "SELECT "@ + related_pivot_key + " FROM "@ + pivot + " WHERE "@ + foreign_pivot_key + " = "@
        + value::value_sql(key)
}

fn qualified_of(table: &str, column: &str) -> (r: String)
    ensures
        r@ == qualified(table@, column@),
{
    let mut r = String::from_str(table);
    r.append(".");
    r.append(column);
    r
}

impl<T: Model, R: Model> BelongsToMany<T, R> {
    pub closed spec fn spec_parent(&self) -> T {
        self.parent
    }

    /// The names of the owner's table, as read when the relation was made.
    pub closed spec fn spec_owner(&self) -> TableView {
        self.owner@
    }

    /// The names of the related table, as read when the relation was made.
    pub closed spec fn spec_related(&self) -> TableView {
        self.related@
    }

    pub closed spec fn spec_table(&self) -> Seq<char> {
        self.table@
    }

    pub closed spec fn spec_foreign_pivot_key(&self) -> Seq<char> {
        self.foreign_pivot_key@
    }

    pub closed spec fn spec_related_pivot_key(&self) -> Seq<char> {
        self.related_pivot_key@
    }

    pub closed spec fn spec_parent_key(&self) -> Seq<char> {
        self.parent_key@
    }

    pub closed spec fn spec_related_key(&self) -> Seq<char> {
        self.related_key@
    }

    pub closed spec fn spec_pivot_columns(&self) -> Seq<Seq<char>> {
        clause::string_views(self.pivot_columns@)
    }

    /// The related query when the owner's key value is `key`.
    pub open spec fn spec_query_for(&self, key: Option<ValueView>) -> QueryView {
        pivot_query(
            self.spec_table(),
            self.spec_foreign_pivot_key(),
            self.spec_related_pivot_key(),
            self.spec_related().table,
            self.spec_related_key(),
            relations::key_text(key),
        )
    }

    /// Everything but the pivot columns is as in `other`.
    pub open spec fn same_keys(&self, other: &Self) -> bool {
        &&& self.spec_parent() == other.spec_parent()
        &&& self.spec_owner() == other.spec_owner()
        &&& self.spec_related() == other.spec_related()
        &&& self.spec_table() == other.spec_table()
        &&& self.spec_foreign_pivot_key() == other.spec_foreign_pivot_key()
        &&& self.spec_related_pivot_key() == other.spec_related_pivot_key()
        &&& self.spec_parent_key() == other.spec_parent_key()
        &&& self.spec_related_key() == other.spec_related_key()
    }

    /// The names not given follow the naming convention, from the owner's names `owner`
    /// and the related names `related`: the pivot table from both table names in sorted
    /// order, each pivot key from its own table, the parent and related keys from the two
    /// primary keys.
    pub fn from_parts(
        parent: T,
        owner: TableInfo,
        related: TableInfo,
        table: Option<String>,
        foreign_pivot_key: Option<String>,
        related_pivot_key: Option<String>,
        parent_key: Option<String>,
        related_key: Option<String>,
    ) -> (r: Self)
        ensures
            r.spec_parent() == parent,
            r.spec_owner() == owner@,
            r.spec_related() == related@,
            r.spec_table() == match table {
                Some(t) => t@,
                None => naming::pivot_table_for(owner@.table, related@.table),
            },
            r.spec_foreign_pivot_key() == match foreign_pivot_key {
                Some(k) => k@,
                None => naming::foreign_key_for(owner@.table),
            },
            r.spec_related_pivot_key() == match related_pivot_key {
                Some(k) => k@,
                None => naming::foreign_key_for(related@.table),
            },
            r.spec_parent_key() == match parent_key {
                Some(k) => k@,
                None => owner@.primary_key,
            },
            r.spec_related_key() == match related_key {
                Some(k) => k@,
                None => related@.primary_key,
            },
            r.spec_pivot_columns() == Seq::<Seq<char>>::empty(),
    {
        let table = match table {
            Some(t) => t,
            None => pivot_table_of(owner.table.as_str(), related.table.as_str()),
        };
        let foreign_pivot_key = match foreign_pivot_key {
            Some(k) => k,
            None => foreign_key_of(owner.table.as_str()),
        };
        let related_pivot_key = match related_pivot_key {
            Some(k) => k,
            None => foreign_key_of(related.table.as_str()),
        };
        let parent_key = or_default(parent_key, owner.primary_key.clone());
        let related_key = or_default(related_key, related.primary_key.clone());
        let r = BelongsToMany {
            parent,
            owner,
            related,
            table,
            foreign_pivot_key,
            related_pivot_key,
            parent_key,
            related_key,
            pivot_columns: Vec::new(),
            _marker: PhantomData,
        };
        proof {
            assert(r.spec_pivot_columns() =~= Seq::<Seq<char>>::empty());
        }
        r
    }

    /// A relation from `parent` to `R`, with the names that `T` and `R` give.
    pub fn new(
        parent: T,
        table: Option<String>,
        foreign_pivot_key: Option<String>,
        related_pivot_key: Option<String>,
        parent_key: Option<String>,
        related_key: Option<String>,
    ) -> (r: Self)
        ensures
            r.spec_parent() == parent,
            r.spec_table() == match table {
                Some(t) => t@,
                None => naming::pivot_table_for(r.spec_owner().table, r.spec_related().table),
            },
            r.spec_foreign_pivot_key() == match foreign_pivot_key {
                Some(k) => k@,
                None => naming::foreign_key_for(r.spec_owner().table),
            },
            r.spec_related_pivot_key() == match related_pivot_key {
                Some(k) => k@,
                None => naming::foreign_key_for(r.spec_related().table),
            },
            r.spec_parent_key() == match parent_key {
                Some(k) => k@,
                None => r.spec_owner().primary_key,
            },
            r.spec_related_key() == match related_key {
                Some(k) => k@,
                None => r.spec_related().primary_key,
            },
            r.spec_pivot_columns() == Seq::<Seq<char>>::empty(),
    {
        Self::from_parts(
            parent,
            TableInfo::of::<T>(),
            TableInfo::of::<R>(),
            table,
            foreign_pivot_key,
            related_pivot_key,
            parent_key,
            related_key,
        )
    }

    /// Replaces the pivot columns to read along with the related rows.
    pub fn with_pivot(self, columns: Vec<&str>) -> (r: Self)
        ensures
            r.spec_pivot_columns() == query::str_views(columns@),
            r.same_keys(&self),
    {
        let mut r = self;
        r.pivot_columns = query::to_strings(&columns);
        r
    }

    /// Adds `created_at` and `updated_at` to the pivot columns.
    pub fn with_timestamps(self) -> (r: Self)
        ensures
            r.spec_pivot_columns() == self.spec_pivot_columns() + seq![
                "created_at"@,
                "updated_at"@,
            ],
            r.same_keys(&self),
    {
        let mut r = self;
        r.pivot_columns.push(String::from_str("created_at"));
        r.pivot_columns.push(String::from_str("updated_at"));
        proof {
            assert(r.spec_pivot_columns() =~= self.spec_pivot_columns() + seq![
                "created_at"@,
                "updated_at"@,
            ]);
        }
        r
    }

    /// The related query for the owner's key value `key`: the pivot table joined on the
    /// related key, its rows kept for that owner; no join and no constraint when there is
    /// no usable key.
    pub fn query_for_key(&self, key: Option<SqlValue>) -> (r: Query<R>)
        ensures
            r@ == self.spec_query_for(value::option_view(key)),
    {
        let q = Query::on_table(self.related.table.as_str());
        match key_text_of(&key) {
            Some(k) => {
                let related_col = qualified_of(self.table.as_str(), self.related_pivot_key.as_str());
                let related_full = qualified_of(self.related.table.as_str(), self.related_key.as_str());
                let foreign_col = qualified_of(self.table.as_str(), self.foreign_pivot_key.as_str());
                q.join(self.table.as_str(), related_col.as_str(), "=", related_full.as_str())
                    .where_clause(foreign_col.as_str(), k.as_str())
            },
            None => q,
        }
    }

    /// The statement that attaches related id `id` to the owner whose key value is `key`.
    pub fn attach_sql(&self, key: &SqlValue, id: i64) -> (r: String)
        ensures
            r@ == pivot_insert_sql(
                self.spec_table(),
                self.spec_foreign_pivot_key(),
                self.spec_related_pivot_key(),
                key@,
                id,
            ),
    {
        let mut r = String::from_str("INSERT INTO ");
        r.append(self.table.as_str());
        r.append(" (");
        r.append(self.foreign_pivot_key.as_str());
        r.append(", ");
        r.append(self.related_pivot_key.as_str());
        r.append(") VALUES (");
        push_value_sql(&mut r, key);
        r.append(", ");
        push_int_text(&mut r, id);
        r.append(")");
        proof {
            assert(r@ =~= pivot_insert_sql(
                self.spec_table(),
                self.spec_foreign_pivot_key(),
                self.spec_related_pivot_key(),
                key@,
                id,
            ));
        }
        r
    }

    /// The statement that detaches related id `id` from the owner whose key value is `key`.
    pub fn detach_sql(&self, key: &SqlValue, id: i64) -> (r: String)
        ensures
            r@ == pivot_delete_sql(
                self.spec_table(),
                self.spec_foreign_pivot_key(),
                self.spec_related_pivot_key(),
                key@,
                id,
            ),
    {
        let mut r = String::from_str("DELETE FROM ");
        r.append(self.table.as_str());
        r.append(" WHERE ");
        r.append(self.foreign_pivot_key.as_str());
        r.append(" = ");
        push_value_sql(&mut r, key);
        r.append(" AND ");
        r.append(self.related_pivot_key.as_str());
        r.append(" = ");
        push_int_text(&mut r, id);
        proof {
            assert(r@ =~= pivot_delete_sql(
                self.spec_table(),
                self.spec_foreign_pivot_key(),
                self.spec_related_pivot_key(),
                key@,
                id,
            ));
        }
        r
    }

    /// The query for the related ids attached to the owner whose key value is `key`.
    pub fn attached_ids_sql(&self, key: &SqlValue) -> (r: String)
        ensures
            r@ == pivot_ids_sql(
                self.spec_table(),
                self.spec_foreign_pivot_key(),
                self.spec_related_pivot_key(),
                key@,
            ),
    {
        let mut r = String::from_str("SELECT ");
        r.append(self.related_pivot_key.as_str());
        r.append(" FROM ");
        r.append(self.table.as_str());
        r.append(" WHERE ");
        r.append(self.foreign_pivot_key.as_str());
        r.append(" = ");
        push_value_sql(&mut r, key);
        proof {
            assert(r@ =~= pivot_ids_sql(
                self.spec_table(),
                self.spec_foreign_pivot_key(),
                self.spec_related_pivot_key(),
                key@,
            ));
        }
        r
    }

    /// The owner's current key value.
    pub fn parent_key_value(&self) -> Option<SqlValue> {
        self.parent.get_key_value()
    }

    /// The related query for the owner's current key value.
    pub fn get_query(&self) -> (r: Query<R>)
        ensures
            exists|key: Option<ValueView>| r@ == #[trigger] self.spec_query_for(key),
    {
        self.query_for_key(self.parent.get_key_value())
    }
}

} // verus!
