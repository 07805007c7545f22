use vstd::prelude::*;
use crate::value;
use crate::clause;
use std::marker::PhantomData;
use crate::model::Model;
use crate::value::{SqlValue, SqlScalar, ValueView, push_int_text, int_to_text};
use crate::clause::{WhereCondition, Join, OrderBy, ConditionView, JoinView, OrderView, push_joined, push_conditions, push_joins, push_orders};

verus! {

/// What a query under construction holds.
pub struct QueryView {
    pub table: Seq<char>,
    pub select: Seq<Seq<char>>,
    pub wheres: Seq<ConditionView>,
    pub joins: Seq<JoinView>,
    pub orders: Seq<OrderView>,
    pub limit: Option<i64>,
    pub offset: Option<i64>,
    pub groups: Seq<Seq<char>>,
    pub havings: Seq<ConditionView>,
    pub with: Seq<Seq<char>>,
}

/// The state of a query on `table` that nothing has been added to.
pub open spec fn empty_query(table: Seq<char>) -> QueryView {
    QueryView {
        table,
        select: seq!["*"@],
        wheres: Seq::empty(),
        joins: Seq::empty(),
        orders: Seq::empty(),
        limit: None,
        offset: None,
        groups: Seq::empty(),
        havings: Seq::empty(),
        with: Seq::empty(),
    }
}

pub open spec fn str_views(v: Seq<&str>) -> Seq<Seq<char>> {
    v.map_values(|s: &str| s@)
}

/// A condition as the builder records it.
pub open spec fn condition(
    column: Seq<char>,
    operator: Seq<char>,
    value: Option<ValueView>,
    boolean: Seq<char>,
) -> ConditionView {
    ConditionView { column, operator, value, boolean }
}

/// A condition `column = 'value'` joined by `AND`.
pub open spec fn equals_condition(column: Seq<char>, value: Seq<char>) -> ConditionView {
    condition(column, "="@, Some(ValueView::Text(value)), "AND"@)
}

/// `q` with `c` added to its WHERE list.
pub open spec fn add_where(q: QueryView, c: ConditionView) -> QueryView {
    QueryView { wheres: q.wheres.push(c), ..q }
}

/// `SELECT columns FROM table`
pub open spec fn select_sql(select: Seq<Seq<char>>, table: Seq<char>) -> Seq<char> {
    "SELECT "@ + value::sep_join(select, ", "@) + " FROM "@ + table
}

pub open spec fn where_sql(wheres: Seq<ConditionView>) -> Seq<char> {
    if wheres.len() == 0 {
        Seq::empty()
    } else {
        " WHERE "@ + clause::conditions_sql(wheres)
    }
}

pub open spec fn group_sql(groups: Seq<Seq<char>>) -> Seq<char> {
    if groups.len() == 0 {
        Seq::empty()
    } else {
        " GROUP BY "@ + value::sep_join(groups, ", "@)
    }
}

pub open spec fn having_sql(havings: Seq<ConditionView>) -> Seq<char> {
    if havings.len() == 0 {
        Seq::empty()
    } else {
        " HAVING "@ + clause::conditions_sql(havings)
    }
}

pub open spec fn order_by_sql(orders: Seq<OrderView>) -> Seq<char> {
    if orders.len() == 0 {
        Seq::empty()
    } else {
        " ORDER BY "@ + clause::orders_sql(orders)
    }
}

pub open spec fn limit_sql(limit: Option<i64>) -> Seq<char> {
    match limit {
        Some(n) => " LIMIT "@ + value::int_text(n as int),
        None => Seq::empty(),
    }
}

pub open spec fn offset_sql(offset: Option<i64>) -> Seq<char> {
    match offset {
        Some(n) => " OFFSET "@ + value::int_text(n as int),
        None => Seq::empty(),
    }
}

/// The SQL text of a query: its clauses in a fixed order.
pub open spec fn query_sql(q: QueryView) -> Seq<char> {
    select_sql(q.select, q.table) + clause::joins_sql(q.joins) + where_sql(q.wheres) + group_sql(q.groups)
        + having_sql(q.havings) + order_by_sql(q.orders) + limit_sql(q.limit) + offset_sql(
        q.offset,
    )
}

/// The query that counts the rows of `q`: projection, limit and offset dropped.
pub open spec fn count_query(q: QueryView) -> QueryView {
    QueryView { select: seq!["COUNT(*)"@], limit: None, offset: None, ..q }
}

/// One builder step, named by the clause it touches.
pub enum ClauseStep {
    Select(Seq<Seq<char>>),
    Join(JoinView),
    Where(ConditionView),
    Group(Seq<Seq<char>>),
    Having(ConditionView),
    Order(OrderView),
    Limit(i64),
    Offset(i64),
}

/// The clause a step touches, numbered in rendering order.
pub open spec fn step_kind(s: ClauseStep) -> int {
    match s {
        ClauseStep::Select(_) => 0,
        ClauseStep::Join(_) => 1,
        ClauseStep::Where(_) => 2,
        ClauseStep::Group(_) => 3,
        ClauseStep::Having(_) => 4,
        ClauseStep::Order(_) => 5,
        ClauseStep::Limit(_) => 6,
        ClauseStep::Offset(_) => 7,
    }
}

/// What a step does to a query, as the builder methods state it: lists are replaced
/// (projection, grouping) or extended at the end (joins, conditions, ordering), the
/// limit and offset are replaced.
pub open spec fn apply_step(q: QueryView, s: ClauseStep) -> QueryView {
    match s {
        ClauseStep::Select(cols) => QueryView { select: cols, ..q },
        ClauseStep::Join(j) => QueryView { joins: q.joins.push(j), ..q },
        ClauseStep::Where(c) => add_where(q, c),
        ClauseStep::Group(cols) => QueryView { groups: cols, ..q },
        ClauseStep::Having(c) => QueryView { havings: q.havings.push(c), ..q },
        ClauseStep::Order(o) => QueryView { orders: q.orders.push(o), ..q },
        ClauseStep::Limit(n) => QueryView { limit: Some(n), ..q },
        ClauseStep::Offset(n) => QueryView { offset: Some(n), ..q },
    }
}

/// The SQL text does not depend on the order in which clauses of different kinds are
/// added: two steps that touch different clauses render the same in either order, each
/// clause in its fixed place (SELECT, JOIN, WHERE, GROUP BY, HAVING, ORDER BY, LIMIT,
/// OFFSET).
pub proof fn lemma_clause_order_fixed(q: QueryView, a: ClauseStep, b: ClauseStep)
    requires
        step_kind(a) != step_kind(b),
    ensures
        apply_step(apply_step(q, a), b) == apply_step(apply_step(q, b), a),
        query_sql(apply_step(apply_step(q, a), b)) == query_sql(apply_step(apply_step(q, b), a)),
{
}

/// Setting the limit or the offset a second time replaces the first value.
pub proof fn lemma_limit_offset_overwrite(q: QueryView, first: i64, second: i64)
    ensures
        apply_step(apply_step(q, ClauseStep::Limit(first)), ClauseStep::Limit(second))
            == apply_step(q, ClauseStep::Limit(second)),
        apply_step(apply_step(q, ClauseStep::Offset(first)), ClauseStep::Offset(second))
            == apply_step(q, ClauseStep::Offset(second)),
        limit_sql(apply_step(apply_step(q, ClauseStep::Limit(first)), ClauseStep::Limit(second)).limit)
            == " LIMIT "@ + value::int_text(second as int),
        offset_sql(
            apply_step(apply_step(q, ClauseStep::Offset(first)), ClauseStep::Offset(second)).offset,
        ) == " OFFSET "@ + value::int_text(second as int),
{
}

/// Two conditions added to a query without any render as `first CONNECTIVE second`,
/// the connective taken from the second condition; the first's is never rendered.
pub proof fn lemma_second_connective_joins(q: QueryView, first: ConditionView, second: ConditionView)
    requires
        q.wheres.len() == 0,
    ensures
        where_sql(add_where(add_where(q, first), second).wheres) == " WHERE "@
            + clause::condition_sql(first) + " "@ + second.boolean + " "@ + clause::condition_sql(
            second,
        ),
{
    let ws = add_where(add_where(q, first), second).wheres;
    assert(ws.drop_last() =~= seq![first]);
    assert(ws.last() == second);
    assert(clause::conditions_sql(seq![first]) == clause::condition_sql(first));
    assert(clause::conditions_sql(ws) == clause::conditions_sql(ws.drop_last()) + " "@
        + second.boolean + " "@ + clause::condition_sql(second));
    assert(where_sql(ws) =~= " WHERE "@ + clause::condition_sql(first) + " "@ + second.boolean
        + " "@ + clause::condition_sql(second));
}

/// A query on the table of `T`, built clause by clause.
#[derive(Debug)]
pub struct Query<T> {
    table: String,
    select_columns: Vec<String>,
    where_conditions: Vec<WhereCondition>,
    joins: Vec<Join>,
    order_by: Vec<OrderBy>,
    limit_value: Option<i64>,
    offset_value: Option<i64>,
    group_by: Vec<String>,
    having_conditions: Vec<WhereCondition>,
    with_relations: Vec<String>,
    _marker: PhantomData<T>,
}

impl<T> View for Query<T> {
    type V = QueryView;

    closed spec fn view(&self) -> QueryView {
        QueryView {
            table: self.table@,
            select: clause::string_views(self.select_columns@),
            wheres: clause::condition_views(self.where_conditions@),
            joins: clause::join_views(self.joins@),
            orders: clause::order_views(self.order_by@),
            limit: self.limit_value,
            offset: self.offset_value,
            groups: clause::string_views(self.group_by@),
            havings: clause::condition_views(self.having_conditions@),
            with: clause::string_views(self.with_relations@),
        }
    }
}

impl<T> Clone for Query<T> {
    fn clone(&self) -> (r: Self) {
        Query {
            table: self.table.clone(),
            select_columns: self.select_columns.clone(),
            where_conditions: self.where_conditions.clone(),
            joins: self.joins.clone(),
            order_by: self.order_by.clone(),
            limit_value: self.limit_value,
            offset_value: self.offset_value,
            group_by: self.group_by.clone(),
            having_conditions: self.having_conditions.clone(),
            with_relations: self.with_relations.clone(),
            _marker: PhantomData,
        }
    }
}

/// Owned copies of `items`.
pub fn to_strings(items: &Vec<&str>) -> (r: Vec<String>)
    ensures
        clause::string_views(r@) == str_views(items@),
{
    let mut r: Vec<String> = Vec::new();
    let mut i: usize = 0;
    while i < items.len()
        invariant
            i <= items@.len(),
            r@.len() == i,
            clause::string_views(r@) == str_views(items@).take(i as int),
        decreases items@.len() - i,
    {
        let item: &str = items[i];
        let owned = String::from_str(item);
        let ghost before = r@;
        r.push(owned);
        proof {
            assert(clause::string_views(r@) =~= str_views(items@).take(i + 1));
        }
        i = i + 1;
    }
    proof {
        assert(str_views(items@).take(items@.len() as int) =~= str_views(items@));
    }
    r
}

fn new_condition(column: &str, operator: &str, value: Option<SqlValue>, boolean: &str) -> (r:
    WhereCondition)
    ensures
        r@ == condition(column@, operator@, match value { Some(v) => Some(v@), None => None }, boolean@),
{
    WhereCondition {
        column: String::from_str(column),
        operator: String::from_str(operator),
        value,
        boolean: String::from_str(boolean),
    }
}

fn new_join(table: &str, first: &str, operator: &str, second: &str, join_type: &str) -> (r: Join)
    ensures
        r@ == (JoinView {
            table: table@,
            first: first@,
            operator: operator@,
            second: second@,
            join_type: join_type@,
        }),
{
    Join {
        table: String::from_str(table),
        first: String::from_str(first),
        operator: String::from_str(operator),
        second: String::from_str(second),
        join_type: String::from_str(join_type),
    }
}

impl<T: Model> Query<T> {
    /// A query on the table that `T` names.
    pub fn new() -> (r: Self)
        ensures
            r@ == empty_query(r@.table),
    {
        Self::on_table(T::table_name())
    }

    /// A query on `table`.
    pub fn on_table(table: &str) -> (r: Self)
        ensures
            r@ == empty_query(table@),
    {
        let q = Query {
            table: String::from_str(table),
            select_columns: vec![String::from_str("*")],
            where_conditions: Vec::new(),
            joins: Vec::new(),
            order_by: Vec::new(),
            limit_value: None,
            offset_value: None,
            group_by: Vec::new(),
            having_conditions: Vec::new(),
            with_relations: Vec::new(),
            _marker: PhantomData,
        };
        proof {
            assert(q@.select =~= seq!["*"@]);
            assert(q@.wheres =~= Seq::<ConditionView>::empty());
            assert(q@.joins =~= Seq::<JoinView>::empty());
            assert(q@.orders =~= Seq::<OrderView>::empty());
            assert(q@.groups =~= Seq::<Seq<char>>::empty());
            assert(q@.havings =~= Seq::<ConditionView>::empty());
            assert(q@.with =~= Seq::<Seq<char>>::empty());
        }
        q
    }

    fn push_where(self, c: WhereCondition) -> (r: Self)
        ensures
            r@ == add_where(self@, c@),
    {
        let mut q = self;
        q.where_conditions.push(c);
        proof {
            assert(q@.wheres =~= self@.wheres.push(c@));
        }
        q
    }

    /// Replaces the projection list.
    pub fn select(self, columns: Vec<&str>) -> (r: Self)
        ensures
            r@ == (QueryView { select: str_views(columns@), ..self@ }),
    {
        let mut q = self;
        q.select_columns = to_strings(&columns);
        q
    }

    /// Replaces the projection list by one raw expression.
    pub fn select_raw(self, sql: &str) -> (r: Self)
        ensures
            r@ == (QueryView { select: seq![sql@], ..self@ }),
    {
        let mut q = self;
        q.select_columns = vec![String::from_str(sql)];
        proof {
            assert(q@.select =~= seq![sql@]);
        }
        q
    }

    /// Adds `column = 'value'`, joined by `AND`.
    pub fn where_clause(self, column: &str, value: &str) -> (r: Self)
        ensures
            r@ == add_where(self@, equals_condition(column@, value@)),
    {
        let text = String::from_str(value);
        let c = new_condition(column, "=", Some(SqlValue::Text(text)), "AND");
        self.push_where(c)
    }

    /// Adds `column operator value`, joined by `AND`.
    pub fn where_op(self, column: &str, operator: &str, value: SqlValue) -> (r: Self)
        ensures
            r@ == add_where(self@, condition(column@, operator@, Some(value@), "AND"@)),
    {
        self.push_where(new_condition(column, operator, Some(value), "AND"))
    }

    /// Adds `column IN (values)`, joined by `AND`.
    pub fn where_in(self, column: &str, values: Vec<SqlScalar>) -> (r: Self)
        ensures
            r@ == add_where(self@, condition(column@, "IN"@, Some(ValueView::List(value::scalar_views(values@))), "AND"@)),
    {
        self.push_where(new_condition(column, "IN", Some(SqlValue::List(values)), "AND"))
    }

    /// Adds `column NOT IN (values)`, joined by `AND`.
    pub fn where_not_in(self, column: &str, values: Vec<SqlScalar>) -> (r: Self)
        ensures
            r@ == add_where(
                self@,
                condition(column@, "NOT IN"@, Some(ValueView::List(value::scalar_views(values@))), "AND"@),
            ),
    {
        self.push_where(new_condition(column, "NOT IN", Some(SqlValue::List(values)), "AND"))
    }

    /// Adds `column IS NULL`, joined by `AND`.
    pub fn where_null(self, column: &str) -> (r: Self)
        ensures
            r@ == add_where(self@, condition(column@, "IS NULL"@, None, "AND"@)),
    {
        self.push_where(new_condition(column, "IS NULL", None, "AND"))
    }

    /// Adds `column IS NOT NULL`, joined by `AND`.
    pub fn where_not_null(self, column: &str) -> (r: Self)
        ensures
            r@ == add_where(self@, condition(column@, "IS NOT NULL"@, None, "AND"@)),
    {
        self.push_where(new_condition(column, "IS NOT NULL", None, "AND"))
    }

    /// Adds `column operator value`, joined by `OR`.
    pub fn or_where(self, column: &str, operator: &str, value: SqlValue) -> (r: Self)
        ensures
            r@ == add_where(self@, condition(column@, operator@, Some(value@), "OR"@)),
    {
        self.push_where(new_condition(column, operator, Some(value), "OR"))
    }

    fn push_join(self, j: Join) -> (r: Self)
        ensures
            r@ == (QueryView { joins: self@.joins.push(j@), ..self@ }),
    {
        let mut q = self;
        q.joins.push(j);
        proof {
            assert(q@.joins =~= self@.joins.push(j@));
        }
        q
    }

    /// Adds `INNER JOIN table ON first operator second`.
    pub fn join(self, table: &str, first: &str, operator: &str, second: &str) -> (r: Self)
        ensures
            r@ == (QueryView {
                joins: self@.joins.push(
                    JoinView {
                        table: table@,
                        first: first@,
                        operator: operator@,
                        second: second@,
                        join_type: "INNER"@,
                    },
                ),
                ..self@
            }),
    {
        self.push_join(new_join(table, first, operator, second, "INNER"))
    }

    /// Adds `LEFT JOIN table ON first operator second`.
    pub fn left_join(self, table: &str, first: &str, operator: &str, second: &str) -> (r: Self)
        ensures
            r@ == (QueryView {
                joins: self@.joins.push(
                    JoinView {
                        table: table@,
                        first: first@,
                        operator: operator@,
                        second: second@,
                        join_type: "LEFT"@,
                    },
                ),
                ..self@
            }),
    {
        self.push_join(new_join(table, first, operator, second, "LEFT"))
    }

    /// Adds `RIGHT JOIN table ON first operator second`.
    pub fn right_join(self, table: &str, first: &str, operator: &str, second: &str) -> (r: Self)
        ensures
            r@ == (QueryView {
                joins: self@.joins.push(
                    JoinView {
                        table: table@,
                        first: first@,
                        operator: operator@,
                        second: second@,
                        join_type: "RIGHT"@,
                    },
                ),
                ..self@
            }),
    {
        self.push_join(new_join(table, first, operator, second, "RIGHT"))
    }

    /// Adds `column direction`, the direction kept as given.
    pub fn order_by_raw(self, column: &str, direction: String) -> (r: Self)
        ensures
            r@ == (QueryView {
                orders: self@.orders.push(OrderView { column: column@, direction: direction@ }),
                ..self@
            }),
    {
        let mut q = self;
        let o = OrderBy { column: String::from_str(column), direction };
        q.order_by.push(o);
        proof {
            assert(q@.orders =~= self@.orders.push(o@));
        }
        q
    }

    /// Adds `column DIRECTION`, the direction in upper case.
    pub fn order_by(self, column: &str, direction: &str) -> (r: Self)
        ensures
            r@ == (QueryView {
                orders: self@.orders.push(
                    OrderView { column: column@, direction: upper_of(direction@) },
                ),
                ..self@
            }),
    {
        self.order_by_raw(column, uppercase(direction))
    }

    pub fn order_by_asc(self, column: &str) -> (r: Self)
        ensures
            r@ == (QueryView {
                orders: self@.orders.push(OrderView { column: column@, direction: "ASC"@ }),
                ..self@
            }),
    {
        self.order_by_raw(column, String::from_str("ASC"))
    }

    pub fn order_by_desc(self, column: &str) -> (r: Self)
        ensures
            r@ == (QueryView {
                orders: self@.orders.push(OrderView { column: column@, direction: "DESC"@ }),
                ..self@
            }),
    {
        self.order_by_raw(column, String::from_str("DESC"))
    }

    /// Newest first: descending on `column`, `created_at` when none is given.
    pub fn latest(self, column: Option<&str>) -> (r: Self)
        ensures
            r@ == (QueryView {
                orders: self@.orders.push(
                    OrderView { column: column_or_created_at(column), direction: "DESC"@ },
                ),
                ..self@
            }),
    {
        let col = match column {
            Some(c) => c,
            None => "created_at",
        };
        self.order_by_desc(col)
    }

    /// Oldest first: ascending on `column`, `created_at` when none is given.
    pub fn oldest(self, column: Option<&str>) -> (r: Self)
        ensures
            r@ == (QueryView {
                orders: self@.orders.push(
                    OrderView { column: column_or_created_at(column), direction: "ASC"@ },
                ),
                ..self@
            }),
    {
        let col = match column {
            Some(c) => c,
            None => "created_at",
        };
        self.order_by_asc(col)
    }

    /// Sets the row limit, replacing any earlier one.
    pub fn limit(self, limit: i64) -> (r: Self)
        ensures
            r@ == (QueryView { limit: Some(limit), ..self@ }),
    {
        let mut q = self;
        q.limit_value = Some(limit);
        q
    }

    /// Sets the row offset, replacing any earlier one.
    pub fn offset(self, offset: i64) -> (r: Self)
        ensures
            r@ == (QueryView { offset: Some(offset), ..self@ }),
    {
        let mut q = self;
        q.offset_value = Some(offset);
        q
    }

    pub fn skip(self, skip: i64) -> (r: Self)
        ensures
            r@ == (QueryView { offset: Some(skip), ..self@ }),
    {
        self.offset(skip)
    }

    pub fn take(self, take: i64) -> (r: Self)
        ensures
            r@ == (QueryView { limit: Some(take), ..self@ }),
    {
        self.limit(take)
    }

    /// Replaces the grouping columns.
    pub fn group_by(self, columns: Vec<&str>) -> (r: Self)
        ensures
            r@ == (QueryView { groups: str_views(columns@), ..self@ }),
    {
        let mut q = self;
        q.group_by = to_strings(&columns);
        q
    }

    /// Adds `column operator value` to the HAVING list, joined by `AND`.
    pub fn having(self, column: &str, operator: &str, value: SqlValue) -> (r: Self)
        ensures
            r@ == (QueryView {
                havings: self@.havings.push(condition(column@, operator@, Some(value@), "AND"@)),
                ..self@
            }),
    {
        let mut q = self;
        let c = new_condition(column, operator, Some(value), "AND");
        q.having_conditions.push(c);
        proof {
            assert(q@.havings =~= self@.havings.push(c@));
        }
        q
    }

    /// Records the relations to load with the results.
    pub fn with(self, relations: Vec<&str>) -> (r: Self)
        ensures
            r@ == (QueryView { with: str_views(relations@), ..self@ }),
    {
        let mut q = self;
        q.with_relations = to_strings(&relations);
        q
    }

    /// Adds `<primary key of T> = 'id'`.
    pub fn where_key(self, id: i64) -> (r: Self)
        ensures
            exists|column: Seq<char>|
                r@ == add_where(self@, #[trigger] equals_condition(column, value::int_text(id as int))),
    {
        let text = int_to_text(id);
        self.where_clause(T::primary_key(), text.as_str())
    }

    /// The rows of page `page` (counted from 1) with `per_page` rows on a page.
    pub fn for_page(self, page: i64, per_page: i64) -> (r: Self)
        requires
            i64::MIN <= page_offset(page as int, per_page as int) <= i64::MAX,
        ensures
            r@ == (QueryView {
                offset: Some(page_offset(page as int, per_page as int) as i64),
                limit: Some(per_page),
                ..self@
            }),
    {
        let offset = page_start(page, per_page);
        self.skip(offset).take(per_page)
    }

    fn render(&self, select: &Vec<String>, limit: Option<i64>, offset: Option<i64>) -> (r: String)
        ensures
            r@ == query_sql(QueryView { select: clause::string_views(select@), limit, offset, ..self@ }),
    {
        let ghost q = QueryView { select: clause::string_views(select@), limit, offset, ..self@ };
        let mut sql = String::new();
        sql.append("SELECT ");
        push_joined(&mut sql, select, ", ");
        sql.append(" FROM ");
        sql.append(self.table.as_str());
        let ghost s1 = sql@;
        proof {
            assert(s1 =~= select_sql(q.select, q.table));
        }
        push_joins(&mut sql, &self.joins);
        let ghost s2 = sql@;
        push_where_part(&mut sql, &self.where_conditions);
        let ghost s3 = sql@;
        push_group_part(&mut sql, &self.group_by);
        let ghost s4 = sql@;
        push_having_part(&mut sql, &self.having_conditions);
        let ghost s5 = sql@;
        push_order_part(&mut sql, &self.order_by);
        let ghost s6 = sql@;
        push_number_part(&mut sql, " LIMIT ", limit);
        let ghost s7 = sql@;
        push_number_part(&mut sql, " OFFSET ", offset);
        proof {
            assert(sql@ =~= query_sql(q));
        }
        sql
    }

    /// The SQL text of this query.
    pub fn to_sql(&self) -> (r: String)
        ensures
            r@ == query_sql(self@),
    {
        let r = self.render(&self.select_columns, self.limit_value, self.offset_value);
        proof {
            assert(QueryView {
                select: clause::string_views(self.select_columns@),
                limit: self.limit_value,
                offset: self.offset_value,
                ..self@
            } == self@);
        }
        r
    }

    /// The SQL text that counts the rows of this query, whatever its projection, limit and offset.
    pub fn to_count_sql(&self) -> (r: String)
        ensures
            r@ == query_sql(count_query(self@)),
    {
        let select = vec![String::from_str("COUNT(*)")];
        proof {
            assert(clause::string_views(select@) =~= seq!["COUNT(*)"@]);
        }
        self.render(&select, None, None)
    }
}

fn push_where_part(out: &mut String, cs: &Vec<WhereCondition>)
    ensures
        final(out)@ == old(out)@ + where_sql(clause::condition_views(cs@)),
{
    if cs.len() > 0 {
        out.append(" WHERE ");
        push_conditions(out, cs);
        proof {
            assert(out@ =~= old(out)@ + where_sql(clause::condition_views(cs@)));
        }
    } else {
        proof {
            assert(out@ =~= old(out)@ + where_sql(clause::condition_views(cs@)));
        }
    }
}

fn push_having_part(out: &mut String, cs: &Vec<WhereCondition>)
    ensures
        final(out)@ == old(out)@ + having_sql(clause::condition_views(cs@)),
{
    if cs.len() > 0 {
        out.append(" HAVING ");
        push_conditions(out, cs);
        proof {
            assert(out@ =~= old(out)@ + having_sql(clause::condition_views(cs@)));
        }
    } else {
        proof {
            assert(out@ =~= old(out)@ + having_sql(clause::condition_views(cs@)));
        }
    }
}

fn push_group_part(out: &mut String, columns: &Vec<String>)
    ensures
        final(out)@ == old(out)@ + group_sql(clause::string_views(columns@)),
{
    if columns.len() > 0 {
        out.append(" GROUP BY ");
        push_joined(out, columns, ", ");
        proof {
            assert(out@ =~= old(out)@ + group_sql(clause::string_views(columns@)));
        }
    } else {
        proof {
            assert(out@ =~= old(out)@ + group_sql(clause::string_views(columns@)));
        }
    }
}

fn push_order_part(out: &mut String, os: &Vec<OrderBy>)
    ensures
        final(out)@ == old(out)@ + order_by_sql(clause::order_views(os@)),
{
    if os.len() > 0 {
        out.append(" ORDER BY ");
        push_orders(out, os);
        proof {
            assert(out@ =~= old(out)@ + order_by_sql(clause::order_views(os@)));
        }
    } else {
        proof {
            assert(out@ =~= old(out)@ + order_by_sql(clause::order_views(os@)));
        }
    }
}

/// Appends `keyword n` when `n` is set.
fn push_number_part(out: &mut String, keyword: &str, n: Option<i64>)
    ensures
        final(out)@ == old(out)@ + match n {
            Some(v) => keyword@ + value::int_text(v as int),
            None => Seq::empty(),
        },
{
    match n {
        Some(v) => {
            out.append(keyword);
            push_int_text(out, v);
            proof {
                assert(out@ =~= old(out)@ + keyword@ + value::int_text(v as int));
            }
        },
        None => {
            proof {
                assert(out@ =~= old(out)@);
            }
        },
    }
}

/// `column` when given, else `created_at`.
pub open spec fn column_or_created_at(column: Option<&str>) -> Seq<char> {
    match column {
        Some(c) => c@,
        None => "created_at"@,
    }
}

/// The number of rows before page `page` (counted from 1).
pub open spec fn page_offset(page: int, per_page: int) -> int {
    (page - 1) * per_page
}

/// The number of rows before page `page` (counted from 1).
pub fn page_start(page: i64, per_page: i64) -> (r: i64)
    requires
        i64::MIN <= page_offset(page as int, per_page as int) <= i64::MAX,
    ensures
        r == page_offset(page as int, per_page as int),
{
    let r = (page as i128 - 1) * (per_page as i128);
    r as i64
}

/// One page of results, with where it stands among all of them.
#[derive(Debug, Clone)]
pub struct Pagination<T> {
    pub data: Vec<T>,
    pub current_page: i64,
    pub per_page: i64,
    pub total: i64,
    pub last_page: i64,
    pub from: i64,
    pub to: i64,
}

/// `a / b` rounded up, for `a >= 0` and `b > 0`.
pub open spec fn ceil_div(a: int, b: int) -> int {
    (a + b - 1) / b
}

/// The number of the last row on a page that starts after `offset` rows: never past
/// `total`, and no lower than `offset` when the page is past the end.
pub open spec fn page_end(offset: int, per_page: int, total: int) -> int {
    let remaining = if total > offset {
        total - offset
    } else {
        0
    };
    offset + if per_page < remaining {
        per_page
    } else {
        remaining
    }
}

impl<T> Pagination<T> {
    /// The page `page` (counted from 1) of `total` rows with `per_page` rows on a page,
    /// holding `data`.
    pub fn from_page(data: Vec<T>, page: i64, per_page: i64, total: i64) -> (r: Self)
        requires
            per_page > 0,
            total >= 0,
            i64::MIN <= page_offset(page as int, per_page as int) < i64::MAX,
        ensures
            r.data == data,
            r.current_page == page,
            r.per_page == per_page,
            r.total == total,
            r.last_page == ceil_div(total as int, per_page as int),
            r.from == page_offset(page as int, per_page as int) + 1,
            r.to == page_end(page_offset(page as int, per_page as int), per_page as int, total as int),
    {
        let offset = page_start(page, per_page);
        let remaining: i128 = if (total as i128) > (offset as i128) {
            total as i128 - offset as i128
        } else {
            0
        };
        let step: i128 = if (per_page as i128) < remaining {
            per_page as i128
        } else {
            remaining
        };
        let to = offset as i128 + step;
        let last = (total as i128 + per_page as i128 - 1) / (per_page as i128);
        proof {
            assert(0 <= last <= total) by (nonlinear_arith)
                requires
                    last == (total + per_page - 1) / (per_page as int),
                    per_page > 0,
                    total >= 0,
            ;
        }
        Pagination {
            data,
            current_page: page,
            per_page,
            total,
            last_page: last as i64,
            from: offset + 1,
            to: to as i64,
        }
    }
}

/// Upper case of a string, as Rust's `str::to_uppercase` gives it.
pub uninterp spec fn upper_of(s: Seq<char>) -> Seq<char>;

/// Relies on `str::to_uppercase`: the result depends on the characters alone.
#[verifier::external_body]
fn uppercase(s: &str) -> (r: String)
    ensures
        r@ == upper_of(s@),
{
    s.to_uppercase()
}

} // verus!
