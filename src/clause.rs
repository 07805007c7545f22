use vstd::prelude::*;
use crate::value;
use crate::value::{SqlValue, ValueView, push_value_sql};

verus! {

/// One condition of a WHERE or HAVING list.
#[derive(Debug, Clone)]
pub struct WhereCondition {
    pub column: String,
    pub operator: String,
    /// The operand; `None` for operators that take none (`IS NULL`).
    pub value: Option<SqlValue>,
    /// The connective that joins this condition to the ones before it: `AND` or `OR`.
    pub boolean: String,
}

/// One join clause.
#[derive(Debug, Clone)]
pub struct Join {
    pub table: String,
    pub first: String,
    pub operator: String,
    pub second: String,
    /// `INNER`, `LEFT` or `RIGHT`.
    pub join_type: String,
}

/// One ordering clause.
#[derive(Debug, Clone)]
pub struct OrderBy {
    pub column: String,
    /// `ASC` or `DESC`.
    pub direction: String,
}

pub struct ConditionView {
    pub column: Seq<char>,
    pub operator: Seq<char>,
    pub value: Option<ValueView>,
    pub boolean: Seq<char>,
}

pub struct JoinView {
    pub table: Seq<char>,
    pub first: Seq<char>,
    pub operator: Seq<char>,
    pub second: Seq<char>,
    pub join_type: Seq<char>,
}

pub struct OrderView {
    pub column: Seq<char>,
    pub direction: Seq<char>,
}

impl View for WhereCondition {
    type V = ConditionView;

    open spec fn view(&self) -> ConditionView {
        ConditionView {
            column: self.column@,
            operator: self.operator@,
            value: match self.value {
                Some(v) => Some(v@),
                None => None,
            },
            boolean: self.boolean@,
        }
    }
}

impl View for Join {
    type V = JoinView;

    open spec fn view(&self) -> JoinView {
        JoinView {
            table: self.table@,
            first: self.first@,
            operator: self.operator@,
            second: self.second@,
            join_type: self.join_type@,
        }
    }
}

impl View for OrderBy {
    type V = OrderView;

    open spec fn view(&self) -> OrderView {
        OrderView { column: self.column@, direction: self.direction@ }
    }
}

pub open spec fn string_views(v: Seq<String>) -> Seq<Seq<char>> {
    v.map_values(|s: String| s@)
}

pub open spec fn condition_views(v: Seq<WhereCondition>) -> Seq<ConditionView> {
    v.map_values(|c: WhereCondition| c@)
}

pub open spec fn join_views(v: Seq<Join>) -> Seq<JoinView> {
    v.map_values(|j: Join| j@)
}

pub open spec fn order_views(v: Seq<OrderBy>) -> Seq<OrderView> {
    v.map_values(|o: OrderBy| o@)
}

/// `column operator value`, or `column operator` when there is no operand.
pub open spec fn condition_sql(c: ConditionView) -> Seq<char> {
    c.column + " "@ + c.operator + match c.value {
        Some(v) => " "@ + value::value_sql(v),
        None => Seq::empty(),
    }
}

/// Conditions in order, each after the first preceded by its own connective.
pub open spec fn conditions_sql(cs: Seq<ConditionView>) -> Seq<char>
    decreases cs.len(),
{
    if cs.len() == 0 {
        Seq::empty()
    } else if cs.len() == 1 {
        condition_sql(cs[0])
    } else {
        conditions_sql(cs.drop_last()) + " "@ + cs.last().boolean + " "@ + condition_sql(cs.last())
    }
}

/// ` KIND JOIN table ON first operator second`
pub open spec fn join_sql(j: JoinView) -> Seq<char> {
    " "@ + j.join_type + " JOIN "@ + j.table + " ON "@ + j.first + " "@ + j.operator + " "@
        + j.second
}

/// The join clauses in order.
pub open spec fn joins_sql(js: Seq<JoinView>) -> Seq<char>
    decreases js.len(),
{
    if js.len() == 0 {
        Seq::empty()
    } else {
        joins_sql(js.drop_last()) + join_sql(js.last())
    }
}

/// `column DIRECTION`
pub open spec fn order_sql(o: OrderView) -> Seq<char> {
    o.column + " "@ + o.direction
}

pub open spec fn orders_sql(os: Seq<OrderView>) -> Seq<char> {
    value::sep_join(os.map_values(|o: OrderView| order_sql(o)), ", "@)
}

/// Appends the strings of `items` to `out`, with `sep` between each two.
pub fn push_joined(out: &mut String, items: &Vec<String>, sep: &str)
    ensures
        final(out)@ == old(out)@ + value::sep_join(string_views(items@), sep@),
{
    let ghost start = out@;
    let ghost texts = string_views(items@);
    let mut i: usize = 0;
    while i < items.len()
        invariant
            i <= items@.len(),
            texts == string_views(items@),
            out@ == start + value::sep_join(texts.take(i as int), sep@),
        decreases items@.len() - i,
    {
        if i > 0 {
            out.append(sep);
        }
        out.append(items[i].as_str());
        proof {
            let t = texts.take(i + 1);
            assert(t.drop_last() =~= texts.take(i as int));
            assert(out@ =~= start + value::sep_join(t, sep@));
        }
        i = i + 1;
    }
    proof {
        assert(texts.take(items@.len() as int) =~= texts);
    }
}

/// Appends the text of one condition to `out`.
pub fn push_condition(out: &mut String, c: &WhereCondition)
    ensures
        final(out)@ == old(out)@ + condition_sql(c@),
{
    let ghost start = out@;
    out.append(c.column.as_str());
    out.append(" ");
    out.append(c.operator.as_str());
    match &c.value {
        Some(v) => {
            out.append(" ");
            push_value_sql(out, v);
        },
        None => {},
    }
    proof {
        assert(out@ =~= start + condition_sql(c@));
    }
}

/// Appends the text of a condition list to `out`.
pub fn push_conditions(out: &mut String, cs: &Vec<WhereCondition>)
    ensures
        final(out)@ == old(out)@ + conditions_sql(condition_views(cs@)),
{
    let ghost start = out@;
    let ghost views = condition_views(cs@);
    let mut i: usize = 0;
    while i < cs.len()
        invariant
            i <= cs@.len(),
            views == condition_views(cs@),
            out@ == start + conditions_sql(views.take(i as int)),
        decreases cs@.len() - i,
    {
        let c = &cs[i];
        if i > 0 {
            out.append(" ");
            out.append(c.boolean.as_str());
            out.append(" ");
        }
        push_condition(out, c);
        proof {
            let t = views.take(i + 1);
            assert(t.drop_last() =~= views.take(i as int));
            assert(out@ =~= start + conditions_sql(t));
        }
        i = i + 1;
    }
    proof {
        assert(views.take(cs@.len() as int) =~= views);
    }
}

/// Appends the text of a join list to `out`.
pub fn push_joins(out: &mut String, js: &Vec<Join>)
    ensures
        final(out)@ == old(out)@ + joins_sql(join_views(js@)),
{
    let ghost start = out@;
    let ghost views = join_views(js@);
    let mut i: usize = 0;
    while i < js.len()
        invariant
            i <= js@.len(),
            views == join_views(js@),
            out@ == start + joins_sql(views.take(i as int)),
        decreases js@.len() - i,
    {
        let j = &js[i];
        out.append(" ");
        out.append(j.join_type.as_str());
        out.append(" JOIN ");
        out.append(j.table.as_str());
        out.append(" ON ");
        out.append(j.first.as_str());
        out.append(" ");
        out.append(j.operator.as_str());
        out.append(" ");
        out.append(j.second.as_str());
        proof {
            let t = views.take(i + 1);
            assert(t.drop_last() =~= views.take(i as int));
            assert(out@ =~= start + joins_sql(t));
        }
        i = i + 1;
    }
    proof {
        assert(views.take(js@.len() as int) =~= views);
    }
}

/// Appends the text of an ordering list to `out`.
pub fn push_orders(out: &mut String, os: &Vec<OrderBy>)
    ensures
        final(out)@ == old(out)@ + orders_sql(order_views(os@)),
{
    let ghost start = out@;
    let ghost texts = order_views(os@).map_values(|o: OrderView| order_sql(o));
    let mut i: usize = 0;
    while i < os.len()
        invariant
            i <= os@.len(),
            texts == order_views(os@).map_values(|o: OrderView| order_sql(o)),
            out@ == start + value::sep_join(texts.take(i as int), ", "@),
        decreases os@.len() - i,
    {
        let o = &os[i];
        if i > 0 {
            out.append(", ");
        }
        out.append(o.column.as_str());
        out.append(" ");
        out.append(o.direction.as_str());
        proof {
            let t = texts.take(i + 1);
            assert(t.drop_last() =~= texts.take(i as int));
            assert(out@ =~= start + value::sep_join(t, ", "@));
        }
        i = i + 1;
    }
    proof {
        assert(texts.take(os@.len() as int) =~= texts);
    }
}

} // verus!
