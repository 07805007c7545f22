use vstd::prelude::*;

verus! {

/// One element of a list value.
#[derive(Debug, Clone)]
pub enum SqlScalar {
    Null,
    Bool(bool),
    Int(i64),
    Text(String),
}

/// A value that a condition compares a column against.
#[derive(Debug, Clone)]
pub enum SqlValue {
    Null,
    Bool(bool),
    Int(i64),
    Text(String),
    List(Vec<SqlScalar>),
}

/// What a list element holds.
pub enum ScalarView {
    Null,
    Bool(bool),
    Int(i64),
    Text(Seq<char>),
}

/// What a value holds.
pub enum ValueView {
    Null,
    Bool(bool),
    Int(i64),
    Text(Seq<char>),
    List(Seq<ScalarView>),
}

impl View for SqlScalar {
    type V = ScalarView;

    open spec fn view(&self) -> ScalarView {
        match self {
            SqlScalar::Null => ScalarView::Null,
            SqlScalar::Bool(b) => ScalarView::Bool(*b),
            SqlScalar::Int(n) => ScalarView::Int(*n),
            SqlScalar::Text(s) => ScalarView::Text(s@),
        }
    }
}

pub open spec fn scalar_views(items: Seq<SqlScalar>) -> Seq<ScalarView> {
    items.map_values(|e: SqlScalar| e@)
}

impl View for SqlValue {
    type V = ValueView;

    open spec fn view(&self) -> ValueView {
        match self {
            SqlValue::Null => ValueView::Null,
            SqlValue::Bool(b) => ValueView::Bool(*b),
            SqlValue::Int(n) => ValueView::Int(*n),
            SqlValue::Text(s) => ValueView::Text(s@),
            SqlValue::List(items) => ValueView::List(scalar_views(items@)),
        }
    }
}

/// What an optional value holds.
pub open spec fn option_view(v: Option<SqlValue>) -> Option<ValueView> {
    match v {
        Some(x) => Some(x@),
        None => None,
    }
}

/// The decimal digit character for `d` (0 to 9).
pub open spec fn digit_char(d: nat) -> char {
    if d == 0 {
        '0'
    } else if d == 1 {
        '1'
    } else if d == 2 {
        '2'
    } else if d == 3 {
        '3'
    } else if d == 4 {
        '4'
    } else if d == 5 {
        '5'
    } else if d == 6 {
        '6'
    } else if d == 7 {
        '7'
    } else if d == 8 {
        '8'
    } else {
        '9'
    }
}

/// Decimal text of a natural number, most significant digit first, no leading zeros.
pub open spec fn nat_text(n: nat) -> Seq<char>
    decreases n,
{
    if n < 10 {
        seq![digit_char(n)]
    } else {
        nat_text(n / 10) + seq![digit_char(n % 10)]
    }
}

/// Decimal text of an integer, with a leading `-` when it is negative.
pub open spec fn int_text(i: int) -> Seq<char> {
    if i < 0 {
        "-"@ + nat_text((-i) as nat)
    } else {
        nat_text(i as nat)
    }
}

/// `items` joined with `sep` between each two neighbours.
pub open spec fn sep_join(items: Seq<Seq<char>>, sep: Seq<char>) -> Seq<char>
    decreases items.len(),
{
    if items.len() == 0 {
        Seq::empty()
    } else if items.len() == 1 {
        items[0]
    } else {
        sep_join(items.drop_last(), sep) + sep + items.last()
    }
}

/// A string in single quotes, as it stands (no escaping).
pub open spec fn quoted(s: Seq<char>) -> Seq<char> {
    "'"@ + s + "'"@
}

/// How an element of a list renders: strings quoted, integers as literals, anything else `NULL`.
pub open spec fn element_sql(v: ScalarView) -> Seq<char> {
    match v {
        ScalarView::Text(s) => quoted(s),
        ScalarView::Int(n) => int_text(n as int),
        _ => "NULL"@,
    }
}

/// The rendered elements of a list.
pub open spec fn list_items_sql(items: Seq<ScalarView>) -> Seq<Seq<char>> {
    items.map_values(|e: ScalarView| element_sql(e))
}

/// How a value renders in SQL text.
pub open spec fn value_sql(v: ValueView) -> Seq<char> {
    match v {
        ValueView::Null => "NULL"@,
        ValueView::Bool(b) => if b { "true"@ } else { "false"@ },
        ValueView::Int(n) => int_text(n as int),
        ValueView::Text(s) => quoted(s),
        ValueView::List(items) => "("@ + sep_join(list_items_sql(items), ", "@) + ")"@,
    }
}

fn digit_str(d: u64) -> (r: &'static str)
    requires
        d < 10,
    ensures
        r@ == seq![digit_char(d as nat)],
{
    proof {
        reveal_strlit("0");
        reveal_strlit("1");
        reveal_strlit("2");
        reveal_strlit("3");
        reveal_strlit("4");
        reveal_strlit("5");
        reveal_strlit("6");
        reveal_strlit("7");
        reveal_strlit("8");
        reveal_strlit("9");
    }
    if d == 0 {
        "0"
    } else if d == 1 {
        "1"
    } else if d == 2 {
        "2"
    } else if d == 3 {
        "3"
    } else if d == 4 {
        "4"
    } else if d == 5 {
        "5"
    } else if d == 6 {
        "6"
    } else if d == 7 {
        "7"
    } else if d == 8 {
        "8"
    } else {
        "9"
    }
}

/// Appends the decimal text of `n` to `out`.
pub fn push_nat_text(out: &mut String, n: u64)
    ensures
        final(out)@ == old(out)@ + nat_text(n as nat),
    decreases n,
{
    if n >= 10 {
        push_nat_text(out, n / 10);
    }
    out.append(digit_str(n % 10));
    proof {
        assert(out@ =~= old(out)@ + nat_text(n as nat));
    }
}

/// Appends the decimal text of `n` to `out`.
pub fn push_int_text(out: &mut String, n: i64)
    ensures
        final(out)@ == old(out)@ + int_text(n as int),
{
    if n < 0 {
        out.append("-");
        let magnitude: u64 = (-(n as i128)) as u64;
        push_nat_text(out, magnitude);
        proof {
            assert(out@ =~= old(out)@ + int_text(n as int));
        }
    } else {
        push_nat_text(out, n as u64);
    }
}

/// Decimal text of `n`.
pub fn int_to_text(n: i64) -> (r: String)
    ensures
        r@ == int_text(n as int),
{
    let mut out = String::new();
    push_int_text(&mut out, n);
    proof {
        assert(out@ =~= int_text(n as int));
    }
    out
}

/// Appends `s` in single quotes to `out`.
pub fn push_quoted(out: &mut String, s: &str)
    ensures
        final(out)@ == old(out)@ + quoted(s@),
{
    out.append("'");
    out.append(s);
    out.append("'");
    proof {
        assert(out@ =~= old(out)@ + quoted(s@));
    }
}

/// Appends the text of a list element to `out`.
pub fn push_element_sql(out: &mut String, v: &SqlScalar)
    ensures
        final(out)@ == old(out)@ + element_sql(v@),
{
    match v {
        SqlScalar::Text(s) => push_quoted(out, s.as_str()),
        SqlScalar::Int(n) => push_int_text(out, *n),
        _ => {
            out.append("NULL");
        },
    }
}

/// Appends the text of `v` to `out`.
pub fn push_value_sql(out: &mut String, v: &SqlValue)
    ensures
        final(out)@ == old(out)@ + value_sql(v@),
{
    match v {
        SqlValue::Null => {
            out.append("NULL");
        },
        SqlValue::Bool(b) => {
            if *b {
                out.append("true");
            } else {
                out.append("false");
            }
        },
        SqlValue::Int(n) => push_int_text(out, *n),
        SqlValue::Text(s) => push_quoted(out, s.as_str()),
        SqlValue::List(items) => {
            let ghost start = out@;
            let ghost texts = list_items_sql(scalar_views(items@));
            out.append("(");
            let mut i: usize = 0;
            while i < items.len()
                invariant
                    i <= items@.len(),
                    texts == list_items_sql(scalar_views(items@)),
                    out@ == start + "("@ + sep_join(texts.take(i as int), ", "@),
                decreases items@.len() - i,
            {
                let ghost before = out@;
                if i > 0 {
                    out.append(", ");
                }
                push_element_sql(out, &items[i]);
                proof {
                    let t = texts.take(i + 1);
                    assert(t.drop_last() =~= texts.take(i as int));
                                        if i == 0 {
                        assert(out@ =~= start + "("@ + sep_join(t, ", "@));
                    } else {
                        assert(out@ =~= start + "("@ + sep_join(t, ", "@));
                    }
                }
                i = i + 1;
            }
            out.append(")");
            proof {
                assert(texts.take(items@.len() as int) =~= texts);
                assert(out@ =~= start + value_sql(v@));
            }
        },
    }
}

} // verus!
