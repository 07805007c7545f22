use vstd::prelude::*;

verus! {

/// `s` with every trailing `s` removed.
pub open spec fn trim_trailing_s(s: Seq<char>) -> Seq<char>
    decreases s.len(),
{
    if s.len() > 0 && s.last() == 's' {
        trim_trailing_s(s.drop_last())
    } else {
        s
    }
}

/// The foreign-key column that refers to rows of `table`: `user_id` for `users`.
pub open spec fn foreign_key_for(table: Seq<char>) -> Seq<char> {
    trim_trailing_s(table) + "_id"@
}

/// Lexicographic order on characters by code point: `a` sorts no later than `b`.
pub open spec fn text_le(a: Seq<char>, b: Seq<char>) -> bool
    decreases a.len(),
{
    if a.len() == 0 {
        true
    } else if b.len() == 0 {
        false
    } else if a[0] != b[0] {
        (a[0] as u32) < (b[0] as u32)
    } else {
        text_le(a.drop_first(), b.drop_first())
    }
}

/// The pivot table of two tables: their names in sorted order, joined by `_`.
pub open spec fn pivot_table_for(a: Seq<char>, b: Seq<char>) -> Seq<char> {
    if text_le(a, b) {
        a + "_"@ + b
    } else {
        b + "_"@ + a
    }
}

/// `s` with its trailing `s` characters removed.
pub fn trim_trailing_s_of(s: &str) -> (r: String)
    ensures
        r@ == trim_trailing_s(s@),
{
    let mut n: usize = s.unicode_len();
    proof {
        assert(s@.take(n as int) =~= s@);
    }
    while n > 0 && s.get_char(n - 1) == 's'
        invariant
            n <= s@.len(),
            trim_trailing_s(s@) == trim_trailing_s(s@.take(n as int)),
        decreases n,
    {
        proof {
            assert(s@.take(n as int).drop_last() =~= s@.take(n - 1));
        }
        n = n - 1;
    }
    proof {
        assert(s@.subrange(0, n as int) =~= s@.take(n as int));
    }
    String::from_str(s.substring_char(0, n))
}

/// The default foreign-key column for rows of `table`.
pub fn foreign_key_of(table: &str) -> (r: String)
    ensures
        r@ == foreign_key_for(table@),
{
    let mut r = trim_trailing_s_of(table);
    r.append("_id");
    r
}

/// Whether `a` sorts no later than `b`.
pub fn text_le_exec(a: &str, b: &str) -> (r: bool)
    ensures
        r == text_le(a@, b@),
{
    let la = a.unicode_len();
    let lb = b.unicode_len();
    let mut i: usize = 0;
    proof {
        assert(a@.skip(0) =~= a@);
        assert(b@.skip(0) =~= b@);
    }
    while i < la && i < lb
        invariant
            la == a@.len(),
            lb == b@.len(),
            i <= la,
            i <= lb,
            text_le(a@, b@) == text_le(a@.skip(i as int), b@.skip(i as int)),
        decreases la - i,
    {
        let ca = a.get_char(i);
        let cb = b.get_char(i);
        if ca != cb {
            proof {
                assert(a@.skip(i as int)[0] == ca);
                assert(b@.skip(i as int)[0] == cb);
            }
            return (ca as u32) < (cb as u32);
        }
        proof {
            assert(a@.skip(i as int).drop_first() =~= a@.skip(i + 1));
            assert(b@.skip(i as int).drop_first() =~= b@.skip(i + 1));
        }
        i = i + 1;
    }
    proof {
        assert(a@.skip(i as int).len() == la - i);
        assert(b@.skip(i as int).len() == lb - i);
    }
    i == la
}

/// The default pivot table of two tables.
pub fn pivot_table_of(a: &str, b: &str) -> (r: String)
    ensures
        r@ == pivot_table_for(a@, b@),
{
    let (first, second) = if text_le_exec(a, b) {
        (a, b)
    } else {
        (b, a)
    };
    let mut r = String::from_str(first);
    r.append("_");
    r.append(second);
    r
}

/// `name` followed by `suffix`.
pub fn suffixed(name: &str, suffix: &str) -> (r: String)
    ensures
        r@ == name@ + suffix@,
{
    let mut r = String::from_str(name);
    r.append(suffix);
    r
}

} // verus!
