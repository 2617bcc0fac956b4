//! Text of SQL statements: positional parameters and the joining of clauses.

use vstd::prelude::*;
use vstd::string::StringExecFns;
use crate::domain::Date;

verus! {

/// A value bound to a positional parameter.
#[derive(Debug)]
pub enum Bind {
    Int(i64),
    Text(String),
    Id(u128),
    Date(Date),
}

/// A bound value, with a text as its characters.
pub enum BindView {
    Int(i64),
    Text(Seq<char>),
    Id(u128),
    Date(Date),
}

impl View for Bind {
    type V = BindView;

    open spec fn view(&self) -> BindView {
        match *self {
            Bind::Int(n) => BindView::Int(n),
            Bind::Text(text) => BindView::Text(text@),
            Bind::Id(id) => BindView::Id(id),
            Bind::Date(date) => BindView::Date(date),
        }
    }
}

/// Bound values with their texts as characters.
pub open spec fn bind_views(binds: Seq<Bind>) -> Seq<BindView> {
    binds.map_values(|b: Bind| b@)
}

/// The character of a decimal digit.
pub open spec fn digit(d: nat) -> char {
    if d == 0 {
        '0'
    } else if d == 1 {
        '1'
    } else if d == 2 {
        '2'
    } else if d == 3 {
        '3'
    } else if d == 4 {
        '4'
    } else if d == 5 {
        '5'
    } else if d == 6 {
        '6'
    } else if d == 7 {
        '7'
    } else if d == 8 {
        '8'
    } else {
        '9'
    }
}

/// A number in decimal notation, without leading zeros.
pub open spec fn decimal(n: nat) -> Seq<char>
    decreases n,
{
    if n < 10 {
        seq![digit(n)]
    } else {
        decimal(n / 10).push(digit(n % 10))
    }
}

/// The positional parameter with this number: `$1`, `$2`, and so on.
pub open spec fn placeholder(n: nat) -> Seq<char> {
    seq!['$'] + decimal(n)
}

/// The parts with `separator` between each two of them.
pub open spec fn joined(parts: Seq<Seq<char>>, separator: Seq<char>) -> Seq<char>
    decreases parts.len(),
{
    if parts.len() == 0 {
        Seq::empty()
    } else if parts.len() == 1 {
        parts[0]
    } else {
        joined(parts.drop_last(), separator) + separator + parts.last()
    }
}

fn digit_text(d: usize) -> (r: &'static str)
    requires
        d < 10,
    ensures
        r@ == seq![digit(d as nat)],
{
    proof {
        reveal_strlit("0");
        reveal_strlit("1");
        reveal_strlit("2");
        reveal_strlit("3");
        reveal_strlit("4");
        reveal_strlit("5");
        reveal_strlit("6");
        reveal_strlit("7");
        reveal_strlit("8");
        reveal_strlit("9");
    }
    let r = if d == 0 {
        "0"
    } else if d == 1 {
        "1"
    } else if d == 2 {
        "2"
    } else if d == 3 {
        "3"
    } else if d == 4 {
        "4"
    } else if d == 5 {
        "5"
    } else if d == 6 {
        "6"
    } else if d == 7 {
        "7"
    } else if d == 8 {
        "8"
    } else {
        "9"
    };
    assert(r@ =~= seq![digit(d as nat)]);
    r
}

/// Appends a number in decimal notation to a text.
pub fn push_decimal(out: &mut String, n: usize)
    ensures
        final(out)@ == old(out)@ + decimal(n as nat),
    decreases n,
{
    if n >= 10 {
        push_decimal(out, n / 10);
    }
    out.append(digit_text(n % 10));
    assert(out@ =~= old(out)@ + decimal(n as nat)) by {
        if n >= 10 {
            assert(decimal(n as nat) == decimal((n / 10) as nat).push(digit((n % 10) as nat)));
        }
    }
}

/// Appends the positional parameter with this number to a text.
pub fn push_placeholder(out: &mut String, n: usize)
    ensures
        final(out)@ == old(out)@ + placeholder(n as nat),
{
    proof {
        reveal_strlit("$");
    }
    out.append("$");
    push_decimal(out, n);
    assert(out@ =~= old(out)@ + placeholder(n as nat));
}

/// Texts as sequences of characters.
pub open spec fn texts(parts: Seq<String>) -> Seq<Seq<char>> {
    parts.map_values(|part: String| part@)
}

/// The `WHERE` part of a query: empty without clauses, else the clauses
/// joined by `AND`.
pub open spec fn where_clause(clauses: Seq<Seq<char>>) -> Seq<char> {
    if clauses.len() == 0 {
        Seq::empty()
    } else {
        "WHERE "@ + joined(clauses, " AND "@)
    }
}

/// Appends the `WHERE` part for these clauses to a text.
pub fn push_where(out: &mut String, clauses: &Vec<String>)
    ensures
        final(out)@ == old(out)@ + where_clause(texts(clauses@)),
{
    let mut i: usize = 0;
    while i < clauses.len()
        invariant
            i <= clauses.len(),
            out@ == old(out)@ + where_clause(texts(clauses@.take(i as int))),
        decreases clauses.len() - i,
    {
        let ghost done = texts(clauses@.take(i as int));
        let ghost more = texts(clauses@.take(i + 1));
        if i == 0 {
            out.append("WHERE ");
        } else {
            out.append(" AND ");
        }
        out.append(clauses[i].as_str());
        proof {
            assert(more.drop_last() =~= done);
            assert(more.last() == clauses@[i as int]@);
            assert(out@ =~= old(out)@ + where_clause(more));
        }
        i += 1;
    }
    assert(clauses@.take(i as int) == clauses@);
}

} // verus!
