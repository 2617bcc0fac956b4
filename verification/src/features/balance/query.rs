//! The aggregate query of the balance, with one clause and one bound value
//! for the wallet and for each date bound that is given.

use vstd::prelude::*;
use vstd::string::StringExecFns;
use crate::domain::Date;
use crate::sql::{
    bind_views, placeholder, push_placeholder, push_where, texts, where_clause, Bind, BindView,
};

verus! {

/// What a clause of the balance query compares.
#[derive(Debug, Clone, Copy, PartialEq, Eq, Structural)]
pub enum Bound {
    /// The payment belongs to a wallet.
    Wallet,
    /// The accounting date is not before a date.
    Start,
    /// The accounting date is not after a date.
    End,
}

/// The balance query: its text and the values to bind, the first to `$1`,
/// the second to `$2`, and so on.
#[derive(Debug)]
pub struct BalanceSql {
    pub sql: String,
    pub binds: Vec<Bind>,
}

/// The bounds that are given, in the fixed order: wallet, start, end.
pub open spec fn bounds(wallet_id: Option<u128>, start: Option<Date>, end: Option<Date>) -> Seq<
    Bound,
> {
    (if wallet_id is Some {
        seq![Bound::Wallet]
    } else {
        seq![]
    }) + (if start is Some {
        seq![Bound::Start]
    } else {
        seq![]
    }) + (if end is Some {
        seq![Bound::End]
    } else {
        seq![]
    })
}

/// The value that a bound compares with.
pub open spec fn bound_value(
    wallet_id: Option<u128>,
    start: Option<Date>,
    end: Option<Date>,
    bound: Bound,
) -> BindView {
    match bound {
        Bound::Wallet => BindView::Id(wallet_id->0),
        Bound::Start => BindView::Date(start->0),
        Bound::End => BindView::Date(end->0),
    }
}

/// The text of the clause of a bound that compares with the parameter `$n`.
pub open spec fn bound_clause(bound: Bound, n: nat) -> Seq<char> {
    match bound {
        Bound::Wallet => "p.wallet_id = "@ + placeholder(n),
        Bound::Start => "p.accounting_date >= "@ + placeholder(n),
        Bound::End => "p.accounting_date <= "@ + placeholder(n),
    }
}

/// The texts of the clauses of a sequence of bounds: the first compares with
/// `$1`, the next with `$2`, and so on.
pub open spec fn bound_clauses(given: Seq<Bound>) -> Seq<Seq<char>> {
    Seq::new(given.len(), |i: int| bound_clause(given[i], (i + 1) as nat))
}

/// The values of a sequence of bounds.
pub open spec fn bound_values(
    wallet_id: Option<u128>,
    start: Option<Date>,
    end: Option<Date>,
    given: Seq<Bound>,
) -> Seq<BindView> {
    given.map_values(|bound: Bound| bound_value(wallet_id, start, end, bound))
}

/// The query up to its `WHERE` part: the sum of all amounts, and the sums of
/// those whose category is an income and an expense category. A sum over no
/// payment is zero.
pub open spec fn balance_head() -> Seq<char> {
    "SELECT COALESCE(SUM(p.amount), 0)::bigint AS total, COALESCE(SUM(CASE WHEN c.kind = 'income' THEN p.amount ELSE 0 END), 0)::bigint AS income, COALESCE(SUM(CASE WHEN c.kind = 'expense' THEN p.amount ELSE 0 END), 0)::bigint AS expenses FROM expenses.payments p JOIN expenses.categories c ON p.category_id = c.id "@
}

/// The text of the balance query for a sequence of bounds.
pub open spec fn balance_sql(given: Seq<Bound>) -> Seq<char> {
    balance_head() + where_clause(bound_clauses(given))
}

fn add_bound(
    parts: &mut Vec<String>,
    binds: &mut Vec<Bind>,
    bound: Bound,
    bind: Bind,
    Ghost(wallet_id): Ghost<Option<u128>>,
    Ghost(start): Ghost<Option<Date>>,
    Ghost(end): Ghost<Option<Date>>,
    Ghost(seen): Ghost<Seq<Bound>>,
)
    requires
        texts(old(parts)@) == bound_clauses(seen),
        bind_views(old(binds)@) == bound_values(wallet_id, start, end, seen),
        bind@ == bound_value(wallet_id, start, end, bound),
        seen.len() < 3,
    ensures
        texts(final(parts)@) == bound_clauses(seen.push(bound)),
        bind_views(final(binds)@) == bound_values(wallet_id, start, end, seen.push(bound)),
{
    assert(binds@.len() == bind_views(binds@).len());
    let mut part = String::new();
    match bound {
        Bound::Wallet => {
            part.append("p.wallet_id = ");
        },
        Bound::Start => {
            part.append("p.accounting_date >= ");
        },
        Bound::End => {
            part.append("p.accounting_date <= ");
        },
    }
    push_placeholder(&mut part, binds.len() + 1);
    assert(part@ =~= bound_clause(bound, (seen.len() + 1) as nat));
    parts.push(part);
    binds.push(bind);
    assert(texts(parts@) =~= texts(old(parts)@).push(
        bound_clause(bound, (seen.len() + 1) as nat),
    ));
    assert(texts(parts@) =~= bound_clauses(seen.push(bound)));
    assert(bind_views(binds@) =~= bind_views(old(binds)@).push(bind@));
    assert(bind_views(binds@) =~= bound_values(wallet_id, start, end, seen.push(bound)));
}

/// Builds the balance query. The wallet and each date bound that is given
/// add one clause and one bound value, in the fixed order; what is not given
/// adds neither, so that each of the bounds is optional by itself.
pub fn build_balance_query(wallet_id: Option<u128>, start: Option<Date>, end: Option<Date>) -> (query:
    BalanceSql)
    ensures
        query.sql@ == balance_sql(bounds(wallet_id, start, end)),
        bind_views(query.binds@) == bound_values(
            wallet_id,
            start,
            end,
            bounds(wallet_id, start, end),
        ),
{
    let mut parts: Vec<String> = Vec::new();
    let mut binds: Vec<Bind> = Vec::new();
    let ghost mut seen: Seq<Bound> = Seq::empty();
    assert(texts(parts@) =~= bound_clauses(seen));
    assert(bind_views(binds@) =~= bound_values(wallet_id, start, end, seen));
    if let Some(id) = wallet_id {
        add_bound(
            &mut parts,
            &mut binds,
            Bound::Wallet,
            Bind::Id(id),
            Ghost(wallet_id),
            Ghost(start),
            Ghost(end),
            Ghost(seen),
        );
        proof {
            seen = seen.push(Bound::Wallet);
        }
    }
    assert(seen.len() <= 1);
    if let Some(date) = start {
        add_bound(
            &mut parts,
            &mut binds,
            Bound::Start,
            Bind::Date(date),
            Ghost(wallet_id),
            Ghost(start),
            Ghost(end),
            Ghost(seen),
        );
        proof {
            seen = seen.push(Bound::Start);
        }
    }
    assert(seen.len() <= 2);
    if let Some(date) = end {
        add_bound(
            &mut parts,
            &mut binds,
            Bound::End,
            Bind::Date(date),
            Ghost(wallet_id),
            Ghost(start),
            Ghost(end),
            Ghost(seen),
        );
        proof {
            seen = seen.push(Bound::End);
        }
    }
    assert(seen =~= bounds(wallet_id, start, end));
    let mut sql = "SELECT COALESCE(SUM(p.amount), 0)::bigint AS total, COALESCE(SUM(CASE WHEN c.kind = 'income' THEN p.amount ELSE 0 END), 0)::bigint AS income, COALESCE(SUM(CASE WHEN c.kind = 'expense' THEN p.amount ELSE 0 END), 0)::bigint AS expenses FROM expenses.payments p JOIN expenses.categories c ON p.category_id = c.id ".to_string();
    push_where(&mut sql, &parts);
    BalanceSql { sql, binds }
}

} // verus!
