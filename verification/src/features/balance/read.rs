use vstd::prelude::*;
use crate::domain::{CategoryKind, Date};
use crate::features::balance::models::BalanceResponse;
use crate::store::memory::Store;
use crate::store::model::{fits, sum_where, StoreView};
use crate::store::protocol::{StoreReply, StoreRequest};
use crate::store::rows::PaymentRow;

verus! {

/// The query string of the balance. Each part is optional by itself.
#[derive(Debug)]
pub struct BalanceQuery {
    pub wallet_name: Option<String>,
    pub start_date: Option<Date>,
    pub end_date: Option<Date>,
}

/// Where the reading of a balance stands: which reply it waits for.
#[derive(Debug)]
pub enum BalancePhase {
    /// Looking the wallet up by its name.
    ResolvingWallet { name: String },
    /// Summing the amounts.
    Summing { wallet_id: Option<u128> },
}

/// How the reading of a balance ended.
#[derive(Debug, Clone, Copy, PartialEq, Eq, Structural)]
pub enum BalanceOutcome {
    Balance(BalanceResponse),
    /// No wallet has the name that the query gives.
    WalletNotFound,
    /// The store failed.
    Failed,
}

/// The reading of a balance in progress.
#[derive(Debug)]
pub struct BalanceRead {
    pub start_date: Option<Date>,
    pub end_date: Option<Date>,
    pub phase: BalancePhase,
}

/// What the reading of a balance does next: ask the store, or end.
#[derive(Debug)]
pub enum BalanceStep {
    Ask(BalanceRead),
    Finish(BalanceOutcome),
}

impl BalanceOutcome {
    /// The HTTP status that reports the outcome: 200 for a balance, 404 for a
    /// wallet that does not exist, 500 for a failure of the store.
    pub open spec fn spec_status(&self) -> u16 {
        match *self {
            BalanceOutcome::Balance(_) => 200,
            BalanceOutcome::WalletNotFound => 404,
            BalanceOutcome::Failed => 500,
        }
    }

    /// The HTTP status that reports the outcome.
    #[verifier::when_used_as_spec(spec_status)]
    pub fn status(&self) -> (r: u16)
        ensures
            r == self.spec_status(),
    {
        match self {
            BalanceOutcome::Balance(_) => 200,
            BalanceOutcome::WalletNotFound => 404,
            BalanceOutcome::Failed => 500,
        }
    }
}

impl BalanceQuery {
    /// The first state of the reading: the lookup of the wallet if the query
    /// names one, else the sum over all payments.
    pub open spec fn spec_begin(self) -> BalanceRead {
        BalanceRead {
            start_date: self.start_date,
            end_date: self.end_date,
            phase: match self.wallet_name {
                Some(name) => BalancePhase::ResolvingWallet { name },
                None => BalancePhase::Summing { wallet_id: None },
            },
        }
    }

    /// Starts the reading of a balance.
    pub fn begin(self) -> (r: BalanceRead)
        ensures
            r == self.spec_begin(),
    {
        BalanceRead {
            start_date: self.start_date,
            end_date: self.end_date,
            phase: match self.wallet_name {
                Some(name) => BalancePhase::ResolvingWallet { name },
                None => BalancePhase::Summing { wallet_id: None },
            },
        }
    }
}

impl BalanceRead {
    /// The statement that the reading waits on.
    pub open spec fn spec_request(&self) -> StoreRequest {
        match self.phase {
            BalancePhase::ResolvingWallet { name } => StoreRequest::WalletIdByName { name },
            BalancePhase::Summing { wallet_id } => StoreRequest::Balance {
                wallet_id,
                start: self.start_date,
                end: self.end_date,
            },
        }
    }

    /// The statement to run against the store before the next `advance`.
    #[verifier::when_used_as_spec(spec_request)]
    pub fn request(&self) -> (r: StoreRequest)
        ensures
            r == self.spec_request(),
    {
        match &self.phase {
            BalancePhase::ResolvingWallet { name } => StoreRequest::WalletIdByName {
                name: name.clone(),
            },
            BalancePhase::Summing { wallet_id } => StoreRequest::Balance {
                wallet_id: *wallet_id,
                start: self.start_date,
                end: self.end_date,
            },
        }
    }

    /// The transition of the machine. A wallet that is found scopes the sum;
    /// one that is not ends the reading. The sums that come back are the
    /// balance.
    pub open spec fn next(self, reply: StoreReply) -> BalanceStep {
        match (self.phase, reply) {
            (BalancePhase::ResolvingWallet { .. }, StoreReply::MaybeId(Some(id))) => {
                BalanceStep::Ask(
                    BalanceRead { phase: BalancePhase::Summing { wallet_id: Some(id) }, ..self },
                )
            },
            (BalancePhase::ResolvingWallet { .. }, StoreReply::MaybeId(None)) => {
                BalanceStep::Finish(BalanceOutcome::WalletNotFound)
            },
            (BalancePhase::Summing { .. }, StoreReply::Sums { total, income, expenses }) => {
                BalanceStep::Finish(
                    BalanceOutcome::Balance(
                        BalanceResponse {
                            total_in_cents: total,
                            income_in_cents: income,
                            expenses_in_cents: expenses,
                        },
                    ),
                )
            },
            _ => BalanceStep::Finish(BalanceOutcome::Failed),
        }
    }

    /// Takes the reply of the store to the statement that the reading waited
    /// on, and says what comes next.
    pub fn advance(self, reply: StoreReply) -> (r: BalanceStep)
        ensures
            r == self.next(reply),
    {
        match (self.phase, reply) {
            (BalancePhase::ResolvingWallet { .. }, StoreReply::MaybeId(Some(id))) => {
                BalanceStep::Ask(
                    BalanceRead {
                        start_date: self.start_date,
                        end_date: self.end_date,
                        phase: BalancePhase::Summing { wallet_id: Some(id) },
                    },
                )
            },
            (BalancePhase::ResolvingWallet { .. }, StoreReply::MaybeId(None)) => {
                BalanceStep::Finish(BalanceOutcome::WalletNotFound)
            },
            (BalancePhase::Summing { .. }, StoreReply::Sums { total, income, expenses }) => {
                BalanceStep::Finish(
                    BalanceOutcome::Balance(
                        BalanceResponse {
                            total_in_cents: total,
                            income_in_cents: income,
                            expenses_in_cents: expenses,
                        },
                    ),
                )
            },
            _ => BalanceStep::Finish(BalanceOutcome::Failed),
        }
    }
}

/// The wallet that scopes a balance: none if the query names none.
pub open spec fn scope(s: StoreView, query: BalanceQuery) -> Option<u128> {
    match query.wallet_name {
        Some(name) => match s.wallet_named(name@) {
            Some(row) => Some(row.id),
            None => None,
        },
        None => None,
    }
}

/// The sums of a balance fit the integers of 64 bits.
pub open spec fn sums_fit(s: StoreView, query: BalanceQuery) -> bool {
    &&& fits(s.total(scope(s, query), query.start_date, query.end_date))
    &&& fits(s.income(scope(s, query), query.start_date, query.end_date))
    &&& fits(s.expenses(scope(s, query), query.start_date, query.end_date))
}

/// Reads a balance from the store.
///
/// A query that names a wallet is scoped to that wallet, and ends as
/// `WalletNotFound` if there is none of that name. The total is the sum of
/// the amounts in scope; the income and the expenses are the sums of those
/// among them whose category is an income or an expense category. The store
/// is left as it was.
pub fn get_balance(store: &mut Store, query: BalanceQuery) -> (outcome: BalanceOutcome)
    ensures
        final(store)@ == old(store)@,
        match outcome {
            BalanceOutcome::WalletNotFound => query.wallet_name matches Some(name) && old(
                store,
            )@.wallet_named(name@) is None,
            BalanceOutcome::Balance(balance) => {
                &&& !(query.wallet_name matches Some(name) && old(store)@.wallet_named(name@)
                    is None)
                &&& balance.total_in_cents == old(store)@.total(
                    scope(old(store)@, query),
                    query.start_date,
                    query.end_date,
                )
                &&& balance.income_in_cents == old(store)@.income(
                    scope(old(store)@, query),
                    query.start_date,
                    query.end_date,
                )
                &&& balance.expenses_in_cents == old(store)@.expenses(
                    scope(old(store)@, query),
                    query.start_date,
                    query.end_date,
                )
            },
            BalanceOutcome::Failed => !(query.wallet_name matches Some(name) && old(
                store,
            )@.wallet_named(name@) is None) && !sums_fit(old(store)@, query),
        },
{
    let first = query.begin();
    let reply = store.apply(&first.request());
    match first.advance(reply) {
        BalanceStep::Finish(outcome) => outcome,
        BalanceStep::Ask(second) => {
            let reply = store.apply(&second.request());
            match second.advance(reply) {
                BalanceStep::Finish(outcome) => outcome,
                BalanceStep::Ask(_) => BalanceOutcome::Failed,
            }
        },
    }
}

/// The part of a sum that counts under a condition and the part that does
/// not add up to the sum.
pub proof fn lemma_sum_splits(
    rows: Seq<PaymentRow>,
    all: spec_fn(PaymentRow) -> bool,
    one: spec_fn(PaymentRow) -> bool,
    other: spec_fn(PaymentRow) -> bool,
)
    requires
        forall|row: PaymentRow| #[trigger] all(row) <==> one(row) || other(row),
        forall|row: PaymentRow| !(#[trigger] one(row) && other(row)),
    ensures
        sum_where(rows, all) == sum_where(rows, one) + sum_where(rows, other),
    decreases rows.len(),
{
    if rows.len() > 0 {
        lemma_sum_splits(rows.drop_last(), all, one, other);
        assert(all(rows.last()) <==> one(rows.last()) || other(rows.last()));
        assert(!(one(rows.last()) && other(rows.last())));
    }
}

/// Two conditions that hold of the same payments give the same sum.
pub proof fn lemma_sum_same(
    rows: Seq<PaymentRow>,
    one: spec_fn(PaymentRow) -> bool,
    other: spec_fn(PaymentRow) -> bool,
)
    requires
        forall|i: int| 0 <= i < rows.len() ==> (one(#[trigger] rows[i]) <==> other(rows[i])),
    ensures
        sum_where(rows, one) == sum_where(rows, other),
    decreases rows.len(),
{
    if rows.len() > 0 {
        let front = rows.drop_last();
        assert forall|i: int| 0 <= i < front.len() implies (one(#[trigger] front[i]) <==> other(
            front[i],
        )) by {
            assert(front[i] == rows[i]);
        }
        lemma_sum_same(front, one, other);
        assert(one(rows[rows.len() - 1]) <==> other(rows[rows.len() - 1]));
    }
}

/// The income and the expenses of a balance add up to its total, whatever
/// the wallet and the bounds.
pub proof fn lemma_parts_add_up(
    s: StoreView,
    wallet_id: Option<u128>,
    start: Option<Date>,
    end: Option<Date>,
)
    ensures
        s.income(wallet_id, start, end) + s.expenses(wallet_id, start, end) == s.total(
            wallet_id,
            start,
            end,
        ),
{
    lemma_sum_splits(
        s.payments,
        s.counted(wallet_id, start, end),
        s.counted_as(CategoryKind::Income, wallet_id, start, end),
        s.counted_as(CategoryKind::Expense, wallet_id, start, end),
    );
}

/// The payments that are stored, all of them.
pub open spec fn every_payment() -> spec_fn(PaymentRow) -> bool {
    |row: PaymentRow| true
}

/// The payments whose accounting date is on or after a date.
pub open spec fn dated_from(date: Date) -> spec_fn(PaymentRow) -> bool {
    |row: PaymentRow| row.record.accounting_date.date.key() >= date.key()
}

/// Without a wallet and without bounds, the total of the balance is the sum
/// of the amounts of all payments. With a start date alone, it is the sum of
/// the amounts of the payments whose accounting date is on or after that
/// date.
pub proof fn lemma_total_without_and_with_start(s: StoreView, date: Date)
    requires
        s.wf(),
    ensures
        s.total(None, None, None) == sum_where(s.payments, every_payment()),
        s.total(None, Some(date), None) == sum_where(s.payments, dated_from(date)),
{
    assert forall|i: int| 0 <= i < s.payments.len() implies (s.counted(None, None, None)(
        #[trigger] s.payments[i],
    ) <==> every_payment()(s.payments[i])) by {
        assert(s.references_hold(s.payments[i].record));
    }
    lemma_sum_same(s.payments, s.counted(None, None, None), every_payment());
    assert forall|i: int| 0 <= i < s.payments.len() implies (s.counted(None, Some(date), None)(
        #[trigger] s.payments[i],
    ) <==> dated_from(date)(s.payments[i])) by {
        assert(s.references_hold(s.payments[i].record));
        crate::domain::date::lemma_date_of_instant(s.payments[i].record.accounting_date, date);
    }
    lemma_sum_same(s.payments, s.counted(None, Some(date), None), dated_from(date));
}

} // verus!
