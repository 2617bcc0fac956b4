//! A store held in memory. It answers each statement as the model says, so a
//! pipeline can be run against it from start to end.

use vstd::prelude::*;
use crate::domain::{CategoryKind, Date};
use crate::features::payments::models::TagResponseDto;
use crate::store::model::{
    fits, sum_where, category_with_id, named_like, payment_other_than, payment_with_id, tag_not_of, tag_of,
    tag_response, updated, wallet_named, wallet_with_id, StoreView,
};
use crate::store::protocol::{StoreReply, StoreRequest};
use crate::store::rows::{CategoryRow, PaymentRecord, PaymentRow, TagRow, WalletRow};
use crate::store::seqs::{any_where, lemma_position_is, position};
use crate::text::to_lowercase;

verus! {

/// The tables of the service, held in memory.
#[derive(Debug)]
pub struct Store {
    categories: Vec<CategoryRow>,
    wallets: Vec<WalletRow>,
    payments: Vec<PaymentRow>,
    tags: Vec<TagRow>,
    next_id: u128,
}

impl View for Store {
    type V = StoreView;

    closed spec fn view(&self) -> StoreView {
        StoreView {
            categories: self.categories@,
            wallets: self.wallets@,
            payments: self.payments@,
            tags: self.tags@,
            next_id: self.next_id,
        }
    }
}

fn in_64_bits(sum: i128) -> (r: bool)
    ensures
        r == fits(sum as int),
{
    -0x8000_0000_0000_0000 <= sum && sum <= 0x7fff_ffff_ffff_ffff
}

impl Store {
    /// A store with empty tables. The first id that it gives out is 1.
    pub fn new() -> (r: Store)
        ensures
            r@.categories.len() == 0,
            r@.wallets.len() == 0,
            r@.payments.len() == 0,
            r@.tags.len() == 0,
            r@.next_id == 1,
            r@.wf(),
    {
        Store {
            categories: Vec::new(),
            wallets: Vec::new(),
            payments: Vec::new(),
            tags: Vec::new(),
            next_id: 1,
        }
    }

    pub(crate) fn category_position_by_name(&self, name: &str) -> (r: usize)
        ensures
            r == position(self@.categories, named_like(name@)),
    {
        let wanted = to_lowercase(name);
        let mut i: usize = 0;
        while i < self.categories.len()
            invariant
                i <= self.categories.len(),
                wanted@ == crate::text::lowercase(name@),
                forall|j: int| 0 <= j < i ==> !named_like(name@)(#[trigger] self.categories@[j]),
            decreases self.categories.len() - i,
        {
            let have = to_lowercase(self.categories[i].name.as_str());
            if have == wanted {
                proof {
                    lemma_position_is(self@.categories, named_like(name@), i as int);
                }
                return i;
            }
            i += 1;
        }
        proof {
            lemma_position_is(self@.categories, named_like(name@), i as int);
        }
        i
    }

    pub(crate) fn category_position(&self, id: u128) -> (r: usize)
        ensures
            r == position(self@.categories, category_with_id(id)),
    {
        let mut i: usize = 0;
        while i < self.categories.len()
            invariant
                i <= self.categories.len(),
                forall|j: int| 0 <= j < i ==> !category_with_id(id)(#[trigger] self.categories@[j]),
            decreases self.categories.len() - i,
        {
            if self.categories[i].id == id {
                proof {
                    lemma_position_is(self@.categories, category_with_id(id), i as int);
                }
                return i;
            }
            i += 1;
        }
        proof {
            lemma_position_is(self@.categories, category_with_id(id), i as int);
        }
        i
    }

    pub(crate) fn wallet_position_by_name(&self, name: &String) -> (r: usize)
        ensures
            r == position(self@.wallets, wallet_named(name@)),
    {
        let mut i: usize = 0;
        while i < self.wallets.len()
            invariant
                i <= self.wallets.len(),
                forall|j: int| 0 <= j < i ==> !wallet_named(name@)(#[trigger] self.wallets@[j]),
            decreases self.wallets.len() - i,
        {
            if self.wallets[i].name == *name {
                proof {
                    lemma_position_is(self@.wallets, wallet_named(name@), i as int);
                }
                return i;
            }
            i += 1;
        }
        proof {
            lemma_position_is(self@.wallets, wallet_named(name@), i as int);
        }
        i
    }

    pub(crate) fn wallet_position(&self, id: u128) -> (r: usize)
        ensures
            r == position(self@.wallets, wallet_with_id(id)),
    {
        let mut i: usize = 0;
        while i < self.wallets.len()
            invariant
                i <= self.wallets.len(),
                forall|j: int| 0 <= j < i ==> !wallet_with_id(id)(#[trigger] self.wallets@[j]),
            decreases self.wallets.len() - i,
        {
            if self.wallets[i].id == id {
                proof {
                    lemma_position_is(self@.wallets, wallet_with_id(id), i as int);
                }
                return i;
            }
            i += 1;
        }
        proof {
            lemma_position_is(self@.wallets, wallet_with_id(id), i as int);
        }
        i
    }

    pub(crate) fn payment_position(&self, id: u128) -> (r: usize)
        ensures
            r == position(self@.payments, payment_with_id(id)),
    {
        let mut i: usize = 0;
        while i < self.payments.len()
            invariant
                i <= self.payments.len(),
                forall|j: int| 0 <= j < i ==> !payment_with_id(id)(#[trigger] self.payments@[j]),
            decreases self.payments.len() - i,
        {
            if self.payments[i].id == id {
                proof {
                    lemma_position_is(self@.payments, payment_with_id(id), i as int);
                }
                return i;
            }
            i += 1;
        }
        proof {
            lemma_position_is(self@.payments, payment_with_id(id), i as int);
        }
        i
    }

    fn has_tag_of(&self, payment_id: u128) -> (r: bool)
        ensures
            r == any_where(self@.tags, tag_of(payment_id)),
    {
        let mut i: usize = 0;
        while i < self.tags.len()
            invariant
                i <= self.tags.len(),
                forall|j: int| 0 <= j < i ==> !tag_of(payment_id)(#[trigger] self.tags@[j]),
            decreases self.tags.len() - i,
        {
            if self.tags[i].payment_id == payment_id {
                assert(tag_of(payment_id)(self@.tags[i as int]));
                return true;
            }
            i += 1;
        }
        false
    }

    fn references_hold(&self, record: &PaymentRecord) -> (r: bool)
        ensures
            r == self@.references_hold(*record),
    {
        if self.category_position(record.category_id) >= self.categories.len() {
            return false;
        }
        match record.wallet_id {
            Some(id) => self.wallet_position(id) < self.wallets.len(),
            None => true,
        }
    }

    fn tags_without(&self, payment_id: u128) -> (r: Vec<TagRow>)
        ensures
            r@ == self@.tags.filter(tag_not_of(payment_id)),
    {
        let mut kept: Vec<TagRow> = Vec::new();
        let mut i: usize = 0;
        proof {
            reveal(Seq::filter);
        }
        while i < self.tags.len()
            invariant
                i <= self.tags.len(),
                kept@ == self.tags@.take(i as int).filter(tag_not_of(payment_id)),
            decreases self.tags.len() - i,
        {
            proof {
                reveal(Seq::filter);
                assert(self.tags@.take(i + 1).drop_last() == self.tags@.take(i as int));
            }
            if self.tags[i].payment_id != payment_id {
                kept.push(self.tags[i].clone());
            }
            i += 1;
        }
        assert(self.tags@.take(i as int) == self.tags@);
        kept
    }

    fn payments_without(&self, id: u128) -> (r: Vec<PaymentRow>)
        ensures
            r@ == self@.payments.filter(payment_other_than(id)),
    {
        let mut kept: Vec<PaymentRow> = Vec::new();
        let mut i: usize = 0;
        proof {
            reveal(Seq::filter);
        }
        while i < self.payments.len()
            invariant
                i <= self.payments.len(),
                kept@ == self.payments@.take(i as int).filter(payment_other_than(id)),
            decreases self.payments.len() - i,
        {
            proof {
                reveal(Seq::filter);
                assert(self.payments@.take(i + 1).drop_last() == self.payments@.take(i as int));
            }
            if self.payments[i].id != id {
                kept.push(self.payments[i].clone());
            }
            i += 1;
        }
        assert(self.payments@.take(i as int) == self.payments@);
        kept
    }

    fn payments_updated(&self, id: u128, record: &PaymentRecord) -> (r: Vec<PaymentRow>)
        ensures
            r@ == self@.payments.map_values(updated(id, *record)),
    {
        let mut rows: Vec<PaymentRow> = Vec::new();
        let mut i: usize = 0;
        while i < self.payments.len()
            invariant
                i <= self.payments.len(),
                rows@ == self.payments@.take(i as int).map_values(updated(id, *record)),
            decreases self.payments.len() - i,
        {
            let row = if self.payments[i].id == id {
                PaymentRow { id, record: record.clone() }
            } else {
                self.payments[i].clone()
            };
            rows.push(row);
            assert(rows@ == self.payments@.take(i + 1).map_values(updated(id, *record)));
            i += 1;
        }
        assert(self.payments@.take(i as int) == self.payments@);
        rows
    }

    pub(crate) fn tag_responses(&self, payment_id: u128) -> (r: Vec<TagResponseDto>)
        ensures
            r@ == self@.tag_responses(payment_id),
    {
        let mut found: Vec<TagResponseDto> = Vec::new();
        let mut i: usize = 0;
        proof {
            reveal(Seq::filter);
        }
        while i < self.tags.len()
            invariant
                i <= self.tags.len(),
                found@ == self.tags@.take(i as int).filter(tag_of(payment_id)).map_values(
                    |row: TagRow| tag_response(row),
                ),
            decreases self.tags.len() - i,
        {
            proof {
                reveal(Seq::filter);
                assert(self.tags@.take(i + 1).drop_last() == self.tags@.take(i as int));
            }
            if self.tags[i].payment_id == payment_id {
                found.push(
                    TagResponseDto {
                        id: self.tags[i].id,
                        key: self.tags[i].key.clone(),
                        value: self.tags[i].value.clone(),
                    },
                );
            }
            assert(found@ == self.tags@.take(i + 1).filter(tag_of(payment_id)).map_values(
                |row: TagRow| tag_response(row),
            ));
            i += 1;
        }
        assert(self.tags@.take(i as int) == self.tags@);
        found
    }

    fn in_scope(
        &self,
        row: &PaymentRow,
        wallet_id: Option<u128>,
        start: Option<Date>,
        end: Option<Date>,
    ) -> (r: bool)
        ensures
            r == self@.in_scope(*row, wallet_id, start, end),
    {
        if let Some(id) = wallet_id {
            match row.record.wallet_id {
                Some(own) => {
                    if own != id {
                        return false;
                    }
                },
                None => {
                    return false;
                },
            }
        }
        if let Some(date) = start {
            if !date.at_midnight().on_or_before(&row.record.accounting_date) {
                return false;
            }
        }
        if let Some(date) = end {
            if !row.record.accounting_date.on_or_before(&date.at_midnight()) {
                return false;
            }
        }
        true
    }

    fn balance(&self, wallet_id: Option<u128>, start: Option<Date>, end: Option<Date>) -> (r: (
        i128,
        i128,
        i128,
    ))
        ensures
            r.0 == self@.total(wallet_id, start, end),
            r.1 == self@.income(wallet_id, start, end),
            r.2 == self@.expenses(wallet_id, start, end),
    {
        let mut total: i128 = 0;
        let mut income: i128 = 0;
        let mut expenses: i128 = 0;
        let mut i: usize = 0;
        while i < self.payments.len()
            invariant
                i <= self.payments.len(),
                total == sum_where(
                    self.payments@.take(i as int),
                    self@.counted(wallet_id, start, end),
                ),
                income == sum_where(
                    self.payments@.take(i as int),
                    self@.counted_as(CategoryKind::Income, wallet_id, start, end),
                ),
                expenses == sum_where(
                    self.payments@.take(i as int),
                    self@.counted_as(CategoryKind::Expense, wallet_id, start, end),
                ),
                -0x8000_0000 * i <= total <= 0x8000_0000 * i,
                -0x8000_0000 * i <= income <= 0x8000_0000 * i,
                -0x8000_0000 * i <= expenses <= 0x8000_0000 * i,
            decreases self.payments.len() - i,
        {
            assert(self.payments@.take(i + 1).drop_last() == self.payments@.take(i as int));
            let row = &self.payments[i];
            if self.in_scope(row, wallet_id, start, end) {
                let at = self.category_position(row.record.category_id);
                if at < self.categories.len() {
                    let amount = row.record.amount_in_cents as i128;
                    total = total + amount;
                    match self.categories[at].kind {
                        CategoryKind::Income => {
                            income = income + amount;
                        },
                        CategoryKind::Expense => {
                            expenses = expenses + amount;
                        },
                    }
                }
            }
            i += 1;
        }
        assert(self.payments@.take(i as int) == self.payments@);
        (total, income, expenses)
    }

    /// Adds a wallet, and returns its id. No wallet is added, and nothing is
    /// returned, if a wallet has the name already or no id is left.
    pub fn add_wallet(&mut self, name: String) -> (r: Option<u128>)
        ensures
            final(self)@ == old(self)@.with_wallet(name),
            r is Some <==> old(self)@.wallet_named(name@) is None && !old(self)@.full(),
            r matches Some(id) ==> id == old(self)@.next_id,
    {
        let at = self.wallet_position_by_name(&name);
        if at < self.wallets.len() || self.next_id == u128::MAX {
            None
        } else {
            let id = self.next_id;
            self.wallets.push(WalletRow { id, name });
            self.next_id = id + 1;
            Some(id)
        }
    }

    /// Adds a category, and returns its id. No category is added, and nothing
    /// is returned, if a category has the name already, whatever the case of
    /// its letters, or no id is left.
    pub fn add_category(&mut self, name: String, icon: Option<String>, kind: CategoryKind) -> (r:
        Option<u128>)
        ensures
            final(self)@ == old(self)@.with_category(name, icon, kind),
            r is Some <==> old(self)@.category_named(name@) is None && !old(self)@.full(),
            r matches Some(id) ==> id == old(self)@.next_id,
    {
        let at = self.category_position_by_name(name.as_str());
        if at < self.categories.len() || self.next_id == u128::MAX {
            None
        } else {
            let id = self.next_id;
            self.categories.push(CategoryRow { id, name, icon, kind });
            self.next_id = id + 1;
            Some(id)
        }
    }

    pub(crate) fn category_rows(&self) -> (r: &Vec<CategoryRow>)
        ensures
            r@ == self@.categories,
    {
        &self.categories
    }

    pub(crate) fn wallet_rows(&self) -> (r: &Vec<WalletRow>)
        ensures
            r@ == self@.wallets,
    {
        &self.wallets
    }

    pub(crate) fn payment_rows(&self) -> (r: &Vec<PaymentRow>)
        ensures
            r@ == self@.payments,
    {
        &self.payments
    }

    /// The rows of the category table.
    pub fn categories(&self) -> (r: Vec<CategoryRow>)
        ensures
            r@ == self@.categories,
    {
        self.categories.clone()
    }

    /// The rows of the wallet table.
    pub fn wallets(&self) -> (r: Vec<WalletRow>)
        ensures
            r@ == self@.wallets,
    {
        self.wallets.clone()
    }

    /// The rows of the payment table.
    pub fn payments(&self) -> (r: Vec<PaymentRow>)
        ensures
            r@ == self@.payments,
    {
        self.payments.clone()
    }

    /// The rows of the tag table.
    pub fn tags(&self) -> (r: Vec<TagRow>)
        ensures
            r@ == self@.tags,
    {
        self.tags.clone()
    }

    /// Runs one statement and answers it, as the model says.
    pub fn apply(&mut self, request: &StoreRequest) -> (reply: StoreReply)
        ensures
            (final(self)@, reply@) == old(self)@.apply(*request),
    {
        match request {
            StoreRequest::WalletIdByName { name } => {
                let at = self.wallet_position_by_name(name);
                if at < self.wallets.len() {
                    StoreReply::MaybeId(Some(self.wallets[at].id))
                } else {
                    StoreReply::MaybeId(None)
                }
            },
            StoreRequest::CategoryIdByName { name } => {
                let at = self.category_position_by_name(name.as_str());
                if at < self.categories.len() {
                    StoreReply::MaybeId(Some(self.categories[at].id))
                } else {
                    StoreReply::MaybeId(None)
                }
            },
            StoreRequest::InsertCategory { name } => {
                let at = self.category_position_by_name(name.as_str());
                if at < self.categories.len() || self.next_id == u128::MAX {
                    StoreReply::Failed
                } else {
                    let id = self.next_id;
                    self.categories.push(
                        CategoryRow {
                            id,
                            name: name.clone(),
                            icon: None,
                            kind: CategoryKind::Expense,
                        },
                    );
                    self.next_id = id + 1;
                    StoreReply::Id(id)
                }
            },
            StoreRequest::CategoryExists { id } => {
                let at = self.category_position(*id);
                if at < self.categories.len() {
                    StoreReply::MaybeId(Some(self.categories[at].id))
                } else {
                    StoreReply::MaybeId(None)
                }
            },
            StoreRequest::InsertPayment { payment } => {
                if !self.references_hold(payment) || self.next_id == u128::MAX {
                    StoreReply::Failed
                } else {
                    let id = self.next_id;
                    self.payments.push(PaymentRow { id, record: payment.clone() });
                    self.next_id = id + 1;
                    StoreReply::Id(id)
                }
            },
            StoreRequest::UpdatePayment { id, payment } => {
                if !self.references_hold(payment) {
                    StoreReply::Failed
                } else {
                    self.payments = self.payments_updated(*id, payment);
                    StoreReply::Done
                }
            },
            StoreRequest::DeletePaymentTags { payment_id } => {
                self.tags = self.tags_without(*payment_id);
                StoreReply::Done
            },
            StoreRequest::InsertPaymentTag { payment_id, key, value } => {
                let at = self.payment_position(*payment_id);
                if at >= self.payments.len() || self.next_id == u128::MAX {
                    StoreReply::Failed
                } else {
                    let id = self.next_id;
                    self.tags.push(
                        TagRow {
                            id,
                            payment_id: *payment_id,
                            key: key.clone(),
                            value: value.clone(),
                        },
                    );
                    self.next_id = id + 1;
                    StoreReply::Done
                }
            },
            StoreRequest::DeletePayment { id } => {
                if self.has_tag_of(*id) {
                    StoreReply::Failed
                } else {
                    self.payments = self.payments_without(*id);
                    StoreReply::Done
                }
            },
            StoreRequest::WalletName { id } => {
                let at = self.wallet_position(*id);
                if at < self.wallets.len() {
                    StoreReply::MaybeText(Some(self.wallets[at].name.clone()))
                } else {
                    StoreReply::MaybeText(None)
                }
            },
            StoreRequest::PaymentTags { payment_id } => StoreReply::Tags(
                self.tag_responses(*payment_id),
            ),
            StoreRequest::CategoryName { id } => {
                let at = self.category_position(*id);
                if at < self.categories.len() {
                    StoreReply::Text(self.categories[at].name.clone())
                } else {
                    StoreReply::Failed
                }
            },
            StoreRequest::CategoryIcon { id } => {
                let at = self.category_position(*id);
                if at < self.categories.len() {
                    StoreReply::MaybeText(self.categories[at].icon.clone())
                } else {
                    StoreReply::MaybeText(None)
                }
            },
            StoreRequest::Balance { wallet_id, start, end } => {
                let (total, income, expenses) = self.balance(*wallet_id, *start, *end);
                if in_64_bits(total) && in_64_bits(income) && in_64_bits(expenses) {
                    StoreReply::Sums {
                        total: total as i64,
                        income: income as i64,
                        expenses: expenses as i64,
                    }
                } else {
                    StoreReply::Failed
                }
            },
        }
    }
}

} // verus!
