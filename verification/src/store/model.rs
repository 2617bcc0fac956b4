//! The tables of the store as sequences of rows, and what each statement does
//! to them. This is the behaviour that the pipelines rely on: generated ids
//! are fresh, category names are unique without regard to case, wallet names
//! are unique, and references between tables are kept.

use vstd::prelude::*;
use crate::domain::{CategoryKind, Date, DateTime};
use crate::features::payments::models::TagResponseDto;
use crate::store::protocol::{StoreReplyView, StoreRequest};
use crate::store::rows::{CategoryRow, PaymentRecord, PaymentRow, TagRow, WalletRow};
use crate::store::seqs::{
    any_where, distinct_by, first_where, lemma_filter_distinct, lemma_filter_members,
    lemma_position, position,
};
use crate::text::{lowercase, same_ignoring_case};

verus! {

/// The categories with this name, compared without regard to case.
pub open spec fn named_like(name: Seq<char>) -> spec_fn(CategoryRow) -> bool {
    |row: CategoryRow| same_ignoring_case(row.name@, name)
}

/// The category with this id.
pub open spec fn category_with_id(id: u128) -> spec_fn(CategoryRow) -> bool {
    |row: CategoryRow| row.id == id
}

/// The wallet with exactly this name.
pub open spec fn wallet_named(name: Seq<char>) -> spec_fn(WalletRow) -> bool {
    |row: WalletRow| row.name@ == name
}

/// The wallet with this id.
pub open spec fn wallet_with_id(id: u128) -> spec_fn(WalletRow) -> bool {
    |row: WalletRow| row.id == id
}

/// The payment with this id.
pub open spec fn payment_with_id(id: u128) -> spec_fn(PaymentRow) -> bool {
    |row: PaymentRow| row.id == id
}

/// The payments with another id.
pub open spec fn payment_other_than(id: u128) -> spec_fn(PaymentRow) -> bool {
    |row: PaymentRow| row.id != id
}

/// The tags of this payment.
pub open spec fn tag_of(payment_id: u128) -> spec_fn(TagRow) -> bool {
    |row: TagRow| row.payment_id == payment_id
}

/// The tags of other payments.
pub open spec fn tag_not_of(payment_id: u128) -> spec_fn(TagRow) -> bool {
    |row: TagRow| row.payment_id != payment_id
}

/// The id of a category, the key of its table.
pub open spec fn category_id() -> spec_fn(CategoryRow) -> u128 {
    |row: CategoryRow| row.id
}

/// The name of a category in lower case, which no two categories share.
pub open spec fn category_name() -> spec_fn(CategoryRow) -> Seq<char> {
    |row: CategoryRow| lowercase(row.name@)
}

/// The id of a wallet, the key of its table.
pub open spec fn wallet_id() -> spec_fn(WalletRow) -> u128 {
    |row: WalletRow| row.id
}

/// The name of a wallet, which no two wallets share.
pub open spec fn wallet_name() -> spec_fn(WalletRow) -> Seq<char> {
    |row: WalletRow| row.name@
}

/// The id of a payment, the key of its table.
pub open spec fn payment_id() -> spec_fn(PaymentRow) -> u128 {
    |row: PaymentRow| row.id
}

/// The id of a tag, the key of its table.
pub open spec fn tag_id() -> spec_fn(TagRow) -> u128 {
    |row: TagRow| row.id
}

/// The first instant of a date.
pub open spec fn midnight(date: Date) -> DateTime {
    DateTime { date, second: 0, nanosecond: 0 }
}

/// The amounts of the payments for which `counts` holds, added up.
pub open spec fn sum_where(rows: Seq<PaymentRow>, counts: spec_fn(PaymentRow) -> bool) -> int
    decreases rows.len(),
{
    if rows.len() == 0 {
        0
    } else if counts(rows.last()) {
        sum_where(rows.drop_last(), counts) + rows.last().record.amount_in_cents
    } else {
        sum_where(rows.drop_last(), counts)
    }
}

/// A sum fits the integers of 64 bits.
pub open spec fn fits(sum: int) -> bool {
    i64::MIN <= sum <= i64::MAX
}

/// A stored tag as responses show it.
pub open spec fn tag_response(row: TagRow) -> TagResponseDto {
    TagResponseDto { id: row.id, key: row.key, value: row.value }
}

/// The row that an update leaves in place of `row`.
pub open spec fn updated(id: u128, record: PaymentRecord) -> spec_fn(PaymentRow) -> PaymentRow {
    |row: PaymentRow|
        if row.id == id {
            PaymentRow { id, record }
        } else {
            row
        }
}

/// The tables of the store, and the id that the next new row gets.
pub struct StoreView {
    pub categories: Seq<CategoryRow>,
    pub wallets: Seq<WalletRow>,
    pub payments: Seq<PaymentRow>,
    pub tags: Seq<TagRow>,
    pub next_id: u128,
}

impl StoreView {
    /// The category with this name, compared without regard to case.
    pub open spec fn category_named(self, name: Seq<char>) -> Option<CategoryRow> {
        first_where(self.categories, named_like(name))
    }

    /// The category with this id.
    pub open spec fn category(self, id: u128) -> Option<CategoryRow> {
        first_where(self.categories, category_with_id(id))
    }

    /// The wallet with exactly this name.
    pub open spec fn wallet_named(self, name: Seq<char>) -> Option<WalletRow> {
        first_where(self.wallets, wallet_named(name))
    }

    /// The wallet with this id.
    pub open spec fn wallet(self, id: u128) -> Option<WalletRow> {
        first_where(self.wallets, wallet_with_id(id))
    }

    /// The payment with this id.
    pub open spec fn payment(self, id: u128) -> Option<PaymentRow> {
        first_where(self.payments, payment_with_id(id))
    }

    /// The tags of a payment, in the order in which they were stored.
    pub open spec fn tags_of(self, payment_id: u128) -> Seq<TagRow> {
        self.tags.filter(tag_of(payment_id))
    }

    /// The tags of a payment as responses show them.
    pub open spec fn tag_responses(self, payment_id: u128) -> Seq<TagResponseDto> {
        self.tags_of(payment_id).map_values(|row: TagRow| tag_response(row))
    }

    /// The category and the wallet that the record names exist.
    pub open spec fn references_hold(self, record: PaymentRecord) -> bool {
        &&& self.category(record.category_id) is Some
        &&& record.wallet_id matches Some(id) ==> self.wallet(id) is Some
    }

    /// No id is left for a new row.
    pub open spec fn full(self) -> bool {
        self.next_id == u128::MAX
    }

    /// What holds of the tables at all times: ids are unique in each table and
    /// below the next one to be given out; no two categories have the same
    /// name up to case; no two wallets have the same name; every payment
    /// names an existing category and, if any, an existing wallet; every tag
    /// belongs to an existing payment.
    pub open spec fn wf(self) -> bool {
        &&& distinct_by(self.categories, category_id())
        &&& distinct_by(self.categories, category_name())
        &&& distinct_by(self.wallets, wallet_id())
        &&& distinct_by(self.wallets, wallet_name())
        &&& distinct_by(self.payments, payment_id())
        &&& distinct_by(self.tags, tag_id())
        &&& forall|i: int| 0 <= i < self.categories.len() ==> (#[trigger] self.categories[i]).id
            < self.next_id
        &&& forall|i: int| 0 <= i < self.wallets.len() ==> (#[trigger] self.wallets[i]).id
            < self.next_id
        &&& forall|i: int| 0 <= i < self.payments.len() ==> (#[trigger] self.payments[i]).id
            < self.next_id
        &&& forall|i: int| 0 <= i < self.tags.len() ==> (#[trigger] self.tags[i]).id < self.next_id
        &&& forall|i: int| 0 <= i < self.payments.len() ==> self.references_hold(
            (#[trigger] self.payments[i]).record,
        )
        &&& forall|i: int| 0 <= i < self.tags.len() ==> self.payment(
            (#[trigger] self.tags[i]).payment_id,
        ) is Some
    }

    /// Whether a payment lies within the scope of a balance: it belongs to
    /// the wallet, if one is given, and its accounting date is not before
    /// the first instant of the start date and not after the first instant
    /// of the end date, as far as they are given.
    pub open spec fn in_scope(
        self,
        row: PaymentRow,
        wallet_id: Option<u128>,
        start: Option<Date>,
        end: Option<Date>,
    ) -> bool {
        &&& wallet_id matches Some(id) ==> row.record.wallet_id == Some(id)
        &&& start matches Some(date) ==> row.record.accounting_date.key() >= midnight(date).key()
        &&& end matches Some(date) ==> row.record.accounting_date.key() <= midnight(date).key()
    }

    /// The payments that a balance counts: those in scope whose category
    /// exists.
    pub open spec fn counted(self, wallet_id: Option<u128>, start: Option<Date>, end: Option<Date>)
        -> spec_fn(PaymentRow) -> bool {
        |row: PaymentRow|
            self.in_scope(row, wallet_id, start, end) && self.category(row.record.category_id)
                is Some
    }

    /// The payments that a balance counts under a kind: those in scope whose
    /// category is of the kind.
    pub open spec fn counted_as(
        self,
        kind: CategoryKind,
        wallet_id: Option<u128>,
        start: Option<Date>,
        end: Option<Date>,
    ) -> spec_fn(PaymentRow) -> bool {
        |row: PaymentRow|
            self.in_scope(row, wallet_id, start, end) && (self.category(
                row.record.category_id,
            ) matches Some(category) && category.kind == kind)
    }

    /// The sum of the amounts in scope.
    pub open spec fn total(self, wallet_id: Option<u128>, start: Option<Date>, end: Option<Date>)
        -> int {
        sum_where(self.payments, self.counted(wallet_id, start, end))
    }

    /// The sum of the amounts in scope whose category is an income category.
    pub open spec fn income(self, wallet_id: Option<u128>, start: Option<Date>, end: Option<Date>)
        -> int {
        sum_where(self.payments, self.counted_as(CategoryKind::Income, wallet_id, start, end))
    }

    /// The sum of the amounts in scope whose category is an expense category.
    pub open spec fn expenses(
        self,
        wallet_id: Option<u128>,
        start: Option<Date>,
        end: Option<Date>,
    ) -> int {
        sum_where(self.payments, self.counted_as(CategoryKind::Expense, wallet_id, start, end))
    }

    /// The tables with one more wallet of this name, unless a wallet has the
    /// name already or no id is left.
    pub open spec fn with_wallet(self, name: String) -> StoreView {
        if self.wallet_named(name@) is Some || self.full() {
            self
        } else {
            StoreView {
                wallets: self.wallets.push(WalletRow { id: self.next_id, name }),
                next_id: (self.next_id + 1) as u128,
                ..self
            }
        }
    }

    /// The tables with one more category, unless a category has the name
    /// already, whatever the case of its letters, or no id is left.
    pub open spec fn with_category(
        self,
        name: String,
        icon: Option<String>,
        kind: CategoryKind,
    ) -> StoreView {
        if self.category_named(name@) is Some || self.full() {
            self
        } else {
            StoreView {
                categories: self.categories.push(
                    CategoryRow { id: self.next_id, name, icon, kind },
                ),
                next_id: (self.next_id + 1) as u128,
                ..self
            }
        }
    }

    /// The store after a statement, and its reply.
    ///
    /// A statement that would break a constraint fails and changes nothing:
    /// a category whose name is taken, a payment that names a missing
    /// category or wallet, a tag of a missing payment, the removal of a
    /// payment that still has tags. So does an insert when no id is left.
    pub open spec fn apply(self, request: StoreRequest) -> (StoreView, StoreReplyView) {
        match request {
            StoreRequest::WalletIdByName { name } => (
                self,
                StoreReplyView::MaybeId(
                    match self.wallet_named(name@) {
                        Some(row) => Some(row.id),
                        None => None,
                    },
                ),
            ),
            StoreRequest::CategoryIdByName { name } => (
                self,
                StoreReplyView::MaybeId(
                    match self.category_named(name@) {
                        Some(row) => Some(row.id),
                        None => None,
                    },
                ),
            ),
            StoreRequest::InsertCategory { name } => if self.category_named(name@) is Some
                || self.full() {
                (self, StoreReplyView::Failed)
            } else {
                (
                    StoreView {
                        categories: self.categories.push(
                            CategoryRow {
                                id: self.next_id,
                                name,
                                icon: None,
                                kind: CategoryKind::Expense,
                            },
                        ),
                        next_id: (self.next_id + 1) as u128,
                        ..self
                    },
                    StoreReplyView::Id(self.next_id),
                )
            },
            StoreRequest::CategoryExists { id } => (
                self,
                StoreReplyView::MaybeId(
                    match self.category(id) {
                        Some(row) => Some(row.id),
                        None => None,
                    },
                ),
            ),
            StoreRequest::InsertPayment { payment } => if !self.references_hold(payment)
                || self.full() {
                (self, StoreReplyView::Failed)
            } else {
                (
                    StoreView {
                        payments: self.payments.push(
                            PaymentRow { id: self.next_id, record: payment },
                        ),
                        next_id: (self.next_id + 1) as u128,
                        ..self
                    },
                    StoreReplyView::Id(self.next_id),
                )
            },
            StoreRequest::UpdatePayment { id, payment } => if !self.references_hold(payment) {
                (self, StoreReplyView::Failed)
            } else {
                (
                    StoreView {
                        payments: self.payments.map_values(updated(id, payment)),
                        ..self
                    },
                    StoreReplyView::Done,
                )
            },
            StoreRequest::DeletePaymentTags { payment_id } => (
                StoreView { tags: self.tags.filter(tag_not_of(payment_id)), ..self },
                StoreReplyView::Done,
            ),
            StoreRequest::InsertPaymentTag { payment_id, key, value } => if self.payment(
                payment_id,
            ) is None || self.full() {
                (self, StoreReplyView::Failed)
            } else {
                (
                    StoreView {
                        tags: self.tags.push(TagRow { id: self.next_id, payment_id, key, value }),
                        next_id: (self.next_id + 1) as u128,
                        ..self
                    },
                    StoreReplyView::Done,
                )
            },
            StoreRequest::DeletePayment { id } => if any_where(self.tags, tag_of(id)) {
                (self, StoreReplyView::Failed)
            } else {
                (
                    StoreView { payments: self.payments.filter(payment_other_than(id)), ..self },
                    StoreReplyView::Done,
                )
            },
            StoreRequest::WalletName { id } => (
                self,
                StoreReplyView::MaybeText(
                    match self.wallet(id) {
                        Some(row) => Some(row.name),
                        None => None,
                    },
                ),
            ),
            StoreRequest::PaymentTags { payment_id } => (
                self,
                StoreReplyView::Tags(self.tag_responses(payment_id)),
            ),
            StoreRequest::CategoryName { id } => (
                self,
                match self.category(id) {
                    Some(row) => StoreReplyView::Text(row.name),
                    None => StoreReplyView::Failed,
                },
            ),
            StoreRequest::CategoryIcon { id } => (
                self,
                StoreReplyView::MaybeText(
                    match self.category(id) {
                        Some(row) => row.icon,
                        None => None,
                    },
                ),
            ),
            StoreRequest::Balance { wallet_id, start, end } => (
                self,
                if fits(self.total(wallet_id, start, end)) && fits(
                    self.income(wallet_id, start, end),
                ) && fits(self.expenses(wallet_id, start, end)) {
                    StoreReplyView::Sums {
                        total: self.total(wallet_id, start, end) as i64,
                        income: self.income(wallet_id, start, end) as i64,
                        expenses: self.expenses(wallet_id, start, end) as i64,
                    }
                } else {
                    StoreReplyView::Failed
                },
            ),
        }
    }
}

/// A row that a sequence holds is still found by its key after another row
/// is appended.
pub proof fn lemma_found_after_push<T>(s: Seq<T>, p: spec_fn(T) -> bool, x: T)
    ensures
        first_where(s, p) is Some ==> first_where(s.push(x), p) == first_where(s, p),
        first_where(s, p) is None && p(x) ==> first_where(s.push(x), p) == Some(x),
        first_where(s, p) is None && !p(x) ==> first_where(s.push(x), p) is None,
{
    crate::store::seqs::lemma_position_push(s, p, x);
    lemma_position(s, p);
}

/// Every statement leaves the tables well formed.
pub proof fn lemma_apply_keeps_wf(before: StoreView, request: StoreRequest)
    requires
        before.wf(),
    ensures
        before.apply(request).0.wf(),
{
    let after = before.apply(request).0;
    match request {
        StoreRequest::InsertCategory { name } => {
            if after != before {
                let row = after.categories.last();
                lemma_position(before.categories, named_like(name@));
                assert forall|id: u128| before.category(id) is Some implies after.category(
                    id,
                ) is Some by {
                    lemma_found_after_push(before.categories, category_with_id(id), row);
                }
                assert forall|i: int| 0 <= i < before.categories.len() implies category_name()(
                    before.categories[i],
                ) != category_name()(row) by {
                    assert(!named_like(name@)(before.categories[i]));
                }
            }
        },
        StoreRequest::InsertPayment { payment } => {
            if after != before {
                let row = after.payments.last();
                assert forall|id: u128| before.payment(id) is Some implies after.payment(
                    id,
                ) is Some by {
                    lemma_found_after_push(before.payments, payment_with_id(id), row);
                }
            }
        },
        StoreRequest::UpdatePayment { id, payment } => {
            if after != before {
                assert forall|other: u128| before.payment(other) is Some implies after.payment(
                    other,
                ) is Some by {
                    lemma_position(before.payments, payment_with_id(other));
                    let k = position(before.payments, payment_with_id(other));
                    assert(payment_with_id(other)(after.payments[k]));
                    lemma_position(after.payments, payment_with_id(other));
                }
            }
        },
        StoreRequest::DeletePaymentTags { payment_id } => {
            lemma_filter_members(before.tags, tag_not_of(payment_id));
            lemma_filter_distinct(before.tags, tag_not_of(payment_id), tag_id());
        },
        StoreRequest::InsertPaymentTag { payment_id, key, value } => {},
        StoreRequest::DeletePayment { id } => {
            if after != before {
                lemma_filter_members(before.payments, payment_other_than(id));
                lemma_filter_distinct(before.payments, payment_other_than(id), payment_id());
                assert forall|i: int| 0 <= i < after.tags.len() implies after.payment(
                    (#[trigger] after.tags[i]).payment_id,
                ) is Some by {
                    let owner = after.tags[i].payment_id;
                    assert(!tag_of(id)(before.tags[i]));
                    lemma_position(before.payments, payment_with_id(owner));
                    let k = position(before.payments, payment_with_id(owner));
                    assert(payment_other_than(id)(before.payments[k]));
                    assert(after.payments.contains(before.payments[k]));
                    lemma_position(after.payments, payment_with_id(owner));
                }
            }
        },
        _ => {},
    }
}

/// A row found by one of its columns is found by its key as well, and when
/// keys are unique it is the row that the key finds.
pub proof fn lemma_found_by_key<T, K>(
    s: Seq<T>,
    p: spec_fn(T) -> bool,
    key: spec_fn(T) -> K,
    with_key: spec_fn(T) -> bool,
)
    requires
        first_where(s, p) is Some,
        forall|row: T| #[trigger] with_key(row) <==> key(row) == key(first_where(s, p)->0),
    ensures
        first_where(s, with_key) is Some,
        distinct_by(s, key) ==> first_where(s, with_key) == first_where(s, p),
{
    lemma_position(s, p);
    lemma_position(s, with_key);
    let k = position(s, p);
    assert(with_key(s[k]));
    let found = position(s, with_key);
    if distinct_by(s, key) && found != k {
        assert(key(s[found]) == key(s[k]));
    }
}

/// A new wallet or category leaves the tables well formed.
pub proof fn lemma_seeding_keeps_wf(
    before: StoreView,
    name: String,
    icon: Option<String>,
    kind: CategoryKind,
)
    requires
        before.wf(),
    ensures
        before.with_wallet(name).wf(),
        before.with_category(name, icon, kind).wf(),
{
    let after = before.with_wallet(name);
    if after != before {
        let row = after.wallets.last();
        lemma_position(before.wallets, wallet_named(name@));
        assert forall|id: u128| before.wallet(id) is Some implies after.wallet(id) is Some by {
            lemma_found_after_push(before.wallets, wallet_with_id(id), row);
        }
        assert forall|i: int| 0 <= i < before.wallets.len() implies wallet_name()(
            before.wallets[i],
        ) != wallet_name()(row) by {
            assert(!wallet_named(name@)(before.wallets[i]));
        }
    }
    let after = before.with_category(name, icon, kind);
    if after != before {
        let row = after.categories.last();
        lemma_position(before.categories, named_like(name@));
        assert forall|id: u128| before.category(id) is Some implies after.category(id) is Some by {
            lemma_found_after_push(before.categories, category_with_id(id), row);
        }
        assert forall|i: int| 0 <= i < before.categories.len() implies category_name()(
            before.categories[i],
        ) != category_name()(row) by {
            assert(!named_like(name@)(before.categories[i]));
        }
    }
}

/// No two categories differ by the case of their names alone: two categories
/// whose names are the same up to case are one category. The same holds of
/// wallets with the same name.
pub proof fn lemma_names_are_unique(s: StoreView, i: int, j: int)
    requires
        s.wf(),
    ensures
        0 <= i < s.categories.len() && 0 <= j < s.categories.len() && same_ignoring_case(
            s.categories[i].name@,
            s.categories[j].name@,
        ) ==> i == j,
        0 <= i < s.wallets.len() && 0 <= j < s.wallets.len() && s.wallets[i].name@
            == s.wallets[j].name@ ==> i == j,
{
    if 0 <= i < s.categories.len() && 0 <= j < s.categories.len() {
        assert(category_name()(s.categories[i]) == lowercase(s.categories[i].name@));
        assert(category_name()(s.categories[j]) == lowercase(s.categories[j].name@));
    }
    if 0 <= i < s.wallets.len() && 0 <= j < s.wallets.len() {
        assert(wallet_name()(s.wallets[i]) == s.wallets[i].name@);
        assert(wallet_name()(s.wallets[j]) == s.wallets[j].name@);
    }
}

} // verus!
