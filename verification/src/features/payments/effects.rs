//! What a write does to the store when nothing interferes: the tables after
//! each stage of the pipeline, as functions of the tables before it and of the
//! plan of the write.

use vstd::prelude::*;
use crate::domain::CategoryKind;
use crate::features::payments::models::{CategoryIdentifier, PaymentResponseDto};
use crate::features::payments::write::Plan;
use crate::store::model::StoreView;
use crate::store::rows::{CategoryRow, PaymentRecord, PaymentRow, TagRow};
use crate::store::model::{
    category_id, category_with_id, lemma_found_after_push, lemma_found_by_key, named_like,
    payment_with_id, tag_not_of, updated, wallet_id, wallet_named, wallet_with_id,
};
use crate::store::model::tag_of;
use crate::store::seqs::{
    lemma_filter_members, lemma_filter_none_or_all, lemma_position, position,
};

verus! {

impl Plan {
    /// The plan names a wallet that the store does not have.
    pub open spec fn wallet_missing(self, s: StoreView) -> bool {
        self.wallet matches Some(name) && s.wallet_named(name@) is None
    }

    /// The id of the wallet that the plan names, if it names one that exists.
    pub open spec fn wallet_id(self, s: StoreView) -> Option<u128> {
        match self.wallet {
            Some(name) => match s.wallet_named(name@) {
                Some(row) => Some(row.id),
                None => None,
            },
            None => None,
        }
    }

    /// The name of that wallet as it is stored.
    pub open spec fn wallet_name(self, s: StoreView) -> Option<String> {
        match self.wallet {
            Some(name) => match s.wallet_named(name@) {
                Some(row) => Some(row.name),
                None => None,
            },
            None => None,
        }
    }

    /// The plan names a category by an id that the store does not have.
    pub open spec fn category_missing(self, s: StoreView) -> bool {
        self.category matches CategoryIdentifier::Uid(id) && s.category(id) is None
    }

    /// The plan names a category by a name that no category has, whatever the
    /// case of its letters: the write creates it.
    pub open spec fn creates_category(self, s: StoreView) -> bool {
        self.category matches CategoryIdentifier::Name(name) && s.category_named(name@) is None
    }

    /// The plan is to update a payment that the store does not have.
    pub open spec fn orphan(self, s: StoreView) -> bool {
        self.target matches Some(id) && s.payment(id) is None
    }

    /// The tables once the category is resolved: with one more category, of
    /// the name as the plan spells it, if the write creates it.
    pub open spec fn resolved(self, s: StoreView) -> StoreView {
        match self.category {
            CategoryIdentifier::Name(name) if s.category_named(name@) is None => StoreView {
                categories: s.categories.push(
                    CategoryRow { id: s.next_id, name, icon: None, kind: CategoryKind::Expense },
                ),
                next_id: (s.next_id + 1) as u128,
                ..s
            },
            _ => s,
        }
    }

    /// The id of the category of the payment.
    pub open spec fn category_id(self, s: StoreView) -> u128 {
        match self.category {
            CategoryIdentifier::Uid(id) => id,
            CategoryIdentifier::Name(name) => match s.category_named(name@) {
                Some(row) => row.id,
                None => s.next_id,
            },
        }
    }

    /// The columns that the write stores.
    pub open spec fn record(self, s: StoreView) -> PaymentRecord {
        PaymentRecord {
            category_id: self.category_id(s),
            description: self.description,
            merchant_name: self.merchant_name,
            accounting_date: self.accounting_date,
            amount_in_cents: self.amount_in_cents,
            wallet_id: self.wallet_id(s),
        }
    }

    /// The id of the payment that the write stores: the target of an update,
    /// a new id on creation.
    pub open spec fn payment_id(self, s: StoreView) -> u128 {
        match self.target {
            Some(id) => id,
            None => self.resolved(s).next_id,
        }
    }

    /// The tables once the payment row is written.
    pub open spec fn persisted(self, s: StoreView) -> StoreView {
        let r = self.resolved(s);
        match self.target {
            Some(id) => StoreView {
                payments: r.payments.map_values(updated(id, self.record(s))),
                ..r
            },
            None => StoreView {
                payments: r.payments.push(PaymentRow { id: r.next_id, record: self.record(s) }),
                next_id: (r.next_id + 1) as u128,
                ..r
            },
        }
    }

    /// The tables once, on update, the tags that the payment had are removed.
    pub open spec fn cleared(self, s: StoreView) -> StoreView {
        let p = self.persisted(s);
        match self.target {
            Some(id) => StoreView { tags: p.tags.filter(tag_not_of(id)), ..p },
            None => p,
        }
    }

    /// The row of the tag at position `k` of the plan.
    pub open spec fn new_tag(self, s: StoreView, k: int) -> TagRow {
        TagRow {
            id: (self.persisted(s).next_id + k) as u128,
            payment_id: self.payment_id(s),
            key: self.tags[k].key,
            value: self.tags[k].value,
        }
    }

    /// The rows of the first `k` tags of the plan.
    pub open spec fn new_tags(self, s: StoreView, k: int) -> Seq<TagRow> {
        Seq::new(k as nat, |i: int| self.new_tag(s, i))
    }

    /// The tables once the first `k` tags of the plan are stored.
    pub open spec fn tagged(self, s: StoreView, k: int) -> StoreView {
        let p = self.cleared(s);
        StoreView {
            tags: p.tags + self.new_tags(s, k),
            next_id: (p.next_id + k) as u128,
            ..p
        }
    }

    /// The tables once the write is through.
    pub open spec fn stored(self, s: StoreView) -> StoreView {
        self.tagged(s, self.tags.len() as int)
    }

    /// The store has an id for every row that the write may add: a category,
    /// a payment and the tags.
    pub open spec fn room(self, s: StoreView) -> bool {
        s.next_id + 2 + self.tags.len() < u128::MAX
    }

    /// The response shows the stored payment: its columns, the name and icon
    /// of its category and the name of its wallet as the store has them, and
    /// its tags as the store has them.
    pub open spec fn answers(self, s: StoreView, response: PaymentResponseDto) -> bool {
        let after = self.stored(s);
        &&& response.id == self.payment_id(s)
        &&& response.description == self.description
        &&& response.amount_in_cents == self.amount_in_cents
        &&& response.merchant_name == self.merchant_name
        &&& response.accounting_date == self.accounting_date
        &&& after.category(self.category_id(s)) matches Some(row) && response.category == row.name
            && response.category_icon == row.icon
        &&& response.category_id == Some(self.category_id(s))
        &&& response.wallet == self.wallet_name(s)
        &&& response.tags@ == after.tag_responses(self.payment_id(s))
    }
}

/// The category and the wallet of the payment exist once the category is
/// resolved, unless the plan names a wallet or a category id that is missing.
pub proof fn lemma_references_resolved(plan: Plan, s: StoreView)
    requires
        !plan.wallet_missing(s),
        !plan.category_missing(s),
    ensures
        plan.resolved(s).references_hold(plan.record(s)),
        plan.resolved(s).wallets == s.wallets,
{
    let r = plan.resolved(s);
    let id = plan.category_id(s);
    match plan.category {
        CategoryIdentifier::Uid(_) => {},
        CategoryIdentifier::Name(name) => {
            if s.category_named(name@) is Some {
                lemma_found_by_key(
                    s.categories,
                    named_like(name@),
                    category_id(),
                    category_with_id(id),
                );
            } else {
                lemma_found_after_push(s.categories, category_with_id(id), r.categories.last());
                lemma_position(s.categories, category_with_id(id));
                lemma_position(r.categories, category_with_id(id));
                assert(category_with_id(id)(r.categories[s.categories.len() as int]));
            }
        },
    }
    match plan.wallet {
        Some(name) => {
            lemma_found_by_key(
                s.wallets,
                wallet_named(name@),
                wallet_id(),
                wallet_with_id(plan.wallet_id(s)->0),
            );
        },
        None => {},
    }
}

/// The wallet that the plan names is found by its id under the name that the
/// store has for it.
pub proof fn lemma_wallet_read_back(plan: Plan, s: StoreView, id: u128)
    requires
        s.wf(),
        plan.wallet_id(s) == Some(id),
    ensures
        s.wallet(id) matches Some(row) && Some(row.name) == plan.wallet_name(s),
{
    lemma_found_by_key(s.wallets, wallet_named(plan.wallet->0@), wallet_id(), wallet_with_id(id));
}

/// The payment that the write stores is in the tables from the moment its
/// row is written, unless the write is the update of a payment that the
/// store does not have.
pub proof fn lemma_payment_present(plan: Plan, s: StoreView)
    ensures
        plan.persisted(s).payment(plan.payment_id(s)) is Some <==> !plan.orphan(s),
{
    let r = plan.resolved(s);
    let p = plan.persisted(s);
    let id = plan.payment_id(s);
    match plan.target {
        Some(_) => {
            lemma_position(r.payments, payment_with_id(id));
            lemma_position(p.payments, payment_with_id(id));
            if s.payment(id) is Some {
                let k = position(r.payments, payment_with_id(id));
                assert(payment_with_id(id)(p.payments[k]));
            } else if p.payment(id) is Some {
                let k = position(p.payments, payment_with_id(id));
                assert(payment_with_id(id)(r.payments[k]));
            }
        },
        None => {
            assert(payment_with_id(id)(p.payments[r.payments.len() as int]));
            lemma_position(p.payments, payment_with_id(id));
        },
    }
}

/// Once a write is through, the tags of its payment are the tags of the
/// plan, in the order of the plan, and nothing else: on creation the payment
/// is new and had none, on update those that it had are gone.
pub proof fn lemma_tags_after_write(plan: Plan, s: StoreView)
    requires
        s.wf(),
        plan.room(s),
    ensures
        plan.stored(s).tags_of(plan.payment_id(s)) == plan.new_tags(s, plan.tags.len() as int),
        plan.new_tags(s, plan.tags.len() as int).len() == plan.tags.len(),
        forall|k: int|
            0 <= k < plan.tags.len() ==> {
                &&& (#[trigger] plan.stored(s).tags_of(plan.payment_id(s))[k]).key
                    == plan.tags[k].key
                &&& plan.stored(s).tags_of(plan.payment_id(s))[k].value == plan.tags[k].value
            },
{
    let id = plan.payment_id(s);
    let old_tags = plan.cleared(s).tags;
    let new_tags = plan.new_tags(s, plan.tags.len() as int);
    match plan.target {
        Some(_) => {
            lemma_filter_members(s.tags, tag_not_of(id));
        },
        None => {
            assert forall|i: int| 0 <= i < old_tags.len() implies !tag_of(id)(
                #[trigger] old_tags[i],
            ) by {
                let owner = s.tags[i].payment_id;
                lemma_position(s.payments, payment_with_id(owner));
            }
        },
    }
    lemma_filter_none_or_all(old_tags, tag_of(id));
    lemma_filter_none_or_all(new_tags, tag_of(id));
    Seq::filter_distributes_over_add(old_tags, new_tags, tag_of(id));
    assert(old_tags.filter(tag_of(id)) + new_tags =~= new_tags);
}

/// The tags of any payment but the one that is written are what they were.
pub proof fn lemma_other_tags_kept(plan: Plan, s: StoreView, other: u128)
    requires
        other != plan.payment_id(s),
    ensures
        plan.stored(s).tags_of(other) == s.tags_of(other),
        plan.cleared(s).tags_of(other) == s.tags_of(other),
{
    let id = plan.payment_id(s);
    let old_tags = plan.cleared(s).tags;
    let new_tags = plan.new_tags(s, plan.tags.len() as int);
    lemma_filter_none_or_all(new_tags, tag_of(other));
    Seq::filter_distributes_over_add(old_tags, new_tags, tag_of(other));
    assert(old_tags.filter(tag_of(other)) + new_tags.filter(tag_of(other)) =~= old_tags.filter(
        tag_of(other),
    ));
    if plan.target is Some {
        crate::store::seqs::lemma_filter_twice(s.tags, tag_not_of(id), tag_of(other));
    }
}

} // verus!
