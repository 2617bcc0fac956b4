//! The listing of payments as the store answers it: the payments that pass
//! the filters, newest first, one page of them, each with the names of its
//! category and wallet and with its tags.

use vstd::prelude::*;
use crate::domain::date::date_of;
use crate::domain::{Date, DateTime};
use crate::features::payments::models::{PaymentFilters, TagResponseDto};
use crate::store::memory::Store;
use crate::store::model::StoreView;
use crate::store::rows::PaymentRow;
use crate::text::{
    contains, contains_text, lowercase, parse_uuid, same_ignoring_case, to_lowercase, uuid_of,
};

verus! {

/// One row of the listing, as the query returns it. The columns that come
/// from a left join are absent when there is nothing to join; the tags are
/// absent when they could not be read.
#[derive(Debug)]
pub struct PaymentListRow {
    pub id: u128,
    pub category_name: Option<String>,
    pub category_icon: Option<String>,
    pub category_id: Option<u128>,
    pub description: Option<String>,
    pub merchant_name: Option<String>,
    pub accounting_date: Option<DateTime>,
    pub amount: Option<i32>,
    pub wallet_name: Option<String>,
    pub tags: Option<Vec<TagResponseDto>>,
}

/// Why the store refused a listing.
#[derive(Debug, Clone, Copy, PartialEq, Eq, Structural)]
pub enum StoreError {
    /// A date filter does not spell a date.
    InvalidDate,
    /// The limit or the offset is negative.
    InvalidRange,
}

/// Both date filters, as far as they are present, spell dates.
pub open spec fn dates_readable(filters: PaymentFilters) -> bool {
    &&& filters.date_from matches Some(text) ==> date_of(text@) is Some
    &&& filters.date_to matches Some(text) ==> date_of(text@) is Some
}

/// A text is found in the merchant name or in the description of a payment,
/// whatever the case of the letters.
pub open spec fn found_in(row: PaymentRow, text: Seq<char>) -> bool {
    ||| contains_text(lowercase(row.record.merchant_name@), lowercase(text))
    ||| row.record.description matches Some(d) && contains_text(lowercase(d@), lowercase(text))
}

/// The payment passes the category filter: by id if the text of the filter
/// spells an identifier, else by the name of its category, compared without
/// regard to case.
pub open spec fn in_category(s: StoreView, row: PaymentRow, text: Seq<char>) -> bool {
    match uuid_of(text) {
        Some(id) => row.record.category_id == id,
        None => s.category(row.record.category_id) matches Some(category) && same_ignoring_case(
            category.name@,
            text,
        ),
    }
}

/// The payment belongs to the wallet with this name.
pub open spec fn in_wallet(s: StoreView, row: PaymentRow, name: Seq<char>) -> bool {
    row.record.wallet_id matches Some(id) && (s.wallet(id) matches Some(wallet) && wallet.name@
        == name)
}

/// The payment passes every filter that is present.
pub open spec fn listed(s: StoreView, filters: PaymentFilters, row: PaymentRow) -> bool {
    &&& filters.date_from matches Some(text) ==> (date_of(text@) matches Some(from)
        && row.record.accounting_date.date.key() >= from.key())
    &&& filters.date_to matches Some(text) ==> (date_of(text@) matches Some(to)
        && row.record.accounting_date.date.key() <= to.key())
    &&& filters.category matches Some(text) ==> in_category(s, row, text@)
    &&& filters.wallet matches Some(name) ==> in_wallet(s, row, name@)
    &&& filters.search matches Some(text) ==> found_in(row, text@)
}

/// The payments that pass the filters.
pub open spec fn listing(s: StoreView, filters: PaymentFilters) -> spec_fn(PaymentRow) -> bool {
    |row: PaymentRow| listed(s, filters, row)
}

/// A sequence that is newest first, with one more payment put in its place:
/// behind every payment that is as new or newer.
pub open spec fn insert_by_date(sorted: Seq<PaymentRow>, row: PaymentRow) -> Seq<PaymentRow>
    decreases sorted.len(),
{
    if sorted.len() == 0 {
        seq![row]
    } else if sorted.last().record.accounting_date.key() >= row.record.accounting_date.key() {
        sorted.push(row)
    } else {
        insert_by_date(sorted.drop_last(), row).push(sorted.last())
    }
}

/// The payments ordered by accounting date, newest first. Payments of the
/// same instant keep the order in which they are stored.
pub open spec fn newest_first(rows: Seq<PaymentRow>) -> Seq<PaymentRow>
    decreases rows.len(),
{
    if rows.len() == 0 {
        Seq::empty()
    } else {
        insert_by_date(newest_first(rows.drop_last()), rows.last())
    }
}

/// The part of a sequence that a page shows: `limit` elements from position
/// `offset`, or as many as there are.
pub open spec fn page_of<T>(rows: Seq<T>, limit: int, offset: int) -> Seq<T> {
    let from = if offset < rows.len() {
        offset
    } else {
        rows.len() as int
    };
    let to = if offset + limit < rows.len() {
        offset + limit
    } else {
        rows.len() as int
    };
    rows.subrange(from, to)
}

/// The payments that a listing returns.
pub open spec fn listed_page(s: StoreView, limit: int, offset: int, filters: PaymentFilters)
    -> Seq<PaymentRow> {
    page_of(newest_first(s.payments.filter(listing(s, filters))), limit, offset)
}

/// The row of the listing shows the payment as the store has it, with the
/// name and icon of its category, the name of its wallet, and its tags.
pub open spec fn shows(shown: PaymentListRow, s: StoreView, row: PaymentRow) -> bool {
    &&& shown.id == row.id
    &&& shown.category_id == Some(row.record.category_id)
    &&& match s.category(row.record.category_id) {
        Some(category) => shown.category_name == Some(category.name) && shown.category_icon
            == category.icon,
        None => shown.category_name is None && shown.category_icon is None,
    }
    &&& shown.description == row.record.description
    &&& shown.merchant_name == Some(row.record.merchant_name)
    &&& shown.accounting_date == Some(row.record.accounting_date)
    &&& shown.amount == Some(row.record.amount_in_cents)
    &&& shown.wallet_name == match row.record.wallet_id {
        Some(id) => match s.wallet(id) {
            Some(wallet) => Some(wallet.name),
            None => None,
        },
        None => None,
    }
    &&& shown.tags matches Some(tags) && tags@ == s.tag_responses(row.id)
}

/// No payment of the sequence comes before a newer one.
pub open spec fn is_newest_first(rows: Seq<PaymentRow>) -> bool {
    forall|i: int, j: int|
        0 <= i < j < rows.len() ==> (#[trigger] rows[i]).record.accounting_date.key() >= (
        #[trigger] rows[j]).record.accounting_date.key()
}

/// Putting a payment in its place keeps every payment that was there, adds
/// the one, and keeps the sequence newest first.
pub proof fn lemma_insert_by_date(sorted: Seq<PaymentRow>, row: PaymentRow)
    ensures
        insert_by_date(sorted, row).len() == sorted.len() + 1,
        insert_by_date(sorted, row).to_multiset() == sorted.to_multiset().insert(row),
        forall|k: int|
            0 <= k < insert_by_date(sorted, row).len() ==> (#[trigger] insert_by_date(
                sorted,
                row,
            )[k]) == row || sorted.contains(insert_by_date(sorted, row)[k]),
        is_newest_first(sorted) ==> is_newest_first(insert_by_date(sorted, row)),
    decreases sorted.len(),
{
    broadcast use vstd::seq_lib::to_multiset_build;

    let out = insert_by_date(sorted, row);
    if sorted.len() == 0 {
        assert(out =~= sorted.push(row));
    } else if sorted.last().record.accounting_date.key() >= row.record.accounting_date.key() {
        assert forall|k: int| 0 <= k < out.len() implies (#[trigger] out[k]) == row
            || sorted.contains(out[k]) by {
            if k < sorted.len() {
                assert(out[k] == sorted[k]);
            }
        }
    } else {
        let front = sorted.drop_last();
        let placed = insert_by_date(front, row);
        lemma_insert_by_date(front, row);
        assert(front.push(sorted.last()) =~= sorted);
        assert forall|k: int| 0 <= k < out.len() implies (#[trigger] out[k]) == row
            || sorted.contains(out[k]) by {
            if k < placed.len() {
                assert(out[k] == placed[k]);
                if placed[k] != row {
                    let j = choose|j: int| 0 <= j < front.len() && front[j] == placed[k];
                    assert(sorted[j] == out[k]);
                }
            } else {
                assert(out[k] == sorted[sorted.len() - 1]);
            }
        }
        if is_newest_first(sorted) {
            assert forall|i: int, j: int| 0 <= i < j < front.len() implies (
            #[trigger] front[i]).record.accounting_date.key() >= (
            #[trigger] front[j]).record.accounting_date.key() by {
                assert(front[i] == sorted[i] && front[j] == sorted[j]);
            }
            assert forall|i: int, j: int| 0 <= i < j < out.len() implies (
            #[trigger] out[i]).record.accounting_date.key() >= (
            #[trigger] out[j]).record.accounting_date.key() by {
                if j < placed.len() {
                    assert(out[i] == placed[i] && out[j] == placed[j]);
                } else {
                    assert(out[i] == placed[i]);
                    if placed[i] != row {
                        let k = choose|k: int| 0 <= k < front.len() && front[k] == placed[i];
                        assert(sorted[k] == placed[i]);
                    }
                }
            }
        }
    }
}

/// The listing order is an order: the payments come newest first, and they
/// are the payments that went in, each as often as it went in.
pub proof fn lemma_newest_first(rows: Seq<PaymentRow>)
    ensures
        is_newest_first(newest_first(rows)),
        newest_first(rows).to_multiset() == rows.to_multiset(),
        newest_first(rows).len() == rows.len(),
        forall|row: PaymentRow| newest_first(rows).contains(row) <==> rows.contains(row),
    decreases rows.len(),
{
    broadcast use vstd::seq_lib::to_multiset_build;
    broadcast use vstd::seq_lib::to_multiset_contains;

    if rows.len() > 0 {
        lemma_newest_first(rows.drop_last());
        lemma_insert_by_date(newest_first(rows.drop_last()), rows.last());
        assert(rows.drop_last().push(rows.last()) =~= rows);
    } else {
        assert(newest_first(rows).to_multiset() =~= rows.to_multiset());
    }
    assert forall|row: PaymentRow| newest_first(rows).contains(row) <==> rows.contains(row) by {
        assert(newest_first(rows).to_multiset().count(row) == rows.to_multiset().count(row));
    }
}

/// A page holds payments of the whole listing, in its order, and no more than
/// the limit; a limit of zero gives an empty page.
pub proof fn lemma_page_of<T>(rows: Seq<T>, limit: int, offset: int)
    requires
        limit >= 0,
        offset >= 0,
    ensures
        page_of(rows, limit, offset).len() <= limit,
        page_of(rows, limit, offset).len() <= rows.len(),
        limit == 0 ==> page_of(rows, limit, offset).len() == 0,
        forall|k: int|
            0 <= k < page_of(rows, limit, offset).len() ==> #[trigger] page_of(
                rows,
                limit,
                offset,
            )[k] == rows[offset + k],
{
}

/// The listing is exact: it holds a payment if and only if the payment is
/// stored and passes every filter that is present.
pub proof fn lemma_listing_is_exact(s: StoreView, filters: PaymentFilters, row: PaymentRow)
    ensures
        newest_first(s.payments.filter(listing(s, filters))).contains(row) <==> s.payments.contains(
            row,
        ) && listed(s, filters, row),
{
    let passing = s.payments.filter(listing(s, filters));
    lemma_newest_first(passing);
    crate::store::seqs::lemma_filter_members(s.payments, listing(s, filters));
    if passing.contains(row) {
        let k = choose|k: int| 0 <= k < passing.len() && passing[k] == row;
        assert(listing(s, filters)(passing[k]));
    }
    if s.payments.contains(row) && listed(s, filters, row) {
        let k = choose|k: int| 0 <= k < s.payments.len() && s.payments[k] == row;
        assert(listing(s, filters)(s.payments[k]));
    }
}

/// Where `insert_by_date` puts a payment: behind the last payment that is as
/// new or newer.
pub proof fn lemma_insert_position(sorted: Seq<PaymentRow>, row: PaymentRow, at: int)
    requires
        0 <= at <= sorted.len(),
        forall|j: int|
            at <= j < sorted.len() ==> (#[trigger] sorted[j]).record.accounting_date.key()
                < row.record.accounting_date.key(),
        at > 0 ==> sorted[at - 1].record.accounting_date.key() >= row.record.accounting_date.key(),
    ensures
        insert_by_date(sorted, row) == sorted.insert(at, row),
    decreases sorted.len(),
{
    if sorted.len() == 0 {
        assert(seq![row] =~= sorted.insert(at, row));
    } else if at == sorted.len() {
        assert(sorted.push(row) =~= sorted.insert(at, row));
    } else {
        let front = sorted.drop_last();
        assert forall|j: int| at <= j < front.len() implies (
        #[trigger] front[j]).record.accounting_date.key() < row.record.accounting_date.key() by {
            assert(front[j] == sorted[j]);
        }
        if at > 0 {
            assert(front[at - 1] == sorted[at - 1]);
        }
        lemma_insert_position(front, row, at);
        assert(sorted[sorted.len() - 1].record.accounting_date.key()
            < row.record.accounting_date.key());
        assert(front.insert(at, row).push(sorted.last()) =~= sorted.insert(at, row));
    }
}

fn insert_newest_first(sorted: &mut Vec<PaymentRow>, row: PaymentRow)
    ensures
        final(sorted)@ == insert_by_date(old(sorted)@, row),
{
    let mut at = sorted.len();
    while at > 0 && !row.record.accounting_date.on_or_before(&sorted[at - 1].record.accounting_date)
        invariant
            at <= sorted.len(),
            sorted@ == old(sorted)@,
            forall|j: int|
                at <= j < sorted.len() ==> (#[trigger] sorted@[j]).record.accounting_date.key()
                    < row.record.accounting_date.key(),
        decreases at,
    {
        at -= 1;
    }
    proof {
        lemma_insert_position(sorted@, row, at as int);
    }
    sorted.insert(at, row);
}

/// The filters of a listing, read once: the dates as dates, the category as
/// an id or as a name in lower case, the searched text in lower case.
struct Criteria {
    from: Option<Date>,
    to: Option<Date>,
    category_id: Option<u128>,
    category_name: Option<String>,
    wallet: Option<String>,
    needle: Option<String>,
}

impl Criteria {
    spec fn reads(self, filters: PaymentFilters) -> bool {
        &&& dates_readable(filters)
        &&& self.from == match filters.date_from {
            Some(text) => date_of(text@),
            None => None,
        }
        &&& self.to == match filters.date_to {
            Some(text) => date_of(text@),
            None => None,
        }
        &&& match filters.category {
            Some(text) => match uuid_of(text@) {
                Some(id) => self.category_id == Some(id) && self.category_name is None,
                None => self.category_id is None && (self.category_name matches Some(name)
                    && name@ == lowercase(text@)),
            },
            None => self.category_id is None && self.category_name is None,
        }
        &&& self.wallet == filters.wallet
        &&& match filters.search {
            Some(text) => self.needle matches Some(needle) && needle@ == lowercase(text@),
            None => self.needle is None,
        }
    }

    fn read(filters: &PaymentFilters) -> (r: Option<Criteria>)
        ensures
            match r {
                Some(criteria) => criteria.reads(*filters),
                None => !dates_readable(*filters),
            },
    {
        let from = match &filters.date_from {
            Some(text) => match Date::parse(text.as_str()) {
                Some(date) => Some(date),
                None => {
                    return None;
                },
            },
            None => None,
        };
        let to = match &filters.date_to {
            Some(text) => match Date::parse(text.as_str()) {
                Some(date) => Some(date),
                None => {
                    return None;
                },
            },
            None => None,
        };
        let (category_id, category_name) = match &filters.category {
            Some(text) => match parse_uuid(text.as_str()) {
                Some(id) => (Some(id), None),
                None => (None, Some(to_lowercase(text.as_str()))),
            },
            None => (None, None),
        };
        let needle = match &filters.search {
            Some(text) => Some(to_lowercase(text.as_str())),
            None => None,
        };
        Some(Criteria { from, to, category_id, category_name, wallet: filters.wallet.clone(), needle })
    }
}

impl Store {
    fn passes(&self, row: &PaymentRow, criteria: &Criteria, Ghost(filters): Ghost<PaymentFilters>)
        -> (r: bool)
        requires
            criteria.reads(filters),
        ensures
            r == listed(self@, filters, *row),
    {
        if let Some(from) = &criteria.from {
            if !from.on_or_before(&row.record.accounting_date.date) {
                return false;
            }
        }
        if let Some(to) = &criteria.to {
            if !row.record.accounting_date.date.on_or_before(to) {
                return false;
            }
        }
        if let Some(id) = criteria.category_id {
            if row.record.category_id != id {
                return false;
            }
        }
        if let Some(name) = &criteria.category_name {
            let at = self.category_position(row.record.category_id);
            let categories = self.category_rows();
            if at >= categories.len() {
                return false;
            }
            if to_lowercase(categories[at].name.as_str()) != *name {
                return false;
            }
        }
        if let Some(name) = &criteria.wallet {
            match row.record.wallet_id {
                Some(id) => {
                    let at = self.wallet_position(id);
                    let wallets = self.wallet_rows();
                    if at >= wallets.len() {
                        return false;
                    }
                    if wallets[at].name != *name {
                        return false;
                    }
                },
                None => {
                    return false;
                },
            }
        }
        if let Some(needle) = &criteria.needle {
            let in_merchant = contains(
                to_lowercase(row.record.merchant_name.as_str()).as_str(),
                needle.as_str(),
            );
            let in_description = match &row.record.description {
                Some(text) => contains(to_lowercase(text.as_str()).as_str(), needle.as_str()),
                None => false,
            };
            if !in_merchant && !in_description {
                return false;
            }
        }
        true
    }

    fn show(&self, row: &PaymentRow) -> (r: PaymentListRow)
        ensures
            shows(r, self@, *row),
    {
        let categories = self.category_rows();
        let at = self.category_position(row.record.category_id);
        let (category_name, category_icon) = if at < categories.len() {
            (Some(categories[at].name.clone()), categories[at].icon.clone())
        } else {
            (None, None)
        };
        let wallet_name = match row.record.wallet_id {
            Some(id) => {
                let wallets = self.wallet_rows();
                let at = self.wallet_position(id);
                if at < wallets.len() {
                    Some(wallets[at].name.clone())
                } else {
                    None
                }
            },
            None => None,
        };
        PaymentListRow {
            id: row.id,
            category_name,
            category_icon,
            category_id: Some(row.record.category_id),
            description: row.record.description.clone(),
            merchant_name: Some(row.record.merchant_name.clone()),
            accounting_date: Some(row.record.accounting_date),
            amount: Some(row.record.amount_in_cents),
            wallet_name,
            tags: Some(self.tag_responses(row.id)),
        }
    }

    fn passing_newest_first(&self, criteria: &Criteria, Ghost(filters): Ghost<PaymentFilters>) -> (r:
        Vec<PaymentRow>)
        requires
            criteria.reads(filters),
        ensures
            r@ == newest_first(self@.payments.filter(listing(self@, filters))),
    {
        let payments = self.payment_rows();
        let mut sorted: Vec<PaymentRow> = Vec::new();
        let mut i: usize = 0;
        proof {
            reveal(Seq::filter);
        }
        while i < payments.len()
            invariant
                i <= payments.len(),
                payments@ == self@.payments,
                criteria.reads(filters),
                sorted@ == newest_first(payments@.take(i as int).filter(listing(self@, filters))),
            decreases payments.len() - i,
        {
            proof {
                reveal(Seq::filter);
                assert(payments@.take(i + 1).drop_last() == payments@.take(i as int));
            }
            if self.passes(&payments[i], criteria, Ghost(filters)) {
                let ghost kept = payments@.take(i as int).filter(listing(self@, filters));
                assert(kept.push(payments@[i as int]).drop_last() =~= kept);
                insert_newest_first(&mut sorted, payments[i].clone());
            }
            i += 1;
        }
        assert(payments@.take(i as int) == payments@);
        sorted
    }

    /// Lists the payments that pass the filters, newest first: at most
    /// `limit` of them, after the first `offset`.
    ///
    /// The listing is refused when a date filter does not spell a date in the
    /// form `YYYY-MM-DD`, or when the limit or the offset is negative.
    pub fn list_payments(&self, limit: i64, offset: i64, filters: &PaymentFilters) -> (r: Result<
        Vec<PaymentListRow>,
        StoreError,
    >)
        ensures
            match r {
                Ok(rows) => {
                    &&& dates_readable(*filters) && limit >= 0 && offset >= 0
                    &&& rows@.len() == listed_page(self@, limit as int, offset as int, *filters).len()
                    &&& forall|i: int|
                        0 <= i < rows@.len() ==> shows(
                            #[trigger] rows@[i],
                            self@,
                            listed_page(self@, limit as int, offset as int, *filters)[i],
                        )
                },
                Err(StoreError::InvalidDate) => !dates_readable(*filters),
                Err(StoreError::InvalidRange) => dates_readable(*filters) && (limit < 0 || offset
                    < 0),
            },
    {
        let criteria = match Criteria::read(filters) {
            Some(criteria) => criteria,
            None => {
                return Err(StoreError::InvalidDate);
            },
        };
        if limit < 0 || offset < 0 {
            return Err(StoreError::InvalidRange);
        }
        let sorted = self.passing_newest_first(&criteria, Ghost(*filters));
        let ghost page = listed_page(self@, limit as int, offset as int, *filters);
        let mut rows: Vec<PaymentListRow> = Vec::new();
        let mut taken: i64 = 0;
        let mut i: usize = 0;
        while i < sorted.len() && taken < limit
            invariant
                limit >= 0,
                offset >= 0,
                i <= sorted.len(),
                0 <= taken <= limit,
                sorted@ == newest_first(self@.payments.filter(listing(self@, *filters))),
                page == listed_page(self@, limit as int, offset as int, *filters),
                if i <= offset {
                    taken == 0
                } else {
                    taken == i - offset
                },
                rows@.len() == taken,
                forall|k: int| 0 <= k < rows@.len() ==> shows(#[trigger] rows@[k], self@, page[k]),
            decreases sorted.len() - i,
        {
            if i as u64 >= offset as u64 {
                rows.push(self.show(&sorted[i]));
                taken += 1;
            }
            i += 1;
        }
        Ok(rows)
    }
}

} // verus!
