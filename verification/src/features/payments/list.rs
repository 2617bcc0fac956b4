//! The filtered listing of payments: the SQL query for a set of filters, with
//! one clause and one bound value per filter that is present.

use vstd::prelude::*;
use vstd::string::StringExecFns;
use crate::domain::DateTime;
use crate::features::payments::models::{
    PagedResponse, PaginationParams, PaymentFilters, PaymentResponseDto,
};
use crate::store::listing::{
    dates_readable, lemma_listing_is_exact, lemma_page_of, listed, listed_page, listing,
    newest_first, shows, PaymentListRow,
};
use crate::store::memory::Store;
use crate::store::model::StoreView;
use crate::store::rows::PaymentRow;
use crate::text::{contains_text, same_ignoring_case};
use crate::sql::{
    bind_views, placeholder, push_placeholder, push_where, texts, where_clause, Bind, BindView,
};
use crate::text::{lowercase, parse_uuid, to_lowercase, uuid_of};

verus! {

/// What a clause of the listing query compares.
#[derive(Debug, Clone, Copy, PartialEq, Eq, Structural)]
pub enum Predicate {
    /// The accounting date is on or after a date.
    DateFrom,
    /// The accounting date is on or before a date.
    DateTo,
    /// The category has an id.
    CategoryId,
    /// The category has a name, compared without regard to case.
    CategoryName,
    /// The wallet has a name.
    Wallet,
    /// The merchant name or the description holds a text, compared without
    /// regard to case.
    Search,
}

/// One clause of the listing query: a predicate and the number of the
/// positional parameter that it compares with.
#[derive(Debug, Clone, Copy, PartialEq, Eq, Structural)]
pub struct Condition {
    pub predicate: Predicate,
    pub parameter: usize,
}

/// The listing query: its text, its clauses, and the values to bind, the
/// first to `$1`, the second to `$2`, and so on.
#[derive(Debug)]
pub struct ListQuery {
    pub sql: String,
    pub conditions: Vec<Condition>,
    pub binds: Vec<Bind>,
}

/// The predicate of the category filter: by id if the text spells an
/// identifier, else by name.
pub open spec fn category_predicate(text: Seq<char>) -> Predicate {
    if uuid_of(text) is Some {
        Predicate::CategoryId
    } else {
        Predicate::CategoryName
    }
}

/// The predicates of the filters that are present, in the fixed order: date
/// from, date to, category, wallet, search.
pub open spec fn predicates(filters: PaymentFilters) -> Seq<Predicate> {
    (if filters.date_from is Some {
        seq![Predicate::DateFrom]
    } else {
        seq![]
    }) + (if filters.date_to is Some {
        seq![Predicate::DateTo]
    } else {
        seq![]
    }) + (match filters.category {
        Some(text) => seq![category_predicate(text@)],
        None => seq![],
    }) + (if filters.wallet is Some {
        seq![Predicate::Wallet]
    } else {
        seq![]
    }) + (if filters.search is Some {
        seq![Predicate::Search]
    } else {
        seq![]
    })
}

/// The pattern that finds a text anywhere, whatever the case of its letters.
pub open spec fn search_pattern(text: Seq<char>) -> Seq<char> {
    seq!['%'] + lowercase(text) + seq!['%']
}

/// The value that a predicate compares with. The text of a filter goes into
/// the bound value only, never into the text of the query.
pub open spec fn bind_for(filters: PaymentFilters, predicate: Predicate) -> BindView {
    match predicate {
        Predicate::DateFrom => BindView::Text(filters.date_from->0@),
        Predicate::DateTo => BindView::Text(filters.date_to->0@),
        Predicate::CategoryId => BindView::Id(uuid_of(filters.category->0@)->0),
        Predicate::CategoryName => BindView::Text(filters.category->0@),
        Predicate::Wallet => BindView::Text(filters.wallet->0@),
        Predicate::Search => BindView::Text(search_pattern(filters.search->0@)),
    }
}

/// The clauses for a sequence of predicates: the first compares with `$3`,
/// the next with `$4`, and so on, after the limit `$1` and the offset `$2`.
pub open spec fn conditions_for(predicates: Seq<Predicate>) -> Seq<Condition> {
    Seq::new(
        predicates.len(),
        |i: int| Condition { predicate: predicates[i], parameter: (i + 3) as usize },
    )
}

/// The values that a sequence of predicates compares with.
pub open spec fn values_for(filters: PaymentFilters, predicates: Seq<Predicate>) -> Seq<BindView> {
    predicates.map_values(|p: Predicate| bind_for(filters, p))
}

/// The values to bind: the limit, the offset, and the value of each
/// predicate, in the order of the predicates.
pub open spec fn binds_for(limit: i64, offset: i64, filters: PaymentFilters) -> Seq<BindView> {
    seq![BindView::Int(limit), BindView::Int(offset)] + values_for(filters, predicates(filters))
}

/// The text of a clause.
pub open spec fn clause(condition: Condition) -> Seq<char> {
    let parameter = placeholder(condition.parameter as nat);
    match condition.predicate {
        Predicate::DateFrom => "DATE(p.accounting_date) >= "@ + parameter + "::date"@,
        Predicate::DateTo => "DATE(p.accounting_date) <= "@ + parameter + "::date"@,
        Predicate::CategoryId => "p.category_id = "@ + parameter,
        Predicate::CategoryName => "LOWER(c.name) = LOWER("@ + parameter + ")"@,
        Predicate::Wallet => "w.name = "@ + parameter,
        Predicate::Search => "(LOWER(p.merchant_name) LIKE "@ + parameter
            + " OR LOWER(p.description) LIKE "@ + parameter + ")"@,
    }
}

/// The texts of the clauses.
pub open spec fn clauses(conditions: Seq<Condition>) -> Seq<Seq<char>> {
    conditions.map_values(|c: Condition| clause(c))
}

/// The query up to its `WHERE` part: the columns of a payment, the name and
/// icon of its category, the name of its wallet and its tags as a JSON array.
/// Categories and wallets are joined from the left, so that a payment whose
/// wallet is gone is still listed.
pub open spec fn list_head() -> Seq<char> {
    "SELECT p.id, c.name AS category_name, c.icon AS category_icon, p.category_id, p.description, p.merchant_name, p.accounting_date, p.amount, w.name AS wallet_name, COALESCE((SELECT json_agg(json_build_object('id', pt.id, 'key', pt.key, 'value', pt.value)) FROM expenses.payments_tags pt WHERE pt.payment_id = p.id), '[]'::json) AS tags FROM expenses.payments p LEFT JOIN expenses.categories c ON p.category_id = c.id LEFT JOIN expenses.wallets w ON p.wallet_id = w.id "@
}

/// The end of the query: newest first, and one page of it.
pub open spec fn list_tail() -> Seq<char> {
    " ORDER BY p.accounting_date DESC LIMIT $1 OFFSET $2"@
}

/// The text of the listing query with these clauses.
pub open spec fn list_sql(conditions: Seq<Condition>) -> Seq<char> {
    list_head() + where_clause(clauses(conditions)) + list_tail()
}

fn push_clause(out: &mut String, condition: &Condition)
    ensures
        final(out)@ == old(out)@ + clause(*condition),
{
    match condition.predicate {
        Predicate::DateFrom => {
            out.append("DATE(p.accounting_date) >= ");
            push_placeholder(out, condition.parameter);
            out.append("::date");
        },
        Predicate::DateTo => {
            out.append("DATE(p.accounting_date) <= ");
            push_placeholder(out, condition.parameter);
            out.append("::date");
        },
        Predicate::CategoryId => {
            out.append("p.category_id = ");
            push_placeholder(out, condition.parameter);
        },
        Predicate::CategoryName => {
            out.append("LOWER(c.name) = LOWER(");
            push_placeholder(out, condition.parameter);
            out.append(")");
        },
        Predicate::Wallet => {
            out.append("w.name = ");
            push_placeholder(out, condition.parameter);
        },
        Predicate::Search => {
            out.append("(LOWER(p.merchant_name) LIKE ");
            push_placeholder(out, condition.parameter);
            out.append(" OR LOWER(p.description) LIKE ");
            push_placeholder(out, condition.parameter);
            out.append(")");
        },
    }
    assert(out@ =~= old(out)@ + clause(*condition));
}

/// Writes the text of the listing query with these clauses.
pub fn render_list_sql(conditions: &Vec<Condition>) -> (r: String)
    ensures
        r@ == list_sql(conditions@),
{
    let mut parts: Vec<String> = Vec::new();
    let mut i: usize = 0;
    while i < conditions.len()
        invariant
            i <= conditions.len(),
            texts(parts@) == clauses(conditions@.take(i as int)),
        decreases conditions.len() - i,
    {
        let mut part = String::new();
        push_clause(&mut part, &conditions[i]);
        assert(part@ =~= clause(conditions@[i as int]));
        let ghost before = parts@;
        parts.push(part);
        assert(texts(parts@) =~= texts(before).push(clause(conditions@[i as int])));
        assert(texts(parts@) =~= clauses(conditions@.take(i + 1)));
        i += 1;
    }
    assert(conditions@.take(i as int) == conditions@);
    let mut out = "SELECT p.id, c.name AS category_name, c.icon AS category_icon, p.category_id, p.description, p.merchant_name, p.accounting_date, p.amount, w.name AS wallet_name, COALESCE((SELECT json_agg(json_build_object('id', pt.id, 'key', pt.key, 'value', pt.value)) FROM expenses.payments_tags pt WHERE pt.payment_id = p.id), '[]'::json) AS tags FROM expenses.payments p LEFT JOIN expenses.categories c ON p.category_id = c.id LEFT JOIN expenses.wallets w ON p.wallet_id = w.id ".to_string();
    push_where(&mut out, &parts);
    out.append(" ORDER BY p.accounting_date DESC LIMIT $1 OFFSET $2");
    out
}

/// The clauses and the values so far are those of the predicates `seen`.
pub open spec fn built(
    conditions: Seq<Condition>,
    binds: Seq<Bind>,
    limit: i64,
    offset: i64,
    filters: PaymentFilters,
    seen: Seq<Predicate>,
) -> bool {
    &&& conditions == conditions_for(seen)
    &&& bind_views(binds) == seq![BindView::Int(limit), BindView::Int(offset)] + values_for(
        filters,
        seen,
    )
}

fn start_binds(limit: i64, offset: i64, Ghost(filters): Ghost<PaymentFilters>) -> (r: (
    Vec<Condition>,
    Vec<Bind>,
))
    ensures
        built(r.0@, r.1@, limit, offset, filters, Seq::empty()),
{
    let conditions: Vec<Condition> = Vec::new();
    let mut binds: Vec<Bind> = Vec::new();
    binds.push(Bind::Int(limit));
    binds.push(Bind::Int(offset));
    assert(bind_views(binds@) =~= seq![BindView::Int(limit), BindView::Int(offset)] + values_for(
        filters,
        Seq::empty(),
    ));
    assert(conditions@ =~= conditions_for(Seq::empty()));
    (conditions, binds)
}

fn add_condition(
    conditions: &mut Vec<Condition>,
    binds: &mut Vec<Bind>,
    predicate: Predicate,
    bind: Bind,
    Ghost(limit): Ghost<i64>,
    Ghost(offset): Ghost<i64>,
    Ghost(filters): Ghost<PaymentFilters>,
    Ghost(seen): Ghost<Seq<Predicate>>,
)
    requires
        built(old(conditions)@, old(binds)@, limit, offset, filters, seen),
        bind@ == bind_for(filters, predicate),
        seen.len() < 5,
    ensures
        built(final(conditions)@, final(binds)@, limit, offset, filters, seen.push(predicate)),
{
    assert(binds@.len() == bind_views(binds@).len());
    conditions.push(Condition { predicate, parameter: binds.len() + 1 });
    binds.push(bind);
    assert(bind_views(binds@) =~= bind_views(old(binds)@).push(bind@));
    assert(values_for(filters, seen.push(predicate)) =~= values_for(filters, seen).push(
        bind_for(filters, predicate),
    ));
    assert(bind_views(binds@) =~= seq![BindView::Int(limit), BindView::Int(offset)] + values_for(
        filters,
        seen.push(predicate),
    ));
    assert(conditions@ =~= conditions_for(seen.push(predicate)));
}

/// Builds the listing query for a page and a set of filters.
///
/// Each filter that is present adds one clause and one bound value, in the
/// fixed order; a filter that is absent adds neither. The clause of the
/// filter at position `i` among those present compares with the parameter
/// `$(i + 3)`, which is where its value is bound.
pub fn build_list_query(limit: i64, offset: i64, filters: &PaymentFilters) -> (query: ListQuery)
    ensures
        query.conditions@ == conditions_for(predicates(*filters)),
        bind_views(query.binds@) == binds_for(limit, offset, *filters),
        query.sql@ == list_sql(query.conditions@),
{
    let (mut conditions, mut binds) = start_binds(limit, offset, Ghost(*filters));
    let ghost mut seen: Seq<Predicate> = Seq::empty();
    if let Some(date_from) = &filters.date_from {
        add_condition(
            &mut conditions,
            &mut binds,
            Predicate::DateFrom,
            Bind::Text(date_from.clone()),
            Ghost(limit),
            Ghost(offset),
            Ghost(*filters),
            Ghost(seen),
        );
        proof {
            seen = seen.push(Predicate::DateFrom);
        }
    }
    assert(seen.len() <= 1);
    if let Some(date_to) = &filters.date_to {
        add_condition(
            &mut conditions,
            &mut binds,
            Predicate::DateTo,
            Bind::Text(date_to.clone()),
            Ghost(limit),
            Ghost(offset),
            Ghost(*filters),
            Ghost(seen),
        );
        proof {
            seen = seen.push(Predicate::DateTo);
        }
    }
    assert(seen.len() <= 2);
    if let Some(category) = &filters.category {
        let (predicate, bind) = match parse_uuid(category.as_str()) {
            Some(id) => (Predicate::CategoryId, Bind::Id(id)),
            None => (Predicate::CategoryName, Bind::Text(category.clone())),
        };
        add_condition(
            &mut conditions,
            &mut binds,
            predicate,
            bind,
            Ghost(limit),
            Ghost(offset),
            Ghost(*filters),
            Ghost(seen),
        );
        proof {
            seen = seen.push(predicate);
        }
    }
    assert(seen.len() <= 3);
    if let Some(wallet) = &filters.wallet {
        add_condition(
            &mut conditions,
            &mut binds,
            Predicate::Wallet,
            Bind::Text(wallet.clone()),
            Ghost(limit),
            Ghost(offset),
            Ghost(*filters),
            Ghost(seen),
        );
        proof {
            seen = seen.push(Predicate::Wallet);
        }
    }
    assert(seen.len() <= 4);
    if let Some(search) = &filters.search {
        let pattern = "%".to_string().concat(to_lowercase(search.as_str()).as_str()).concat("%");
        proof {
            reveal_strlit("%");
            assert(pattern@ =~= search_pattern(search@));
        }
        add_condition(
            &mut conditions,
            &mut binds,
            Predicate::Search,
            Bind::Text(pattern),
            Ghost(limit),
            Ghost(offset),
            Ghost(*filters),
            Ghost(seen),
        );
        proof {
            seen = seen.push(Predicate::Search);
        }
    }
    assert(seen =~= predicates(*filters));
    let sql = render_list_sql(&conditions);
    ListQuery { sql, conditions, binds }
}

/// How a listing ended.
#[derive(Debug)]
pub enum ListOutcome {
    /// The page that was asked for.
    Page(PagedResponse<PaymentResponseDto>),
    /// The page lies beyond what can be counted: page times size does not fit
    /// in 64 bits.
    OutOfRange,
    /// The store refused the query or failed.
    Failed,
}

impl ListOutcome {
    /// The HTTP status that reports the outcome: 200 for a page, 400 for a
    /// page that cannot be counted, 500 for a refusal or failure of the store.
    pub open spec fn spec_status(&self) -> u16 {
        match *self {
            ListOutcome::Page(_) => 200,
            ListOutcome::OutOfRange => 400,
            ListOutcome::Failed => 500,
        }
    }

    /// The HTTP status that reports the outcome.
    #[verifier::when_used_as_spec(spec_status)]
    pub fn status(&self) -> (r: u16)
        ensures
            r == self.spec_status(),
    {
        match self {
            ListOutcome::Page(_) => 200,
            ListOutcome::OutOfRange => 400,
            ListOutcome::Failed => 500,
        }
    }
}

/// The number of payments that come before a page: the pages are counted
/// from zero.
pub fn page_offset(page: i64, size: i64) -> (r: Option<i64>)
    ensures
        r == if i64::MIN <= page * size <= i64::MAX {
            Some((page * size) as i64)
        } else {
            None::<i64>
        },
{
    page.checked_mul(size)
}

/// The response shows what the row of the listing holds. A column that is
/// absent is shown as nothing where the response allows it; else the amount
/// is shown as zero, a text as empty, the date as the first instant of 1970,
/// and tags that could not be read as no tags.
pub open spec fn assembled(response: PaymentResponseDto, row: PaymentListRow) -> bool {
    &&& response.id == row.id
    &&& response.description == row.description
    &&& response.amount_in_cents == match row.amount {
        Some(amount) => amount,
        None => 0,
    }
    &&& response.merchant_name@ == match row.merchant_name {
        Some(name) => name@,
        None => Seq::empty(),
    }
    &&& response.accounting_date == match row.accounting_date {
        Some(date) => date,
        None => DateTime { date: crate::domain::Date { year: 1970, month: 1, day: 1 }, second: 0, nanosecond: 0 },
    }
    &&& response.category@ == match row.category_name {
        Some(name) => name@,
        None => Seq::empty(),
    }
    &&& response.category_id == row.category_id
    &&& response.category_icon == row.category_icon
    &&& response.wallet == row.wallet_name
    &&& response.tags@ == match row.tags {
        Some(tags) => tags@,
        None => Seq::empty(),
    }
}

/// Turns a row of the listing into the response for one payment.
pub fn assemble(row: PaymentListRow) -> (response: PaymentResponseDto)
    ensures
        assembled(response, row),
{
    PaymentResponseDto {
        id: row.id,
        description: row.description,
        amount_in_cents: match row.amount {
            Some(amount) => amount,
            None => 0,
        },
        merchant_name: match row.merchant_name {
            Some(name) => name,
            None => String::new(),
        },
        accounting_date: match row.accounting_date {
            Some(date) => date,
            None => DateTime::epoch(),
        },
        category: match row.category_name {
            Some(name) => name,
            None => String::new(),
        },
        category_id: row.category_id,
        category_icon: row.category_icon,
        wallet: row.wallet_name,
        tags: match row.tags {
            Some(tags) => tags,
            None => Vec::new(),
        },
    }
}

/// Turns the rows of a listing into a page, in their order.
pub fn assemble_page(rows: Vec<PaymentListRow>, page: i64, size: i64) -> (response: PagedResponse<
    PaymentResponseDto,
>)
    ensures
        response.page == page,
        response.size == size,
        response.content@.len() == rows@.len(),
        forall|i: int|
            0 <= i < rows@.len() ==> assembled(#[trigger] response.content@[i], rows@[i]),
{
    let ghost all = rows@;
    let mut content: Vec<PaymentResponseDto> = Vec::new();
    for row in it: rows
        invariant
            it.seq() == all,
            content@.len() == it.index(),
            forall|k: int| 0 <= k < content@.len() ==> assembled(#[trigger] content@[k], all[k]),
    {
        content.push(assemble(row));
    }
    PagedResponse { content, page, size }
}

/// The response shows a stored payment with the name and icon of its
/// category, the name of its wallet, and its tags, as the store has them.
pub open spec fn presents(response: PaymentResponseDto, s: StoreView, row: PaymentRow) -> bool {
    &&& response.id == row.id
    &&& response.description == row.record.description
    &&& response.amount_in_cents == row.record.amount_in_cents
    &&& response.merchant_name@ == row.record.merchant_name@
    &&& response.accounting_date == row.record.accounting_date
    &&& response.category_id == Some(row.record.category_id)
    &&& match s.category(row.record.category_id) {
        Some(category) => response.category@ == category.name@ && response.category_icon
            == category.icon,
        None => response.category@.len() == 0 && response.category_icon is None,
    }
    &&& response.wallet == match row.record.wallet_id {
        Some(id) => match s.wallet(id) {
            Some(wallet) => Some(wallet.name),
            None => None,
        },
        None => None,
    }
    &&& response.tags@ == s.tag_responses(row.id)
}

/// Lists one page of the payments of the store that pass the filters of the
/// query string, newest first.
///
/// The page `page`, counted from zero, holds `size` payments after the first
/// `page * size`. A negative page or size is left to the store, which
/// refuses it, as it refuses a date filter that does not spell a date.
pub fn get_recent_payments(store: &Store, params: &PaginationParams) -> (outcome: ListOutcome)
    ensures
        match outcome {
            ListOutcome::Page(response) => {
                &&& i64::MIN <= params.page * params.size <= i64::MAX
                &&& params.size >= 0 && params.page * params.size >= 0
                &&& dates_readable(PaymentFilters::spec_from(*params))
                &&& response.page == params.page
                &&& response.size == params.size
                &&& response.content@.len() == listed_page(
                    store@,
                    params.size as int,
                    params.page * params.size,
                    PaymentFilters::spec_from(*params),
                ).len()
                &&& forall|i: int|
                    0 <= i < response.content@.len() ==> presents(
                        #[trigger] response.content@[i],
                        store@,
                        listed_page(
                            store@,
                            params.size as int,
                            params.page * params.size,
                            PaymentFilters::spec_from(*params),
                        )[i],
                    )
            },
            ListOutcome::OutOfRange => !(i64::MIN <= params.page * params.size <= i64::MAX),
            ListOutcome::Failed => i64::MIN <= params.page * params.size <= i64::MAX && (
            !dates_readable(PaymentFilters::spec_from(*params)) || params.size < 0 || params.page
                * params.size < 0),
        },
{
    let offset = match page_offset(params.page, params.size) {
        Some(offset) => offset,
        None => {
            return ListOutcome::OutOfRange;
        },
    };
    let filters = PaymentFilters::from(params);
    match store.list_payments(params.size, offset, &filters) {
        Ok(rows) => {
            let ghost shown = rows@;
            let response = assemble_page(rows, params.page, params.size);
            proof {
                let expected = listed_page(
                    store@,
                    params.size as int,
                    params.page * params.size,
                    PaymentFilters::spec_from(*params),
                );
                assert forall|i: int| 0 <= i < response.content@.len() implies presents(
                    #[trigger] response.content@[i],
                    store@,
                    expected[i],
                ) by {
                    assert(shows(shown[i], store@, expected[i]));
                    assert(assembled(response.content@[i], shown[i]));
                }
            }
            ListOutcome::Page(response)
        },
        Err(_) => ListOutcome::Failed,
    }
}

/// With a category filter, every payment of the listing has the category
/// that the filter names: the category with that id if the filter spells an
/// identifier, else a category of that name, whatever the case of the letters.
pub proof fn lemma_category_filter(
    s: StoreView,
    filters: PaymentFilters,
    limit: int,
    offset: int,
    text: String,
    i: int,
)
    requires
        limit >= 0,
        offset >= 0,
        filters.category == Some(text),
        0 <= i < listed_page(s, limit, offset, filters).len(),
    ensures
        s.payments.contains(listed_page(s, limit, offset, filters)[i]),
        match uuid_of(text@) {
            Some(id) => listed_page(s, limit, offset, filters)[i].record.category_id == id,
            None => s.category(
                listed_page(s, limit, offset, filters)[i].record.category_id,
            ) matches Some(category) && same_ignoring_case(category.name@, text@),
        },
{
    let all = newest_first(s.payments.filter(listing(s, filters)));
    lemma_page_of(all, limit, offset);
    let row = listed_page(s, limit, offset, filters)[i];
    assert(all[offset + i] == row);
    lemma_listing_is_exact(s, filters, row);
}

/// With a search filter, the listing holds exactly the stored payments that
/// pass the other filters and whose merchant name or description holds the
/// searched text, whatever the case of the letters.
pub proof fn lemma_search_filter(s: StoreView, filters: PaymentFilters, text: String, row: PaymentRow)
    requires
        filters.search == Some(text),
    ensures
        newest_first(s.payments.filter(listing(s, filters))).contains(row) <==> {
            &&& s.payments.contains(row)
            &&& listed(s, PaymentFilters { search: None, ..filters }, row)
            &&& (contains_text(lowercase(row.record.merchant_name@), lowercase(text@)) || (
            row.record.description matches Some(d) && contains_text(
                lowercase(d@),
                lowercase(text@),
            )))
        },
{
    lemma_listing_is_exact(s, filters, row);
}

/// The clauses and the bound values of the listing query stay in step: there
/// is one clause and one value for each filter that is present, the clause
/// at position `i` compares with the parameter `$(i + 3)`, and the value of
/// its filter is bound to that parameter.
pub proof fn lemma_clauses_and_binds_in_step(limit: i64, offset: i64, filters: PaymentFilters, i: int)
    requires
        0 <= i < predicates(filters).len(),
    ensures
        predicates(filters).len() <= 5,
        conditions_for(predicates(filters)).len() == predicates(filters).len(),
        binds_for(limit, offset, filters).len() == predicates(filters).len() + 2,
        binds_for(limit, offset, filters)[0] == BindView::Int(limit),
        binds_for(limit, offset, filters)[1] == BindView::Int(offset),
        conditions_for(predicates(filters))[i].parameter == i + 3,
        binds_for(limit, offset, filters)[conditions_for(predicates(filters))[i].parameter - 1]
            == bind_for(filters, conditions_for(predicates(filters))[i].predicate),
{
}

} // verus!
