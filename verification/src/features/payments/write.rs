//! The write pipeline of payments, as a machine that a caller drives: the
//! machine names the next statement for the store, the caller runs it and
//! hands the reply back. Creation and update share the machine; they differ in
//! how the row is persisted and in what a failed tag insert means.

use vstd::prelude::*;
use crate::features::payments::create::{kept_description, valid_texts, validate_payment};
use crate::features::payments::models::{
    CategoryIdentifier, PaymentResponseDto, TagDto, TagResponseDto,
};
use crate::domain::DateTime;
use crate::store::protocol::{StoreReply, StoreRequest};
use crate::store::rows::PaymentRecord;

verus! {

/// Where a write stands: which reply it waits for.
#[derive(Debug)]
pub enum Phase {
    /// Looking the wallet up by its name.
    ResolvingWallet { name: String },
    /// Looking the category up by its name.
    FindingCategory { name: String },
    /// Creating the category, which the lookup did not find.
    CreatingCategory { name: String },
    /// Looking the category up again, after its creation failed: another
    /// writer may have created it in between.
    RefindingCategory { name: String },
    /// Checking that the resolved category exists.
    CheckingCategory,
    /// Inserting or updating the payment row.
    Persisting,
    /// Removing the tags that the payment had, on update.
    ClearingTags,
    /// Inserting the tag at position `next` of the request.
    InsertingTags { next: usize, key: String, value: String },
    /// Reading the name of the wallet for the response.
    ReadingWalletName { id: u128 },
    /// Reading the stored tags for the response.
    ReadingTags,
    /// Reading the name of the category for the response.
    ReadingCategoryName,
    /// Reading the icon of the category for the response.
    ReadingCategoryIcon,
}

/// How a write ended.
#[derive(Debug)]
pub enum WriteOutcome {
    /// The payment is stored; this is what the client gets back.
    Saved(PaymentResponseDto),
    /// A text of the request is malformed. Nothing was sent to the store.
    Invalid,
    /// No wallet has the name that the request gives.
    WalletNotFound { name: String },
    /// No category has the id that the request gives.
    CategoryNotFound,
    /// The store failed, or answered what it cannot have answered.
    Failed,
}

/// A write in progress.
#[derive(Debug)]
pub struct PaymentWrite {
    /// The payment to update; none on creation.
    pub target: Option<u128>,
    /// The category as the request names it.
    pub category: CategoryIdentifier,
    /// The tags of the request, in its order.
    pub tags: Vec<TagDto>,
    /// The columns to store. The ids of the category and the wallet are set as
    /// they are resolved.
    pub record: PaymentRecord,
    pub phase: Phase,
    /// The id of the stored payment, once it is persisted.
    pub payment_id: u128,
    /// The name of the wallet, read back for the response.
    pub wallet_name: Option<String>,
    /// The stored tags, read back for the response.
    pub response_tags: Vec<TagResponseDto>,
    /// The name of the category, read back for the response.
    pub category_name: String,
}

/// What a write does next: ask the store, or end.
#[derive(Debug)]
pub enum Step {
    Ask(PaymentWrite),
    Finish(WriteOutcome),
}

/// What a write was asked to store: the request once its optional parts are
/// settled.
pub struct Plan {
    /// The payment to update; none on creation.
    pub target: Option<u128>,
    /// The description to store: none if the request had none or a blank one.
    pub description: Option<String>,
    pub merchant_name: String,
    pub accounting_date: DateTime,
    pub amount_in_cents: i32,
    pub category: CategoryIdentifier,
    pub wallet: Option<String>,
    /// The tags of the request, none if it had no list.
    pub tags: Seq<TagDto>,
}

/// The tags of a request as a sequence.
pub open spec fn tags_of_request(tags: Option<Vec<TagDto>>) -> Seq<TagDto> {
    match tags {
        Some(list) => list@,
        None => Seq::empty(),
    }
}

/// The plan of a write with these inputs.
pub open spec fn plan_for(
    target: Option<u128>,
    description: Option<String>,
    category: CategoryIdentifier,
    amount_in_cents: i32,
    merchant_name: String,
    accounting_date: DateTime,
    wallet: Option<String>,
    tags: Option<Vec<TagDto>>,
) -> Plan {
    Plan {
        target,
        description: kept_description(description),
        merchant_name,
        accounting_date,
        amount_in_cents,
        category,
        wallet,
        tags: tags_of_request(tags),
    }
}

impl Step {
    /// How far the step is from the end of the write, counted in phases.
    pub open spec fn rank(self) -> nat {
        match self {
            Step::Ask(write) => write.rank(),
            Step::Finish(_) => 0,
        }
    }

    /// The tags that are still to be inserted.
    pub open spec fn remaining(self) -> nat {
        match self {
            Step::Ask(write) => write.remaining(),
            Step::Finish(_) => 0,
        }
    }
}

impl WriteOutcome {
    /// The HTTP status that reports the outcome.
    pub open spec fn spec_status(&self) -> u16 {
        match *self {
            WriteOutcome::Saved(_) => 200,
            WriteOutcome::Invalid => 400,
            WriteOutcome::WalletNotFound { .. } => 400,
            WriteOutcome::CategoryNotFound => 400,
            WriteOutcome::Failed => 500,
        }
    }

    /// The HTTP status that reports the outcome: 200 for a stored payment, 400
    /// for what the client got wrong, 500 for a failure of the store.
    #[verifier::when_used_as_spec(spec_status)]
    pub fn status(&self) -> (r: u16)
        ensures
            r == self.spec_status(),
    {
        match self {
            WriteOutcome::Saved(_) => 200,
            WriteOutcome::Invalid => 400,
            WriteOutcome::WalletNotFound { .. } => 400,
            WriteOutcome::CategoryNotFound => 400,
            WriteOutcome::Failed => 500,
        }
    }
}

impl PaymentWrite {
    /// The statement that the write waits on.
    pub open spec fn spec_request(&self) -> StoreRequest {
        match self.phase {
            Phase::ResolvingWallet { name } => StoreRequest::WalletIdByName { name },
            Phase::FindingCategory { name } => StoreRequest::CategoryIdByName { name },
            Phase::CreatingCategory { name } => StoreRequest::InsertCategory { name },
            Phase::RefindingCategory { name } => StoreRequest::CategoryIdByName { name },
            Phase::CheckingCategory => StoreRequest::CategoryExists { id: self.record.category_id },
            Phase::Persisting => match self.target {
                Some(id) => StoreRequest::UpdatePayment { id, payment: self.record },
                None => StoreRequest::InsertPayment { payment: self.record },
            },
            Phase::ClearingTags => StoreRequest::DeletePaymentTags { payment_id: self.payment_id },
            Phase::InsertingTags { next, key, value } => StoreRequest::InsertPaymentTag {
                payment_id: self.payment_id,
                key,
                value,
            },
            Phase::ReadingWalletName { id } => StoreRequest::WalletName { id },
            Phase::ReadingTags => StoreRequest::PaymentTags { payment_id: self.payment_id },
            Phase::ReadingCategoryName => StoreRequest::CategoryName {
                id: self.record.category_id,
            },
            Phase::ReadingCategoryIcon => StoreRequest::CategoryIcon {
                id: self.record.category_id,
            },
        }
    }

    /// The statement to run against the store before the next `advance`.
    #[verifier::when_used_as_spec(spec_request)]
    pub fn request(&self) -> (r: StoreRequest)
        ensures
            r == self.spec_request(),
    {
        match &self.phase {
            Phase::ResolvingWallet { name } => StoreRequest::WalletIdByName { name: name.clone() },
            Phase::FindingCategory { name } => StoreRequest::CategoryIdByName {
                name: name.clone(),
            },
            Phase::CreatingCategory { name } => StoreRequest::InsertCategory { name: name.clone() },
            Phase::RefindingCategory { name } => StoreRequest::CategoryIdByName {
                name: name.clone(),
            },
            Phase::CheckingCategory => StoreRequest::CategoryExists { id: self.record.category_id },
            Phase::Persisting => match self.target {
                Some(id) => StoreRequest::UpdatePayment { id, payment: self.record.clone() },
                None => StoreRequest::InsertPayment { payment: self.record.clone() },
            },
            Phase::ClearingTags => StoreRequest::DeletePaymentTags { payment_id: self.payment_id },
            Phase::InsertingTags { next, key, value } => StoreRequest::InsertPaymentTag {
                payment_id: self.payment_id,
                key: key.clone(),
                value: value.clone(),
            },
            Phase::ReadingWalletName { id } => StoreRequest::WalletName { id: *id },
            Phase::ReadingTags => StoreRequest::PaymentTags { payment_id: self.payment_id },
            Phase::ReadingCategoryName => StoreRequest::CategoryName {
                id: self.record.category_id,
            },
            Phase::ReadingCategoryIcon => StoreRequest::CategoryIcon {
                id: self.record.category_id,
            },
        }
    }

    /// How far the write is from its end, counted in phases.
    pub open spec fn rank(self) -> nat {
        match self.phase {
            Phase::ResolvingWallet { .. } => 12,
            Phase::FindingCategory { .. } => 11,
            Phase::CreatingCategory { .. } => 10,
            Phase::RefindingCategory { .. } => 9,
            Phase::CheckingCategory => 8,
            Phase::Persisting => 7,
            Phase::ClearingTags => 6,
            Phase::InsertingTags { .. } => 5,
            Phase::ReadingWalletName { .. } => 4,
            Phase::ReadingTags => 3,
            Phase::ReadingCategoryName => 2,
            Phase::ReadingCategoryIcon => 1,
        }
    }

    /// The tags that are still to be inserted.
    pub open spec fn remaining(self) -> nat {
        match self.phase {
            Phase::InsertingTags { next, .. } if next < self.tags@.len() => (self.tags@.len()
                - next) as nat,
            _ => 0,
        }
    }

    /// The write carries what the plan says, whatever its phase.
    pub open spec fn follows(self, plan: Plan) -> bool {
        &&& self.target == plan.target
        &&& self.category == plan.category
        &&& self.tags@ == plan.tags
        &&& self.record.description == plan.description
        &&& self.record.merchant_name == plan.merchant_name
        &&& self.record.accounting_date == plan.accounting_date
        &&& self.record.amount_in_cents == plan.amount_in_cents
    }

    /// Nothing has been read back for the response yet.
    pub open spec fn nothing_read(self) -> bool {
        &&& self.wallet_name is None
        &&& self.response_tags@.len() == 0
        &&& self.category_name@.len() == 0
    }

    /// The write is at its first statement: the lookup of the wallet if the
    /// plan names one, else the resolution of the category.
    pub open spec fn fresh(self, plan: Plan) -> bool {
        &&& self.follows(plan)
        &&& self.nothing_read()
        &&& self.payment_id == 0
        &&& self.record.wallet_id is None
        &&& match plan.wallet {
            Some(name) => self.phase == (Phase::ResolvingWallet { name })
                && self.record.category_id == 0,
            None => match plan.category {
                CategoryIdentifier::Uid(id) => self.phase == Phase::CheckingCategory
                    && self.record.category_id == id,
                CategoryIdentifier::Name(name) => self.phase == (Phase::FindingCategory { name })
                    && self.record.category_id == 0,
            },
        }
    }

    /// The write with another phase.
    pub open spec fn at(self, phase: Phase) -> PaymentWrite {
        PaymentWrite { phase, ..self }
    }

    /// The write once its category is known to be `id`: the next thing is to
    /// check that the category exists.
    pub open spec fn with_category(self, id: u128) -> PaymentWrite {
        PaymentWrite {
            record: PaymentRecord { category_id: id, ..self.record },
            phase: Phase::CheckingCategory,
            ..self
        }
    }

    /// Starts the resolution of the category: a name is looked up, an id is
    /// taken as it is and checked.
    pub open spec fn spec_resolve_category(self) -> PaymentWrite {
        match self.category {
            CategoryIdentifier::Uid(id) => self.with_category(id),
            CategoryIdentifier::Name(name) => self.at(Phase::FindingCategory { name }),
        }
    }

    /// Starts the response: the wallet's name is read if the payment has a
    /// wallet, then the tags, then the category's name and icon.
    pub open spec fn spec_respond(self) -> PaymentWrite {
        match self.record.wallet_id {
            Some(id) => self.at(Phase::ReadingWalletName { id }),
            None => self.at(Phase::ReadingTags),
        }
    }

    /// Goes on with the tag at position `from`, or with the response when the
    /// request has no such tag.
    pub open spec fn spec_insert_tags(self, from: int) -> PaymentWrite {
        if 0 <= from < self.tags@.len() {
            self.at(
                Phase::InsertingTags {
                    next: from as usize,
                    key: self.tags@[from].key,
                    value: self.tags@[from].value,
                },
            )
        } else {
            self.spec_respond()
        }
    }

    /// What the client gets back for the stored payment.
    pub open spec fn response(self, icon: Option<String>) -> PaymentResponseDto {
        PaymentResponseDto {
            id: self.payment_id,
            description: self.record.description,
            amount_in_cents: self.record.amount_in_cents,
            merchant_name: self.record.merchant_name,
            accounting_date: self.record.accounting_date,
            category: self.category_name,
            category_id: Some(self.record.category_id),
            category_icon: icon,
            wallet: self.wallet_name,
            tags: self.response_tags,
        }
    }

    /// The transition of the machine: what the write does once the store has
    /// answered `reply` to the statement it waited on.
    ///
    /// A reply of a kind that the statement cannot have is handled as a
    /// failure of the store.
    pub open spec fn next(self, reply: StoreReply) -> Step {
        match self.phase {
            Phase::ResolvingWallet { name } => match reply {
                StoreReply::MaybeId(Some(id)) => Step::Ask(
                    PaymentWrite {
                        record: PaymentRecord { wallet_id: Some(id), ..self.record },
                        ..self
                    }.spec_resolve_category(),
                ),
                StoreReply::MaybeId(None) => Step::Finish(WriteOutcome::WalletNotFound { name }),
                _ => Step::Finish(WriteOutcome::Failed),
            },
            Phase::FindingCategory { name } => match reply {
                StoreReply::MaybeId(Some(id)) => Step::Ask(self.with_category(id)),
                StoreReply::MaybeId(None) => Step::Ask(self.at(Phase::CreatingCategory { name })),
                _ => Step::Finish(WriteOutcome::Failed),
            },
            Phase::CreatingCategory { name } => match reply {
                StoreReply::Id(id) => Step::Ask(self.with_category(id)),
                _ => Step::Ask(self.at(Phase::RefindingCategory { name })),
            },
            Phase::RefindingCategory { name } => match reply {
                StoreReply::MaybeId(Some(id)) => Step::Ask(self.with_category(id)),
                _ => Step::Finish(WriteOutcome::Failed),
            },
            Phase::CheckingCategory => match reply {
                StoreReply::MaybeId(Some(_)) => Step::Ask(self.at(Phase::Persisting)),
                StoreReply::MaybeId(None) => Step::Finish(WriteOutcome::CategoryNotFound),
                _ => Step::Finish(WriteOutcome::Failed),
            },
            Phase::Persisting => match (self.target, reply) {
                (None, StoreReply::Id(id)) => Step::Ask(
                    PaymentWrite { payment_id: id, ..self }.spec_insert_tags(0),
                ),
                (Some(id), StoreReply::Done) => Step::Ask(
                    PaymentWrite { payment_id: id, ..self }.at(Phase::ClearingTags),
                ),
                _ => Step::Finish(WriteOutcome::Failed),
            },
            Phase::ClearingTags => match reply {
                StoreReply::Done => Step::Ask(self.spec_insert_tags(0)),
                _ => Step::Finish(WriteOutcome::Failed),
            },
            Phase::InsertingTags { next, key, value } => match reply {
                StoreReply::Done => Step::Ask(self.spec_insert_tags(next + 1)),
                _ => if self.target is Some {
                    Step::Finish(WriteOutcome::Failed)
                } else {
                    Step::Ask(self.spec_respond())
                },
            },
            Phase::ReadingWalletName { id } => match reply {
                StoreReply::MaybeText(name) => Step::Ask(
                    PaymentWrite { wallet_name: name, ..self }.at(Phase::ReadingTags),
                ),
                _ => Step::Ask(self.at(Phase::ReadingTags)),
            },
            Phase::ReadingTags => match reply {
                StoreReply::Tags(tags) => Step::Ask(
                    PaymentWrite { response_tags: tags, ..self }.at(Phase::ReadingCategoryName),
                ),
                _ => Step::Ask(self.at(Phase::ReadingCategoryName)),
            },
            Phase::ReadingCategoryName => match reply {
                StoreReply::Text(name) => Step::Ask(
                    PaymentWrite { category_name: name, ..self }.at(Phase::ReadingCategoryIcon),
                ),
                _ => Step::Ask(self.at(Phase::ReadingCategoryIcon)),
            },
            Phase::ReadingCategoryIcon => match reply {
                StoreReply::MaybeText(icon) => Step::Finish(
                    WriteOutcome::Saved(self.response(icon)),
                ),
                _ => Step::Finish(WriteOutcome::Saved(self.response(None))),
            },
        }
    }

    fn resolve_category(self) -> (r: PaymentWrite)
        ensures
            r == self.spec_resolve_category(),
    {
        let phase = match &self.category {
            CategoryIdentifier::Uid(id) => {
                let id = *id;
                return PaymentWrite {
                    record: PaymentRecord { category_id: id, ..self.record },
                    phase: Phase::CheckingCategory,
                    ..self
                };
            },
            CategoryIdentifier::Name(name) => Phase::FindingCategory { name: name.clone() },
        };
        PaymentWrite { phase, ..self }
    }

    fn set_category(self, id: u128) -> (r: PaymentWrite)
        ensures
            r == self.with_category(id),
    {
        PaymentWrite {
            record: PaymentRecord { category_id: id, ..self.record },
            phase: Phase::CheckingCategory,
            ..self
        }
    }

    fn respond(self) -> (r: PaymentWrite)
        ensures
            r == self.spec_respond(),
    {
        match self.record.wallet_id {
            Some(id) => PaymentWrite { phase: Phase::ReadingWalletName { id }, ..self },
            None => PaymentWrite { phase: Phase::ReadingTags, ..self },
        }
    }

    fn insert_tags(self, from: usize) -> (r: PaymentWrite)
        ensures
            r == self.spec_insert_tags(from as int),
    {
        if from < self.tags.len() {
            let key = self.tags[from].key.clone();
            let value = self.tags[from].value.clone();
            PaymentWrite { phase: Phase::InsertingTags { next: from, key, value }, ..self }
        } else {
            self.respond()
        }
    }

    /// Starts a write. The texts are validated before anything is asked of the
    /// store: a request with a malformed text ends at once as `Invalid`.
    pub fn begin(
        target: Option<u128>,
        description: Option<String>,
        category: CategoryIdentifier,
        amount_in_cents: i32,
        merchant_name: String,
        accounting_date: DateTime,
        wallet: Option<String>,
        tags: Option<Vec<TagDto>>,
    ) -> (r: Step)
        ensures
            !valid_texts(description, merchant_name) ==> r == Step::Finish(WriteOutcome::Invalid),
            valid_texts(description, merchant_name) ==> (r matches Step::Ask(write)
                && write.fresh(
                plan_for(
                    target,
                    description,
                    category,
                    amount_in_cents,
                    merchant_name,
                    accounting_date,
                    wallet,
                    tags,
                ),
            )),
    {
        let has_description = match validate_payment(
            &description,
            &merchant_name,
            amount_in_cents,
            accounting_date,
        ) {
            Ok(payment) => payment.description.is_some(),
            Err(_) => {
                return Step::Finish(WriteOutcome::Invalid);
            },
        };
        let record = PaymentRecord {
            category_id: 0,
            description: if has_description {
                description
            } else {
                None
            },
            merchant_name,
            accounting_date,
            amount_in_cents,
            wallet_id: None,
        };
        let tags = match tags {
            Some(list) => list,
            None => Vec::new(),
        };
        let phase = match &wallet {
            Some(name) => Phase::ResolvingWallet { name: name.clone() },
            None => Phase::CheckingCategory,
        };
        let write = PaymentWrite {
            target,
            category,
            tags,
            record,
            phase,
            payment_id: 0,
            wallet_name: None,
            response_tags: Vec::new(),
            category_name: String::new(),
        };
        if wallet.is_some() {
            Step::Ask(write)
        } else {
            Step::Ask(write.resolve_category())
        }
    }

    /// Takes the reply of the store to the statement that the write waited on,
    /// and says what comes next.
    pub fn advance(self, reply: StoreReply) -> (r: Step)
        ensures
            r == self.next(reply),
    {
        match self.phase {
            Phase::ResolvingWallet { name } => match reply {
                StoreReply::MaybeId(Some(id)) => {
                    let resolved = PaymentWrite {
                        record: PaymentRecord { wallet_id: Some(id), ..self.record },
                        phase: Phase::ResolvingWallet { name },
                        ..self
                    };
                    Step::Ask(resolved.resolve_category())
                },
                StoreReply::MaybeId(None) => Step::Finish(WriteOutcome::WalletNotFound { name }),
                _ => Step::Finish(WriteOutcome::Failed),
            },
            Phase::FindingCategory { name } => match reply {
                StoreReply::MaybeId(Some(id)) => Step::Ask(
                    PaymentWrite { phase: Phase::FindingCategory { name }, ..self }.set_category(
                        id,
                    ),
                ),
                StoreReply::MaybeId(None) => Step::Ask(
                    PaymentWrite { phase: Phase::CreatingCategory { name }, ..self },
                ),
                _ => Step::Finish(WriteOutcome::Failed),
            },
            Phase::CreatingCategory { name } => match reply {
                StoreReply::Id(id) => Step::Ask(
                    PaymentWrite { phase: Phase::CreatingCategory { name }, ..self }.set_category(
                        id,
                    ),
                ),
                _ => Step::Ask(PaymentWrite { phase: Phase::RefindingCategory { name }, ..self }),
            },
            Phase::RefindingCategory { name } => match reply {
                StoreReply::MaybeId(Some(id)) => Step::Ask(
                    PaymentWrite { phase: Phase::RefindingCategory { name }, ..self }.set_category(
                        id,
                    ),
                ),
                _ => Step::Finish(WriteOutcome::Failed),
            },
            Phase::CheckingCategory => match reply {
                StoreReply::MaybeId(Some(_)) => Step::Ask(
                    PaymentWrite { phase: Phase::Persisting, ..self },
                ),
                StoreReply::MaybeId(None) => Step::Finish(WriteOutcome::CategoryNotFound),
                _ => Step::Finish(WriteOutcome::Failed),
            },
            Phase::Persisting => match (self.target, reply) {
                (None, StoreReply::Id(id)) => Step::Ask(
                    PaymentWrite { payment_id: id, phase: Phase::Persisting, ..self }.insert_tags(
                        0,
                    ),
                ),
                (Some(id), StoreReply::Done) => Step::Ask(
                    PaymentWrite { payment_id: id, phase: Phase::ClearingTags, ..self },
                ),
                _ => Step::Finish(WriteOutcome::Failed),
            },
            Phase::ClearingTags => match reply {
                StoreReply::Done => Step::Ask(
                    PaymentWrite { phase: Phase::ClearingTags, ..self }.insert_tags(0),
                ),
                _ => Step::Finish(WriteOutcome::Failed),
            },
            Phase::InsertingTags { next, key, value } => match reply {
                StoreReply::Done => {
                    let write = PaymentWrite {
                        phase: Phase::InsertingTags { next, key, value },
                        ..self
                    };
                    if next < write.tags.len() {
                        Step::Ask(write.insert_tags(next + 1))
                    } else {
                        Step::Ask(write.respond())
                    }
                },
                _ => if self.target.is_some() {
                    Step::Finish(WriteOutcome::Failed)
                } else {
                    Step::Ask(
                        PaymentWrite {
                            phase: Phase::InsertingTags { next, key, value },
                            ..self
                        }.respond(),
                    )
                },
            },
            Phase::ReadingWalletName { id } => match reply {
                StoreReply::MaybeText(name) => Step::Ask(
                    PaymentWrite { wallet_name: name, phase: Phase::ReadingTags, ..self },
                ),
                _ => Step::Ask(PaymentWrite { phase: Phase::ReadingTags, ..self }),
            },
            Phase::ReadingTags => match reply {
                StoreReply::Tags(tags) => Step::Ask(
                    PaymentWrite {
                        response_tags: tags,
                        phase: Phase::ReadingCategoryName,
                        ..self
                    },
                ),
                _ => Step::Ask(PaymentWrite { phase: Phase::ReadingCategoryName, ..self }),
            },
            Phase::ReadingCategoryName => match reply {
                StoreReply::Text(name) => Step::Ask(
                    PaymentWrite {
                        category_name: name,
                        phase: Phase::ReadingCategoryIcon,
                        ..self
                    },
                ),
                _ => Step::Ask(PaymentWrite { phase: Phase::ReadingCategoryIcon, ..self }),
            },
            Phase::ReadingCategoryIcon => {
                let icon = match reply {
                    StoreReply::MaybeText(icon) => icon,
                    _ => None,
                };
                Step::Finish(
                    WriteOutcome::Saved(
                        PaymentResponseDto {
                            id: self.payment_id,
                            description: self.record.description,
                            amount_in_cents: self.record.amount_in_cents,
                            merchant_name: self.record.merchant_name,
                            accounting_date: self.record.accounting_date,
                            category: self.category_name,
                            category_id: Some(self.record.category_id),
                            category_icon: icon,
                            wallet: self.wallet_name,
                            tags: self.response_tags,
                        },
                    ),
                )
            },
        }
    }
}

/// Every reply brings a write closer to its end: to a later phase, or to the
/// next tag of the request. A write of `n` tags is over after at most `n + 11`
/// statements. No reply makes a write that has started end as `Invalid`.
pub proof fn lemma_advance_progresses(write: PaymentWrite, reply: StoreReply)
    ensures
        write.next(reply).rank() < write.rank() || (write.next(reply).rank() == write.rank()
            && write.next(reply).remaining() < write.remaining()),
        write.next(reply) != Step::Finish(WriteOutcome::Invalid),
        write.next(reply) matches Step::Ask(then) ==> then.tags == write.tags && then.target
            == write.target,
{
    assert(write.tags.len() == write.tags@.len());
}

} // verus!
