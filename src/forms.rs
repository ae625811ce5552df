//! Edit forms, as typed by a user, and how committing one changes the ledger.
//!
//! A form holds text where the record holds typed values. Committing checks
//! every field first: a refused commit changes nothing. A commit for an id the
//! ledger holds edits that record; for a new id it adds one.

use vstd::prelude::*;

use crate::account::{Account, AccountType};
use crate::amount::{
    amount_of_text, hundredths, lemma_hundredths_nonneg, optional_amount, parse_amount, parse_optional_amount, to_hundredths,
    Amount,
};
use crate::calendar::{is_time_of_day, now, Date, DateTime};
use crate::database::Database;
use crate::error::{Field, LedgerError};
use crate::keyed::{holds_id, index_of_id, position_of, upserted, Record};
use crate::operation::{FinanseDirection, Operation, OperationType};
use crate::receipt::{duplicate_subjects, CalculationType, Receipt, Slip, Subject};
use crate::text::{
    bounded_numeral, decimal_text, is_blank, lemma_numeral_text_value, numeral_text, optional_text,
    parse_numeral,
};

verus! {

/// The most characters an account number may have.
pub const NUMBER_MAX_CHARS: usize = 30;

/// The largest bank code: nine digits.
pub const BANK_CODE_MAX: u64 = 999_999_999;

/// The form for an account.
#[derive(Clone, Debug)]
pub struct AccountFields {
    pub name: String,
    pub account_type: AccountType,
    pub number: String,
    /// Bank code, as digits.
    pub bik: String,
}

/// The form for an operation.
#[derive(Clone, Debug)]
pub struct OperationFields {
    pub date: Date,
    pub hour: u32,
    pub minute: u32,
    pub account_id: u128,
    pub operation_type: OperationType,
    /// Amount in the account's smallest unit (hundredths of the currency), as digits.
    pub summary: String,
    pub direction: FinanseDirection,
    pub receipt: Option<u128>,
}

/// The form for a receipt.
#[derive(Clone, Debug)]
pub struct ReceiptFields {
    pub date: Date,
    pub hour: u32,
    pub minute: u32,
    pub calculation_type: CalculationType,
    pub address: String,
    pub place: String,
    pub subjects: Vec<Subject>,
    /// The total, as a decimal.
    pub summary: String,
    pub cash: String,
    pub cashless: String,
    pub prepayment: String,
    pub postpayment: String,
    pub in_kind: String,
    pub vat: String,
    pub url: String,
}

/// The bank code a field holds: one to nine digits.
pub open spec fn bank_code_of(s: Seq<char>) -> Option<nat> {
    if s.len() <= 9 {
        bounded_numeral(s, BANK_CODE_MAX as nat)
    } else {
        None
    }
}

/// The direction of an operation created together with a receipt of kind `c`.
pub open spec fn derived_direction(c: CalculationType) -> FinanseDirection {
    match c {
        CalculationType::Inbound => FinanseDirection::Credit,
        CalculationType::Outbound => FinanseDirection::Debet,
        CalculationType::InboundReturn => FinanseDirection::Debet,
        CalculationType::OutboundReturn => FinanseDirection::Credit,
    }
}

/// The type of an operation created together with a receipt of kind `c`.
pub open spec fn derived_operation_type(c: CalculationType) -> OperationType {
    match c {
        CalculationType::Inbound => OperationType::Buy,
        CalculationType::Outbound => OperationType::Sell,
        CalculationType::InboundReturn => OperationType::ReturnBuy,
        CalculationType::OutboundReturn => OperationType::ReturnSell,
    }
}

/// Direction and type of an operation created together with a receipt of kind `c`.
pub fn derive_operation_kind(c: CalculationType) -> (r: (FinanseDirection, OperationType))
    ensures
        r == (derived_direction(c), derived_operation_type(c)),
{
    match c {
        CalculationType::Inbound => (FinanseDirection::Credit, OperationType::Buy),
        CalculationType::Outbound => (FinanseDirection::Debet, OperationType::Sell),
        CalculationType::InboundReturn => (FinanseDirection::Debet, OperationType::ReturnBuy),
        CalculationType::OutboundReturn => (FinanseDirection::Credit, OperationType::ReturnSell),
    }
}

/// Whether the optional text `o` is what the field text `s` gives.
pub open spec fn is_optional_text_of(o: Option<String>, s: Seq<char>) -> bool {
    if is_blank(s) {
        o is None
    } else {
        o matches Some(t) && t@ == s
    }
}

/// The balance an account commit keeps: the held account's, or zero for a new one.
pub open spec fn kept_balance(accounts: Seq<Account>, id: u128) -> usize {
    if holds_id(accounts, id) {
        accounts[index_of_id(accounts, id)].sum
    } else {
        0
    }
}

/// The slip a receipt commit keeps: the held receipt's, or none for a new one.
pub open spec fn kept_slip(receipts: Seq<Receipt>, id: u128) -> Option<Slip> {
    if holds_id(receipts, id) {
        receipts[index_of_id(receipts, id)].slip
    } else {
        None
    }
}

impl AccountFields {
    /// The blank form: a cash account with bank code 100000000.
    pub fn new() -> (r: AccountFields)
        ensures
            r.name@.len() == 0,
            r.account_type == AccountType::Cash,
            r.number@.len() == 0,
            r.bik@ == "100000000"@,
    {
        AccountFields {
            name: String::new(),
            account_type: AccountType::Cash,
            number: String::new(),
            bik: "100000000".to_owned(),
        }
    }

    /// The form showing an account, to edit it.
    pub fn from_account(account: &Account) -> (r: AccountFields)
        ensures
            r.name == account.name,
            r.account_type == account.account_type,
            r.number == account.number,
            r.bik@ == numeral_text(account.bik as nat),
    {
        AccountFields {
            name: account.name.clone(),
            account_type: account.account_type,
            number: account.number.clone(),
            bik: decimal_text(account.bik as u64),
        }
    }

    /// The field the form fails on, if any: an account number over 30
    /// characters, then a bank code that is not one to nine digits.
    pub open spec fn error(self) -> Option<Field> {
        if self.number@.len() > NUMBER_MAX_CHARS {
            Some(Field::Number)
        } else if bank_code_of(self.bik@) is None {
            Some(Field::BankCode)
        } else {
            None
        }
    }

    /// The account the form describes, under `id` with balance `sum`.
    pub open spec fn account(self, id: u128, sum: usize) -> Account {
        Account {
            id,
            name: self.name,
            account_type: self.account_type,
            number: self.number,
            bik: bank_code_of(self.bik@)->0 as u32,
            sum,
        }
    }
}

impl OperationFields {
    /// The blank form at the clock reading `now`: its date, hour and minute,
    /// the nil account, an initial credit of "0", no receipt.
    pub fn blank_at(now: DateTime) -> (r: OperationFields)
        ensures
            r.date == now.date,
            r.hour == now.hour,
            r.minute == now.minute,
            r.account_id == 0,
            r.operation_type == OperationType::Initial,
            r.summary@ == "0"@,
            r.direction == FinanseDirection::Credit,
            r.receipt is None,
    {
        OperationFields {
            date: now.date,
            hour: now.hour,
            minute: now.minute,
            account_id: 0,
            operation_type: OperationType::Initial,
            summary: "0".to_owned(),
            direction: FinanseDirection::Credit,
            receipt: None,
        }
    }

    /// The blank form at the current local date and time.
    pub fn new() -> (r: OperationFields)
        ensures
            r.hour < 24,
            r.minute < 60,
            r.account_id == 0,
            r.operation_type == OperationType::Initial,
            r.summary@ == "0"@,
            r.direction == FinanseDirection::Credit,
            r.receipt is None,
    {
        OperationFields::blank_at(now())
    }

    /// The form showing an operation, to edit it.
    pub fn from_operation(operation: &Operation) -> (r: OperationFields)
        ensures
            r.date == operation.date_time.date,
            r.hour == operation.date_time.hour,
            r.minute == operation.date_time.minute,
            r.account_id == operation.account_id,
            r.operation_type == operation.operation_type,
            r.summary@ == numeral_text(operation.summary as nat),
            r.direction == operation.direction,
            r.receipt == operation.receipt_id,
    {
        OperationFields {
            date: operation.date_time.date,
            hour: operation.date_time.hour,
            minute: operation.date_time.minute,
            account_id: operation.account_id,
            operation_type: operation.operation_type,
            summary: decimal_text(operation.summary as u64),
            direction: operation.direction,
            receipt: operation.receipt_id,
        }
    }

    /// The amount the form's summary field holds, if it holds one.
    pub open spec fn summary_value(self) -> Option<nat> {
        bounded_numeral(self.summary@, usize::MAX as nat)
    }

    /// The field the form fails on, if any: a time that is not a time of day,
    /// then an amount that is not digits fitting a `usize`.
    pub open spec fn error(self) -> Option<Field> {
        if !is_time_of_day(self.hour, self.minute) {
            Some(Field::Time)
        } else if self.summary_value() is None {
            Some(Field::Summary)
        } else {
            None
        }
    }

    /// The operation the form describes, under `id`.
    pub open spec fn operation(self, id: u128) -> Operation {
        Operation {
            id,
            date_time: DateTime::spec_at(self.date, self.hour, self.minute),
            account_id: self.account_id,
            operation_type: self.operation_type,
            summary: self.summary_value()->0 as usize,
            direction: self.direction,
            receipt_id: self.receipt,
        }
    }

    /// Whether `self` is `before` filled from the receipt committed under
    /// `receipt_id` from the form `receipt`, whose total read as `total`: date
    /// and time copied, direction and type derived from the receipt's kind, the
    /// receipt linked, and the amount set to the total in hundredths of a unit
    /// where that is a whole number fitting a `usize` (else the total's text,
    /// which the amount field refuses).
    pub open spec fn is_filled_from(
        self,
        before: OperationFields,
        receipt_id: u128,
        receipt: ReceiptFields,
        total: Amount,
    ) -> bool {
        &&& self.date == receipt.date
        &&& self.hour == receipt.hour
        &&& self.minute == receipt.minute
        &&& self.account_id == before.account_id
        &&& self.operation_type == derived_operation_type(receipt.calculation_type)
        &&& self.direction == derived_direction(receipt.calculation_type)
        &&& self.receipt == Some(receipt_id)
        &&& self.summary@ == (match hundredths(total) {
            Some(h) => if h <= usize::MAX {
                numeral_text(h as nat)
            } else {
                receipt.summary@
            },
            None => receipt.summary@,
        })
    }

    /// Fills the form from the receipt committed under `receipt_id` from the
    /// form `receipt`, whose total read as `total`.
    pub fn fill_from_receipt(&mut self, receipt_id: u128, receipt: &ReceiptFields, total: Amount)
        ensures
            final(self).is_filled_from(*old(self), receipt_id, *receipt, total),
    {
        let (direction, operation_type) = derive_operation_kind(receipt.calculation_type);
        self.date = receipt.date;
        self.hour = receipt.hour;
        self.minute = receipt.minute;
        self.direction = direction;
        self.operation_type = operation_type;
        proof {
            lemma_hundredths_nonneg(total);
        }
        self.summary = match to_hundredths(total) {
            Some(h) => decimal_text(h as u64),
            None => receipt.summary.clone(),
        };
        self.receipt = Some(receipt_id);
    }
}

/// An operation form filled from a receipt, at a time of day and with a
/// total that is a whole number of hundredths fitting a `usize`, commits to
/// the operation with the receipt's date and time, the direction and type that
/// the receipt's kind gives, the total in hundredths, and the receipt linked:
/// a sale receipt of 150.00 gives a debit sale of 15000.
pub proof fn lemma_operation_from_receipt(
    filled: OperationFields,
    before: OperationFields,
    receipt_id: u128,
    receipt: ReceiptFields,
    total: Amount,
    operation_id: u128,
)
    requires
        filled.is_filled_from(before, receipt_id, receipt, total),
        is_time_of_day(receipt.hour, receipt.minute),
        hundredths(total) is Some,
        hundredths(total)->0 <= usize::MAX,
    ensures
        filled.error() is None,
        filled.operation(operation_id) == (Operation {
            id: operation_id,
            date_time: DateTime::spec_at(receipt.date, receipt.hour, receipt.minute),
            account_id: before.account_id,
            operation_type: derived_operation_type(receipt.calculation_type),
            summary: hundredths(total)->0 as usize,
            direction: derived_direction(receipt.calculation_type),
            receipt_id: Some(receipt_id),
        }),
{
    let h = hundredths(total)->0;
    lemma_hundredths_nonneg(total);
    lemma_numeral_text_value(h as nat);
    assert(filled.summary@ == numeral_text(h as nat));
    assert(filled.summary_value() == Some(h as nat));
}

impl ReceiptFields {
    /// The blank form at the clock reading `now`: its date, hour and minute,
    /// a purchase, every text empty, no lines.
    pub fn blank_at(now: DateTime) -> (r: ReceiptFields)
        ensures
            r.date == now.date,
            r.hour == now.hour,
            r.minute == now.minute,
            r.is_blank(),
    {
        ReceiptFields {
            date: now.date,
            hour: now.hour,
            minute: now.minute,
            calculation_type: CalculationType::Inbound,
            address: String::new(),
            place: String::new(),
            subjects: Vec::new(),
            summary: String::new(),
            cash: String::new(),
            cashless: String::new(),
            prepayment: String::new(),
            postpayment: String::new(),
            in_kind: String::new(),
            vat: String::new(),
            url: String::new(),
        }
    }

    /// The blank form at the current local date and time.
    pub fn new() -> (r: ReceiptFields)
        ensures
            r.hour < 24,
            r.minute < 60,
            r.is_blank(),
    {
        ReceiptFields::blank_at(now())
    }

    /// A purchase with every text empty and no lines.
    pub open spec fn is_blank(self) -> bool {
        &&& self.calculation_type == CalculationType::Inbound
        &&& self.address@.len() == 0
        &&& self.place@.len() == 0
        &&& self.subjects@.len() == 0
        &&& self.summary@.len() == 0
        &&& self.cash@.len() == 0
        &&& self.cashless@.len() == 0
        &&& self.prepayment@.len() == 0
        &&& self.postpayment@.len() == 0
        &&& self.in_kind@.len() == 0
        &&& self.vat@.len() == 0
        &&& self.url@.len() == 0
    }

    /// The field the form fails on, if any, in this order: the time, the
    /// total (a decimal), then the optional amounts (blank, or a decimal).
    pub open spec fn error(self) -> Option<Field> {
        if !is_time_of_day(self.hour, self.minute) {
            Some(Field::Time)
        } else if amount_of_text(self.summary@) is None {
            Some(Field::Summary)
        } else if optional_amount(self.cash@, amount_of_text(self.cash@)) is None {
            Some(Field::Cash)
        } else if optional_amount(self.cashless@, amount_of_text(self.cashless@)) is None {
            Some(Field::Cashless)
        } else if optional_amount(self.prepayment@, amount_of_text(self.prepayment@)) is None {
            Some(Field::Prepayment)
        } else if optional_amount(self.postpayment@, amount_of_text(self.postpayment@)) is None {
            Some(Field::Postpayment)
        } else if optional_amount(self.in_kind@, amount_of_text(self.in_kind@)) is None {
            Some(Field::InKind)
        } else if optional_amount(self.vat@, amount_of_text(self.vat@)) is None {
            Some(Field::Vat)
        } else {
            None
        }
    }

    /// Whether `r` is the receipt the form describes under `id`, carrying
    /// `slip`: blank optional fields absent, the others as read.
    pub open spec fn describes(self, r: Receipt, id: u128, slip: Option<Slip>) -> bool {
        &&& r.id == id
        &&& r.date_time == DateTime::spec_at(self.date, self.hour, self.minute)
        &&& r.calculation_type == self.calculation_type
        &&& is_optional_text_of(r.address, self.address@)
        &&& is_optional_text_of(r.place, self.place@)
        &&& r.subjects@ == self.subjects@
        &&& amount_of_text(self.summary@) == Some(r.summary)
        &&& optional_amount(self.cash@, amount_of_text(self.cash@)) == Some(r.cash)
        &&& optional_amount(self.cashless@, amount_of_text(self.cashless@)) == Some(r.cashless)
        &&& optional_amount(self.prepayment@, amount_of_text(self.prepayment@)) == Some(
            r.prepayment,
        )
        &&& optional_amount(self.postpayment@, amount_of_text(self.postpayment@)) == Some(
            r.postpayment,
        )
        &&& optional_amount(self.in_kind@, amount_of_text(self.in_kind@)) == Some(r.in_kind)
        &&& optional_amount(self.vat@, amount_of_text(self.vat@)) == Some(r.vat)
        &&& is_optional_text_of(r.url, self.url@)
        &&& r.slip == slip
    }

    /// The receipt the form describes under `id`, carrying `slip`; refused
    /// with the first field that fails.
    pub fn to_receipt(&self, id: u128, slip: Option<Slip>) -> (r: Result<Receipt, LedgerError>)
        ensures
            match self.error() {
                Some(f) => r == Err::<Receipt, LedgerError>(LedgerError::Validation(f)),
                None => r matches Ok(rec) && self.describes(rec, id, slip),
            },
    {
        let date_time = match DateTime::at(self.date, self.hour, self.minute) {
            Some(t) => t,
            None => return Err(LedgerError::Validation(Field::Time)),
        };
        let summary = match parse_amount(self.summary.as_str()) {
            Some(a) => a,
            None => return Err(LedgerError::Validation(Field::Summary)),
        };
        let cash = match parse_optional_amount(self.cash.as_str()) {
            Some(a) => a,
            None => return Err(LedgerError::Validation(Field::Cash)),
        };
        let cashless = match parse_optional_amount(self.cashless.as_str()) {
            Some(a) => a,
            None => return Err(LedgerError::Validation(Field::Cashless)),
        };
        let prepayment = match parse_optional_amount(self.prepayment.as_str()) {
            Some(a) => a,
            None => return Err(LedgerError::Validation(Field::Prepayment)),
        };
        let postpayment = match parse_optional_amount(self.postpayment.as_str()) {
            Some(a) => a,
            None => return Err(LedgerError::Validation(Field::Postpayment)),
        };
        let in_kind = match parse_optional_amount(self.in_kind.as_str()) {
            Some(a) => a,
            None => return Err(LedgerError::Validation(Field::InKind)),
        };
        let vat = match parse_optional_amount(self.vat.as_str()) {
            Some(a) => a,
            None => return Err(LedgerError::Validation(Field::Vat)),
        };
        Ok(
            Receipt {
                id,
                date_time,
                calculation_type: self.calculation_type,
                address: optional_text(self.address.as_str()),
                place: optional_text(self.place.as_str()),
                subjects: duplicate_subjects(&self.subjects),
                summary,
                cash,
                cashless,
                prepayment,
                postpayment,
                in_kind,
                vat,
                url: optional_text(self.url.as_str()),
                slip,
            },
        )
    }
}

impl Database {
    /// Commits the account form under `id`. A held account is edited and keeps
    /// its balance; a new one starts at zero. Refused, with nothing changed,
    /// on the first field that fails.
    pub fn commit_account(&mut self, id: u128, form: &AccountFields) -> (r: Result<(), LedgerError>)
        ensures
            r == (match form.error() {
                Some(f) => Err(LedgerError::Validation(f)),
                None => Ok(()),
            }),
            r is Err ==> *final(self) == *old(self),
            r is Ok ==> final(self).accounts@ == upserted(
                old(self).accounts@,
                form.account(id, kept_balance(old(self).accounts@, id)),
            ),
            final(self).operations == old(self).operations,
            final(self).receipts == old(self).receipts,
            final(self).db_version == old(self).db_version,
            old(self).ids_unique() ==> final(self).ids_unique(),
            old(self).is_consistent() ==> final(self).is_consistent(),
    {
        if form.number.as_str().unicode_len() > NUMBER_MAX_CHARS {
            return Err(LedgerError::Validation(Field::Number));
        }
        let code = if form.bik.as_str().unicode_len() <= 9 {
            parse_numeral(form.bik.as_str(), BANK_CODE_MAX)
        } else {
            None
        };
        let bik: u32 = match code {
            Some(v) => v as u32,
            None => return Err(LedgerError::Validation(Field::BankCode)),
        };
        let sum: usize = match position_of(&self.accounts, id) {
            Some(k) => self.accounts[k].sum,
            None => 0,
        };
        let account = Account {
            id,
            name: form.name.clone(),
            account_type: form.account_type,
            number: form.number.clone(),
            bik,
            sum,
        };
        self.upsert_account(account);
        Ok(())
    }

    /// Commits the operation form under `id`. Refused, with nothing changed, on
    /// the first field that fails, and with `ReferentialIntegrity` when the
    /// form's account is not held.
    pub fn commit_operation(&mut self, id: u128, form: &OperationFields) -> (r: Result<
        (),
        LedgerError,
    >)
        ensures
            r == (match form.error() {
                Some(f) => Err(LedgerError::Validation(f)),
                None => if holds_id(old(self).accounts@, form.account_id) {
                    Ok(())
                } else {
                    Err(LedgerError::ReferentialIntegrity)
                },
            }),
            r is Err ==> *final(self) == *old(self),
            r is Ok ==> final(self).operations@ == upserted(
                old(self).operations@,
                form.operation(id),
            ),
            final(self).accounts == old(self).accounts,
            final(self).receipts == old(self).receipts,
            final(self).db_version == old(self).db_version,
            old(self).ids_unique() ==> final(self).ids_unique(),
            old(self).is_consistent() ==> final(self).is_consistent(),
    {
        let date_time = match DateTime::at(form.date, form.hour, form.minute) {
            Some(t) => t,
            None => return Err(LedgerError::Validation(Field::Time)),
        };
        let summary: usize = match parse_numeral(form.summary.as_str(), usize::MAX as u64) {
            Some(v) => v as usize,
            None => return Err(LedgerError::Validation(Field::Summary)),
        };
        let operation = Operation {
            id,
            date_time,
            account_id: form.account_id,
            operation_type: form.operation_type,
            summary,
            direction: form.direction,
            receipt_id: form.receipt,
        };
        self.upsert_operation(operation)
    }

    /// Commits the receipt form under `id`; a held receipt keeps its slip.
    /// With `with_operation` (the receipt is created together with the
    /// operation of `operation`), the operation form is then filled from it,
    /// its amount being the receipt's total in hundredths.
    /// Refused, with nothing changed, on the first field that fails.
    pub fn commit_receipt(
        &mut self,
        id: u128,
        form: &ReceiptFields,
        operation: &mut OperationFields,
        with_operation: bool,
    ) -> (r: Result<(), LedgerError>)
        ensures
            r == (match form.error() {
                Some(f) => Err(LedgerError::Validation(f)),
                None => Ok(()),
            }),
            r is Err ==> *final(self) == *old(self) && *final(operation) == *old(operation),
            r is Ok ==> exists|rec: Receipt|
                form.describes(rec, id, kept_slip(old(self).receipts@, id)) && final(self).receipts@
                    == #[trigger] upserted(old(self).receipts@, rec),
            r is Ok && with_operation ==> final(operation).is_filled_from(
                *old(operation),
                id,
                *form,
                amount_of_text(form.summary@)->0,
            ),
            !with_operation ==> *final(operation) == *old(operation),
            final(self).accounts == old(self).accounts,
            final(self).operations == old(self).operations,
            final(self).db_version == old(self).db_version,
            old(self).ids_unique() ==> final(self).ids_unique(),
            old(self).is_consistent() ==> final(self).is_consistent(),
    {
        let slip = match position_of(&self.receipts, id) {
            Some(k) => match &self.receipts[k].slip {
                Some(s) => Some(s.duplicate()),
                None => None,
            },
            None => None,
        };
        let receipt = match form.to_receipt(id, slip) {
            Ok(rec) => rec,
            Err(e) => return Err(e),
        };
        let ghost committed = receipt;
        let total = receipt.summary;
        self.upsert_receipt(receipt);
        if with_operation {
            operation.fill_from_receipt(id, form, total);
        }
        assert(form.describes(committed, id, kept_slip(old(self).receipts@, id)));
        Ok(())
    }

    /// Which receipt the receipt dialog of the operation `operation_id` edits,
    /// and whether the operation is created together with it: for an operation
    /// not yet held, a `fresh` receipt created with it; for a held one, its
    /// `linked` receipt, else a `fresh` one.
    pub fn receipt_dialog_target(
        &self,
        operation_id: u128,
        linked: Option<u128>,
        fresh: u128,
    ) -> (r: (u128, bool))
        ensures
            !holds_id(self.operations@, operation_id) ==> r == (fresh, true),
            holds_id(self.operations@, operation_id) ==> r == (
                match linked {
                    Some(x) => x,
                    None => fresh,
                },
                false,
            ),
    {
        match position_of(&self.operations, operation_id) {
            None => (fresh, true),
            Some(k) => {
                proof {
                    assert(self.operations@[k as int].spec_id() == operation_id);
                }
                match linked {
                    Some(x) => (x, false),
                    None => (fresh, false),
                }
            },
        }
    }
}

} // verus!
