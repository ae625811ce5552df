//! Receipts: itemised fiscal documents of a purchase or a sale.

use vstd::prelude::*;

use crate::amount::Amount;
use crate::calendar::DateTime;
use crate::keyed::Record;

verus! {

/// The kind of receipt.
#[derive(Clone, Copy, Debug, PartialEq, Eq, Structural, Default)]
pub enum CalculationType {
    /// Purchase receipt.
    #[default]
    Inbound,
    /// Sale receipt.
    Outbound,
    /// Return of a purchase.
    InboundReturn,
    /// Return of a sale.
    OutboundReturn,
}

/// Value-added-tax rate of a line.
#[derive(Clone, Copy, Debug, PartialEq, Eq, Structural)]
pub enum VatType {
    Vat20,
    Vat10,
    Vat7,
    Vat5,
    Vat0,
}

/// Unit in which a line's quantity is counted.
#[derive(Clone, Copy, Debug, PartialEq, Eq, Structural)]
pub enum UnitType {
    Pieces,
    Gramm,
    Kilogamm,
}

/// What a card-terminal transaction was.
#[derive(Clone, Copy, Debug, PartialEq, Eq, Structural)]
pub enum CashlessOpType {
    Payment,
    Cansel,
    Return,
}

/// Currency of a card-terminal transaction.
#[derive(Clone, Copy, Debug, PartialEq, Eq, Structural)]
pub enum Currency {
    Rub,
    Usd,
}

/// One line of a receipt. Its total and tax are entered, not computed.
#[derive(Clone, Debug, PartialEq, Eq)]
pub struct Subject {
    pub name: String,
    pub unit_type: UnitType,
    pub count: usize,
    pub price: Amount,
    pub summary: Amount,
    pub vat_type: VatType,
    pub vat: Amount,
}

/// A card-terminal slip attached to a receipt.
#[derive(Clone, Debug, PartialEq, Eq)]
pub struct Slip {
    /// Terminal number.
    pub id: usize,
    pub op_type: CashlessOpType,
    pub date_time: DateTime,
    pub summary: usize,
    pub currency: Currency,
    /// Commission charged.
    pub comm_summary: Option<usize>,
    pub auth_code: String,
    /// Masked card number.
    pub card: String,
    pub address: Option<String>,
    /// Name of the shop.
    pub place: Option<String>,
    pub payment_system: Option<String>,
    pub doc_id: Option<usize>,
}

/// An itemised fiscal document, independent of any account.
#[derive(Clone, Debug, PartialEq, Eq)]
pub struct Receipt {
    pub id: u128,
    pub date_time: DateTime,
    pub calculation_type: CalculationType,
    pub address: Option<String>,
    /// Name of the point of sale.
    pub place: Option<String>,
    /// The lines, in the order entered.
    pub subjects: Vec<Subject>,
    pub summary: Amount,
    pub cash: Option<Amount>,
    pub cashless: Option<Amount>,
    pub prepayment: Option<Amount>,
    pub postpayment: Option<Amount>,
    /// Paid in kind (against salary).
    pub in_kind: Option<Amount>,
    pub vat: Option<Amount>,
    /// Link to a copy of the receipt held elsewhere.
    pub url: Option<String>,
    pub slip: Option<Slip>,
}

impl Record for Receipt {
    open spec fn spec_id(&self) -> u128 {
        self.id
    }

    fn record_id(&self) -> (r: u128) {
        self.id
    }
}

/// A copy of an optional text.
pub(crate) fn copy_text(t: &Option<String>) -> (r: Option<String>)
    ensures
        r == *t,
{
    match t {
        Some(s) => Some(s.clone()),
        None => None,
    }
}

impl Subject {
    /// A blank line: no name, one of nothing, all amounts zero.
    pub fn empty() -> (r: Subject)
        ensures
            r.name@.len() == 0,
            r.unit_type == UnitType::Pieces,
            r.count == 0,
            r.price == Amount::zero_spec(),
            r.summary == Amount::zero_spec(),
            r.vat_type == VatType::Vat0,
            r.vat == Amount::zero_spec(),
    {
        Subject {
            name: String::new(),
            unit_type: UnitType::Pieces,
            count: 0,
            price: Amount::zero(),
            summary: Amount::zero(),
            vat_type: VatType::Vat0,
            vat: Amount::zero(),
        }
    }

    /// A copy of the line.
    pub fn duplicate(&self) -> (r: Subject)
        ensures
            r == *self,
    {
        Subject {
            name: self.name.clone(),
            unit_type: self.unit_type,
            count: self.count,
            price: self.price,
            summary: self.summary,
            vat_type: self.vat_type,
            vat: self.vat,
        }
    }
}

/// A copy of a list of lines, in the same order.
pub fn duplicate_subjects(lines: &Vec<Subject>) -> (r: Vec<Subject>)
    ensures
        r@ == lines@,
{
    let mut r: Vec<Subject> = Vec::new();
    let mut i: usize = 0;
    while i < lines.len()
        invariant
            0 <= i <= lines.len(),
            r@ == lines@.subrange(0, i as int),
        decreases lines.len() - i,
    {
        r.push(lines[i].duplicate());
        i += 1;
    }
    assert(lines@.subrange(0, lines.len() as int) =~= lines@);
    r
}

impl Slip {
    /// A copy of the slip.
    pub fn duplicate(&self) -> (r: Slip)
        ensures
            r == *self,
    {
        Slip {
            id: self.id,
            op_type: self.op_type,
            date_time: self.date_time,
            summary: self.summary,
            currency: self.currency,
            comm_summary: self.comm_summary,
            auth_code: self.auth_code.clone(),
            card: self.card.clone(),
            address: copy_text(&self.address),
            place: copy_text(&self.place),
            payment_system: copy_text(&self.payment_system),
            doc_id: self.doc_id,
        }
    }
}

impl Receipt {
    /// A blank receipt: nil id, the 1970 epoch, a purchase, no lines, total
    /// zero and every optional part absent.
    pub fn empty_new() -> (r: Receipt)
        ensures
            r.id == 0,
            r.date_time == DateTime::epoch_spec(),
            r.calculation_type == CalculationType::Inbound,
            r.address is None,
            r.place is None,
            r.subjects@.len() == 0,
            r.summary == Amount::zero_spec(),
            r.cash is None,
            r.cashless is None,
            r.prepayment is None,
            r.postpayment is None,
            r.in_kind is None,
            r.vat is None,
            r.url is None,
            r.slip is None,
    {
        Receipt {
            id: 0,
            date_time: DateTime::epoch(),
            calculation_type: CalculationType::Inbound,
            address: None,
            place: None,
            subjects: Vec::new(),
            summary: Amount::zero(),
            cash: None,
            cashless: None,
            prepayment: None,
            postpayment: None,
            in_kind: None,
            vat: None,
            url: None,
            slip: None,
        }
    }
}

} // verus!
