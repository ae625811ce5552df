use ledger_book::account::{Account, AccountType};
use ledger_book::amount::Amount;
use ledger_book::calendar::{Date, DateTime};
use ledger_book::database::Database;
use ledger_book::error::{Field, LedgerError};
use ledger_book::forms::{derive_operation_kind, AccountFields, OperationFields, ReceiptFields};
use ledger_book::operation::{FinanseDirection, Operation, OperationType};
use ledger_book::receipt::{CalculationType, Currency, CashlessOpType, Receipt, Slip, Subject, UnitType, VatType};

fn day() -> Date {
    Date { year: 2024, month: 5, day: 20 }
}

fn ledger_with_account(id: u128) -> Database {
    let mut db = Database::new();
    db.insert_account(Account {
        id,
        name: "Wallet".to_string(),
        account_type: AccountType::Cash,
        number: "1".to_string(),
        bik: 0,
        sum: 0,
    })
    .unwrap();
    db
}

fn operation_form(account_id: u128, summary: &str) -> OperationFields {
    OperationFields {
        date: day(),
        hour: 9,
        minute: 30,
        account_id,
        operation_type: OperationType::Buy,
        summary: summary.to_string(),
        direction: FinanseDirection::Credit,
        receipt: None,
    }
}

fn receipt_form(kind: CalculationType, summary: &str) -> ReceiptFields {
    let mut f = ReceiptFields::new();
    f.date = day();
    f.hour = 18;
    f.minute = 5;
    f.calculation_type = kind;
    f.summary = summary.to_string();
    f
}

#[test]
fn blank_account_form() {
    let f = AccountFields::new();
    assert_eq!(f.name, "");
    assert_eq!(f.account_type, AccountType::Cash);
    assert_eq!(f.number, "");
    assert_eq!(f.bik, "100000000");
}

#[test]
fn account_form_shows_bank_code_digits() {
    let a = Account {
        id: 3,
        name: "Bank".to_string(),
        account_type: AccountType::DebetCard,
        number: "4276".to_string(),
        bik: 45342768,
        sum: 12,
    };
    let f = AccountFields::from_account(&a);
    assert_eq!(f.name, "Bank");
    assert_eq!(f.account_type, AccountType::DebetCard);
    assert_eq!(f.number, "4276");
    assert_eq!(f.bik, "45342768");
    let zero = AccountFields::from_account(&Account { bik: 0, ..a });
    assert_eq!(zero.bik, "0");
}

#[test]
fn commit_new_account_from_form() {
    let mut db = Database::new();
    let mut f = AccountFields::new();
    f.name = "Savings".to_string();
    f.account_type = AccountType::AccumulativeAccount;
    f.number = "40817810".to_string();
    f.bik = "044525225".to_string();
    db.commit_account(77, &f).unwrap();
    assert_eq!(db.accounts.len(), 1);
    let a = &db.accounts[0];
    assert_eq!(a.id, 77);
    assert_eq!(a.name, "Savings");
    assert_eq!(a.account_type, AccountType::AccumulativeAccount);
    assert_eq!(a.number, "40817810");
    assert_eq!(a.bik, 44525225);
    assert_eq!(a.sum, 0);
}

#[test]
fn commit_existing_account_keeps_balance() {
    let mut db = ledger_with_account(5);
    db.accounts[0].sum = 300;
    let mut f = AccountFields::from_account(&db.accounts[0]);
    f.name = "Renamed".to_string();
    f.bik = "123".to_string();
    db.commit_account(5, &f).unwrap();
    assert_eq!(db.accounts.len(), 1);
    assert_eq!(db.accounts[0].name, "Renamed");
    assert_eq!(db.accounts[0].bik, 123);
    assert_eq!(db.accounts[0].sum, 300);
}

#[test]
fn account_number_over_thirty_chars_is_refused() {
    let mut db = Database::new();
    let mut f = AccountFields::new();
    f.number = "1234567890123456789012345678901".to_string();
    assert_eq!(db.commit_account(1, &f), Err(LedgerError::Validation(Field::Number)));
    f.number = "123456789012345678901234567890".to_string();
    assert_eq!(db.commit_account(1, &f), Ok(()));
}

#[test]
fn bad_bank_codes_are_refused() {
    let mut db = Database::new();
    let mut f = AccountFields::new();
    for bad in ["", "12a", "1234567890", "-1", " 1", "+5"] {
        f.bik = bad.to_string();
        assert_eq!(db.commit_account(1, &f), Err(LedgerError::Validation(Field::BankCode)));
    }
    assert!(db.accounts.is_empty());
    f.bik = "999999999".to_string();
    db.commit_account(1, &f).unwrap();
    assert_eq!(db.accounts[0].bik, 999_999_999);
}

#[test]
fn blank_operation_form_at_a_clock_reading() {
    let now = DateTime { date: day(), hour: 14, minute: 7, second: 31, nanosecond: 5 };
    let f = OperationFields::blank_at(now);
    assert_eq!(f.date, day());
    assert_eq!(f.hour, 14);
    assert_eq!(f.minute, 7);
    assert_eq!(f.account_id, 0);
    assert_eq!(f.operation_type, OperationType::Initial);
    assert_eq!(f.summary, "0");
    assert_eq!(f.direction, FinanseDirection::Credit);
    assert_eq!(f.receipt, None);
}

#[test]
fn blank_operation_form() {
    let f = OperationFields::new();
    assert!(1 <= f.date.month && f.date.month <= 12);
    assert!(1 <= f.date.day && f.date.day <= 31);
    assert!(f.hour < 24);
    assert!(f.minute < 60);
    assert_eq!(f.account_id, 0);
    assert_eq!(f.operation_type, OperationType::Initial);
    assert_eq!(f.summary, "0");
    assert_eq!(f.direction, FinanseDirection::Credit);
    assert_eq!(f.receipt, None);
}

#[test]
fn commit_operation_from_form() {
    let mut db = ledger_with_account(1);
    let mut f = operation_form(1, "2500");
    f.receipt = Some(44);
    db.commit_operation(10, &f).unwrap();
    assert_eq!(db.operations.len(), 1);
    let o = &db.operations[0];
    assert_eq!(o.id, 10);
    assert_eq!(
        o.date_time,
        DateTime { date: day(), hour: 9, minute: 30, second: 0, nanosecond: 0 }
    );
    assert_eq!(o.account_id, 1);
    assert_eq!(o.operation_type, OperationType::Buy);
    assert_eq!(o.summary, 2500);
    assert_eq!(o.direction, FinanseDirection::Credit);
    assert_eq!(o.receipt_id, Some(44));
}

#[test]
fn editing_an_operation_through_its_form_keeps_it() {
    let mut db = ledger_with_account(1);
    db.commit_operation(10, &operation_form(1, "2500")).unwrap();
    let f = OperationFields::from_operation(&db.operations[0]);
    assert_eq!(f.summary, "2500");
    let before: Operation = db.operations[0].clone();
    db.commit_operation(10, &f).unwrap();
    assert_eq!(db.operations.len(), 1);
    assert_eq!(db.operations[0], before);
}

#[test]
fn operation_form_errors() {
    let mut db = ledger_with_account(1);
    let mut f = operation_form(1, "100");
    f.hour = 24;
    assert_eq!(db.commit_operation(10, &f), Err(LedgerError::Validation(Field::Time)));
    f.hour = 23;
    f.minute = 60;
    assert_eq!(db.commit_operation(10, &f), Err(LedgerError::Validation(Field::Time)));
    f.minute = 59;
    for bad in ["", "1.5", "abc", "-3", "12.50", "99999999999999999999999"] {
        f.summary = bad.to_string();
        assert_eq!(db.commit_operation(10, &f), Err(LedgerError::Validation(Field::Summary)));
    }
    f.summary = "100".to_string();
    f.account_id = 2;
    assert_eq!(db.commit_operation(10, &f), Err(LedgerError::ReferentialIntegrity));
    assert!(db.operations.is_empty());
    f.account_id = 1;
    assert_eq!(db.commit_operation(10, &f), Ok(()));
}

#[test]
fn blank_receipt_form_at_a_clock_reading() {
    let now = DateTime { date: day(), hour: 8, minute: 45, second: 0, nanosecond: 0 };
    let f = ReceiptFields::blank_at(now);
    assert_eq!(f.date, day());
    assert_eq!(f.hour, 8);
    assert_eq!(f.minute, 45);
    assert_eq!(f.calculation_type, CalculationType::Inbound);
    assert!(f.subjects.is_empty());
    for t in [&f.address, &f.place, &f.summary, &f.cash, &f.cashless, &f.prepayment, &f.postpayment, &f.in_kind, &f.vat, &f.url] {
        assert_eq!(t, "");
    }
}

#[test]
fn blank_receipt_form() {
    let f = ReceiptFields::new();
    assert!(1 <= f.date.month && f.date.month <= 12);
    assert!(f.hour < 24 && f.minute < 60);
    assert_eq!(f.calculation_type, CalculationType::Inbound);
    assert!(f.subjects.is_empty());
    for t in [&f.address, &f.place, &f.summary, &f.cash, &f.cashless, &f.prepayment, &f.postpayment, &f.in_kind, &f.vat, &f.url] {
        assert_eq!(t, "");
    }
}

#[test]
fn outbound_receipt_fills_new_operation() {
    let mut db = ledger_with_account(1);
    let mut op = operation_form(1, "0");
    let rf = receipt_form(CalculationType::Outbound, "150.00");
    db.commit_receipt(900, &rf, &mut op, true).unwrap();
    assert_eq!(op.direction, FinanseDirection::Debet);
    assert_eq!(op.operation_type, OperationType::Sell);
    assert_eq!(op.summary, "15000");
    assert_eq!(op.receipt, Some(900));
    assert_eq!(op.date, day());
    assert_eq!(op.hour, 18);
    assert_eq!(op.minute, 5);
    assert_eq!(op.account_id, 1);
    assert_eq!(db.receipts.len(), 1);
    assert_eq!(db.receipts[0].id, 900);
    assert_eq!(db.receipts[0].summary, Amount { mantissa: 15000, scale: 2 });
    assert_eq!(db.receipts[0].calculation_type, CalculationType::Outbound);

    db.commit_operation(700, &op).unwrap();
    assert_eq!(db.operations.len(), 1);
    let o = &db.operations[0];
    assert_eq!(o.id, 700);
    assert_eq!(o.direction, FinanseDirection::Debet);
    assert_eq!(o.operation_type, OperationType::Sell);
    assert_eq!(o.summary, 15000);
    assert_eq!(o.receipt_id, Some(900));
    assert_eq!(o.account_id, 1);
    assert_eq!(o.date_time, DateTime { date: day(), hour: 18, minute: 5, second: 0, nanosecond: 0 });
}

#[test]
fn every_receipt_kind_fills_its_operation() {
    let cases = [
        (CalculationType::Inbound, "12", FinanseDirection::Credit, OperationType::Buy, 1200),
        (CalculationType::InboundReturn, "0.5", FinanseDirection::Debet, OperationType::ReturnBuy, 50),
        (CalculationType::OutboundReturn, "3.210", FinanseDirection::Credit, OperationType::ReturnSell, 321),
    ];
    for (kind, total, direction, operation_type, amount) in cases {
        let mut db = ledger_with_account(1);
        let mut op = operation_form(1, "0");
        db.commit_receipt(5, &receipt_form(kind, total), &mut op, true).unwrap();
        db.commit_operation(6, &op).unwrap();
        assert_eq!(db.operations[0].direction, direction);
        assert_eq!(db.operations[0].operation_type, operation_type);
        assert_eq!(db.operations[0].summary, amount);
        assert_eq!(db.operations[0].receipt_id, Some(5));
    }
}

#[test]
fn fractional_hundredths_leave_the_total_text() {
    let mut db = ledger_with_account(1);
    let mut op = operation_form(1, "0");
    db.commit_receipt(5, &receipt_form(CalculationType::Outbound, "1.005"), &mut op, true).unwrap();
    assert_eq!(op.summary, "1.005");
    assert_eq!(op.receipt, Some(5));
    assert_eq!(db.commit_operation(6, &op), Err(LedgerError::Validation(Field::Summary)));
    let mut neg = operation_form(1, "0");
    db.commit_receipt(7, &receipt_form(CalculationType::Outbound, "-2"), &mut neg, true).unwrap();
    assert_eq!(neg.summary, "-2");
}

#[test]
fn receipt_of_held_operation_leaves_its_form() {
    let mut db = ledger_with_account(1);
    let mut op = operation_form(1, "7");
    let before = op.clone();
    let rf = receipt_form(CalculationType::Inbound, "3");
    db.commit_receipt(901, &rf, &mut op, false).unwrap();
    assert_eq!(op.summary, before.summary);
    assert_eq!(op.direction, before.direction);
    assert_eq!(op.operation_type, before.operation_type);
    assert_eq!(op.receipt, None);
    assert_eq!(db.receipts.len(), 1);
}

#[test]
fn derivation_table() {
    assert_eq!(
        derive_operation_kind(CalculationType::Inbound),
        (FinanseDirection::Credit, OperationType::Buy)
    );
    assert_eq!(
        derive_operation_kind(CalculationType::Outbound),
        (FinanseDirection::Debet, OperationType::Sell)
    );
    assert_eq!(
        derive_operation_kind(CalculationType::InboundReturn),
        (FinanseDirection::Debet, OperationType::ReturnBuy)
    );
    assert_eq!(
        derive_operation_kind(CalculationType::OutboundReturn),
        (FinanseDirection::Credit, OperationType::ReturnSell)
    );
}

#[test]
fn receipt_form_fields_are_normalised() {
    let mut db = Database::new();
    let mut op = OperationFields::new();
    let mut rf = receipt_form(CalculationType::InboundReturn, "12.5");
    rf.address = "Main st. 1".to_string();
    rf.place = "0".to_string();
    rf.url = "".to_string();
    rf.cash = "0".to_string();
    rf.cashless = "12.5".to_string();
    rf.prepayment = "".to_string();
    rf.postpayment = "0.10".to_string();
    rf.in_kind = "".to_string();
    rf.vat = "2.08".to_string();
    let mut line = Subject::empty();
    line.name = "Bread".to_string();
    line.count = 2;
    rf.subjects.push(line.clone());
    db.commit_receipt(3, &rf, &mut op, false).unwrap();
    let r = &db.receipts[0];
    assert_eq!(r.date_time, DateTime { date: day(), hour: 18, minute: 5, second: 0, nanosecond: 0 });
    assert_eq!(r.address, Some("Main st. 1".to_string()));
    assert_eq!(r.place, None);
    assert_eq!(r.url, None);
    assert_eq!(r.summary, Amount { mantissa: 125, scale: 1 });
    assert_eq!(r.cash, None);
    assert_eq!(r.cashless, Some(Amount { mantissa: 125, scale: 1 }));
    assert_eq!(r.prepayment, None);
    assert_eq!(r.postpayment, Some(Amount { mantissa: 10, scale: 2 }));
    assert_eq!(r.in_kind, None);
    assert_eq!(r.vat, Some(Amount { mantissa: 208, scale: 2 }));
    assert_eq!(r.subjects, vec![line]);
    assert_eq!(r.slip, None);
}

#[test]
fn receipt_form_errors() {
    let mut db = Database::new();
    let mut op = OperationFields::new();
    let mut rf = receipt_form(CalculationType::Inbound, "10");
    rf.hour = 25;
    assert_eq!(db.commit_receipt(1, &rf, &mut op, true), Err(LedgerError::Validation(Field::Time)));
    rf.hour = 10;
    rf.summary = "".to_string();
    assert_eq!(db.commit_receipt(1, &rf, &mut op, true), Err(LedgerError::Validation(Field::Summary)));
    rf.summary = "ten".to_string();
    assert_eq!(db.commit_receipt(1, &rf, &mut op, true), Err(LedgerError::Validation(Field::Summary)));
    rf.summary = "10".to_string();
    let cases = [
        (Field::Cash, 0),
        (Field::Cashless, 1),
        (Field::Prepayment, 2),
        (Field::Postpayment, 3),
        (Field::InKind, 4),
        (Field::Vat, 5),
    ];
    for (field, k) in cases {
        let mut bad = rf.clone();
        let slot = match k {
            0 => &mut bad.cash,
            1 => &mut bad.cashless,
            2 => &mut bad.prepayment,
            3 => &mut bad.postpayment,
            4 => &mut bad.in_kind,
            _ => &mut bad.vat,
        };
        *slot = "1,5".to_string();
        assert_eq!(db.commit_receipt(1, &bad, &mut op, true), Err(LedgerError::Validation(field)));
    }
    assert!(db.receipts.is_empty());
    assert_eq!(op.summary, "0");
    assert_eq!(op.receipt, None);
}

#[test]
fn editing_a_receipt_keeps_its_slip() {
    let mut db = Database::new();
    let mut held = Receipt::empty_new();
    held.id = 8;
    held.slip = Some(Slip {
        id: 4,
        op_type: CashlessOpType::Payment,
        date_time: DateTime::epoch(),
        summary: 100,
        currency: Currency::Rub,
        comm_summary: None,
        auth_code: "A1".to_string(),
        card: "****1234".to_string(),
        address: None,
        place: Some("Shop".to_string()),
        payment_system: None,
        doc_id: Some(2),
    });
    let slip = held.slip.clone();
    db.upsert_receipt(held);
    let mut op = OperationFields::new();
    let rf = receipt_form(CalculationType::Outbound, "5");
    db.commit_receipt(8, &rf, &mut op, false).unwrap();
    assert_eq!(db.receipts.len(), 1);
    assert_eq!(db.receipts[0].slip, slip);
    assert_eq!(db.receipts[0].calculation_type, CalculationType::Outbound);
    assert_eq!(db.receipts[0].summary, Amount { mantissa: 5, scale: 0 });
}

#[test]
fn receipt_dialog_targets() {
    let mut db = ledger_with_account(1);
    assert_eq!(db.receipt_dialog_target(10, Some(3), 99), (99, true));
    db.commit_operation(10, &operation_form(1, "1")).unwrap();
    assert_eq!(db.receipt_dialog_target(10, Some(3), 99), (3, false));
    assert_eq!(db.receipt_dialog_target(10, None, 99), (99, false));
}

#[test]
fn blank_receipt_and_line() {
    let r = Receipt::empty_new();
    assert_eq!(r.id, 0);
    assert_eq!(r.date_time, DateTime::epoch());
    assert_eq!(
        DateTime::epoch(),
        DateTime { date: Date { year: 1970, month: 1, day: 1 }, hour: 0, minute: 0, second: 0, nanosecond: 0 }
    );
    assert_eq!(r.calculation_type, CalculationType::Inbound);
    assert_eq!(r.summary, Amount::zero());
    assert!(r.subjects.is_empty());
    assert!(r.cash.is_none() && r.vat.is_none() && r.url.is_none() && r.slip.is_none());
    let s = Subject::empty();
    assert_eq!(s.name, "");
    assert_eq!(s.unit_type, UnitType::Pieces);
    assert_eq!(s.count, 0);
    assert_eq!(s.vat_type, VatType::Vat0);
    assert_eq!(s.price, Amount { mantissa: 0, scale: 0 });
    assert_eq!(s.duplicate(), s);
}
