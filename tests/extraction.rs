use kliento::amount::{parse_amount, Amount};
use kliento::bills::{
    extract_bills, extract_row, extract_valid_bills_from, Bill, Bills, ExtractError,
    ExtractionStrategy,
};
use kliento::dates::{format_dmy, parse_due_date, parse_period, Date};
use kliento::records::{Accounts, Counter, Payment, Payments};

fn row(cells: &[&str]) -> Vec<String> {
    cells.iter().map(|c| c.to_string()).collect()
}

fn day(year: i32, month: u32, day: u32) -> Date {
    Date { year, month, day }
}

#[test]
fn amount_with_thousands_separator() {
    assert_eq!(parse_amount("1,234.56"), Some(Amount { mantissa: 123456, scale: 2 }));
    assert_eq!(parse_amount("153.45"), Some(Amount { mantissa: 15345, scale: 2 }));
    assert_eq!(parse_amount("1,000,000"), Some(Amount { mantissa: 1000000, scale: 0 }));
}

#[test]
fn malformed_amounts() {
    assert_eq!(parse_amount(""), None);
    assert_eq!(parse_amount("12a"), None);
    assert_eq!(parse_amount("1.2.3"), None);
    assert_eq!(parse_amount(","), None);
    assert_eq!(parse_amount("99999999999999999999"), None);
}

#[test]
fn due_date_parsing_and_formatting() {
    let d = parse_due_date("02/28/2024").unwrap();
    assert_eq!(d, day(2024, 2, 28));
    assert_eq!(format_dmy(&d), "28-02-2024");
    assert_eq!(parse_due_date("2024-02-28"), None);
    assert_eq!(parse_due_date("02/30/2024"), None);
}

#[test]
fn period_codes() {
    assert_eq!(parse_period("022024"), Some((2, 2024)));
    assert_eq!(parse_period("132024"), None);
    assert_eq!(parse_period("02-2024"), None);
}

#[test]
fn due_date_window_in_skipping_mode() {
    let today = day(2024, 3, 1);
    let past = extract_row(&row(&["1", "10", "02/29/2024"]), &today, 0, ExtractionStrategy::SkipInvalidRows);
    assert!(matches!(past, Ok(None)));
    let same = extract_row(&row(&["1", "10", "03/01/2024"]), &today, 0, ExtractionStrategy::SkipInvalidRows)
        .unwrap()
        .unwrap();
    assert_eq!(same.due_date, "01-03-2024");
    assert_eq!(same.period, "03-2024");
}

#[test]
fn skipping_mode_keeps_valid_rows_in_order() {
    let rows = vec![
        row(&["123456789", "1,153.45", "02/28/2024"]),
        row(&["987654321", "513.21", "not a date"]),
        row(&["887654321", "513.21", "01/22/2024"]),
        row(&["555", "7", "03/24/2024", "ignored"]),
        row(&["666"]),
    ];
    let bills = extract_bills(&rows, &day(2024, 2, 1), ExtractionStrategy::SkipInvalidRows).unwrap();
    assert_eq!(bills.len(), 2);
    assert_eq!(bills[0].account_number, "123456789");
    assert_eq!(bills[0].amount, Amount { mantissa: 115345, scale: 2 });
    assert_eq!(bills[0].due_date, "28-02-2024");
    assert_eq!(bills[0].period, "02-2024");
    assert_eq!(bills[1].account_number, "555");
    assert_eq!(bills[1].period, "03-2024");
}

#[test]
fn malformed_amount_stops_extraction() {
    let rows = vec![row(&["1", "10", "02/28/2024"]), row(&["2", "ten", "02/28/2024"])];
    let r = extract_bills(&rows, &day(2024, 2, 1), ExtractionStrategy::SkipInvalidRows);
    assert_eq!(r.err(), Some(ExtractError::MalformedAmount { row: 1 }));
}

#[test]
fn strict_mode_rejects_malformed_date() {
    let rows = vec![row(&["1", "10", "02/28/2024", "022024"]), row(&["2", "10", "28-02-2024", "022024"])];
    let r = extract_bills(&rows, &day(2024, 2, 1), ExtractionStrategy::StrictAbortOnError);
    assert_eq!(r.err(), Some(ExtractError::MalformedDate { row: 1 }));
}

#[test]
fn strict_mode_rejects_malformed_period() {
    let rows = vec![row(&["1", "10", "02/28/2024", "2024"])];
    let r = extract_bills(&rows, &day(2024, 2, 1), ExtractionStrategy::StrictAbortOnError);
    assert_eq!(r.err(), Some(ExtractError::MalformedPeriod { row: 0 }));
}

#[test]
fn strict_mode_takes_period_column_and_drops_past_rows() {
    let rows = vec![
        row(&["1", "10", "02/28/2024", "012024"]),
        row(&["2", "20", "01/28/2024", "012024"]),
        row(&["3"]),
    ];
    let mut bills = Bills::new();
    bills.extract_as_of(&rows, &day(2024, 2, 1), ExtractionStrategy::StrictAbortOnError).unwrap();
    assert_eq!(bills.count(), 2);
    let items = bills.into_vec();
    assert_eq!(items[0].period, "01-2024");
    assert_eq!(items[0].due_date, "28-02-2024");
    assert_eq!(items[1].account_number, "3");
    assert_eq!(items[1].due_date, "");
    assert_eq!(items[1].amount, Amount { mantissa: 0, scale: 0 });
}

#[test]
fn failed_extraction_leaves_collection_unchanged() {
    let mut bills = Bills::new();
    bills.extract_as_of(&vec![row(&["1", "10", "02/28/2024"])], &day(2024, 2, 1), ExtractionStrategy::StrictAbortOnError).unwrap();
    let r = bills.extract_as_of(&vec![row(&["2", "x"])], &day(2024, 2, 1), ExtractionStrategy::StrictAbortOnError);
    assert!(r.is_err());
    assert_eq!(bills.count(), 1);
}

#[test]
fn extraction_as_of_now_drops_long_past_rows() {
    let rows = vec![row(&["1", "10", "01/01/2000"]), row(&["2", "20", "12/31/9999"])];
    let bills = extract_valid_bills_from(&rows).unwrap();
    assert_eq!(bills.len(), 1);
    assert_eq!(bills[0].due_date, "31-12-9999");
    let mut all = Bills::new();
    all.extract(&rows, ExtractionStrategy::SkipInvalidRows).unwrap();
    assert_eq!(all.count(), 1);
}

#[test]
fn new_bill_is_empty() {
    let b = Bill::new();
    assert_eq!(b.account_number, "");
    assert_eq!(b.amount, Amount { mantissa: 0, scale: 0 });
}

#[test]
fn accounts_take_first_column() {
    let mut accounts = Accounts::new();
    accounts.extract(&vec![row(&["A1", "x"]), row(&[]), row(&["A3"])]);
    assert_eq!(accounts.count(), 3);
    let ids: Vec<String> = accounts.into_vec().into_iter().map(|a| a.id).collect();
    assert_eq!(ids, vec!["A1".to_string(), String::new(), "A3".to_string()]);
}

#[test]
fn payments_take_pin_only() {
    let mut payments = Payments::new();
    payments.extract(&vec![row(&["PIN-7", "2024-01-01", "OR9"])]);
    assert_eq!(payments.count(), 1);
    let items = payments.into_vec();
    assert_eq!(items[0].pin, "PIN-7");
    assert_eq!(items[0].or_date, "");
    let p = Payment::new();
    assert_eq!(p.pin_hash, "");
}
