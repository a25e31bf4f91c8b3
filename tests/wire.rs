use kliento::amount::{parse_amount, Amount};
use kliento::batch::Batch;
use kliento::bills::Bill;
use kliento::wire::{encode_batch, encode_bill, format_amount};

fn bill(account: &str, mantissa: u64, scale: usize, due: &str, period: &str) -> Bill {
    Bill {
        account_number: account.to_string(),
        amount: Amount { mantissa, scale },
        due_date: due.to_string(),
        period: period.to_string(),
    }
}

#[test]
fn amounts_as_numerals() {
    assert_eq!(format_amount(&Amount { mantissa: 123456, scale: 2 }), "1234.56");
    assert_eq!(format_amount(&Amount { mantissa: 5, scale: 2 }), "0.05");
    assert_eq!(format_amount(&Amount { mantissa: 153, scale: 0 }), "153");
    assert_eq!(format_amount(&Amount { mantissa: 0, scale: 0 }), "0");
    assert_eq!(format_amount(&parse_amount("1,234.56").unwrap()), "1234.56");
}

#[test]
fn one_bill_as_json() {
    let b = bill("123456789", 15345, 2, "28-02-2024", "02-2024");
    assert_eq!(
        encode_bill(&b),
        "{\"account_number\":\"123456789\",\"amount\":153.45,\"due_date\":\"28-02-2024\",\"period\":\"02-2024\"}"
    );
}

#[test]
fn strings_are_escaped() {
    let b = bill("a\"b", 1, 0, "", "");
    assert!(encode_bill(&b).starts_with("{\"account_number\":\"a\\\"b\","));
}

#[test]
fn batch_round_trips_through_json() {
    let bills = vec![
        bill("123456789", 15345, 2, "28-02-2024", "02-2024"),
        bill("987654321", 51321, 2, "24-03-2024", "03-2024"),
        bill("887 \"654\" 321", 51321, 2, "22-01-2024", "01-2024"),
    ];
    let body = encode_batch(&bills, &Batch { start: 0, end: 3, sequence_number: 1 });
    let parsed: serde_json::Value = serde_json::from_str(&body).unwrap();
    let items = parsed.as_array().unwrap();
    assert_eq!(items.len(), 3);
    for (item, sent) in items.iter().zip(bills.iter()) {
        let back = Bill {
            account_number: item["account_number"].as_str().unwrap().to_string(),
            amount: parse_amount(&item["amount"].to_string()).unwrap(),
            due_date: item["due_date"].as_str().unwrap().to_string(),
            period: item["period"].as_str().unwrap().to_string(),
        };
        assert_eq!(back.account_number, sent.account_number);
        assert_eq!(back.amount, sent.amount);
        assert_eq!(back.due_date, sent.due_date);
        assert_eq!(back.period, sent.period);
    }
    assert_eq!(items[0]["amount"].as_f64(), Some(153.45));
}

#[test]
fn batch_slices_the_collection() {
    let bills = vec![bill("1", 1, 0, "", ""), bill("2", 2, 0, "", ""), bill("3", 3, 0, "", "")];
    let body = encode_batch(&bills, &Batch { start: 1, end: 3, sequence_number: 2 });
    assert_eq!(
        body,
        "[{\"account_number\":\"2\",\"amount\":2,\"due_date\":\"\",\"period\":\"\"},{\"account_number\":\"3\",\"amount\":3,\"due_date\":\"\",\"period\":\"\"}]"
    );
    assert_eq!(encode_batch(&bills, &Batch { start: 1, end: 1, sequence_number: 2 }), "[]");
}
