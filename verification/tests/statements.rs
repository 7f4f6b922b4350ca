use finad::amount::Amount;
use finad::pdf::{
    all_lines, apple_card, apple_lines, discover, discover_date, discover_lines, extract_records,
};
use finad::record::{complete_rows, expense_records, record_all, Line, Record};

fn amount(value: f64) -> Amount {
    Amount { bits: value.to_bits() }
}

fn read(lines: &Vec<Line>) -> Vec<Option<Amount>> {
    lines.iter().map(|l| l.amount.parse::<f64>().ok().map(amount)).collect()
}

const APPLE: &str = "Transactions by someone\n\
    01/05/2026 STARBUCKS 1234  3% $0.15 $5.25\n\
    01/06/2026   H MART - CATONSVILLE   1%   $0.42   $42.10\n\
    01/07/2026 REFUND CO 2% $0.00 $-9.99\n";

const DISCOVER_TEXT: &str = "12/30/25 12/31/25 SUNOCO\n  0363 BALTIMORE\n MD $ 1,034.50\n\
    01/02/26 01/02/26 PAYMENT THANK YOU $ -200.00\n";

#[test]
fn discover_dates_get_their_century() {
    assert_eq!(discover_date("01/02/26"), "01/02/2026");
    assert_eq!(discover_date("12/31/99"), "12/31/2099");
    assert_eq!(discover_date("a/b/cd"), "a/b/20cd");
}

#[test]
fn other_dates_are_left_alone() {
    for date in ["01/02/2026", "", "01/02", "1/2/3/44", "01-02-26", "01/02/6", "x/y/é1"] {
        assert_eq!(discover_date(date), date);
    }
    // Two bytes, though one character.
    assert_eq!(discover_date("x/y/é"), "x/y/20é");
}

#[test]
fn a_long_date_stays_as_it_is() {
    let once = discover_date("03/04/25");
    assert_eq!(once, "03/04/2025");
    assert_eq!(discover_date(&once), once);
}

#[test]
fn the_apple_card_pattern_finds_its_lines() {
    let lines = apple_card(APPLE).expect("the pattern compiles");
    assert_eq!(lines.len(), 3);
    assert_eq!(lines[0].date, "01/05/2026");
    assert_eq!(lines[0].description, "STARBUCKS 1234");
    assert_eq!(lines[0].amount, "5.25");
    assert_eq!(lines[1].description, "H MART - CATONSVILLE");
    assert_eq!(lines[2].amount, "-9.99");
}

#[test]
fn the_discover_pattern_finds_its_lines() {
    let lines = discover(DISCOVER_TEXT).expect("the pattern compiles");
    assert_eq!(lines.len(), 2);
    assert_eq!(lines[0].date, "12/30/2025");
    assert_eq!(lines[0].description, "SUNOCO 0363 BALTIMORE MD");
    assert_eq!(lines[0].amount, "1034.50");
    assert_eq!(lines[1].amount, "-200.00");
}

#[test]
fn nothing_is_found_in_other_texts() {
    assert_eq!(apple_card("").expect("the pattern compiles").len(), 0);
    assert_eq!(discover("no transactions").expect("the pattern compiles").len(), 0);
    assert_eq!(apple_card(DISCOVER_TEXT).expect("the pattern compiles").len(), 0);
}

#[test]
fn matches_become_lines() {
    let group = |s: &str| Some(s.to_string());
    let found = vec![vec![group("all"), group("01/02/26"), group("  A\n B "), group("1,0.00")]];
    assert!(all_lines(&found));
    let apple = apple_lines(&found);
    assert_eq!(apple[0].date, "01/02/26");
    assert_eq!(apple[0].description, "A\n B");
    assert_eq!(apple[0].amount, "10.00");
    let discover = discover_lines(&found);
    assert_eq!(discover[0].date, "01/02/2026");
    assert_eq!(discover[0].description, "A B");
    assert_eq!(discover[0].amount, "10.00");
    assert!(!all_lines(&vec![vec![group("all"), None, group("x"), group("y")]]));
    assert!(!all_lines(&vec![vec![group("all")]]));
}

#[test]
fn only_expenses_are_recorded() {
    let lines = apple_card(APPLE).expect("the pattern compiles");
    let records = expense_records(&lines, &read(&lines));
    assert_eq!(records.len(), 2);
    assert_eq!(records[0].category, "dining");
    assert_eq!(records[0].amount, amount(5.25));
    assert!(records[0].teller_id.is_none());
    assert_eq!(records[1].category, "groceries");
    assert_eq!(records[1].date, "01/06/2026");
    // What does not read as a number is left out.
    let unread = expense_records(&lines, &vec![None, Some(amount(0.0)), Some(amount(1.0))]);
    assert_eq!(unread.len(), 1);
    assert_eq!(unread[0].description, "REFUND CO");
}

#[test]
fn the_apple_card_comes_first() {
    let apple = apple_card(APPLE).expect("the pattern compiles");
    let other = discover(DISCOVER_TEXT).expect("the pattern compiles");
    let empty: Vec<Line> = Vec::new();
    let none: Vec<Option<Amount>> = Vec::new();
    let both = extract_records(&apple, &read(&apple), &other, &read(&other));
    assert_eq!(both.expect("a statement").len(), 2);
    let second = extract_records(&empty, &none, &other, &read(&other)).expect("a statement");
    assert_eq!(second.len(), 1);
    assert_eq!(second[0].category, "fuel");
    assert_eq!(second[0].amount, amount(1034.5));
    assert!(extract_records(&empty, &none, &empty, &none).is_none());
    // Lines without an expense do not make a statement.
    let refund = vec![Line {
        date: "01/01/2026".to_string(),
        description: "X".to_string(),
        amount: "-1".to_string(),
    }];
    assert!(extract_records(&refund, &read(&refund), &empty, &none).is_none());
}

#[test]
fn every_line_is_recorded_or_none() {
    let lines = apple_card(APPLE).expect("the pattern compiles");
    let good: Vec<Result<Amount, String>> =
        vec![Ok(amount(5.25)), Ok(amount(42.1)), Ok(amount(-9.99))];
    let records = record_all(&lines, &good).expect("all amounts read");
    assert_eq!(records.len(), 3);
    assert_eq!(records[2].amount, amount(-9.99));
    assert_eq!(records[2].category, "Others");
    let bad: Vec<Result<Amount, String>> =
        vec![Ok(amount(5.25)), Err("first".to_string()), Err("second".to_string())];
    assert_eq!(record_all(&lines, &bad).err(), Some("first".to_string()));
}

fn row(description: &str, category: &str) -> Record {
    Record {
        date: "01/01/2026".to_string(),
        amount: amount(1.0),
        description: description.to_string(),
        category: category.to_string(),
        teller_id: None,
    }
}

#[test]
fn missing_categories_are_filled_in() {
    let rows = vec![Ok(row("NETFLIX", "")), Ok(row("NETFLIX", "mine"))];
    let records = complete_rows(rows).expect("all rows read");
    assert_eq!(records[0].category, "entertainment");
    assert_eq!(records[1].category, "mine");
    let rows = vec![Ok(row("X", "")), Err("row 2".to_string()), Err("row 3".to_string())];
    assert_eq!(complete_rows(rows).err(), Some("row 2".to_string()));
}
