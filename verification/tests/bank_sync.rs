use finad::amount::Amount;
use finad::exchange::{serve, Exchange};
use finad::teller::{
    accounts_url, debit_record, listings, local_date, read_page, transactions_url, value_page,
    Listing, AccountSync, TellerTransaction,
};

fn amount(value: f64) -> Amount {
    Amount { bits: value.to_bits() }
}

fn spent(id: &str) -> TellerTransaction {
    TellerTransaction {
        id: Some(id.to_string()),
        amount: Some(amount(-1.5)),
        date: Some("2026-01-02".to_string()),
        description: Some("shop".to_string()),
    }
}

fn page(from: usize, to: usize) -> Vec<TellerTransaction> {
    (from..to).map(|n| spent(&format!("t{}", n))).collect()
}

fn ids(sync: &AccountSync) -> Vec<String> {
    sync.records.iter().map(|r| r.teller_id.clone().unwrap_or_default()).collect()
}

#[test]
fn bank_dates_become_american() {
    assert_eq!(local_date("2026-01-02"), "01/02/2026");
    assert_eq!(local_date("a-b-c"), "b/c/a");
    for date in ["", "2026-01", "20260102", "2026-01-02-03", "2026/01/02"] {
        assert_eq!(local_date(date), date);
    }
    assert_eq!(local_date("--"), "//");
}

#[test]
fn debits_are_recorded() {
    let record = debit_record(&spent("t1")).expect("a debit");
    assert_eq!(record.date, "01/02/2026");
    assert_eq!(record.amount, amount(1.5));
    assert_eq!(record.description, "SHOP");
    assert_eq!(record.category, "Others");
    assert_eq!(record.teller_id, Some("t1".to_string()));
    let coffee = TellerTransaction { description: Some("Straße Coffee".to_string()), ..spent("t") };
    let record = debit_record(&coffee).expect("a debit");
    assert_eq!(record.description, "STRASSE COFFEE");
    assert_eq!(record.category, "dining");
}

#[test]
fn credits_and_the_undated_are_not() {
    for value in [0.0, -0.0, 1.5, f64::INFINITY] {
        let credit = TellerTransaction { amount: Some(amount(value)), ..spent("t") };
        assert!(debit_record(&credit).is_none());
    }
    assert!(debit_record(&TellerTransaction { amount: None, ..spent("t") }).is_none());
    assert!(debit_record(&TellerTransaction { date: None, ..spent("t") }).is_none());
}

#[test]
fn what_is_missing_has_a_default() {
    let bare = TellerTransaction { id: None, description: None, ..spent("t") };
    let record = debit_record(&bare).expect("a debit");
    assert_eq!(record.description, "UNKNOWN");
    assert!(record.teller_id.is_none());
}

#[test]
fn a_short_page_is_the_last() {
    let mut sync = AccountSync::new(None);
    assert!(!sync.absorb(&page(0, 99)));
    assert_eq!(sync.records.len(), 99);
    assert_eq!(sync.newest_id, Some("t0".to_string()));
    assert!(sync.from_id.is_none());
}

#[test]
fn an_empty_page_is_the_last() {
    let mut sync = AccountSync::new(None);
    assert!(!sync.absorb(&Vec::new()));
    assert!(sync.newest_id.is_none());
    assert_eq!(sync.records.len(), 0);
}

#[test]
fn a_first_sync_reads_all_pages() {
    let mut sync = AccountSync::new(None);
    assert!(sync.absorb(&page(0, 100)));
    assert_eq!(sync.from_id, Some("t99".to_string()));
    assert!(sync.absorb(&page(100, 200)));
    assert_eq!(sync.from_id, Some("t199".to_string()));
    assert!(!sync.absorb(&page(200, 230)));
    assert_eq!(sync.newest_id, Some("t0".to_string()));
    let all: Vec<String> = (0..230).map(|n| format!("t{}", n)).collect();
    assert_eq!(ids(&sync), all);
}

#[test]
fn a_sync_stops_at_what_it_has_seen() {
    let mut sync = AccountSync::new(Some("t150".to_string()));
    assert!(sync.absorb(&page(0, 100)));
    assert!(!sync.absorb(&page(100, 200)));
    assert_eq!(sync.records.len(), 150);
    assert_eq!(sync.newest_id, Some("t0".to_string()));
}

#[test]
fn a_second_sync_reads_only_the_fresh() {
    let mut first = AccountSync::new(None);
    assert!(!first.absorb(&page(10, 60)));
    let mut second = AccountSync::new(first.newest_id);
    assert!(!second.absorb(&page(7, 60)));
    assert_eq!(ids(&second), vec!["t7", "t8", "t9"]);
    let mut third = AccountSync::new(second.newest_id);
    assert!(!third.absorb(&page(7, 60)));
    assert_eq!(third.records.len(), 0);
    assert_eq!(third.newest_id, Some("t7".to_string()));
}

#[test]
fn credits_count_for_the_cursor() {
    let mut list = page(0, 100);
    list[0].amount = Some(amount(20.0));
    list[99].amount = None;
    let mut sync = AccountSync::new(None);
    assert!(sync.absorb(&list));
    assert_eq!(sync.records.len(), 98);
    assert_eq!(sync.newest_id, Some("t0".to_string()));
    assert_eq!(sync.from_id, Some("t99".to_string()));
}

#[test]
fn a_nameless_transaction_is_named_by_the_empty_text() {
    let mut list = page(0, 2);
    list[0].id = None;
    let mut sync = AccountSync::new(None);
    assert!(!sync.absorb(&list));
    assert_eq!(sync.newest_id, Some(String::new()));
    let mut again = AccountSync::new(Some(String::new()));
    assert!(!again.absorb(&list));
    assert_eq!(again.records.len(), 0);
}

#[test]
fn pages_are_asked_for() {
    assert_eq!(accounts_url(), "https://api.teller.io/accounts");
    assert_eq!(transactions_url("acc_1"), "https://api.teller.io/accounts/acc_1/transactions");
    let mut sync = AccountSync::new(None);
    let pair = |a: &str, b: &str| (a.to_string(), b.to_string());
    assert_eq!(sync.next_query(), vec![pair("count", "100")]);
    assert!(sync.absorb(&page(0, 100)));
    assert_eq!(sync.next_query(), vec![pair("count", "100"), pair("from_id", "t99")]);
}

fn answered(success: bool, status: &str, body: &str) -> Exchange {
    Exchange::Answered { success, status: status.to_string(), body: body.to_string() }
}

#[test]
fn pages_are_read() {
    let json = r#"[{"id":"t1","amount":"-4.20","date":"2026-01-02","description":"Cafe","x":1},
                   {"amount":5}, 7]"#;
    let list = read_page(answered(true, "200 OK", json)).ok().expect("a page");
    assert_eq!(list.len(), 3);
    assert_eq!(list[0].id, Some("t1".to_string()));
    assert_eq!(list[0].amount, Some("-4.20".to_string()));
    assert_eq!(list[0].date, Some("2026-01-02".to_string()));
    assert_eq!(list[0].description, Some("Cafe".to_string()));
    // Only texts count.
    assert!(list[1].amount.is_none());
    assert!(list[2].id.is_none());
    let amounts = vec![Some(amount(-4.2)), None, None];
    let valued = value_page(&list, &amounts);
    assert_eq!(valued.len(), 3);
    assert_eq!(valued[0].amount, Some(amount(-4.2)));
    assert_eq!(valued[0].description, Some("Cafe".to_string()));
    assert!(valued[1].amount.is_none());
}

#[test]
fn what_is_no_list_is_an_empty_page() {
    for json in ["{}", "null", "\"x\"", "[]"] {
        let list: Vec<Listing> = read_page(answered(true, "200 OK", json)).ok().expect("a page");
        assert_eq!(list.len(), 0);
    }
    assert_eq!(listings(&None).len(), 0);
}

#[test]
fn unserved_pages_are_failures() {
    assert_eq!(
        read_page(answered(false, "403 Forbidden", "{\"error\":1}")).err(),
        Some("Teller transactions error 403 Forbidden: {\"error\":1}".to_string())
    );
    assert_eq!(
        read_page(Exchange::Failed("timeout".to_string())).err(),
        Some("timeout".to_string())
    );
    assert_eq!(serve(answered(true, "200 OK", "[]"), "x"), Ok("[]".to_string()));
}
