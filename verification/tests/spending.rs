use finad::amount::Amount;
use finad::assistant::Assistant;
use finad::record::Record;
use finad::reply::{Body, Reply, Status};
use finad::summary::{
    analytics_reply, build_summary, chat_context, summary_reply, transactions_reply, BigRow,
    CategoryRow, MerchantRow, MonthRow, TopExpense, Totals,
};
use finad::upload::{temp_path, upload_name, upload_reply, Upload};

fn refused(reply: &Reply, status: Status, message: &str) -> bool {
    reply.status == status && matches!(&reply.body, Body::Error(m) if m == message)
}

fn totals(count: i64) -> Totals {
    Totals { count, spent: format!("{:.2}", 1234.5) }
}

fn months() -> Vec<MonthRow> {
    vec![
        MonthRow { month: "2026-01".to_string(), count: 3, total: format!("{:.2}", 1000.0) },
        MonthRow { month: "2026-02".to_string(), count: 1, total: format!("{:.2}", 234.5) },
    ]
}

fn categories() -> Vec<CategoryRow> {
    vec![CategoryRow {
        category: "dining".to_string(),
        count: 4,
        total: format!("{:.2}", 1234.5),
        share: format!("{:.1}", 100.0),
    }]
}

fn merchants(description: &str) -> Vec<MerchantRow> {
    vec![MerchantRow {
        description: description.to_string(),
        visits: 4,
        total: format!("{:.2}", 1234.5),
    }]
}

fn biggest(description: &str) -> Vec<BigRow> {
    vec![BigRow {
        date: "01/02/2026".to_string(),
        description: description.to_string(),
        amount: format!("{:.2}", 999.0),
        category: "dining".to_string(),
    }]
}

#[test]
fn a_summary_is_written() {
    let long = "A VERY LONG MERCHANT NAME THAT GOES ON AND ON";
    let text = build_summary(
        Ok(totals(4)),
        Ok(months()),
        Ok(categories()),
        Ok(merchants(long)),
        Ok(biggest(long)),
    );
    let mut expected = String::from("Spending Summary: \n\n");
    expected.push_str(&format!(
        "Total Transactions: {}   Total Spent: ${:.2}\n\n",
        4, 1234.5
    ));
    expected.push_str("Spending by month:\n");
    expected.push_str(&format!("  {}: {} transactions  ${:.2}\n", "2026-01", 3, 1000.0));
    expected.push_str(&format!("  {}: {} transactions  ${:.2}\n", "2026-02", 1, 234.5));
    expected.push_str("\nSpending by category:\n");
    expected.push_str(&format!(
        "  {:<20} {:>3} transactions  ${:>8.2}  ({:.1}%)\n",
        "dining", 4, 1234.5, 100.0
    ));
    expected.push_str("\nTop 5 merchants:\n");
    expected.push_str(&format!("  {:<40}  {}x  ${:.2}\n", &long[..40], 4, 1234.5));
    expected.push_str("\nBiggest transactions:\n");
    expected.push_str(&format!(
        "  {}  ${:>8.2}  {:<15}  {}\n",
        "01/02/2026", 999.0, "dining", &long[..35]
    ));
    assert_eq!(text, Ok(expected));
}

#[test]
fn short_names_are_padded() {
    let text = build_summary(
        Ok(totals(1)),
        Ok(Vec::new()),
        Ok(Vec::new()),
        Ok(merchants("Café")),
        Ok(biggest("Café")),
    )
    .expect("a summary");
    assert!(text.contains(&format!("  {:<40}  4x  $1234.50\n", "Café")));
    assert!(text.ends_with("  01/02/2026  $  999.00  dining           Café\n"));
}

#[test]
fn nothing_is_summed_up_without_transactions() {
    let text = build_summary(
        Ok(totals(0)),
        Err("unasked".to_string()),
        Ok(Vec::new()),
        Ok(Vec::new()),
        Ok(Vec::new()),
    );
    assert_eq!(
        text,
        Ok("No transactions found. Upload a statement to get started.".to_string())
    );
}

#[test]
fn the_first_failure_is_reported() {
    let e = |s: &str| s.to_string();
    let all = build_summary(Err(e("1")), Err(e("2")), Err(e("3")), Err(e("4")), Err(e("5")));
    assert_eq!(all, Err(e("1")));
    let some = build_summary(Ok(totals(1)), Err(e("2")), Err(e("3")), Err(e("4")), Err(e("5")));
    assert_eq!(some, Err(e("2")));
    let some = build_summary(Ok(totals(1)), Ok(months()), Err(e("3")), Err(e("4")), Err(e("5")));
    assert_eq!(some, Err(e("3")));
    let none = Vec::new();
    let some = build_summary(Ok(totals(1)), Ok(months()), Ok(none), Err(e("4")), Err(e("5")));
    assert_eq!(some, Err(e("4")));
    let one = merchants("X");
    let some =
        build_summary(Ok(totals(1)), Ok(months()), Ok(categories()), Ok(one), Err(e("5")));
    assert_eq!(some, Err(e("5")));
}

#[test]
fn summaries_are_shown() {
    assert!(matches!(summary_reply(Ok("s".to_string())).body, Body::Summary(t) if t == "s"));
    assert!(refused(&summary_reply(Err("x".to_string())), Status::Internal, "x"));
    assert_eq!(chat_context(Ok("s".to_string())), "s");
    assert_eq!(chat_context(Err("x".to_string())), "No transaction data available.");
}

fn expense(n: u64) -> TopExpense {
    TopExpense {
        date: "01/02/2026".to_string(),
        description: format!("M{}", n),
        amount: Amount { bits: n },
        category: "Others".to_string(),
    }
}

#[test]
fn analytics_are_shown() {
    let reply = analytics_reply(None, vec![Some(expense(3)), None, Some(expense(2))]);
    assert_eq!(reply.status, Status::Fine);
    match reply.body {
        Body::Analytics { monthly_average, top_expenses } => {
            assert_eq!(monthly_average.bits, 0.0f64.to_bits());
            assert_eq!(top_expenses.len(), 2);
            assert_eq!(top_expenses[0].description, "M3");
            assert_eq!(top_expenses[1].description, "M2");
        }
        _ => panic!("no analytics"),
    }
    let average = Amount { bits: 12.5f64.to_bits() };
    match analytics_reply(Some(average), Vec::new()).body {
        Body::Analytics { monthly_average, .. } => assert_eq!(monthly_average, average),
        _ => panic!("no analytics"),
    }
}

#[test]
fn transactions_are_shown() {
    let record = Record {
        date: "01/02/2026".to_string(),
        amount: Amount { bits: 0 },
        description: "X".to_string(),
        category: "Others".to_string(),
        teller_id: None,
    };
    match transactions_reply(Ok(vec![None, Some(record), None])).body {
        Body::Transactions(shown) => {
            assert_eq!(shown.len(), 1);
            assert_eq!(shown[0].description, "X");
        }
        _ => panic!("no transactions"),
    }
    assert!(refused(&transactions_reply(Err("x".to_string())), Status::Internal, "x"));
}

fn assistant() -> Assistant {
    Assistant { name: "Helper".to_string(), model: "helper-1".to_string() }
}

#[test]
fn uploads_have_a_place() {
    assert_eq!(upload_name(None), "upload.pdf");
    assert_eq!(upload_name(Some("a.pdf".to_string())), "a.pdf");
    assert_eq!(temp_path("a.pdf"), "/tmp/a.pdf");
}

#[test]
fn uploads_can_fail() {
    let e = || "why".to_string();
    let answer = |upload: Upload| upload_reply(upload, &assistant());
    assert!(refused(&answer(Upload::NoFile), Status::BadRequest, "No file uploaded"));
    assert!(refused(&answer(Upload::Unreadable(e())), Status::BadRequest, "why"));
    assert!(refused(&answer(Upload::Unwritten(e())), Status::Internal, "why"));
    assert!(refused(&answer(Upload::Unextracted(e())), Status::Unprocessable, "why"));
    assert!(refused(&answer(Upload::Unsaved(e())), Status::Internal, "why"));
}

#[test]
fn uploads_are_reported() {
    let saved = |count: usize| Upload::Saved { name: "a.pdf".to_string(), count };
    let message = |count: usize| match upload_reply(saved(count), &assistant()).body {
        Body::Uploaded { message, count: n } => {
            assert_eq!(n, count);
            message
        }
        _ => panic!("not uploaded"),
    };
    assert_eq!(message(12), "Successfully processed 12 transactions from a.pdf");
    assert_eq!(
        message(0),
        "No transactions found in a.pdf. If this isn't an Apple Card or Discover statement, \
         make sure ANTHROPIC_API_KEY is set — Helper is used to parse other formats."
    );
}
