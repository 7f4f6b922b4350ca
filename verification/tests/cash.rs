use finad::amount::Amount;
use finad::cash::{
    add_cash_entry, cash_entry_added, cash_entry_deleted, cash_reply, delete_cash_entry,
    list_entries, CashEntry, CashEntryRequest,
};
use finad::reply::{health, Body, Reply, Status};
use finad::store::Param;

fn amount(value: f64) -> Amount {
    Amount { bits: value.to_bits() }
}

fn refused(reply: &Reply, status: Status, message: &str) -> bool {
    reply.status == status && matches!(&reply.body, Body::Error(m) if m == message)
}

fn reported(reply: &Reply, status: Status, message: &str) -> bool {
    reply.status == status && matches!(&reply.body, Body::Message(m) if m == message)
}

fn request(value: f64, entry_type: &str) -> CashEntryRequest {
    CashEntryRequest {
        date: "01/02/2026".to_string(),
        amount: amount(value),
        entry_type: entry_type.to_string(),
        description: "lunch".to_string(),
    }
}

fn entry(id: i64, value: f64, entry_type: &str) -> CashEntry {
    CashEntry {
        id,
        date: "01/02/2026".to_string(),
        amount: amount(value),
        entry_type: entry_type.to_string(),
        description: String::new(),
    }
}

#[test]
fn cash_is_noted() {
    for entry_type in ["income", "expense"] {
        let statement = add_cash_entry(7, &request(12.5, entry_type)).ok().expect("a statement");
        assert!(statement.sql.starts_with("INSERT INTO cash_entries"));
        assert!(matches!(statement.params[0], Param::Integer(7)));
        assert!(matches!(&statement.params[1], Param::Text(t) if t == "01/02/2026"));
        assert!(matches!(statement.params[2], Param::Real(a) if a == amount(12.5)));
        assert!(matches!(&statement.params[3], Param::Text(t) if t == entry_type));
        assert!(matches!(&statement.params[4], Param::Text(t) if t == "lunch"));
    }
}

#[test]
fn cash_of_another_kind_is_refused() {
    for entry_type in ["", "Income", "loan", "income "] {
        let reply = add_cash_entry(7, &request(-1.0, entry_type)).err().expect("a refusal");
        assert!(refused(
            &reply,
            Status::BadRequest,
            "entry_type must be 'income' or 'expense'"
        ));
    }
}

#[test]
fn cash_must_be_positive() {
    for value in [0.0, -0.0, -5.0, f64::NEG_INFINITY] {
        let reply = add_cash_entry(7, &request(value, "income")).err().expect("a refusal");
        assert!(refused(&reply, Status::BadRequest, "amount must be positive"));
    }
    assert!(add_cash_entry(7, &request(0.01, "income")).is_ok());
    assert!(add_cash_entry(7, &request(f64::NAN, "income")).is_ok());
}

#[test]
fn noting_cash_is_reported() {
    assert!(reported(&cash_entry_added(Ok(())), Status::Created, "Cash entry added"));
    assert!(refused(&cash_entry_added(Err("x".to_string())), Status::Internal, "x"));
}

#[test]
fn cash_comes_in_and_goes_out() {
    let rows = vec![
        Some(entry(1, 5.0, "income")),
        None,
        Some(entry(2, 2.0, "expense")),
        Some(entry(3, 7.0, "income")),
        Some(entry(4, 1.0, "other")),
    ];
    match cash_reply(Ok(rows)).body {
        Body::Cash { entries, income, expense } => {
            assert_eq!(entries.iter().map(|e| e.id).collect::<Vec<_>>(), vec![1, 2, 3, 4]);
            assert_eq!(income, vec![amount(5.0), amount(7.0)]);
            assert_eq!(expense, vec![amount(2.0)]);
        }
        _ => panic!("no cash"),
    }
    assert!(refused(&cash_reply(Err("x".to_string())), Status::Internal, "x"));
}

#[test]
fn every_entry_counts_once() {
    let rows: Vec<Option<CashEntry>> = (0..9)
        .map(|i| Some(entry(i, 1.0, if i % 3 == 0 { "income" } else { "expense" })))
        .collect();
    match cash_reply(Ok(rows)).body {
        Body::Cash { entries, income, expense } => {
            assert_eq!(income.len() + expense.len(), entries.len());
        }
        _ => panic!("no cash"),
    }
}

#[test]
fn cash_is_struck_out() {
    let statement = delete_cash_entry(4, 7);
    assert_eq!(statement.sql, "DELETE FROM cash_entries WHERE id = ?1 AND user_id = ?2");
    assert!(matches!(statement.params[0], Param::Integer(4)));
    assert!(matches!(statement.params[1], Param::Integer(7)));
    assert!(reported(&cash_entry_deleted(Ok(1)), Status::Fine, "Deleted"));
    assert!(refused(&cash_entry_deleted(Ok(0)), Status::NotFound, "Entry not found"));
    assert!(refused(&cash_entry_deleted(Err("x".to_string())), Status::Internal, "x"));
}

#[test]
fn cash_is_asked_for_by_user() {
    let statement = list_entries(7);
    assert_eq!(
        statement.sql,
        "SELECT id, date, amount, entry_type, description\n FROM cash_entries \
         WHERE user_id = ?1 ORDER BY date DESC"
    );
    assert!(matches!(statement.params[0], Param::Integer(7)));
}

#[test]
fn the_service_is_up() {
    let reply = health();
    assert_eq!(reply.status, Status::Fine);
    assert!(matches!(reply.body, Body::Health(m) if m == "ok"));
}
