use finad::amount::Amount;
use finad::auth::register_with;
use finad::banks::{accounts_to_sync, advance_cursor, enrolled, enrollment_at, list_accounts};
use finad::banks::{disconnect, disconnected, find_enrollment, TellerAccount, TellerEnrollRequest};
use finad::cash::{add_cash_entry, delete_cash_entry, list_entries, CashEntryRequest};
use finad::record::Record;
use finad::store::{
    covers_query, first_steps, last_steps, migration, readable_rows, save_record, save_records,
    Param, Statement, Step, MIGRATION, UNIQUE_INDICES,
};
use finad::summary::{analytics_queries, list_transactions, summary_queries};
use finad::teller::{AccountSync, TellerTransaction};
use rusqlite::types::Value;
use rusqlite::Connection;

fn amount(value: f64) -> Amount {
    Amount { bits: value.to_bits() }
}

fn values(statement: &Statement) -> Vec<Value> {
    statement
        .params
        .iter()
        .map(|p| match p {
            Param::Null => Value::Null,
            Param::Integer(n) => Value::Integer(*n),
            Param::Real(a) => Value::Real(f64::from_bits(a.bits)),
            Param::Text(t) => Value::Text(t.clone()),
        })
        .collect()
}

fn run(conn: &Connection, statement: &Statement) -> usize {
    let params = rusqlite::params_from_iter(values(statement));
    conn.execute(&statement.sql, params).expect("the statement runs")
}

fn rows(conn: &Connection, statement: &Statement) -> Vec<Vec<Value>> {
    let mut prepared = conn.prepare(&statement.sql).expect("the statement is SQL");
    let columns = prepared.column_count();
    let found = prepared
        .query_map(rusqlite::params_from_iter(values(statement)), |row| {
            (0..columns).map(|i| row.get::<_, Value>(i)).collect::<Result<Vec<_>, _>>()
        })
        .expect("the statement runs");
    found.map(|r| r.expect("the row reads")).collect()
}

fn counts(conn: &Connection) -> Vec<Option<i64>> {
    let mut prepared = conn.prepare(UNIQUE_INDICES).expect("the statement is SQL");
    let names: Vec<String> = prepared
        .query_map([], |row| row.get(0))
        .expect("the statement runs")
        .map(|r| r.expect("the row reads"))
        .collect();
    names
        .iter()
        .map(|name| conn.query_row(&covers_query(name), [], |row| row.get(0)).ok())
        .collect()
}

fn take(conn: &Connection, steps: Vec<Step>) {
    for step in steps {
        let taken = conn.execute_batch(step.sql);
        if step.needed {
            taken.expect("the step is needed");
        }
    }
}

fn add_users(conn: &Connection) {
    for email in ["a@b.c", "d@e.f", "g@h.i"] {
        let statement = register_with(email, Some("hash".to_string()), "now".to_string());
        run(conn, &statement.ok().expect("a statement"));
    }
}

fn database() -> Connection {
    let conn = Connection::open_in_memory().expect("a database");
    take(&conn, first_steps());
    take(&conn, last_steps(&counts(&conn)));
    add_users(&conn);
    conn
}

fn record(description: &str, value: f64, teller_id: Option<&str>) -> Record {
    Record {
        date: "01/02/2026".to_string(),
        amount: amount(value),
        description: description.to_string(),
        category: "Others".to_string(),
        teller_id: teller_id.map(|s| s.to_string()),
    }
}

fn text(value: &Value) -> String {
    match value {
        Value::Text(t) => t.clone(),
        _ => panic!("no text"),
    }
}

#[test]
fn a_new_database_needs_no_migration() {
    let conn = database();
    assert!(migration(&counts(&conn)).is_none());
    // Setting it up again changes nothing.
    take(&conn, first_steps());
    take(&conn, last_steps(&counts(&conn)));
}

#[test]
fn migrations_are_decided_by_the_indices() {
    assert!(migration(&vec![Some(0), Some(1)]).is_none());
    for none in [Vec::new(), vec![Some(0)], vec![None], vec![None, Some(0), Some(-1)]] {
        assert_eq!(migration(&none), Some(MIGRATION));
    }
    assert_eq!(
        covers_query("idx"),
        "SELECT COUNT(*) FROM pragma_index_info('idx') WHERE name = 'user_id'"
    );
}

#[test]
fn an_old_database_is_migrated() {
    let conn = Connection::open_in_memory().expect("a database");
    conn.execute_batch(
        "CREATE TABLE transactions (
             id INTEGER PRIMARY KEY, date TEXT NOT NULL, amount REAL NOT NULL,
             description TEXT NOT NULL, category TEXT NOT NULL DEFAULT '', user_id INTEGER,
             UNIQUE(date, description, amount)
         );
         INSERT INTO transactions (date, amount, description, user_id)
             VALUES ('01/02/2026', 1.0, 'X', 1);",
    )
    .expect("the old table is made");
    take(&conn, first_steps());
    add_users(&conn);
    assert_eq!(migration(&counts(&conn)), Some(MIGRATION));
    take(&conn, last_steps(&counts(&conn)));
    assert!(migration(&counts(&conn)).is_none());
    let kept: i64 = conn
        .query_row("SELECT COUNT(*) FROM transactions", [], |row| row.get(0))
        .expect("a count");
    assert_eq!(kept, 1);
    // Now two users can have the same transaction.
    assert_eq!(run(&conn, &save_record(&record("X", 1.0, None), Some(1))), 1);
    assert_eq!(run(&conn, &save_record(&record("X", 1.0, None), Some(2))), 1);
}

#[test]
fn the_database_is_set_up_in_steps() {
    let needed = |steps: Vec<Step>| steps.iter().map(|s| s.needed).collect::<Vec<_>>();
    assert_eq!(
        needed(first_steps()),
        vec![true, true, true, true, true, false, false, false]
    );
    assert_eq!(needed(last_steps(&vec![Some(1)])), vec![false, true]);
    let steps = last_steps(&vec![Some(0)]);
    assert_eq!(steps[0].sql, MIGRATION);
    assert_eq!(needed(steps), vec![true, false, true]);
}

#[test]
fn uploads_are_deduplicated_by_content() {
    let conn = database();
    let records = vec![record("A", 1.0, None), record("A", 1.0, None), record("A", 2.0, None)];
    for statement in save_records(&records, Some(1)) {
        run(&conn, &statement);
    }
    for statement in save_records(&records, Some(1)) {
        assert_eq!(run(&conn, &statement), 0);
    }
    assert_eq!(rows(&conn, &list_transactions(1)).len(), 2);
}

#[test]
fn bank_transactions_are_keyed_on_their_id() {
    let conn = database();
    run(&conn, &save_record(&record("A", 1.0, Some("t1")), Some(1)));
    run(&conn, &save_record(&record("B", 1.0, Some("t2")), Some(1)));
    let mut again = record("A", 1.0, Some("t1"));
    again.category = "dining".to_string();
    run(&conn, &save_record(&again, Some(1)));
    let found = rows(&conn, &list_transactions(1));
    assert_eq!(found.len(), 2);
    let categories: Vec<String> = found.iter().map(|r| text(&r[3])).collect();
    assert!(categories.contains(&"dining".to_string()));
    // Another user's bank may use the same id.
    run(&conn, &save_record(&record("A", 1.0, Some("t1")), Some(2)));
    assert_eq!(rows(&conn, &list_transactions(2)).len(), 1);
    assert_eq!(text(&rows(&conn, &list_transactions(2))[0][3]), "Others");
}

#[test]
fn a_bank_transaction_that_was_uploaded_is_not_added_twice() {
    let conn = database();
    run(&conn, &save_record(&record("A", 1.0, None), Some(1)));
    run(&conn, &save_record(&record("A", 1.0, Some("t1")), Some(1)));
    assert_eq!(rows(&conn, &list_transactions(1)).len(), 1);
}

#[test]
fn bank_transactions_of_one_content_are_stored_once() {
    let conn = database();
    assert_eq!(run(&conn, &save_record(&record("A", 1.0, Some("t1")), Some(1))), 1);
    assert_eq!(run(&conn, &save_record(&record("A", 1.0, Some("t2")), Some(1))), 0);
    let stored = rows(&conn, &list_transactions(1));
    assert_eq!(stored.len(), 1);
    let id: String = conn
        .query_row("SELECT teller_id FROM transactions", [], |row| row.get(0))
        .expect("an id");
    assert_eq!(id, "t1");
    // With another amount, it is another transaction.
    assert_eq!(run(&conn, &save_record(&record("A", 2.0, Some("t2")), Some(1))), 1);
}

#[test]
fn an_amount_that_is_no_number_is_left_out() {
    let conn = database();
    for id in [None, Some("t1")] {
        assert_eq!(run(&conn, &save_record(&record("A", f64::NAN, id), Some(1))), 0);
    }
    assert_eq!(rows(&conn, &list_transactions(1)).len(), 0);
    assert_eq!(run(&conn, &save_record(&record("A", 1.0, Some("t1")), Some(1))), 1);
}

#[test]
fn setting_up_again_keeps_every_row() {
    let conn = database();
    run(&conn, &save_record(&record("A", 1.0, Some("t1")), Some(1)));
    run(&conn, &save_record(&record("B", 2.0, None), Some(2)));
    let dump = |conn: &Connection| -> Vec<(i64, String, Option<i64>, Option<String>)> {
        let mut prepared = conn
            .prepare("SELECT id, description, user_id, teller_id FROM transactions ORDER BY id")
            .expect("the statement is SQL");
        let found = prepared
            .query_map([], |row| Ok((row.get(0)?, row.get(1)?, row.get(2)?, row.get(3)?)))
            .expect("the statement runs");
        found.map(|r| r.expect("the row reads")).collect()
    };
    let before = dump(&conn);
    take(&conn, first_steps());
    take(&conn, last_steps(&counts(&conn)));
    assert_eq!(dump(&conn), before);
    assert_eq!(before.len(), 2);
}

#[test]
fn records_may_be_nobodys() {
    let conn = database();
    let statement = save_record(&record("A", 1.0, None), None);
    assert!(matches!(statement.params[4], Param::Null));
    assert_eq!(run(&conn, &statement), 1);
    assert_eq!(rows(&conn, &list_transactions(1)).len(), 0);
}

#[test]
fn users_see_nothing_but_their_own() {
    let conn = database();
    run(&conn, &save_record(&record("MINE", 10.0, None), Some(1)));
    run(&conn, &save_record(&record("THEIRS", 90.0, None), Some(2)));
    let shown = rows(&conn, &list_transactions(1));
    assert_eq!(shown.len(), 1);
    assert_eq!(text(&shown[0][1]), "MINE");
    let queries = summary_queries(1);
    let totals = rows(&conn, &queries.totals);
    assert_eq!(totals, vec![vec![Value::Integer(1), Value::Real(10.0)]]);
    let months = rows(&conn, &queries.months);
    assert_eq!(text(&months[0][0]), "2026-01");
    assert_eq!(months[0][2], Value::Real(10.0));
    let categories = rows(&conn, &queries.categories);
    assert_eq!(categories.len(), 1);
    assert_eq!(categories[0][3], Value::Real(100.0));
    assert_eq!(rows(&conn, &queries.merchants).len(), 1);
    assert_eq!(rows(&conn, &queries.biggest).len(), 1);
    let (average, top) = analytics_queries(1);
    assert_eq!(rows(&conn, &average), vec![vec![Value::Real(10.0)]]);
    assert_eq!(rows(&conn, &top).len(), 1);
    let (average, top) = analytics_queries(3);
    assert_eq!(rows(&conn, &average), vec![vec![Value::Real(0.0)]]);
    assert_eq!(rows(&conn, &top).len(), 0);
}

#[test]
fn card_payments_are_no_spending() {
    let conn = database();
    let mut payment = record("DISCOVER E-PAYMENT", 500.0, None);
    payment.category = "payment".to_string();
    run(&conn, &save_record(&payment, Some(1)));
    run(&conn, &save_record(&record("A", 20.0, None), Some(1)));
    let queries = summary_queries(1);
    let totals = rows(&conn, &queries.totals);
    assert_eq!(totals, vec![vec![Value::Integer(1), Value::Real(20.0)]]);
    assert_eq!(rows(&conn, &list_transactions(1)).len(), 2);
}

#[test]
fn cash_is_the_users() {
    let conn = database();
    let request = |value: f64| CashEntryRequest {
        date: "01/02/2026".to_string(),
        amount: amount(value),
        entry_type: "income".to_string(),
        description: "tips".to_string(),
    };
    run(&conn, &add_cash_entry(1, &request(5.0)).ok().expect("a statement"));
    run(&conn, &add_cash_entry(2, &request(6.0)).ok().expect("a statement"));
    let mine = rows(&conn, &list_entries(1));
    assert_eq!(mine.len(), 1);
    assert_eq!(mine[0][2], Value::Real(5.0));
    // Nobody strikes out what is another's.
    assert_eq!(run(&conn, &delete_cash_entry(1, 2)), 0);
    assert_eq!(run(&conn, &delete_cash_entry(1, 1)), 1);
    assert_eq!(rows(&conn, &list_entries(1)).len(), 0);
}

fn connect(conn: &Connection, user: i64, names: &[&str]) {
    let request = TellerEnrollRequest {
        access_token: "token".to_string(),
        enrollment_id: "enr".to_string(),
        institution_name: "Chase".to_string(),
    };
    run(conn, &enrollment_at(user, &request, "now".to_string()));
    let accounts: Vec<TellerAccount> = names
        .iter()
        .map(|name| TellerAccount {
            id: format!("acc {}", name),
            name: name.to_string(),
            account_type: "credit".to_string(),
            last_four: None,
        })
        .collect();
    let added = Ok(conn.last_insert_rowid());
    let (statements, _) = enrolled(user, &request, &accounts, added).ok().expect("statements");
    for statement in statements {
        run(conn, &statement);
    }
}

#[test]
fn banks_are_connected_and_synced() {
    let conn = database();
    connect(&conn, 1, &["Card", "Checking"]);
    connect(&conn, 2, &["Card"]);
    assert_eq!(rows(&conn, &list_accounts(1)).len(), 2);
    let before = rows(&conn, &accounts_to_sync(2));
    assert_eq!(before.len(), 1);
    assert_eq!(before[0][3], Value::Null);
    let mut sync = AccountSync::new(None);
    sync.absorb(&vec![TellerTransaction {
        id: Some("t9".to_string()),
        amount: Some(amount(-3.0)),
        date: Some("2026-01-02".to_string()),
        description: Some("cafe".to_string()),
    }]);
    let row = match before[0][0] {
        Value::Integer(n) => n,
        _ => panic!("no number"),
    };
    for statement in save_records(&sync.records, Some(2)) {
        run(&conn, &statement);
    }
    run(&conn, &advance_cursor(row, &sync).expect("a cursor"));
    assert_eq!(text(&rows(&conn, &accounts_to_sync(2))[0][3]), "t9");
    assert_eq!(rows(&conn, &accounts_to_sync(1))[0][3], Value::Null);
    let synced = rows(&conn, &list_transactions(2));
    assert_eq!(text(&synced[0][0]), "01/02/2026");
    assert_eq!(synced[0][2], Value::Real(3.0));
}

#[test]
fn a_bank_goes_with_its_last_account() {
    let conn = database();
    connect(&conn, 1, &["Card", "Checking"]);
    let banks = |conn: &Connection| -> i64 {
        conn.query_row("SELECT COUNT(*) FROM teller_enrollments", [], |row| row.get(0))
            .expect("a count")
    };
    let remove = |conn: &Connection, account: i64, user: i64| -> bool {
        let found = rows(conn, &find_enrollment(account, user));
        let enrollment = found.first().map(|row| match row[0] {
            Value::Integer(n) => n,
            _ => panic!("no number"),
        });
        let Ok((removal, count)) = disconnect(account, user, enrollment) else { return false };
        run(conn, &removal);
        let remaining = match rows(conn, &count)[0][0] {
            Value::Integer(n) => n,
            _ => panic!("no number"),
        };
        let bank = enrollment.expect("an enrollment");
        if let Some(statement) = disconnected(bank, user, Some(remaining)).0 {
            run(conn, &statement);
        }
        true
    };
    // Nobody disconnects what is another's.
    assert!(!remove(&conn, 1, 2));
    assert!(remove(&conn, 1, 1));
    assert_eq!(banks(&conn), 1);
    assert!(remove(&conn, 2, 1));
    assert_eq!(banks(&conn), 0);
}

#[test]
fn unreadable_rows_are_left_out() {
    assert_eq!(readable_rows(vec![Some(1), None, Some(2), Some(3)]), vec![1, 2, 3]);
    assert_eq!(readable_rows::<u8>(vec![None, None]), Vec::<u8>::new());
}
