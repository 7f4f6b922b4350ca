use finad::amount::Amount;
use finad::banks::{
    accounts_of, accounts_reply, accounts_to_sync, advance_cursor, begin_sync, client_identity,
    disconnect, disconnected, enroll, enrolled, enrollment_at, find_enrollment, list_accounts,
    read_accounts, settle, sync_reply, ConnectedAccount, TellerAccount, TellerAccountRow,
    TellerEnrollRequest,
};
use finad::exchange::Exchange;
use finad::reply::{Body, Reply, Status};
use finad::store::{Param, Statement};
use finad::teller::{AccountSync, TellerTransaction};

fn refused(reply: &Reply, status: Status, message: &str) -> bool {
    reply.status == status && matches!(&reply.body, Body::Error(m) if m == message)
}

fn text(param: &Param) -> &str {
    match param {
        Param::Text(t) => t,
        _ => panic!("no text"),
    }
}

fn integer(param: &Param) -> i64 {
    match param {
        Param::Integer(n) => *n,
        _ => panic!("no integer"),
    }
}

fn request() -> TellerEnrollRequest {
    TellerEnrollRequest {
        access_token: "token".to_string(),
        enrollment_id: "enr".to_string(),
        institution_name: "Chase".to_string(),
    }
}

fn checking() -> TellerAccount {
    TellerAccount {
        id: "acc".to_string(),
        name: "Checking".to_string(),
        account_type: "depository".to_string(),
        last_four: Some("1234".to_string()),
    }
}

#[test]
fn accounts_are_read() {
    let body = r#"[{"id":"a","name":"Card","type":"credit","last_four":"9"},{}]"#.to_string();
    let status = "200 OK".to_string();
    let list = read_accounts(Exchange::Answered { success: true, status, body });
    let list = list.ok().expect("a list");
    assert_eq!(list.len(), 2);
    assert_eq!(list[0].id, "a");
    assert_eq!(list[0].name, "Card");
    assert_eq!(list[0].account_type, "credit");
    assert_eq!(list[0].last_four, Some("9".to_string()));
    assert_eq!(list[1].id, "");
    assert_eq!(list[1].name, "Account");
    assert_eq!(list[1].account_type, "unknown");
    assert!(list[1].last_four.is_none());
    assert_eq!(accounts_of(&None).len(), 0);
}

#[test]
fn unserved_accounts_are_a_failure() {
    let status = "401 Unauthorized".to_string();
    let body = "{}".to_string();
    let list = read_accounts(Exchange::Answered { success: false, status, body });
    assert_eq!(list.err(), Some("Teller accounts error 401 Unauthorized: {}".to_string()));
}

#[test]
fn an_identity_needs_both_halves() {
    let cert = vec![1u8, 2];
    let key = vec![3u8];
    assert_eq!(client_identity(Some(cert.clone()), Some(key.clone())), Some(vec![1, 2, 10, 3]));
    assert!(client_identity(None, Some(key)).is_none());
    assert!(client_identity(Some(cert), None).is_none());
}

#[test]
fn an_enrollment_is_added_for_its_user() {
    let statement = enrollment_at(7, &request(), "now".to_string());
    assert!(statement.sql.starts_with("INSERT INTO teller_enrollments"));
    assert_eq!(integer(&statement.params[0]), 7);
    assert_eq!(text(&statement.params[1]), "token");
    assert_eq!(text(&statement.params[2]), "enr");
    assert_eq!(text(&statement.params[3]), "Chase");
    assert_eq!(text(&statement.params[4]), "now");
    let begun = enroll(7, &request(), &Ok(vec![checking()])).ok().expect("a statement");
    assert_eq!(begun.sql, statement.sql);
    assert_eq!(begun.params.len(), 5);
    // The time as RFC 3339 writes it.
    assert_eq!(&text(&begun.params[4])[4..5], "-");
    assert!(text(&begun.params[4]).contains('T'));
}

#[test]
fn an_enrollment_needs_the_bank() {
    let failed = enroll(7, &request(), &Err("down".to_string())).err().expect("a refusal");
    assert!(refused(&failed, Status::BadGateway, "down"));
}

#[test]
fn accounts_are_added_with_their_enrollment() {
    let accounts = vec![checking(), TellerAccount { last_four: None, ..checking() }];
    let (statements, reply) =
        enrolled(7, &request(), &accounts, Ok(3)).ok().expect("statements");
    assert_eq!(statements.len(), 2);
    assert_eq!(integer(&statements[0].params[0]), 3);
    assert_eq!(integer(&statements[0].params[1]), 7);
    assert_eq!(text(&statements[0].params[2]), "acc");
    assert_eq!(text(&statements[0].params[5]), "1234");
    assert!(matches!(statements[1].params[5], Param::Null));
    assert_eq!(reply.status, Status::Created);
    match reply.body {
        Body::Connected { message, accounts } => {
            assert_eq!(accounts, 2);
            assert_eq!(
                message,
                "Connected Chase with 2 account(s). Run POST /teller/sync to import transactions."
            );
        }
        _ => panic!("not connected"),
    }
    let failed = enrolled(7, &request(), &accounts, Err("full".to_string()));
    assert!(refused(&failed.err().expect("a refusal"), Status::Internal, "full"));
}

fn connected(row: i64) -> ConnectedAccount {
    ConnectedAccount {
        row,
        access_token: "token".to_string(),
        account_id: "acc".to_string(),
        last_transaction_id: None,
        institution_name: "Chase".to_string(),
    }
}

#[test]
fn a_sync_needs_accounts() {
    let found = begin_sync(Ok(vec![Some(connected(1)), None, Some(connected(2))]));
    let rows: Vec<i64> = found.ok().expect("accounts").iter().map(|a| a.row).collect();
    assert_eq!(rows, vec![1, 2]);
    for none in [Vec::new(), vec![None]] {
        let reply = begin_sync(Ok(none)).err().expect("an answer");
        assert_eq!(reply.status, Status::Fine);
        match reply.body {
            Body::Synced { message, imported } => {
                assert_eq!(imported, 0);
                assert_eq!(
                    message,
                    "No connected banks. Use POST /teller/enroll to connect one first."
                );
            }
            _ => panic!("not synced"),
        }
    }
    let failed = begin_sync(Err("locked".to_string())).err().expect("a refusal");
    assert!(refused(&failed, Status::Internal, "locked"));
}

fn synced(n: usize) -> AccountSync {
    let mut sync = AccountSync::new(None);
    let page: Vec<TellerTransaction> = (0..n)
        .map(|i| TellerTransaction {
            id: Some(format!("t{}", i)),
            amount: Some(Amount { bits: (-1.0f64).to_bits() }),
            date: Some("2026-01-02".to_string()),
            description: None,
        })
        .collect();
    sync.absorb(&page);
    sync
}

#[test]
fn the_cursor_follows_the_newest() {
    let statement = advance_cursor(5, &synced(2)).expect("a cursor");
    assert_eq!(
        statement.sql,
        "UPDATE teller_accounts SET last_transaction_id = ?1 WHERE id = ?2"
    );
    assert_eq!(text(&statement.params[0]), "t0");
    assert_eq!(integer(&statement.params[1]), 5);
    assert!(advance_cursor(5, &synced(0)).is_none());
}

#[test]
fn a_sync_is_saved_and_noted() {
    let statements = settle(5, 7, &Ok(synced(2)));
    assert_eq!(statements.len(), 3);
    for (i, statement) in statements[..2].iter().enumerate() {
        assert!(statement.sql.starts_with("INSERT OR IGNORE INTO transactions"));
        assert_eq!(integer(&statement.params[4]), 7);
        assert_eq!(text(&statement.params[5]), format!("t{}", i));
    }
    assert!(statements[2].sql.starts_with("UPDATE teller_accounts"));
    assert_eq!(text(&statements[2].params[0]), "t0");
    assert_eq!(integer(&statements[2].params[1]), 5);
    // Nothing was seen, or nothing could be fetched.
    assert_eq!(settle(5, 7, &Ok(synced(0))).len(), 0);
    assert_eq!(settle(5, 7, &Err("down".to_string())).len(), 0);
}

#[test]
fn syncs_are_counted() {
    let reply = sync_reply(&vec![Ok(synced(2)), Err("down".to_string()), Ok(synced(3))]);
    match reply.body {
        Body::Synced { message, imported } => {
            assert_eq!(imported, 5);
            assert_eq!(message, "Synced 5 new transaction(s) from connected banks");
        }
        _ => panic!("not synced"),
    }
    assert_eq!(reply.status, Status::Fine);
}

#[test]
fn accounts_are_shown() {
    let row = TellerAccountRow {
        id: 1,
        institution_name: "Chase".to_string(),
        account_name: "Checking".to_string(),
        account_type: "depository".to_string(),
        last_four: None,
    };
    match accounts_reply(Ok(vec![None, Some(row)])).body {
        Body::Accounts(shown) => {
            assert_eq!(shown.len(), 1);
            assert_eq!(shown[0].account_name, "Checking");
        }
        _ => panic!("no accounts"),
    }
    assert!(refused(&accounts_reply(Err("x".to_string())), Status::Internal, "x"));
}

fn about(statement: &Statement, id: i64, user: i64) -> bool {
    statement.params.len() == 2
        && integer(&statement.params[0]) == id
        && integer(&statement.params[1]) == user
}

#[test]
fn an_account_is_disconnected() {
    let find = find_enrollment(4, 7);
    assert_eq!(
        find.sql,
        "SELECT teller_enrollment_id FROM teller_accounts WHERE id = ?1 AND user_id = ?2"
    );
    assert!(about(&find, 4, 7));
    let (removal, count) = disconnect(4, 7, Some(3)).ok().expect("statements");
    assert_eq!(removal.sql, "DELETE FROM teller_accounts WHERE id = ?1 AND user_id = ?2");
    assert!(about(&removal, 4, 7));
    assert_eq!(integer(&count.params[0]), 3);
    let missing = disconnect(4, 7, None).err().expect("a refusal");
    assert!(refused(&missing, Status::NotFound, "Account not found"));
}

#[test]
fn an_empty_enrollment_goes_with_its_last_account() {
    let (removal, reply) = disconnected(3, 7, Some(0));
    let removal = removal.expect("a removal");
    assert_eq!(removal.sql, "DELETE FROM teller_enrollments WHERE id = ?1 AND user_id = ?2");
    assert!(about(&removal, 3, 7));
    assert_eq!(reply.status, Status::Fine);
    assert!(matches!(reply.body, Body::Message(m) if m == "Bank account disconnected"));
    assert!(disconnected(3, 7, Some(1)).0.is_none());
    assert!(disconnected(3, 7, None).0.is_none());
}

#[test]
fn accounts_are_asked_for_by_user() {
    for statement in [accounts_to_sync(9), list_accounts(9)] {
        assert!(statement.sql.contains("WHERE ta.user_id = ?1"));
        assert_eq!(statement.params.len(), 1);
        assert_eq!(integer(&statement.params[0]), 9);
    }
}
