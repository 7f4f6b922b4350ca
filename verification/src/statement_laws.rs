//! What the statements say, word for word, and which value each column gets.

use vstd::prelude::*;

use crate::auth::{
    new_password, new_phone, new_security, new_user, FIND_HASH, FIND_PROFILE, FIND_USER,
};
use crate::banks::{
    cursor, enrollment, new_account, AccountView, TellerEnrollRequest, ACCOUNTS_TO_SYNC,
    COUNT_ACCOUNTS, DELETE_ACCOUNT, DELETE_ENROLLMENT, FIND_ENROLLMENT, LIST_ACCOUNTS,
    LIST_ACCOUNTS_END,
};
use crate::cash::{
    new_entry, CashEntryRequest, DELETE_ENTRY, LIST_ENTRIES, LIST_ENTRIES_END,
};
use crate::store::{
    about, closing, for_user, may, must, owned, save, tells_users_apart, ParamView, StatementView,
    Step, ANSWER_COLUMN, CASH_ENTRIES, COVERS_CLOSING, COVERS_OPENING, MIGRATION, PHONE_COLUMN,
    QUESTION_COLUMN, TELLER_ACCOUNTS, TELLER_COLUMN, TELLER_ENROLLMENTS, TELLER_INDEX,
    TRANSACTIONS, UNIQUE_INDICES, USERS,
};
use crate::summary::{
    spending, summary_statements, BIGGEST, BIGGEST_END, LIST_TRANSACTIONS, LIST_TRANSACTIONS_END,
    MONTHLY_AVERAGE, MONTHLY_AVERAGE_END,
};
use crate::record::RecordView;
use crate::teller::SyncView;

verus! {

/// What a summary asks for: the totals; each month, the first one first; each
/// category, the largest total first, with its share of everything; the five
/// merchants with the largest totals; and the five largest transactions. All of it
/// is of the user, and without payments.
pub proof fn law_summary_statements(user: i64)
    ensures
        summary_statements(user).len() == 5,
        summary_statements(user)[0] == (StatementView {
            sql: "SELECT COUNT(*), ROUND(COALESCE(SUM(amount), 0.0), 2)
 FROM transactions
 WHERE "@ + "category != 'payment' AND "@ + "user_id = ?1"@ + ""@,
            params: seq![ParamView::Integer(user)],
        }),
        summary_statements(user)[1] == (StatementView {
            sql: "SELECT substr(date, 7, 4) || '-' || substr(date, 1, 2) as month,
        COUNT(*) as count, ROUND(SUM(amount), 2) as total
 FROM transactions
 WHERE "@ + "category != 'payment' AND "@ + "user_id = ?1"@ + "
 GROUP BY month ORDER BY month ASC"@,
            params: seq![ParamView::Integer(user)],
        }),
        summary_statements(user)[2] == (StatementView {
            sql: "SELECT category,
        COUNT(*) as count,
        ROUND(SUM(amount), 2) as total,
        ROUND(SUM(amount) * 100.0 / (
            SELECT COALESCE(SUM(amount), 1) FROM transactions
            WHERE "@ + "category != 'payment' AND "@ + "user_id = ?1"@ + ("
        ), 1) as pct
 FROM transactions
 WHERE "@ + "category != 'payment' AND "@ + "user_id = ?1"@ + "
 GROUP BY category ORDER BY total DESC"@),
            params: seq![ParamView::Integer(user)],
        }),
        summary_statements(user)[3] == (StatementView {
            sql: "SELECT description, COUNT(*) as visits, ROUND(SUM(amount), 2) as total
 FROM transactions
 WHERE "@ + "category != 'payment' AND "@ + "user_id = ?1"@ + "
 GROUP BY description ORDER BY total DESC LIMIT 5"@,
            params: seq![ParamView::Integer(user)],
        }),
        summary_statements(user)[4] == (StatementView {
            sql: "SELECT date, description, amount, category
 FROM transactions
 WHERE "@ + "category != 'payment' AND "@ + "user_id = ?1"@ + "
 ORDER BY amount DESC LIMIT 5"@,
            params: seq![ParamView::Integer(user)],
        }),
{
}

/// What the analytics ask for: the mean of what the months come to, and the five
/// largest transactions. Both are of the user, and without payments.
pub proof fn law_analytics_statements(user: i64)
    ensures
        spending(MONTHLY_AVERAGE@, MONTHLY_AVERAGE_END@, user) == (StatementView {
            sql: "SELECT COALESCE(AVG(monthly_total), 0.0) FROM (
     SELECT SUM(amount) as monthly_total
     FROM transactions
     WHERE "@ + "category != 'payment' AND "@ + "user_id = ?1"@ + "
     GROUP BY substr(date, 7, 4) || '-' || substr(date, 1, 2)
 )"@,
            params: seq![ParamView::Integer(user)],
        }),
        spending(BIGGEST@, BIGGEST_END@, user) == (StatementView {
            sql: "SELECT date, description, amount, category
 FROM transactions
 WHERE "@ + "category != 'payment' AND "@ + "user_id = ?1"@ + "
 ORDER BY amount DESC LIMIT 5"@,
            params: seq![ParamView::Integer(user)],
        }),
{
}

/// What the lists ask for: the transactions, the cash and the accounts of the user,
/// the newest day first, or by bank and name; and for a sync the accounts with where
/// the last one ended.
pub proof fn law_list_statements(user: i64)
    ensures
        for_user(LIST_TRANSACTIONS@, LIST_TRANSACTIONS_END@, user) == (StatementView {
            sql: "SELECT date, description, amount, category FROM transactions
 WHERE "@ + "user_id = ?1"@ + " ORDER BY date DESC"@,
            params: seq![ParamView::Integer(user)],
        }),
        for_user(LIST_ENTRIES@, LIST_ENTRIES_END@, user) == (StatementView {
            sql: "SELECT id, date, amount, entry_type, description
 FROM cash_entries WHERE "@ + "user_id = ?1"@ + " ORDER BY date DESC"@,
            params: seq![ParamView::Integer(user)],
        }),
        for_user(LIST_ACCOUNTS@, LIST_ACCOUNTS_END@, user) == (StatementView {
            sql: "SELECT ta.id, te.institution_name, ta.name, ta.account_type, ta.last_four
 FROM teller_accounts ta
 JOIN teller_enrollments te ON ta.teller_enrollment_id = te.id
 WHERE ta."@ + "user_id = ?1"@ + "
 ORDER BY te.institution_name, ta.name"@,
            params: seq![ParamView::Integer(user)],
        }),
        for_user(ACCOUNTS_TO_SYNC@, ""@, user) == (StatementView {
            sql: "SELECT ta.id, te.access_token, ta.account_id,
        NULLIF(ta.last_transaction_id, ''), te.institution_name
 FROM teller_accounts ta
 JOIN teller_enrollments te ON ta.teller_enrollment_id = te.id
 WHERE ta."@ + "user_id = ?1"@ + ""@,
            params: seq![ParamView::Integer(user)],
        }),
{
}

/// What is asked of, or done to, one row of a user: it is found by its number and
/// its user.
pub proof fn law_row_statements(id: i64, user: i64)
    ensures
        owned(FIND_ENROLLMENT@, id, user) == (StatementView {
            sql: "SELECT teller_enrollment_id FROM teller_accounts WHERE id = ?1 AND "@
                + "user_id = ?2"@,
            params: seq![ParamView::Integer(id), ParamView::Integer(user)],
        }),
        owned(DELETE_ACCOUNT@, id, user) == (StatementView {
            sql: "DELETE FROM teller_accounts WHERE id = ?1 AND "@ + "user_id = ?2"@,
            params: seq![ParamView::Integer(id), ParamView::Integer(user)],
        }),
        owned(DELETE_ENROLLMENT@, id, user) == (StatementView {
            sql: "DELETE FROM teller_enrollments WHERE id = ?1 AND "@ + "user_id = ?2"@,
            params: seq![ParamView::Integer(id), ParamView::Integer(user)],
        }),
        owned(DELETE_ENTRY@, id, user) == (StatementView {
            sql: "DELETE FROM cash_entries WHERE id = ?1 AND "@ + "user_id = ?2"@,
            params: seq![ParamView::Integer(id), ParamView::Integer(user)],
        }),
        about(FIND_PROFILE@, id) == (StatementView {
            sql: "SELECT email, phone, security_question FROM users WHERE id = ?1"@,
            params: seq![ParamView::Integer(id)],
        }),
        about(FIND_HASH@, id) == (StatementView {
            sql: "SELECT password_hash FROM users WHERE id = ?1"@,
            params: seq![ParamView::Integer(id)],
        }),
        COUNT_ACCOUNTS@ == "SELECT COUNT(*) FROM teller_accounts WHERE teller_enrollment_id = ?1"@,
        FIND_USER@ == "SELECT id, password_hash FROM users WHERE email = ?1"@,
{
}

/// The statement that adds an account gives each column its own value: the
/// enrollment, the user, and of the account the id, the name, the type and the last
/// four digits, or nothing where there are none.
pub proof fn law_new_account_statement(enrollment: i64, user: i64, account: AccountView)
    ensures
        new_account(enrollment, user, account).sql == "INSERT OR IGNORE INTO teller_accounts
 (teller_enrollment_id, user_id, account_id, name, account_type, last_four)
 VALUES (?1, ?2, ?3, ?4, ?5, ?6)"@,
        new_account(enrollment, user, account).params.len() == 6,
        new_account(enrollment, user, account).params[0] == ParamView::Integer(enrollment),
        new_account(enrollment, user, account).params[1] == ParamView::Integer(user),
        new_account(enrollment, user, account).params[2] == ParamView::Text(account.id),
        new_account(enrollment, user, account).params[3] == ParamView::Text(account.name),
        new_account(enrollment, user, account).params[4] == ParamView::Text(account.account_type),
        account.last_four matches Some(digits) ==> new_account(enrollment, user, account).params[5]
            == ParamView::Text(digits),
        account.last_four is None ==> new_account(enrollment, user, account).params[5]
            == ParamView::Null,
{
}

/// The statement that adds an enrollment gives each column its own value: the user,
/// what the frontend sent, and the time.
pub proof fn law_new_enrollment_statement(
    user: i64,
    request: TellerEnrollRequest,
    created_at: Seq<char>,
)
    ensures
        enrollment(user, request, created_at).sql == "INSERT INTO teller_enrollments
 (user_id, access_token, enrollment_id, institution_name, created_at)
 VALUES (?1, ?2, ?3, ?4, ?5)"@,
        enrollment(user, request, created_at).params.len() == 5,
        enrollment(user, request, created_at).params[0] == ParamView::Integer(user),
        enrollment(user, request, created_at).params[1] == ParamView::Text(request.access_token@),
        enrollment(user, request, created_at).params[2] == ParamView::Text(request.enrollment_id@),
        enrollment(user, request, created_at).params[3] == ParamView::Text(
            request.institution_name@,
        ),
        enrollment(user, request, created_at).params[4] == ParamView::Text(created_at),
{
}

/// The statement that notes cash gives each column its own value: the user, the day,
/// the amount, whether it came in or went out, and the description.
pub proof fn law_new_cash_statement(user: i64, request: CashEntryRequest)
    ensures
        new_entry(user, request).sql
            == "INSERT INTO cash_entries (user_id, date, amount, entry_type, description)
 VALUES (?1, ?2, ?3, ?4, ?5)"@,
        new_entry(user, request).params.len() == 5,
        new_entry(user, request).params[0] == ParamView::Integer(user),
        new_entry(user, request).params[1] == ParamView::Text(request.date@),
        new_entry(user, request).params[2] == ParamView::Real(request.amount),
        new_entry(user, request).params[3] == ParamView::Text(request.entry_type@),
        new_entry(user, request).params[4] == ParamView::Text(request.description@),
{
}

/// The statement that saves a transaction gives each column its own value: the day,
/// the amount, the description, the category, the user or nobody, and for one that
/// came from a bank the bank's name for it.
pub proof fn law_save_statement(record: RecordView, user: Option<i64>)
    ensures
        record.teller_id is None ==> save(record, user).sql
            == "INSERT OR IGNORE INTO transactions (date, amount, description, category, user_id)
 VALUES (?1, ?2, ?3, ?4, ?5)"@ && save(record, user).params.len() == 5,
        record.teller_id matches Some(id) ==> save(record, user).sql
            == "INSERT OR IGNORE INTO transactions (date, amount, description, category, user_id, teller_id)
 VALUES (?1, ?2, ?3, ?4, ?5, ?6)
 ON CONFLICT(teller_id, user_id) WHERE teller_id IS NOT NULL
     DO UPDATE SET category = excluded.category"@
            && save(record, user).params.len() == 6 && save(record, user).params[5]
            == ParamView::Text(id),
        save(record, user).params[0] == ParamView::Text(record.date),
        save(record, user).params[1] == ParamView::Real(record.amount),
        save(record, user).params[2] == ParamView::Text(record.description),
        save(record, user).params[3] == ParamView::Text(record.category),
        user matches Some(id) ==> save(record, user).params[4] == ParamView::Integer(id),
        user is None ==> save(record, user).params[4] == ParamView::Null,
{
}

/// The statements that add and change a user give each column its own value.
pub proof fn law_user_statements(user: i64, a: Seq<char>, b: Seq<char>, c: Seq<char>)
    ensures
        new_user(a, b, c) == (StatementView {
            sql: "INSERT INTO users (email, password_hash, created_at) VALUES (?1, ?2, ?3)"@,
            params: seq![ParamView::Text(a), ParamView::Text(b), ParamView::Text(c)],
        }),
        new_phone(user, a) == (StatementView {
            sql: "UPDATE users SET phone = ?1 WHERE id = ?2"@,
            params: seq![ParamView::Text(a), ParamView::Integer(user)],
        }),
        new_security(user, a, b) == (StatementView {
            sql: "UPDATE users SET security_question = ?1, security_answer = ?2 WHERE id = ?3"@,
            params: seq![ParamView::Text(a), ParamView::Text(b), ParamView::Integer(user)],
        }),
        new_password(user, a) == (StatementView {
            sql: "UPDATE users SET password_hash = ?1 WHERE id = ?2"@,
            params: seq![ParamView::Text(a), ParamView::Integer(user)],
        }),
{
}

/// The statement that notes how far an account was synced stores the newest
/// transaction that was seen, in the row of the account, wherever one was seen.
pub proof fn law_cursor_statement(row: i64, sync: SyncView)
    ensures
        cursor(row, sync) is Some <==> sync.newest_id is Some,
        sync.newest_id matches Some(id) ==> cursor(row, sync) == Some(StatementView {
            sql: "UPDATE teller_accounts SET last_transaction_id = ?1 WHERE id = ?2"@,
            params: seq![ParamView::Text(id), ParamView::Integer(row)],
        }),
{
}

/// The tables, their columns, and what tells their rows apart.
pub proof fn law_tables()
    ensures
        USERS@ == "CREATE TABLE IF NOT EXISTS users (
    id            INTEGER PRIMARY KEY,
    email         TEXT UNIQUE NOT NULL,
    password_hash TEXT NOT NULL,
    created_at    TEXT NOT NULL
)"@,
        TRANSACTIONS@ == "CREATE TABLE IF NOT EXISTS transactions (
    id          INTEGER PRIMARY KEY,
    date        TEXT NOT NULL,
    amount      REAL NOT NULL,
    description TEXT NOT NULL,
    category    TEXT NOT NULL DEFAULT '',
    user_id     INTEGER REFERENCES users(id),
    teller_id   TEXT,
    UNIQUE(date, description, amount, user_id)
)"@,
        CASH_ENTRIES@ == "CREATE TABLE IF NOT EXISTS cash_entries (
    id          INTEGER PRIMARY KEY,
    user_id     INTEGER NOT NULL REFERENCES users(id),
    date        TEXT NOT NULL,
    amount      REAL NOT NULL,
    entry_type  TEXT NOT NULL,
    description TEXT NOT NULL DEFAULT ''
)"@,
        TELLER_ENROLLMENTS@ == "CREATE TABLE IF NOT EXISTS teller_enrollments (
    id               INTEGER PRIMARY KEY,
    user_id          INTEGER NOT NULL REFERENCES users(id),
    access_token     TEXT NOT NULL,
    enrollment_id    TEXT NOT NULL,
    institution_name TEXT NOT NULL,
    created_at       TEXT NOT NULL
)"@,
        TELLER_ACCOUNTS@ == "CREATE TABLE IF NOT EXISTS teller_accounts (
    id                    INTEGER PRIMARY KEY,
    teller_enrollment_id  INTEGER NOT NULL REFERENCES teller_enrollments(id),
    user_id               INTEGER NOT NULL REFERENCES users(id),
    account_id            TEXT NOT NULL,
    name                  TEXT NOT NULL,
    account_type          TEXT NOT NULL,
    last_four             TEXT,
    last_transaction_id   TEXT,
    UNIQUE(account_id, user_id)
)"@,
        PHONE_COLUMN@ == "ALTER TABLE users ADD COLUMN phone TEXT"@,
        QUESTION_COLUMN@ == "ALTER TABLE users ADD COLUMN security_question TEXT"@,
        ANSWER_COLUMN@ == "ALTER TABLE users ADD COLUMN security_answer TEXT"@,
        UNIQUE_INDICES@ == "SELECT name FROM pragma_index_list('transactions') WHERE \"unique\" = 1"@,
        MIGRATION@ == "BEGIN;
 DROP TABLE IF EXISTS transactions_old;
 ALTER TABLE transactions RENAME TO transactions_old;
 CREATE TABLE transactions (
     id          INTEGER PRIMARY KEY,
     date        TEXT NOT NULL,
     amount      REAL NOT NULL,
     description TEXT NOT NULL,
     category    TEXT NOT NULL DEFAULT '',
     user_id     INTEGER REFERENCES users(id),
     teller_id   TEXT,
     UNIQUE(date, description, amount, user_id)
 );
 INSERT OR IGNORE INTO transactions (id, date, amount, description, category)
     SELECT id, date, amount, description, category FROM transactions_old;
 DROP TABLE transactions_old;
 COMMIT;"@,
        TELLER_COLUMN@ == "ALTER TABLE transactions ADD COLUMN teller_id TEXT"@,
        TELLER_INDEX@ == "CREATE UNIQUE INDEX IF NOT EXISTS idx_tx_teller_id
    ON transactions(teller_id, user_id)
    WHERE teller_id IS NOT NULL"@,
        COVERS_OPENING@ == "SELECT COUNT(*) FROM pragma_index_info('"@,
        COVERS_CLOSING@ == "') WHERE name = 'user_id'"@,
{
}

/// What a step says is what its fields hold.
pub proof fn law_step_view(step: Step)
    ensures
        step.deep_view().sql == step.sql@,
        step.deep_view().needed == step.needed,
{
}

/// After the tables stand, they are rebuilt exactly where none of their unique
/// indices covers the user; the bank's names come last, and only adding a column may
/// fail.
pub proof fn law_set_up_steps(counts: Seq<Option<i64>>, sql: Seq<char>)
    ensures
        tells_users_apart(counts) <==> exists|i: int|
            0 <= i < counts.len() && (#[trigger] counts[i] matches Some(n) && n > 0),
        forall|i: int|
            0 <= i < counts.len() && (#[trigger] counts[i] matches Some(n) && n > 0) ==> closing(
                counts,
            ).len() == 2,
        (forall|i: int|
            0 <= i < counts.len() ==> !(#[trigger] counts[i] matches Some(n) && n > 0))
            ==> closing(counts).len() == 3 && closing(counts)[0].needed && closing(counts)[0].sql
            == "BEGIN;
 DROP TABLE IF EXISTS transactions_old;
 ALTER TABLE transactions RENAME TO transactions_old;
 CREATE TABLE transactions (
     id          INTEGER PRIMARY KEY,
     date        TEXT NOT NULL,
     amount      REAL NOT NULL,
     description TEXT NOT NULL,
     category    TEXT NOT NULL DEFAULT '',
     user_id     INTEGER REFERENCES users(id),
     teller_id   TEXT,
     UNIQUE(date, description, amount, user_id)
 );
 INSERT OR IGNORE INTO transactions (id, date, amount, description, category)
     SELECT id, date, amount, description, category FROM transactions_old;
 DROP TABLE transactions_old;
 COMMIT;"@,
        closing(counts)[closing(counts).len() - 1].needed,
        closing(counts)[closing(counts).len() - 1].sql
            == "CREATE UNIQUE INDEX IF NOT EXISTS idx_tx_teller_id
    ON transactions(teller_id, user_id)
    WHERE teller_id IS NOT NULL"@,
        !closing(counts)[closing(counts).len() - 2].needed,
        closing(counts)[closing(counts).len() - 2].sql
            == "ALTER TABLE transactions ADD COLUMN teller_id TEXT"@,
        must(sql).needed && must(sql).sql == sql,
        !may(sql).needed && may(sql).sql == sql,
{
}

} // verus!
