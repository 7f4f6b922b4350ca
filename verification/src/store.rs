//! The statements that are run against the database.

use vstd::prelude::*;

use crate::amount::Amount;
use crate::record::{Record, RecordView};

verus! {

/// A value that a statement is run with.
pub enum Param {
    Null,
    Integer(i64),
    Real(Amount),
    Text(String),
}

/// What a parameter holds.
pub enum ParamView {
    Null,
    Integer(i64),
    Real(Amount),
    Text(Seq<char>),
}

impl DeepView for Param {
    type V = ParamView;

    open spec fn deep_view(&self) -> ParamView {
        match *self {
            Param::Null => ParamView::Null,
            Param::Integer(n) => ParamView::Integer(n),
            Param::Real(a) => ParamView::Real(a),
            Param::Text(t) => ParamView::Text(t@),
        }
    }
}

/// A statement with the values of its numbered parameters, the first one first.
pub struct Statement {
    pub sql: String,
    pub params: Vec<Param>,
}

/// What a statement says.
pub struct StatementView {
    pub sql: Seq<char>,
    pub params: Seq<ParamView>,
}

impl DeepView for Statement {
    type V = StatementView;

    open spec fn deep_view(&self) -> StatementView {
        StatementView { sql: self.sql@, params: self.params.deep_view() }
    }
}

/// A text, or nothing.
pub open spec fn optional(t: Option<Seq<char>>) -> ParamView {
    match t {
        Some(t) => ParamView::Text(t),
        None => ParamView::Null,
    }
}

/// The parameter of a text that may be missing.
pub fn optional_text(t: &Option<String>) -> (r: Param)
    ensures
        r.deep_view() == optional(t.deep_view()),
{
    match t {
        Some(t) => Param::Text(t.clone()),
        None => Param::Null,
    }
}

/// A statement with one parameter.
pub fn with_one(sql: &str, a: Param) -> (r: Statement)
    ensures
        r.deep_view() == (StatementView { sql: sql@, params: seq![a.deep_view()] }),
{
    let r = Statement { sql: sql.to_string(), params: vec![a] };
    assert(r.params.deep_view() =~= seq![a.deep_view()]);
    r
}

/// A statement with two parameters.
pub fn with_two(sql: &str, a: Param, b: Param) -> (r: Statement)
    ensures
        r.deep_view() == (StatementView {
            sql: sql@,
            params: seq![a.deep_view(), b.deep_view()],
        }),
{
    let r = Statement { sql: sql.to_string(), params: vec![a, b] };
    assert(r.params.deep_view() =~= seq![a.deep_view(), b.deep_view()]);
    r
}

/// A statement with three parameters.
pub fn with_three(sql: &str, a: Param, b: Param, c: Param) -> (r: Statement)
    ensures
        r.deep_view() == (StatementView {
            sql: sql@,
            params: seq![a.deep_view(), b.deep_view(), c.deep_view()],
        }),
{
    let r = Statement { sql: sql.to_string(), params: vec![a, b, c] };
    assert(r.params.deep_view() =~= seq![a.deep_view(), b.deep_view(), c.deep_view()]);
    r
}

/// A statement about one row, found by its number.
pub open spec fn about(sql: Seq<char>, id: i64) -> StatementView {
    StatementView { sql, params: seq![ParamView::Integer(id)] }
}

/// The condition that a row is the user's, where the user is the first parameter.
pub const USERS_OWN: &'static str = "user_id = ?1";

/// The condition that a row is the user's, where the user is the second
/// parameter.
pub const ALSO_USERS_OWN: &'static str = "user_id = ?2";

/// A statement about what is the user's: the condition stands between the two
/// parts.
pub open spec fn for_user(head: Seq<char>, tail: Seq<char>, user: i64) -> StatementView {
    StatementView { sql: head + USERS_OWN@ + tail, params: seq![ParamView::Integer(user)] }
}

/// A statement that asks twice for what is the user's: the condition stands
/// between the three parts.
pub open spec fn for_user_twice(
    head: Seq<char>,
    middle: Seq<char>,
    tail: Seq<char>,
    user: i64,
) -> StatementView {
    for_user(head, middle + USERS_OWN@ + tail, user)
}

/// A statement about a row that is the user's: the condition stands at the end.
pub open spec fn owned(head: Seq<char>, id: i64, user: i64) -> StatementView {
    StatementView {
        sql: head + ALSO_USERS_OWN@,
        params: seq![ParamView::Integer(id), ParamView::Integer(user)],
    }
}

/// A statement about what is the user's.
pub fn of_user(head: &str, tail: &str, user: i64) -> (r: Statement)
    ensures
        r.deep_view() == for_user(head@, tail@, user),
{
    let mut sql: String = head.to_string();
    sql.append(USERS_OWN);
    sql.append(tail);
    with_one(sql.as_str(), Param::Integer(user))
}

/// A statement that asks twice for what is the user's.
pub fn of_user_twice(head: &str, middle: &str, tail: &str, user: i64) -> (r: Statement)
    ensures
        r.deep_view() == for_user_twice(head@, middle@, tail@, user),
{
    let mut rest: String = middle.to_string();
    rest.append(USERS_OWN);
    rest.append(tail);
    of_user(head, rest.as_str(), user)
}

/// A statement about a row that is the user's.
pub fn of_owner(head: &str, id: i64, user: i64) -> (r: Statement)
    ensures
        r.deep_view() == owned(head@, id, user),
{
    let mut sql: String = head.to_string();
    sql.append(ALSO_USERS_OWN);
    with_two(sql.as_str(), Param::Integer(id), Param::Integer(user))
}

/// The table of the users.
pub const USERS: &'static str = "CREATE TABLE IF NOT EXISTS users (
    id            INTEGER PRIMARY KEY,
    email         TEXT UNIQUE NOT NULL,
    password_hash TEXT NOT NULL,
    created_at    TEXT NOT NULL
)";

/// The table of the transactions. No user has the same day, description and
/// amount twice.
pub const TRANSACTIONS: &'static str = "CREATE TABLE IF NOT EXISTS transactions (
    id          INTEGER PRIMARY KEY,
    date        TEXT NOT NULL,
    amount      REAL NOT NULL,
    description TEXT NOT NULL,
    category    TEXT NOT NULL DEFAULT '',
    user_id     INTEGER REFERENCES users(id),
    teller_id   TEXT,
    UNIQUE(date, description, amount, user_id)
)";

/// The table of the cash entries.
pub const CASH_ENTRIES: &'static str = "CREATE TABLE IF NOT EXISTS cash_entries (
    id          INTEGER PRIMARY KEY,
    user_id     INTEGER NOT NULL REFERENCES users(id),
    date        TEXT NOT NULL,
    amount      REAL NOT NULL,
    entry_type  TEXT NOT NULL,
    description TEXT NOT NULL DEFAULT ''
)";

/// The table of the connected banks.
pub const TELLER_ENROLLMENTS: &'static str = "CREATE TABLE IF NOT EXISTS teller_enrollments (
    id               INTEGER PRIMARY KEY,
    user_id          INTEGER NOT NULL REFERENCES users(id),
    access_token     TEXT NOT NULL,
    enrollment_id    TEXT NOT NULL,
    institution_name TEXT NOT NULL,
    created_at       TEXT NOT NULL
)";

/// The table of the connected bank accounts.
pub const TELLER_ACCOUNTS: &'static str = "CREATE TABLE IF NOT EXISTS teller_accounts (
    id                    INTEGER PRIMARY KEY,
    teller_enrollment_id  INTEGER NOT NULL REFERENCES teller_enrollments(id),
    user_id               INTEGER NOT NULL REFERENCES users(id),
    account_id            TEXT NOT NULL,
    name                  TEXT NOT NULL,
    account_type          TEXT NOT NULL,
    last_four             TEXT,
    last_transaction_id   TEXT,
    UNIQUE(account_id, user_id)
)";

/// The phone in the profile of a user. Where the column exists already, adding it
/// fails, and that does not matter.
pub const PHONE_COLUMN: &'static str = "ALTER TABLE users ADD COLUMN phone TEXT";

/// The security question in the profile of a user. Where the column exists
/// already, adding it fails, and that does not matter.
pub const QUESTION_COLUMN: &'static str = "ALTER TABLE users ADD COLUMN security_question TEXT";

/// The hash of the answer to the security question. Where the column exists
/// already, adding it fails, and that does not matter.
pub const ANSWER_COLUMN: &'static str = "ALTER TABLE users ADD COLUMN security_answer TEXT";

/// The names of the unique indices of the transactions.
pub const UNIQUE_INDICES: &'static str = "SELECT name FROM pragma_index_list('transactions') WHERE \"unique\" = 1";

/// Rebuilds the transactions under a unique index that tells users apart. An
/// index that does not would have the transactions of one user dropped as
/// duplicates of another's.
pub const MIGRATION: &'static str = "BEGIN;
 DROP TABLE IF EXISTS transactions_old;
 ALTER TABLE transactions RENAME TO transactions_old;
 CREATE TABLE transactions (
     id          INTEGER PRIMARY KEY,
     date        TEXT NOT NULL,
     amount      REAL NOT NULL,
     description TEXT NOT NULL,
     category    TEXT NOT NULL DEFAULT '',
     user_id     INTEGER REFERENCES users(id),
     teller_id   TEXT,
     UNIQUE(date, description, amount, user_id)
 );
 INSERT OR IGNORE INTO transactions (id, date, amount, description, category)
     SELECT id, date, amount, description, category FROM transactions_old;
 DROP TABLE transactions_old;
 COMMIT;";

/// The column of the bank's names for transactions, for tables that were made
/// without it. Where it exists already, adding it fails, and that does not
/// matter.
pub const TELLER_COLUMN: &'static str = "ALTER TABLE transactions ADD COLUMN teller_id TEXT";

/// No user has two transactions that the bank gives the same name.
pub const TELLER_INDEX: &'static str = "CREATE UNIQUE INDEX IF NOT EXISTS idx_tx_teller_id
    ON transactions(teller_id, user_id)
    WHERE teller_id IS NOT NULL";

/// What stands before, and after, the name of an index in the question whether
/// it covers the user.
pub const COVERS_OPENING: &'static str = "SELECT COUNT(*) FROM pragma_index_info('";

/// See [`COVERS_OPENING`].
pub const COVERS_CLOSING: &'static str = "') WHERE name = 'user_id'";

/// Asks how many columns of the index are the user.
pub fn covers_query(index: &str) -> (r: String)
    ensures
        r@ == COVERS_OPENING@ + index@ + COVERS_CLOSING@,
{
    let mut r: String = COVERS_OPENING.to_string();
    r.append(index);
    r.append(COVERS_CLOSING);
    r
}

/// One of the unique indices covers the user.
pub open spec fn tells_users_apart(counts: Seq<Option<i64>>) -> bool {
    exists|i: int| 0 <= i < counts.len() && (#[trigger] counts[i] matches Some(n) && n > 0)
}

/// Decides whether the transactions are to be rebuilt, from the number of user
/// columns that was found in each of their unique indices: they are where no
/// index covers the user.
pub fn migration(counts: &Vec<Option<i64>>) -> (r: Option<&'static str>)
    ensures
        r is None <==> tells_users_apart(counts@),
        r matches Some(sql) ==> sql@ == MIGRATION@,
{
    let mut i: usize = 0;
    while i < counts.len()
        invariant
            i <= counts@.len(),
            forall|j: int| 0 <= j < i ==> !(#[trigger] counts@[j] matches Some(n) && n > 0),
        decreases counts@.len() - i,
    {
        if let Some(n) = counts[i] {
            if n > 0 {
                return None;
            }
        }
        i = i + 1;
    }
    Some(MIGRATION)
}

/// A step of setting up the database.
pub struct Step {
    pub sql: &'static str,
    /// Without the step the database is of no use. A step that is not needed may
    /// fail.
    pub needed: bool,
}

/// What a step says.
pub struct StepView {
    pub sql: Seq<char>,
    pub needed: bool,
}

impl DeepView for Step {
    type V = StepView;

    open spec fn deep_view(&self) -> StepView {
        StepView { sql: self.sql@, needed: self.needed }
    }
}

/// A step that is needed.
pub open spec fn must(sql: Seq<char>) -> StepView {
    StepView { sql, needed: true }
}

/// A step that may fail.
pub open spec fn may(sql: Seq<char>) -> StepView {
    StepView { sql, needed: false }
}

/// The steps before the unique indices are looked at: the tables are made, and
/// the columns of the profiles are added to a table that lacks them.
pub fn first_steps() -> (r: Vec<Step>)
    ensures
        r.deep_view() == seq![
            must(USERS@),
            must(TRANSACTIONS@),
            must(CASH_ENTRIES@),
            must(TELLER_ENROLLMENTS@),
            must(TELLER_ACCOUNTS@),
            may(PHONE_COLUMN@),
            may(QUESTION_COLUMN@),
            may(ANSWER_COLUMN@),
        ],
{
    let r = vec![
        Step { sql: USERS, needed: true },
        Step { sql: TRANSACTIONS, needed: true },
        Step { sql: CASH_ENTRIES, needed: true },
        Step { sql: TELLER_ENROLLMENTS, needed: true },
        Step { sql: TELLER_ACCOUNTS, needed: true },
        Step { sql: PHONE_COLUMN, needed: false },
        Step { sql: QUESTION_COLUMN, needed: false },
        Step { sql: ANSWER_COLUMN, needed: false },
    ];
    assert(r.deep_view() =~= seq![
        must(USERS@),
        must(TRANSACTIONS@),
        must(CASH_ENTRIES@),
        must(TELLER_ENROLLMENTS@),
        must(TELLER_ACCOUNTS@),
        may(PHONE_COLUMN@),
        may(QUESTION_COLUMN@),
        may(ANSWER_COLUMN@),
    ]);
    r
}

/// The steps after the unique indices were looked at.
pub open spec fn closing(counts: Seq<Option<i64>>) -> Seq<StepView> {
    let bank = seq![may(TELLER_COLUMN@), must(TELLER_INDEX@)];
    if tells_users_apart(counts) {
        bank
    } else {
        seq![must(MIGRATION@)] + bank
    }
}

/// Setting up a database whose transactions tell users apart rebuilds nothing: no
/// step is the migration.
pub proof fn law_set_up_again_rebuilds_nothing(counts: Seq<Option<i64>>)
    requires
        tells_users_apart(counts),
    ensures
        closing(counts) == seq![may(TELLER_COLUMN@), must(TELLER_INDEX@)],
{
}

/// The steps after the unique indices were looked at: the transactions are
/// rebuilt, unless an index tells users apart, and get the bank's names.
pub fn last_steps(counts: &Vec<Option<i64>>) -> (r: Vec<Step>)
    ensures
        r.deep_view() == closing(counts@),
{
    let mut r: Vec<Step> = Vec::new();
    if let Some(sql) = migration(counts) {
        r.push(Step { sql, needed: true });
    }
    r.push(Step { sql: TELLER_COLUMN, needed: false });
    r.push(Step { sql: TELLER_INDEX, needed: true });
    assert(r.deep_view() =~= closing(counts@));
    r
}

/// Adds a transaction, unless the user has one with the same day, description
/// and amount.
pub const INSERT_TRANSACTION: &'static str = "INSERT OR IGNORE INTO transactions (date, amount, description, category, user_id)
 VALUES (?1, ?2, ?3, ?4, ?5)";

/// Adds a transaction that the bank has a name for, or gives the one of that
/// name its new category. A user has no day, description and amount twice: where
/// another transaction of the user has them already, uploaded or under another
/// name of the bank, nothing is added. Nor is an amount that is no number.
pub const UPSERT_TRANSACTION: &'static str = "INSERT OR IGNORE INTO transactions (date, amount, description, category, user_id, teller_id)
 VALUES (?1, ?2, ?3, ?4, ?5, ?6)
 ON CONFLICT(teller_id, user_id) WHERE teller_id IS NOT NULL
     DO UPDATE SET category = excluded.category";

/// The user, or nobody.
pub open spec fn owner(user: Option<i64>) -> ParamView {
    match user {
        Some(id) => ParamView::Integer(id),
        None => ParamView::Null,
    }
}

/// The statement that saves a transaction: keyed on the bank's name for it
/// where it has one, else on what it holds.
pub open spec fn save(record: RecordView, user: Option<i64>) -> StatementView {
    let held = seq![
        ParamView::Text(record.date),
        ParamView::Real(record.amount),
        ParamView::Text(record.description),
        ParamView::Text(record.category),
        owner(user),
    ];
    match record.teller_id {
        None => StatementView { sql: INSERT_TRANSACTION@, params: held },
        Some(id) => StatementView {
            sql: UPSERT_TRANSACTION@,
            params: held.push(ParamView::Text(id)),
        },
    }
}

/// The statement that saves a transaction holds what the table tells transactions
/// apart by: the user, the day, the description and the amount, and for one that
/// came from a bank the bank's name for it. It is the upsert exactly for the
/// latter. The table keeps none whose user, day, description and amount are taken,
/// whatever its name.
pub proof fn law_records_are_keyed(record: RecordView, user: Option<i64>)
    ensures
        save(record, user).params[0] == ParamView::Text(record.date),
        save(record, user).params[1] == ParamView::Real(record.amount),
        save(record, user).params[2] == ParamView::Text(record.description),
        save(record, user).params[4] == owner(user),
        record.teller_id matches Some(id) ==> save(record, user).sql == UPSERT_TRANSACTION@
            && save(record, user).params[5] == ParamView::Text(id),
        record.teller_id is None ==> save(record, user).sql == INSERT_TRANSACTION@ && save(
            record,
            user,
        ).params.len() == 5,
{
}

/// The statement that saves a transaction.
pub fn save_record(record: &Record, user: Option<i64>) -> (r: Statement)
    ensures
        r.deep_view() == save(record.deep_view(), user),
{
    let owned: Param = match user {
        Some(id) => Param::Integer(id),
        None => Param::Null,
    };
    let mut params: Vec<Param> = vec![
        Param::Text(record.date.clone()),
        Param::Real(record.amount),
        Param::Text(record.description.clone()),
        Param::Text(record.category.clone()),
        owned,
    ];
    let mut sql: String = INSERT_TRANSACTION.to_string();
    if let Some(id) = &record.teller_id {
        params.push(Param::Text(id.clone()));
        sql = UPSERT_TRANSACTION.to_string();
    }
    let r = Statement { sql, params };
    assert(r.params.deep_view() =~= save(record.deep_view(), user).params);
    r
}

/// The statements that save transactions, in their order.
pub fn save_records(records: &Vec<Record>, user: Option<i64>) -> (r: Vec<Statement>)
    ensures
        r.deep_view() == Seq::new(records@.len(), |i: int| save(records.deep_view()[i], user)),
{
    let mut r: Vec<Statement> = Vec::new();
    let mut i: usize = 0;
    while i < records.len()
        invariant
            i <= records@.len(),
            r@.len() == i,
            forall|j: int|
                0 <= j < i ==> (#[trigger] r@[j]).deep_view() == save(
                    records@[j].deep_view(),
                    user,
                ),
        decreases records@.len() - i,
    {
        r.push(save_record(&records[i], user));
        i = i + 1;
    }
    assert(r.deep_view() =~= Seq::new(records@.len(), |i: int| save(records.deep_view()[i], user)));
    r
}

/// The rows that could be read, in their order.
pub open spec fn readable<T>(rows: Seq<Option<T>>) -> Seq<T>
    decreases rows.len(),
{
    if rows.len() == 0 {
        Seq::<T>::empty()
    } else {
        match rows.last() {
            Some(row) => readable(rows.drop_last()).push(row),
            None => readable(rows.drop_last()),
        }
    }
}

/// Leaves out the rows that could not be read.
pub fn readable_rows<T>(rows: Vec<Option<T>>) -> (r: Vec<T>)
    ensures
        r@ == readable(rows@),
{
    let ghost wanted = readable(rows@);
    let mut rows = rows;
    let mut backward: Vec<T> = Vec::new();
    assert(wanted =~= readable(rows@) + backward@.reverse());
    while rows.len() > 0
        invariant
            wanted == readable(rows@) + backward@.reverse(),
        decreases rows@.len(),
    {
        let ghost all = rows@;
        let ghost after = backward@;
        if let Some(Some(row)) = rows.pop() {
            assert(rows@ == all.drop_last());
            backward.push(row);
            assert(backward@.reverse() =~= seq![row] + after.reverse());
            assert(readable(all) + after.reverse() =~= readable(rows@) + backward@.reverse());
        }
    }
    let mut r: Vec<T> = Vec::new();
    assert(wanted =~= r@ + backward@.reverse());
    while backward.len() > 0
        invariant
            wanted == r@ + backward@.reverse(),
        decreases backward@.len(),
    {
        let ghost before = r@;
        let ghost after = backward@;
        if let Some(row) = backward.pop() {
            assert(after.reverse() =~= seq![row] + backward@.reverse());
            r.push(row);
            assert(before + after.reverse() =~= r@ + backward@.reverse());
        }
    }
    assert(wanted =~= r@);
    r
}

} // verus!
