//! Requests about the bank accounts of a user: connecting, syncing, listing and
//! disconnecting them.

use vstd::prelude::*;

use crate::exchange::{serve, served, Exchange};
use crate::outside::{
    json_fields, json_rows, now_in_writing, shown_in_writing, Field, RowView,
};
use crate::record::outcome;
use crate::reply::{Body, Reply, Status};
use crate::store::{
    for_user, of_owner, of_user, optional, optional_text, owned, readable, readable_rows, save,
    save_records, with_one, with_two, Param, ParamView, Statement, StatementView,
};
use crate::teller::{AccountSync, SyncView, ACCOUNTS_FAILURE};
use crate::text::{count_text, decimal};

verus! {

/// A bank account as Teller lists it.
pub struct TellerAccount {
    pub id: String,
    pub name: String,
    pub account_type: String,
    pub last_four: Option<String>,
}

/// What a listed account holds.
pub struct AccountView {
    pub id: Seq<char>,
    pub name: Seq<char>,
    pub account_type: Seq<char>,
    pub last_four: Option<Seq<char>>,
}

impl DeepView for TellerAccount {
    type V = AccountView;

    open spec fn deep_view(&self) -> AccountView {
        AccountView {
            id: self.id@,
            name: self.name@,
            account_type: self.account_type@,
            last_four: self.last_four.deep_view(),
        }
    }
}

/// A text, or what stands in for it.
pub open spec fn text_or(text: Option<Seq<char>>, other: Seq<char>) -> Seq<char> {
    match text {
        Some(text) => text,
        None => other,
    }
}

fn or_else(text: &Option<String>, other: &str) -> (r: String)
    ensures
        r@ == text_or(text.deep_view(), other@),
{
    match text {
        Some(text) => text.clone(),
        None => other.to_string(),
    }
}

/// The fields that make up an account.
pub open spec fn account_keys() -> Seq<Seq<char>> {
    seq!["id"@, "name"@, "type"@, "last_four"@]
}

/// The account in a row.
pub open spec fn account(row: RowView) -> AccountView {
    AccountView {
        id: text_or(row[0].0, ""@),
        name: text_or(row[1].0, "Account"@),
        account_type: text_or(row[2].0, "unknown"@),
        last_four: row[3].0,
    }
}

/// The accounts of a list: none where it has no rows.
pub open spec fn accounts(rows: Option<Seq<RowView>>) -> Seq<AccountView> {
    match rows {
        Some(rows) => Seq::new(rows.len(), |i: int| account(rows[i])),
        None => Seq::<AccountView>::empty(),
    }
}

/// Takes the accounts out of the rows of a list.
pub fn accounts_of(rows: &Option<Vec<Vec<Field>>>) -> (r: Vec<TellerAccount>)
    requires
        rows matches Some(rows) ==> forall|i: int|
            0 <= i < rows@.len() ==> (#[trigger] rows@[i])@.len() == 4,
    ensures
        r.deep_view() == accounts(rows.deep_view()),
{
    let mut r: Vec<TellerAccount> = Vec::new();
    if let Some(rows) = rows {
        let mut i: usize = 0;
        while i < rows.len()
            invariant
                i <= rows@.len(),
                r@.len() == i,
                forall|j: int| 0 <= j < rows@.len() ==> (#[trigger] rows@[j])@.len() == 4,
                forall|j: int|
                    0 <= j < i ==> (#[trigger] r@[j]).deep_view() == account(rows@[j].deep_view()),
            decreases rows@.len() - i,
        {
            let row = &rows[i];
            r.push(
                TellerAccount {
                    id: or_else(&row[0].0, ""),
                    name: or_else(&row[1].0, "Account"),
                    account_type: or_else(&row[2].0, "unknown"),
                    last_four: row[3].0.clone(),
                },
            );
            i = i + 1;
        }
    }
    assert(r.deep_view() =~= accounts(rows.deep_view()));
    r
}

/// Reads the accounts of an enrollment out of an answer of the bank. An answer
/// that is no list reads as no accounts.
pub fn read_accounts(exchange: Exchange) -> (r: Result<Vec<TellerAccount>, String>)
    ensures
        outcome(r) == match served(exchange, ACCOUNTS_FAILURE@) {
            Ok(json) => Ok(accounts(json_fields(json, account_keys()))),
            Err(e) => Err(e),
        },
{
    let json = match serve(exchange, ACCOUNTS_FAILURE) {
        Ok(json) => json,
        Err(e) => {
            return Err(e);
        },
    };
    let keys: Vec<&str> = vec!["id", "name", "type", "last_four"];
    assert(keys.deep_view() =~= account_keys());
    let rows = json_rows(json.as_str(), &keys);
    Ok(accounts_of(&rows))
}

/// The certificate and the key of a client, in one file, where both were read.
pub open spec fn identity(cert: Option<Seq<u8>>, key: Option<Seq<u8>>) -> Option<Seq<u8>> {
    match (cert, key) {
        (Some(cert), Some(key)) => Some(cert.push(10) + key),
        _ => None,
    }
}

/// Puts the certificate and the key of a client together.
pub fn client_identity(cert: Option<Vec<u8>>, key: Option<Vec<u8>>) -> (r: Option<Vec<u8>>)
    ensures
        r.deep_view() == identity(cert.deep_view(), key.deep_view()),
{
    match (cert, key) {
        (Some(cert), Some(key)) => {
            let mut pem = cert;
            let mut rest = key;
            pem.push(10);
            pem.append(&mut rest);
            assert(pem.deep_view() =~= cert.deep_view().push(10) + key.deep_view());
            Some(pem)
        },
        _ => None,
    }
}

/// What the frontend sends once the user has connected a bank.
pub struct TellerEnrollRequest {
    pub access_token: String,
    pub enrollment_id: String,
    pub institution_name: String,
}

/// Adds an enrollment.
pub const INSERT_ENROLLMENT: &'static str = "INSERT INTO teller_enrollments
 (user_id, access_token, enrollment_id, institution_name, created_at)
 VALUES (?1, ?2, ?3, ?4, ?5)";

/// Adds an account, unless the user has it already.
pub const INSERT_ACCOUNT: &'static str = "INSERT OR IGNORE INTO teller_accounts
 (teller_enrollment_id, user_id, account_id, name, account_type, last_four)
 VALUES (?1, ?2, ?3, ?4, ?5, ?6)";

/// The statement that adds an enrollment of the user.
pub open spec fn enrollment(
    user: i64,
    request: TellerEnrollRequest,
    created_at: Seq<char>,
) -> StatementView {
    StatementView {
        sql: INSERT_ENROLLMENT@,
        params: seq![
            ParamView::Integer(user),
            ParamView::Text(request.access_token@),
            ParamView::Text(request.enrollment_id@),
            ParamView::Text(request.institution_name@),
            ParamView::Text(created_at),
        ],
    }
}

/// The statement that adds an enrollment of the user, made at that time.
pub fn enrollment_at(user: i64, request: &TellerEnrollRequest, created_at: String) -> (r: Statement)
    ensures
        r.deep_view() == enrollment(user, *request, created_at@),
{
    let r = Statement {
        sql: INSERT_ENROLLMENT.to_string(),
        params: vec![
            Param::Integer(user),
            Param::Text(request.access_token.clone()),
            Param::Text(request.enrollment_id.clone()),
            Param::Text(request.institution_name.clone()),
            Param::Text(created_at),
        ],
    };
    assert(r.params.deep_view() =~= enrollment(user, *request, created_at@).params);
    r
}

/// Goes on with an enrollment once the bank was asked for its accounts: adds the
/// enrollment, as made now, or reports that the bank could not be asked.
pub fn enroll(
    user: i64,
    request: &TellerEnrollRequest,
    fetched: &Result<Vec<TellerAccount>, String>,
) -> (r: Result<Statement, Reply>)
    ensures
        r is Ok <==> fetched is Ok,
        r matches Ok(s) ==> exists|created_at: Seq<char>|
            s.deep_view() == #[trigger] enrollment(user, *request, created_at)
                && shown_in_writing(created_at),
        r matches Err(reply) ==> reply.refuses(Status::BadGateway, fetched->Err_0@),
{
    match fetched {
        Ok(_) => Ok(enrollment_at(user, request, now_in_writing())),
        Err(e) => Err(Reply::refusal(Status::BadGateway, e.clone())),
    }
}

/// The statement that adds an account of the user.
pub open spec fn new_account(enrollment: i64, user: i64, account: AccountView) -> StatementView {
    StatementView {
        sql: INSERT_ACCOUNT@,
        params: seq![
            ParamView::Integer(enrollment),
            ParamView::Integer(user),
            ParamView::Text(account.id),
            ParamView::Text(account.name),
            ParamView::Text(account.account_type),
            optional(account.last_four),
        ],
    }
}

fn add_account(enrollment: i64, user: i64, account: &TellerAccount) -> (r: Statement)
    ensures
        r.deep_view() == new_account(enrollment, user, account.deep_view()),
{
    let r = Statement {
        sql: INSERT_ACCOUNT.to_string(),
        params: vec![
            Param::Integer(enrollment),
            Param::Integer(user),
            Param::Text(account.id.clone()),
            Param::Text(account.name.clone()),
            Param::Text(account.account_type.clone()),
            optional_text(&account.last_four),
        ],
    };
    assert(r.params.deep_view() =~= new_account(enrollment, user, account.deep_view()).params);
    r
}

/// How a connected bank is reported.
pub open spec fn connected(institution: Seq<char>, accounts: int) -> Seq<char> {
    "Connected "@ + institution + " with "@ + decimal(accounts)
        + " account(s). Run POST /teller/sync to import transactions."@
}

/// Ends an enrollment, once it was added or could not be: adds its accounts,
/// whether or not that succeeds, and reports how many there are.
pub fn enrolled(
    user: i64,
    request: &TellerEnrollRequest,
    accounts: &Vec<TellerAccount>,
    added: Result<i64, String>,
) -> (r: Result<(Vec<Statement>, Reply), Reply>)
    ensures
        r is Ok <==> added is Ok,
        r matches Ok((statements, reply)) ==> {
            &&& statements.deep_view() == Seq::new(
                accounts@.len(),
                |i: int| new_account(added->Ok_0, user, accounts.deep_view()[i]),
            )
            &&& reply.status == Status::Created
            &&& reply.body matches Body::Connected { message, accounts: n }
                && n == accounts@.len() && message@ == connected(
                request.institution_name@,
                accounts@.len() as int,
            )
        },
        r matches Err(reply) ==> reply.refuses(Status::Internal, added->Err_0@),
{
    let row = match added {
        Ok(row) => row,
        Err(e) => {
            return Err(Reply::refusal(Status::Internal, e));
        },
    };
    let mut statements: Vec<Statement> = Vec::new();
    let mut i: usize = 0;
    while i < accounts.len()
        invariant
            i <= accounts@.len(),
            statements@.len() == i,
            forall|j: int|
                0 <= j < i ==> (#[trigger] statements@[j]).deep_view() == new_account(
                    row,
                    user,
                    accounts@[j].deep_view(),
                ),
        decreases accounts@.len() - i,
    {
        statements.push(add_account(row, user, &accounts[i]));
        i = i + 1;
    }
    assert(statements.deep_view() =~= Seq::new(
        accounts@.len(),
        |i: int| new_account(row, user, accounts.deep_view()[i]),
    ));
    let mut message: String = "Connected ".to_string();
    message.append(request.institution_name.as_str());
    message.append(" with ");
    message.append(count_text(accounts.len()).as_str());
    message.append(" account(s). Run POST /teller/sync to import transactions.");
    let body = Body::Connected { message, accounts: accounts.len() };
    Ok((statements, Reply { status: Status::Created, body }))
}

/// A connected account that is to be synced.
pub struct ConnectedAccount {
    /// The number of the account's row.
    pub row: i64,
    pub access_token: String,
    pub account_id: String,
    /// The newest transaction that the last sync had seen.
    pub last_transaction_id: Option<String>,
    pub institution_name: String,
}

/// The accounts of a user, for a sync.
pub const ACCOUNTS_TO_SYNC: &'static str = "SELECT ta.id, te.access_token, ta.account_id,
        NULLIF(ta.last_transaction_id, ''), te.institution_name
 FROM teller_accounts ta
 JOIN teller_enrollments te ON ta.teller_enrollment_id = te.id
 WHERE ta.";

/// Asks for the accounts of the user that are to be synced.
pub fn accounts_to_sync(user: i64) -> (r: Statement)
    ensures
        r.deep_view() == for_user(ACCOUNTS_TO_SYNC@, ""@, user),
{
    of_user(ACCOUNTS_TO_SYNC, "", user)
}

/// What a user without a connected bank is told.
pub const NO_BANKS: &'static str = "No connected banks. Use POST /teller/enroll to connect one first.";

/// Goes on with a sync once the accounts of the user were asked for: those that
/// could be read are synced, unless there is none.
pub fn begin_sync(found: Result<Vec<Option<ConnectedAccount>>, String>) -> (r: Result<
    Vec<ConnectedAccount>,
    Reply,
>)
    ensures
        r matches Ok(accounts) ==> found is Ok && accounts@ == readable(found->Ok_0@)
            && accounts@.len() > 0,
        r is Err <==> found is Err || readable(found->Ok_0@).len() == 0,
        r matches Err(reply) ==> match found {
            Err(e) => reply.refuses(Status::Internal, e@),
            Ok(_) => {
                &&& reply.status == Status::Fine
                &&& reply.body matches Body::Synced { message, imported } && message@ == NO_BANKS@
                    && imported == 0
            },
        },
{
    match found {
        Err(e) => Err(Reply::refusal(Status::Internal, e)),
        Ok(rows) => {
            let accounts = readable_rows(rows);
            if accounts.len() == 0 {
                let body = Body::Synced { message: NO_BANKS.to_string(), imported: 0 };
                return Err(Reply { status: Status::Fine, body });
            }
            Ok(accounts)
        },
    }
}

/// Notes the newest transaction of an account that was seen.
pub const UPDATE_CURSOR: &'static str = "UPDATE teller_accounts SET last_transaction_id = ?1 WHERE id = ?2";

/// The statement that notes the newest transaction of an account, where a sync
/// has seen any.
pub open spec fn cursor(row: i64, sync: SyncView) -> Option<StatementView> {
    match sync.newest_id {
        Some(id) => Some(
            StatementView {
                sql: UPDATE_CURSOR@,
                params: seq![ParamView::Text(id), ParamView::Integer(row)],
            },
        ),
        None => None,
    }
}

/// Notes how far an account was synced.
pub fn advance_cursor(row: i64, sync: &AccountSync) -> (r: Option<Statement>)
    ensures
        r.deep_view() == cursor(row, sync.deep_view()),
{
    match &sync.newest_id {
        Some(id) => Some(with_two(UPDATE_CURSOR, Param::Text(id.clone()), Param::Integer(row))),
        None => None,
    }
}

/// The statements that follow the sync of an account: each record is saved, in
/// order, and how far the account was synced is noted. Nothing follows a sync
/// that failed.
pub open spec fn settled(
    row: i64,
    user: i64,
    synced: Result<SyncView, Seq<char>>,
) -> Seq<StatementView> {
    match synced {
        Ok(sync) => Seq::new(sync.records.len(), |i: int| save(sync.records[i], Some(user))) + (
        match cursor(row, sync) {
            Some(statement) => seq![statement],
            None => seq![],
        }),
        Err(_) => seq![],
    }
}

/// Goes on with a sync once one account was synced, or could not be.
pub fn settle(row: i64, user: i64, synced: &Result<AccountSync, String>) -> (r: Vec<Statement>)
    ensures
        r.deep_view() == settled(row, user, outcome(*synced)),
{
    match synced {
        Ok(sync) => {
            let mut r = save_records(&sync.records, Some(user));
            let ghost saves = r.deep_view();
            if let Some(statement) = advance_cursor(row, sync) {
                let ghost noted = statement.deep_view();
                r.push(statement);
                assert(r.deep_view() =~= saves.push(noted));
            }
            assert(r.deep_view() =~= settled(row, user, outcome(*synced)));
            r
        },
        Err(_) => {
            let r: Vec<Statement> = Vec::new();
            assert(r.deep_view() =~= seq![]);
            r
        },
    }
}

/// How many transactions the syncs that succeeded brought.
pub open spec fn imported(syncs: Seq<Result<SyncView, Seq<char>>>) -> nat
    decreases syncs.len(),
{
    if syncs.len() == 0 {
        0
    } else {
        imported(syncs.drop_last()) + match syncs.last() {
            Ok(sync) => sync.records.len(),
            Err(_) => 0,
        }
    }
}

proof fn lemma_imported_grows(syncs: Seq<Result<SyncView, Seq<char>>>, n: int)
    requires
        0 <= n <= syncs.len(),
    ensures
        imported(syncs.take(n)) <= imported(syncs),
    decreases syncs.len(),
{
    if n < syncs.len() {
        lemma_imported_grows(syncs.drop_last(), n);
        assert(syncs.drop_last().take(n) =~= syncs.take(n));
    } else {
        assert(syncs.take(n) =~= syncs);
    }
}

/// How a sync is reported.
pub open spec fn synced_message(n: int) -> Seq<char> {
    "Synced "@ + decimal(n) + " new transaction(s) from connected banks"@
}

/// Ends a sync of the user's accounts: reports how many transactions came in from
/// the accounts that could be synced.
pub fn sync_reply(syncs: &Vec<Result<AccountSync, String>>) -> (r: Reply)
    requires
        imported(crate::record::outcomes(syncs@)) <= usize::MAX,
    ensures
        r.status == Status::Fine,
        r.body matches Body::Synced { message, imported: n } && n == imported(
            crate::record::outcomes(syncs@),
        ) && message@ == synced_message(n as int),
{
    let ghost views = crate::record::outcomes(syncs@);
    let mut n: usize = 0;
    let mut i: usize = 0;
    while i < syncs.len()
        invariant
            i <= syncs@.len(),
            views == crate::record::outcomes(syncs@),
            imported(views) <= usize::MAX,
            n == imported(views.take(i as int)),
        decreases syncs@.len() - i,
    {
        proof {
            lemma_imported_grows(views, i + 1);
            assert(views.take(i + 1).drop_last() =~= views.take(i as int));
            assert(views.take(i + 1).last() == outcome(syncs@[i as int]));
        }
        if let Ok(sync) = &syncs[i] {
            assert(sync.deep_view().records.len() == sync.records@.len());
            n = n + sync.records.len();
        }
        i = i + 1;
    }
    assert(views.take(syncs@.len() as int) =~= views);
    let mut message: String = "Synced ".to_string();
    message.append(count_text(n).as_str());
    message.append(" new transaction(s) from connected banks");
    Reply { status: Status::Fine, body: Body::Synced { message, imported: n } }
}

/// A connected account, as it is shown to its user.
pub struct TellerAccountRow {
    pub id: i64,
    pub institution_name: String,
    pub account_name: String,
    pub account_type: String,
    pub last_four: Option<String>,
}

/// The accounts of a user.
pub const LIST_ACCOUNTS: &'static str = "SELECT ta.id, te.institution_name, ta.name, ta.account_type, ta.last_four
 FROM teller_accounts ta
 JOIN teller_enrollments te ON ta.teller_enrollment_id = te.id
 WHERE ta.";

/// What follows the user in [`LIST_ACCOUNTS`].
pub const LIST_ACCOUNTS_END: &'static str = "
 ORDER BY te.institution_name, ta.name";

/// Asks for the accounts of the user.
pub fn list_accounts(user: i64) -> (r: Statement)
    ensures
        r.deep_view() == for_user(LIST_ACCOUNTS@, LIST_ACCOUNTS_END@, user),
{
    of_user(LIST_ACCOUNTS, LIST_ACCOUNTS_END, user)
}

/// Shows the accounts of the user that could be read.
pub fn accounts_reply(found: Result<Vec<Option<TellerAccountRow>>, String>) -> (r: Reply)
    ensures
        found matches Ok(rows) ==> r.status == Status::Fine && (r.body matches Body::Accounts(shown)
            && shown@ == readable(rows@)),
        found matches Err(e) ==> r.refuses(Status::Internal, e@),
{
    match found {
        Ok(rows) => Reply { status: Status::Fine, body: Body::Accounts(readable_rows(rows)) },
        Err(e) => Reply::refusal(Status::Internal, e),
    }
}

/// The enrollment of an account of the user.
pub const FIND_ENROLLMENT: &'static str = "SELECT teller_enrollment_id FROM teller_accounts WHERE id = ?1 AND ";

/// Removes an account of the user.
pub const DELETE_ACCOUNT: &'static str = "DELETE FROM teller_accounts WHERE id = ?1 AND ";

/// How many accounts an enrollment has.
pub const COUNT_ACCOUNTS: &'static str = "SELECT COUNT(*) FROM teller_accounts WHERE teller_enrollment_id = ?1";

/// Removes an enrollment of the user.
pub const DELETE_ENROLLMENT: &'static str = "DELETE FROM teller_enrollments WHERE id = ?1 AND ";

/// Asks for the enrollment of an account that is to be disconnected.
pub fn find_enrollment(account: i64, user: i64) -> (r: Statement)
    ensures
        r.deep_view() == owned(FIND_ENROLLMENT@, account, user),
{
    of_owner(FIND_ENROLLMENT, account, user)
}

/// Goes on to disconnect an account once its enrollment was looked up: removes
/// the account and counts what remains, or reports that the user has no such
/// account.
pub fn disconnect(account: i64, user: i64, enrollment: Option<i64>) -> (r: Result<
    (Statement, Statement),
    Reply,
>)
    ensures
        r is Ok <==> enrollment is Some,
        r matches Ok((removal, count)) ==> {
            &&& removal.deep_view() == owned(DELETE_ACCOUNT@, account, user)
            &&& count.deep_view() == (StatementView {
                sql: COUNT_ACCOUNTS@,
                params: seq![ParamView::Integer(enrollment->0)],
            })
        },
        r matches Err(reply) ==> reply.refuses(Status::NotFound, "Account not found"@),
{
    match enrollment {
        Some(enrollment) => Ok(
            (
                of_owner(DELETE_ACCOUNT, account, user),
                with_one(COUNT_ACCOUNTS, Param::Integer(enrollment)),
            ),
        ),
        None => Err(Reply::refusal(Status::NotFound, "Account not found".to_string())),
    }
}

/// Ends the disconnection of an account: an enrollment without accounts is
/// removed with it. One whose accounts could not be counted is kept.
pub fn disconnected(enrollment: i64, user: i64, remaining: Option<i64>) -> (r: (
    Option<Statement>,
    Reply,
))
    ensures
        r.0.deep_view() == if remaining == Some(0i64) {
            Some(owned(DELETE_ENROLLMENT@, enrollment, user))
        } else {
            None
        },
        r.1.reports(Status::Fine, "Bank account disconnected"@),
{
    let removal: Option<Statement> = match remaining {
        Some(n) => if n == 0 {
            Some(of_owner(DELETE_ENROLLMENT, enrollment, user))
        } else {
            None
        },
        None => None,
    };
    (removal, Reply::report(Status::Fine, "Bank account disconnected".to_string()))
}

} // verus!
