//! What a sync brings in, and what is made of the answers of the bank.

use vstd::prelude::*;

use crate::amount::Amount;
use crate::banks::{
    account, account_keys, accounts, connected, identity, imported, settled, synced_message,
    AccountView, TellerAccount, NO_BANKS,
};
use crate::categories::category_of;
use crate::exchange::{served, Exchange};
use crate::outside::{lowercase, uppercase, RowView};
use crate::record::RecordView;
use crate::store::{save, ParamView, StatementView};
use crate::teller::{
    american_date, debits, listed, listing, page_query, transaction_keys, unseen, valued,
    AccountSync, Listing, ListingView, SyncView, TellerTransaction, TransactionView,
    ACCOUNTS_FAILURE, PAGE_SIZE, TELLER_API, TRANSACTIONS_FAILURE,
};
use crate::text::{decimal, lemma_split_around, lemma_split_whole, split_on};

verus! {

/// A transaction is recorded exactly where its amount was read and is below zero,
/// or no number, and it has a date; then the record holds its day, its amount
/// without the sign, its description, or "Unknown", in capitals, the category of
/// that, and its name.
pub proof fn law_every_debit_is_recorded(t: TransactionView)
    ensures
        t.debit() is Some <==> t.date is Some && (t.amount matches Some(a) && a.bits
            > 0x7ff0_0000_0000_0000 && a.bits != 0x8000_0000_0000_0000),
        t.debit() matches Some(record) ==> {
            &&& record.date == american_date(t.date->0)
            &&& record.amount.bits == if t.amount->0.bits >= 0x8000_0000_0000_0000 {
                t.amount->0.bits - 0x8000_0000_0000_0000
            } else {
                t.amount->0.bits as int
            }
            &&& t.amount->0.is_number() ==> record.amount.rank() == -t.amount->0.rank()
            &&& t.description matches Some(d) ==> record.description == uppercase(d)
            &&& t.description is None ==> record.description == uppercase("Unknown"@)
            &&& record.category == category_of(lowercase(record.description))
            &&& record.teller_id == t.id
        },
{
}

/// The debits of two lists, one after the other, are those of each, one after the
/// other; and those of one transaction are its record, where it has one.
pub proof fn law_debits_of_two_lists(
    a: Seq<TransactionView>,
    b: Seq<TransactionView>,
    t: TransactionView,
)
    ensures
        debits(a + b) == debits(a) + debits(b),
        t.debit() matches Some(record) ==> debits(seq![t]) == seq![record],
        t.debit() is None ==> debits(seq![t]).len() == 0,
        debits(Seq::<TransactionView>::empty()).len() == 0,
    decreases b.len(),
{
    assert(seq![t].drop_last() =~= Seq::<TransactionView>::empty());
    assert(debits(seq![t].drop_last()) =~= Seq::<RecordView>::empty());
    if b.len() == 0 {
        assert(a + b =~= a);
        assert(debits(a) + debits(b) =~= debits(a));
    } else {
        law_debits_of_two_lists(a, b.drop_last(), t);
        assert((a + b).drop_last() =~= a + b.drop_last());
        assert((a + b).last() == b.last());
        assert(debits(a + b) =~= debits(a) + debits(b));
    }
}

/// A page is taken in up to the transaction that the last sync had seen: where the
/// first `n` transactions are others, and the next one, if any, is that one, the
/// debits among the `n` are added to the records. Another page follows exactly
/// where that transaction is not on the page and the page is full, and it begins
/// before the last transaction of this one; else the place to go on from stays. The
/// newest transaction is the first that was ever seen.
pub proof fn law_page_is_taken_in(sync: SyncView, page: Seq<TransactionView>, n: int)
    requires
        0 <= n <= page.len(),
        forall|i: int| 0 <= i < n ==> sync.since_id != Some((#[trigger] page[i]).name()),
        n < page.len() ==> sync.since_id == Some(page[n].name()),
    ensures
        sync.after(page).records == sync.records + debits(page.take(n)),
        sync.after(page).since_id == sync.since_id,
        sync.ends_with(page) <==> n < page.len() || page.len() < 100,
        n == page.len() && page.len() >= 100 ==> sync.after(page).from_id == Some(
            page.last().name(),
        ),
        n < page.len() || page.len() < 100 ==> sync.after(page).from_id == sync.from_id,
        sync.newest_id is Some ==> sync.after(page).newest_id == sync.newest_id,
        sync.newest_id is None && page.len() > 0 ==> sync.after(page).newest_id == Some(
            page[0].name(),
        ),
        sync.newest_id is None && page.len() == 0 ==> sync.after(page).newest_id is None,
    decreases page.len(),
{
    lemma_unseen(page, sync.since_id, n);
}

proof fn lemma_unseen(page: Seq<TransactionView>, since: Option<Seq<char>>, n: int)
    requires
        0 <= n <= page.len(),
        forall|i: int| 0 <= i < n ==> since != Some((#[trigger] page[i]).name()),
        n < page.len() ==> since == Some(page[n].name()),
    ensures
        unseen(page, since) == n,
    decreases page.len(),
{
    if page.len() > 0 {
        assert(page.first() == page[0]);
        if n > 0 {
            let rest = page.drop_first();
            assert forall|i: int| 0 <= i < n - 1 implies since != Some(
                (#[trigger] rest[i]).name(),
            ) by {
                assert(rest[i] == page[i + 1]);
            }
            if n < page.len() {
                assert(rest[n - 1] == page[n]);
            }
            lemma_unseen(rest, since, n - 1);
        }
    }
}

/// A sync begins with nothing read, and ends at the given transaction. A
/// transaction goes by its id, or by the empty name.
pub proof fn law_sync_begins(since: Option<Seq<char>>, t: TransactionView)
    ensures
        SyncView::start(since).since_id == since,
        SyncView::start(since).from_id is None,
        SyncView::start(since).newest_id is None,
        SyncView::start(since).records.len() == 0,
        t.id matches Some(id) ==> t.name() == id,
        t.id is None ==> t.name().len() == 0,
        PAGE_SIZE == 100,
{
}

/// Every page that is asked for is of a hundred transactions, and every one but
/// the first begins where the last one ended.
pub proof fn law_page_query(sync: SyncView)
    ensures
        page_query(sync).len() > 0,
        page_query(sync)[0] == ("count"@, "100"@),
        sync.from_id is None ==> page_query(sync).len() == 1,
        sync.from_id matches Some(id) ==> page_query(sync).len() == 2 && page_query(sync)[1] == (
            "from_id"@,
            id,
        ),
        TELLER_API@ == "https://api.teller.io"@,
        ACCOUNTS_FAILURE@ == "Teller accounts error"@,
        TRANSACTIONS_FAILURE@ == "Teller transactions error"@,
{
}

/// A day that does not have two dashes is left as it is.
pub proof fn law_other_days_stay(date: Seq<char>, a: Seq<char>, b: Seq<char>)
    ensures
        !date.contains('-') ==> american_date(date) == date,
        !a.contains('-') && !b.contains('-') ==> american_date(a + seq!['-'] + b) == a + seq!['-']
            + b,
        split_on(date, '-').len() > 3 ==> american_date(date) == date,
{
    if !date.contains('-') {
        lemma_split_whole(date, '-');
    }
    if !a.contains('-') && !b.contains('-') {
        lemma_split_whole(a, '-');
        lemma_split_whole(b, '-');
        lemma_split_around(a, '-', b);
    }
}

/// Each element of a page is a transaction in its place, with the texts under its
/// four keys, and the number that its amount reads as.
pub proof fn law_listings(rows: Seq<RowView>, i: int, amount: Option<Amount>)
    requires
        0 <= i < rows.len(),
        rows[i].len() == 4,
    ensures
        transaction_keys() == seq!["id"@, "amount"@, "date"@, "description"@],
        listed(Some(rows)).len() == rows.len(),
        listed(Some(rows))[i].id == rows[i][0].0,
        listed(Some(rows))[i].amount == rows[i][1].0,
        listed(Some(rows))[i].date == rows[i][2].0,
        listed(Some(rows))[i].description == rows[i][3].0,
        listed(None).len() == 0,
        valued(listing(rows[i]), amount).id == rows[i][0].0,
        valued(listing(rows[i]), amount).amount == amount,
        valued(listing(rows[i]), amount).date == rows[i][2].0,
        valued(listing(rows[i]), amount).description == rows[i][3].0,
{
}

/// Each element of a list of accounts is an account in its place, with the texts
/// under its four keys; without an id it has the empty one, without a name it is an
/// "Account", and without a type it is "unknown".
pub proof fn law_accounts(rows: Seq<RowView>, i: int)
    requires
        0 <= i < rows.len(),
        rows[i].len() == 4,
    ensures
        account_keys() == seq!["id"@, "name"@, "type"@, "last_four"@],
        accounts(Some(rows)).len() == rows.len(),
        accounts(Some(rows))[i].id == match rows[i][0].0 {
            Some(id) => id,
            None => ""@,
        },
        accounts(Some(rows))[i].name == match rows[i][1].0 {
            Some(name) => name,
            None => "Account"@,
        },
        accounts(Some(rows))[i].account_type == match rows[i][2].0 {
            Some(account_type) => account_type,
            None => "unknown"@,
        },
        accounts(Some(rows))[i].last_four == rows[i][3].0,
        accounts(Some(rows))[i] == account(rows[i]),
        accounts(None).len() == 0,
{
}

/// What the transactions, the listings, the accounts and a sync hold is what their
/// fields hold.
pub proof fn law_bank_views(
    t: TellerTransaction,
    l: Listing,
    a: TellerAccount,
    sync: AccountSync,
)
    ensures
        t.deep_view() == (TransactionView {
            id: t.id.deep_view(),
            amount: t.amount,
            date: t.date.deep_view(),
            description: t.description.deep_view(),
        }),
        l.deep_view() == (ListingView {
            id: l.id.deep_view(),
            amount: l.amount.deep_view(),
            date: l.date.deep_view(),
            description: l.description.deep_view(),
        }),
        a.deep_view() == (AccountView {
            id: a.id@,
            name: a.name@,
            account_type: a.account_type@,
            last_four: a.last_four.deep_view(),
        }),
        sync.deep_view() == (SyncView {
            since_id: sync.since_id.deep_view(),
            from_id: sync.from_id.deep_view(),
            newest_id: sync.newest_id.deep_view(),
            records: sync.records.deep_view(),
        }),
{
}

/// A sync that succeeded is settled by saving each of its records, in its place,
/// for the user, and then noting the newest transaction, where one was seen; one
/// that failed by nothing.
pub proof fn law_settled(row: i64, user: i64, sync: SyncView, reason: Seq<char>)
    ensures
        settled(row, user, Err(reason)).len() == 0,
        settled(row, user, Ok(sync)).len() == sync.records.len() + if sync.newest_id is Some {
            1int
        } else {
            0
        },
        forall|i: int|
            0 <= i < sync.records.len() ==> #[trigger] settled(row, user, Ok(sync))[i] == save(
                sync.records[i],
                Some(user),
            ),
        sync.newest_id matches Some(id) ==> settled(
            row,
            user,
            Ok(sync),
        )[sync.records.len() as int] == (StatementView {
            sql: "UPDATE teller_accounts SET last_transaction_id = ?1 WHERE id = ?2"@,
            params: seq![ParamView::Text(id), ParamView::Integer(row)],
        }),
{
}

/// Every record of a sync that succeeded counts as imported, once; those of one
/// that failed are none.
pub proof fn law_imported(
    a: Seq<Result<SyncView, Seq<char>>>,
    b: Seq<Result<SyncView, Seq<char>>>,
    sync: SyncView,
    reason: Seq<char>,
)
    ensures
        imported(a + b) == imported(a) + imported(b),
        imported(seq![Ok::<SyncView, Seq<char>>(sync)]) == sync.records.len(),
        imported(seq![Err::<SyncView, Seq<char>>(reason)]) == 0,
        imported(Seq::<Result<SyncView, Seq<char>>>::empty()) == 0,
    decreases b.len(),
{
    reveal_with_fuel(imported, 2);
    if b.len() == 0 {
        assert(a + b =~= a);
    } else {
        law_imported(a, b.drop_last(), sync, reason);
        assert((a + b).drop_last() =~= a + b.drop_last());
    }
}

/// How a connection and a sync are reported.
pub proof fn law_bank_messages(institution: Seq<char>, n: int)
    ensures
        connected(institution, n) == "Connected "@ + institution + " with "@ + decimal(n)
            + " account(s). Run POST /teller/sync to import transactions."@,
        synced_message(n) == "Synced "@ + decimal(n)
            + " new transaction(s) from connected banks"@,
        NO_BANKS@ == "No connected banks. Use POST /teller/enroll to connect one first."@,
{
}

/// The certificate comes first, then the end of a line, then the key, where there
/// are both.
pub proof fn law_identity(cert: Seq<u8>, key: Seq<u8>)
    ensures
        identity(Some(cert), Some(key)) == Some(cert + seq![10u8] + key),
        identity(None, Some(key)) is None,
        identity(Some(cert), None) is None,
        identity(None, None) is None,
{
    assert(cert.push(10) + key =~= cert + seq![10u8] + key);
}

/// What was served is taken as it is; what was not is reported with the status and
/// the answer, and what failed with its reason.
pub proof fn law_served(
    reason: String,
    success: bool,
    status: String,
    body: String,
    failure: Seq<char>,
)
    ensures
        served(Exchange::Failed(reason), failure) == Err::<Seq<char>, Seq<char>>(reason@),
        success ==> served(Exchange::Answered { success, status, body }, failure) == Ok::<
            Seq<char>,
            Seq<char>,
        >(body@),
        !success ==> served(Exchange::Answered { success, status, body }, failure) == Err::<
            Seq<char>,
            Seq<char>,
        >(failure + " "@ + status@ + ": "@ + body@),
{
}

} // verus!
