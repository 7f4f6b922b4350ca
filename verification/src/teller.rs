//! Connecting bank accounts through Teller, and reading their transactions.

use vstd::prelude::*;

use crate::amount::{law_debit_becomes_positive, Amount};
use crate::categories::{categorize, category_of};
use crate::exchange::{serve, served, Exchange};
use crate::outside::{
    json_fields, json_rows, lowercase, to_uppercase, uppercase, Field, RowView,
};
use crate::record::{outcome, Record, RecordView};
use crate::text::{lemma_split_around, lemma_split_whole, same, split, split_on};

verus! {

/// How many transactions a full page has.
pub const PAGE_SIZE: usize = 100;

/// A transaction as Teller lists it.
pub struct TellerTransaction {
    pub id: Option<String>,
    /// What the amount reads as, where it reads as a number. Below zero is a
    /// debit.
    pub amount: Option<Amount>,
    /// The day, as YYYY-MM-DD.
    pub date: Option<String>,
    pub description: Option<String>,
}

/// What a listed transaction holds.
pub struct TransactionView {
    pub id: Option<Seq<char>>,
    pub amount: Option<Amount>,
    pub date: Option<Seq<char>>,
    pub description: Option<Seq<char>>,
}

impl DeepView for TellerTransaction {
    type V = TransactionView;

    open spec fn deep_view(&self) -> TransactionView {
        TransactionView {
            id: self.id.deep_view(),
            amount: self.amount,
            date: self.date.deep_view(),
            description: self.description.deep_view(),
        }
    }
}

impl TransactionView {
    /// The name that the transaction goes by: empty where it has none.
    pub open spec fn name(self) -> Seq<char> {
        match self.id {
            Some(id) => id,
            None => Seq::<char>::empty(),
        }
    }

    /// The description, in capitals.
    pub open spec fn title(self) -> Seq<char> {
        match self.description {
            Some(d) => uppercase(d),
            None => uppercase("Unknown"@),
        }
    }

    /// The record of a debit. Credits are none, nor is what has no date.
    pub open spec fn debit(self) -> Option<RecordView> {
        match (self.amount, self.date) {
            (Some(amount), Some(date)) => if amount.at_least_zero() {
                None
            } else {
                Some(
                    RecordView {
                        date: american_date(date),
                        amount: amount.absolute(),
                        description: self.title(),
                        category: category_of(lowercase(self.title())),
                        teller_id: self.id,
                    },
                )
            },
            _ => None,
        }
    }
}

/// YYYY-MM-DD as MM/DD/YYYY. Any text without two dashes is left as it is.
pub open spec fn american_date(date: Seq<char>) -> Seq<char> {
    let parts = split_on(date, '-');
    if parts.len() == 3 {
        parts[1] + seq!['/'] + parts[2] + seq!['/'] + parts[0]
    } else {
        date
    }
}

/// Writes a date of the bank as dates are written here.
pub fn local_date(date: &str) -> (r: String)
    ensures
        r@ == american_date(date@),
{
    let parts = split(date, '-');
    assert(forall|i: int| 0 <= i < parts@.len() ==> parts@[i]@ == #[trigger] parts.deep_view()[i]);
    if parts.len() == 3 {
        let mut r: String = parts[1].clone();
        r.push('/');
        r.append(parts[2].as_str());
        r.push('/');
        r.append(parts[0].as_str());
        assert(r@ =~= american_date(date@));
        r
    } else {
        date.to_string()
    }
}

/// A day that is written as year, month and day, with dashes between them, comes
/// out as month, day and year, with slashes between them.
pub proof fn law_local_date_is_american(year: Seq<char>, month: Seq<char>, day: Seq<char>)
    requires
        !year.contains('-'),
        !month.contains('-'),
        !day.contains('-'),
    ensures
        american_date(year + seq!['-'] + month + seq!['-'] + day) == month + seq!['/'] + day
            + seq!['/'] + year,
{
    lemma_split_around(year + seq!['-'] + month, '-', day);
    lemma_split_around(year, '-', month);
    lemma_split_whole(year, '-');
    lemma_split_whole(month, '-');
    lemma_split_whole(day, '-');
}

/// The name of a listed transaction.
fn name_of(t: &TellerTransaction) -> (r: String)
    ensures
        r@ == t.deep_view().name(),
{
    match &t.id {
        Some(id) => id.clone(),
        None => String::new(),
    }
}

/// Records a listed transaction, where it is a debit with a date.
pub fn debit_record(t: &TellerTransaction) -> (r: Option<Record>)
    ensures
        r.deep_view() == t.deep_view().debit(),
{
    match (&t.amount, &t.date) {
        (Some(amount), Some(date)) => {
            if amount.is_at_least_zero() {
                return None;
            }
            let description = match &t.description {
                Some(d) => to_uppercase(d.as_str()),
                None => to_uppercase("Unknown"),
            };
            let category = categorize(description.as_str());
            Some(
                Record {
                    date: local_date(date.as_str()),
                    amount: amount.abs(),
                    description,
                    category,
                    teller_id: t.id.clone(),
                },
            )
        },
        _ => None,
    }
}

/// What is recorded of a listed transaction is an expense: above zero, wherever
/// the amount was a number, under the category of its description, and under the
/// bank's name for it.
pub proof fn law_debits_are_expenses(t: TransactionView)
    requires
        t.debit() is Some,
        t.amount->0.is_number(),
    ensures
        t.debit()->0.amount.is_number(),
        !t.debit()->0.amount.at_most_zero(),
        t.debit()->0.category == category_of(lowercase(t.debit()->0.description)),
        t.debit()->0.teller_id == t.id,
{
    law_debit_becomes_positive(t.amount->0);
}

/// The records of the debits among the transactions.
pub open spec fn debits(list: Seq<TransactionView>) -> Seq<RecordView>
    decreases list.len(),
{
    if list.len() == 0 {
        Seq::<RecordView>::empty()
    } else {
        match list.last().debit() {
            Some(record) => debits(list.drop_last()).push(record),
            None => debits(list.drop_last()),
        }
    }
}

/// The transaction is the one that the last sync had seen.
pub open spec fn is_known(t: TransactionView, since: Option<Seq<char>>) -> bool {
    since == Some(t.name())
}

/// How many transactions, from the newest on, the last sync had not seen.
pub open spec fn unseen(list: Seq<TransactionView>, since: Option<Seq<char>>) -> int
    decreases list.len(),
{
    if list.len() == 0 || is_known(list.first(), since) {
        0
    } else {
        1 + unseen(list.drop_first(), since)
    }
}

/// A sync of one account, page by page, from the newest transaction back.
pub struct AccountSync {
    /// The newest transaction that the last sync had seen.
    pub since_id: Option<String>,
    /// The transaction before which the next page begins: none for the first.
    pub from_id: Option<String>,
    /// The newest transaction seen in this sync.
    pub newest_id: Option<String>,
    /// The debits of this sync, the newest first.
    pub records: Vec<Record>,
}

/// Where a sync stands.
pub struct SyncView {
    pub since_id: Option<Seq<char>>,
    pub from_id: Option<Seq<char>>,
    pub newest_id: Option<Seq<char>>,
    pub records: Seq<RecordView>,
}

impl DeepView for AccountSync {
    type V = SyncView;

    open spec fn deep_view(&self) -> SyncView {
        SyncView {
            since_id: self.since_id.deep_view(),
            from_id: self.from_id.deep_view(),
            newest_id: self.newest_id.deep_view(),
            records: self.records.deep_view(),
        }
    }
}

impl SyncView {
    /// A sync that has read nothing yet.
    pub open spec fn start(since: Option<Seq<char>>) -> SyncView {
        SyncView {
            since_id: since,
            from_id: None,
            newest_id: None,
            records: Seq::<RecordView>::empty(),
        }
    }

    /// The page is the last one to be read: it holds what the last sync had
    /// seen, or it is not full.
    pub open spec fn ends_with(self, page: Seq<TransactionView>) -> bool {
        unseen(page, self.since_id) < page.len() || page.len() < PAGE_SIZE
    }

    /// The sync after a page: the debits that were not seen before are recorded,
    /// and the next page begins before the oldest transaction of this one.
    pub open spec fn after(self, page: Seq<TransactionView>) -> SyncView {
        SyncView {
            since_id: self.since_id,
            from_id: if self.ends_with(page) {
                self.from_id
            } else {
                Some(page.last().name())
            },
            newest_id: if self.newest_id is None && page.len() > 0 {
                Some(page.first().name())
            } else {
                self.newest_id
            },
            records: self.records + debits(page.take(unseen(page, self.since_id))),
        }
    }
}

proof fn lemma_unseen_bounds(list: Seq<TransactionView>, since: Option<Seq<char>>)
    ensures
        0 <= unseen(list, since) <= list.len(),
        unseen(list, since) < list.len() ==> is_known(list[unseen(list, since)], since),
        forall|i: int| 0 <= i < unseen(list, since) ==> !is_known(#[trigger] list[i], since),
    decreases list.len(),
{
    if list.len() > 0 && !is_known(list.first(), since) {
        let rest = list.drop_first();
        lemma_unseen_bounds(rest, since);
        let n = unseen(rest, since);
        if n < rest.len() {
            assert(rest[n] == list[n + 1]);
        }
        assert forall|i: int| 0 <= i < n + 1 implies !is_known(#[trigger] list[i], since) by {
            if i > 0 {
                assert(list[i] == rest[i - 1]);
            }
        }
    }
}

proof fn lemma_unseen_is(list: Seq<TransactionView>, since: Option<Seq<char>>, n: int)
    requires
        0 <= n <= list.len(),
        forall|i: int| 0 <= i < n ==> !is_known(#[trigger] list[i], since),
        n < list.len() ==> is_known(list[n], since),
    ensures
        unseen(list, since) == n,
{
    lemma_unseen_bounds(list, since);
    let k = unseen(list, since);
    if k < n {
        assert(!is_known(list[k], since));
    }
    if n < k {
        assert(!is_known(list[n], since));
    }
}

impl AccountSync {
    /// Begins a sync that is to end at the transaction `since`.
    pub fn new(since: Option<String>) -> (r: AccountSync)
        ensures
            r.deep_view() == SyncView::start(since.deep_view()),
    {
        let r = AccountSync { since_id: since, from_id: None, newest_id: None, records: Vec::new() };
        assert(r.records.deep_view() =~= Seq::<RecordView>::empty());
        r
    }

    /// Takes in a page, and tells whether another one is to be fetched.
    pub fn absorb(&mut self, page: &Vec<TellerTransaction>) -> (more: bool)
        ensures
            final(self).deep_view() == old(self).deep_view().after(page.deep_view()),
            more == !old(self).deep_view().ends_with(page.deep_view()),
    {
        let ghost list = page.deep_view();
        let ghost since = self.since_id.deep_view();
        let ghost start = self.records.deep_view();
        let mut i: usize = 0;
        let mut stop: bool = false;
        if self.newest_id.is_none() && page.len() > 0 {
            self.newest_id = Some(name_of(&page[0]));
            assert(list.first() == page@[0].deep_view());
        }
        assert(start + debits(list.take(0)) =~= start);
        while i < page.len() && !stop
            invariant
                i <= page@.len(),
                list == page.deep_view(),
                since == self.since_id.deep_view(),
                self.since_id == old(self).since_id,
                self.from_id == old(self).from_id,
                self.newest_id.deep_view() == old(self).deep_view().after(list).newest_id,
                self.records.deep_view() == start + debits(list.take(i as int)),
                forall|j: int| 0 <= j < i ==> !is_known(#[trigger] list[j], since),
                stop ==> i < page@.len() && is_known(list[i as int], since),
            decreases page@.len() - i, (if stop { 0int } else { 1int }),
        {
            let t = &page[i];
            let ghost view = list[i as int];
            assert(view == t.deep_view());
            let name = name_of(t);
            let known = match &self.since_id {
                Some(id) => same(id.as_str(), name.as_str()),
                None => false,
            };
            assert(known == is_known(view, since));
            if known {
                stop = true;
            } else {
                proof {
                    assert(list.take(i + 1).drop_last() =~= list.take(i as int));
                    assert(list.take(i + 1).last() == view);
                }
                let ghost before = self.records.deep_view();
                if let Some(record) = debit_record(t) {
                    let ghost pushed = record.deep_view();
                    self.records.push(record);
                    assert(self.records.deep_view() =~= before.push(pushed));
                    assert(before.push(pushed) =~= start + debits(list.take(i + 1)));
                }
                i = i + 1;
            }
        }
        proof {
            lemma_unseen_is(list, since, i as int);
        }
        if stop || page.len() < PAGE_SIZE {
            return false;
        }
        let last = &page[page.len() - 1];
        assert(list.last() == last.deep_view());
        self.from_id = Some(name_of(last));
        true
    }
}

/// All transactions of the pages, in order.
pub open spec fn feed(pages: Seq<Seq<TransactionView>>) -> Seq<TransactionView>
    decreases pages.len(),
{
    if pages.len() == 0 {
        Seq::<TransactionView>::empty()
    } else {
        pages.first() + feed(pages.drop_first())
    }
}

/// A sync over the pages: it reads them in order, up to the last one to be read.
pub open spec fn synced(sync: SyncView, pages: Seq<Seq<TransactionView>>) -> SyncView
    decreases pages.len(),
{
    if pages.len() == 0 {
        sync
    } else if sync.ends_with(pages.first()) {
        sync.after(pages.first())
    } else {
        synced(sync.after(pages.first()), pages.drop_first())
    }
}

/// The pages are served as they should be: none but the last is short.
pub open spec fn well_paged(pages: Seq<Seq<TransactionView>>) -> bool {
    forall|i: int| 0 <= i < pages.len() - 1 ==> (#[trigger] pages[i]).len() >= PAGE_SIZE
}

proof fn lemma_debits_concat(a: Seq<TransactionView>, b: Seq<TransactionView>)
    ensures
        debits(a + b) == debits(a) + debits(b),
    decreases b.len(),
{
    if b.len() == 0 {
        assert(a + b =~= a);
        assert(debits(a) + debits(b) =~= debits(a));
    } else {
        lemma_debits_concat(a, b.drop_last());
        assert((a + b).drop_last() =~= a + b.drop_last());
        assert((a + b).last() == b.last());
        assert(debits(a + b) =~= debits(a) + debits(b));
    }
}

proof fn lemma_synced(sync: SyncView, pages: Seq<Seq<TransactionView>>)
    requires
        well_paged(pages),
    ensures
        synced(sync, pages).records == sync.records + debits(
            feed(pages).take(unseen(feed(pages), sync.since_id)),
        ),
        synced(sync, pages).newest_id == if sync.newest_id is None && feed(pages).len() > 0 {
            Some(feed(pages).first().name())
        } else {
            sync.newest_id
        },
    decreases pages.len(),
{
    let list = feed(pages);
    let since = sync.since_id;
    if pages.len() == 0 {
        assert(list.take(0) =~= Seq::<TransactionView>::empty());
        assert(sync.records + debits(list.take(0)) =~= sync.records);
    } else {
        let page = pages.first();
        let rest = pages.drop_first();
        let tail = feed(rest);
        let n = unseen(page, since);
        lemma_unseen_bounds(page, since);
        assert(forall|i: int| 0 <= i < page.len() ==> list[i] == #[trigger] page[i]);
        if page.len() > 0 {
            assert(list.first() == page.first());
        }
        if sync.ends_with(page) {
            if n < page.len() {
                lemma_unseen_is(list, since, n);
                assert(list.take(n) =~= page.take(n));
            } else {
                assert(rest.len() == 0) by {
                    if rest.len() > 0 {
                        assert(pages[0].len() >= PAGE_SIZE);
                    }
                }
                assert(list =~= page);
            }
        } else {
            let next = sync.after(page);
            assert(well_paged(rest)) by {
                assert forall|i: int| 0 <= i < rest.len() - 1 implies (#[trigger] rest[i]).len()
                    >= PAGE_SIZE by {
                    assert(rest[i] == pages[i + 1]);
                }
            }
            lemma_synced(next, rest);
            let m = unseen(tail, since);
            lemma_unseen_bounds(tail, since);
            assert forall|i: int| 0 <= i < n + m implies !is_known(#[trigger] list[i], since) by {
                if i >= n {
                    assert(list[i] == tail[i - n]);
                } else {
                    assert(list[i] == page[i]);
                }
            }
            if n + m < list.len() {
                assert(list[n + m] == tail[m]);
            }
            lemma_unseen_is(list, since, n + m);
            assert(list.take(n + m) =~= page + tail.take(m));
            assert(page.take(n) =~= page);
            lemma_debits_concat(page, tail.take(m));
            assert(sync.records + debits(page) + debits(tail.take(m)) =~= sync.records + (debits(
                page,
            ) + debits(tail.take(m))));
        }
    }
}

/// A sync records exactly the debits among the transactions that are newer than
/// the one the last sync had seen, however they are cut into pages, and its
/// newest transaction is the first of all.
pub proof fn law_sync_reads_what_is_new(
    pages: Seq<Seq<TransactionView>>,
    since: Option<Seq<char>>,
)
    requires
        well_paged(pages),
    ensures
        synced(SyncView::start(since), pages).records == debits(
            feed(pages).take(unseen(feed(pages), since)),
        ),
        synced(SyncView::start(since), pages).newest_id == if feed(pages).len() > 0 {
            Some(feed(pages).first().name())
        } else {
            None
        },
{
    lemma_synced(SyncView::start(since), pages);
    let new = debits(feed(pages).take(unseen(feed(pages), since)));
    assert(Seq::<RecordView>::empty() + new =~= new);
}

/// A first sync, which has seen nothing yet, records every debit.
pub proof fn law_first_sync_reads_all(pages: Seq<Seq<TransactionView>>)
    requires
        well_paged(pages),
    ensures
        synced(SyncView::start(None), pages).records == debits(feed(pages)),
{
    law_sync_reads_what_is_new(pages, None);
    let list = feed(pages);
    lemma_unseen_is(list, None, list.len() as int);
    assert(list.take(list.len() as int) =~= list);
}

/// A sync after which new transactions came in front is followed by one that
/// records the debits among these and no others.
pub proof fn law_next_sync_reads_the_fresh(
    before: Seq<Seq<TransactionView>>,
    fresh: Seq<TransactionView>,
    now: Seq<Seq<TransactionView>>,
    since: Option<Seq<char>>,
)
    requires
        well_paged(before),
        well_paged(now),
        feed(before).len() > 0,
        feed(now) == fresh + feed(before),
        forall|i: int|
            0 <= i < fresh.len() ==> (#[trigger] fresh[i]).name() != feed(before).first().name(),
    ensures
        synced(
            SyncView::start(synced(SyncView::start(since), before).newest_id),
            now,
        ).records == debits(fresh),
{
    law_sync_reads_what_is_new(before, since);
    let cursor = Some(feed(before).first().name());
    law_sync_reads_what_is_new(now, cursor);
    let list = feed(now);
    assert forall|i: int| 0 <= i < fresh.len() implies !is_known(#[trigger] list[i], cursor) by {
        assert(list[i] == fresh[i]);
    }
    assert(list[fresh.len() as int] == feed(before)[0]);
    lemma_unseen_is(list, cursor, fresh.len() as int);
    assert(list.take(fresh.len() as int) =~= fresh);
}

/// Where the bank's data is asked for.
pub const TELLER_API: &'static str = "https://api.teller.io";

/// What is reported where the bank does not list an enrollment's accounts.
pub const ACCOUNTS_FAILURE: &'static str = "Teller accounts error";

/// What is reported where the bank does not list an account's transactions.
pub const TRANSACTIONS_FAILURE: &'static str = "Teller transactions error";

/// Where the accounts of an enrollment are listed.
pub fn accounts_url() -> (r: String)
    ensures
        r@ == TELLER_API@ + "/accounts"@,
{
    let mut r: String = TELLER_API.to_string();
    r.append("/accounts");
    r
}

/// Where the transactions of an account are listed.
pub fn transactions_url(account_id: &str) -> (r: String)
    ensures
        r@ == TELLER_API@ + "/accounts/"@ + account_id@ + "/transactions"@,
{
    let mut r: String = TELLER_API.to_string();
    r.append("/accounts/");
    r.append(account_id);
    r.append("/transactions");
    r
}

/// What is asked of a list of transactions: a full page, of those that are older
/// than the transaction where the last page ended.
pub open spec fn page_query(sync: SyncView) -> Seq<(Seq<char>, Seq<char>)> {
    let full = seq![("count"@, "100"@)];
    match sync.from_id {
        Some(id) => full.push(("from_id"@, id)),
        None => full,
    }
}

impl AccountSync {
    /// What is to be asked for the next page.
    pub fn next_query(&self) -> (r: Vec<(String, String)>)
        ensures
            r.deep_view() == page_query(self.deep_view()),
    {
        let mut r: Vec<(String, String)> = vec![("count".to_string(), "100".to_string())];
        if let Some(id) = &self.from_id {
            r.push(("from_id".to_string(), id.clone()));
        }
        assert(r.deep_view() =~= page_query(self.deep_view()));
        r
    }
}

/// A transaction as the bank writes it, its amount still in writing.
pub struct Listing {
    pub id: Option<String>,
    pub amount: Option<String>,
    pub date: Option<String>,
    pub description: Option<String>,
}

/// What a listing holds.
pub struct ListingView {
    pub id: Option<Seq<char>>,
    pub amount: Option<Seq<char>>,
    pub date: Option<Seq<char>>,
    pub description: Option<Seq<char>>,
}

impl DeepView for Listing {
    type V = ListingView;

    open spec fn deep_view(&self) -> ListingView {
        ListingView {
            id: self.id.deep_view(),
            amount: self.amount.deep_view(),
            date: self.date.deep_view(),
            description: self.description.deep_view(),
        }
    }
}

/// The fields that make up a transaction.
pub open spec fn transaction_keys() -> Seq<Seq<char>> {
    seq!["id"@, "amount"@, "date"@, "description"@]
}

/// The listing in a row.
pub open spec fn listing(row: RowView) -> ListingView {
    ListingView { id: row[0].0, amount: row[1].0, date: row[2].0, description: row[3].0 }
}

/// The listings of a page: none where it has no rows.
pub open spec fn listed(rows: Option<Seq<RowView>>) -> Seq<ListingView> {
    match rows {
        Some(rows) => Seq::new(rows.len(), |i: int| listing(rows[i])),
        None => Seq::<ListingView>::empty(),
    }
}

/// Takes the listings out of the rows of a page.
pub fn listings(rows: &Option<Vec<Vec<Field>>>) -> (r: Vec<Listing>)
    requires
        rows matches Some(rows) ==> forall|i: int|
            0 <= i < rows@.len() ==> (#[trigger] rows@[i])@.len() == 4,
    ensures
        r.deep_view() == listed(rows.deep_view()),
{
    let mut r: Vec<Listing> = Vec::new();
    if let Some(rows) = rows {
        let mut i: usize = 0;
        while i < rows.len()
            invariant
                i <= rows@.len(),
                r@.len() == i,
                forall|j: int| 0 <= j < rows@.len() ==> (#[trigger] rows@[j])@.len() == 4,
                forall|j: int|
                    0 <= j < i ==> (#[trigger] r@[j]).deep_view() == listing(rows@[j].deep_view()),
            decreases rows@.len() - i,
        {
            let row = &rows[i];
            r.push(
                Listing {
                    id: row[0].0.clone(),
                    amount: row[1].0.clone(),
                    date: row[2].0.clone(),
                    description: row[3].0.clone(),
                },
            );
            i = i + 1;
        }
    }
    assert(r.deep_view() =~= listed(rows.deep_view()));
    r
}

/// Reads a page of transactions out of an answer of the bank. An answer that is
/// no list reads as an empty page.
pub fn read_page(exchange: Exchange) -> (r: Result<Vec<Listing>, String>)
    ensures
        outcome(r) == match served(exchange, TRANSACTIONS_FAILURE@) {
            Ok(json) => Ok(listed(json_fields(json, transaction_keys()))),
            Err(e) => Err(e),
        },
{
    let json = match serve(exchange, TRANSACTIONS_FAILURE) {
        Ok(json) => json,
        Err(e) => {
            return Err(e);
        },
    };
    let keys: Vec<&str> = vec!["id", "amount", "date", "description"];
    assert(keys.deep_view() =~= transaction_keys());
    let rows = json_rows(json.as_str(), &keys);
    Ok(listings(&rows))
}

/// The transaction of a listing whose amount reads as that number.
pub open spec fn valued(listing: ListingView, amount: Option<Amount>) -> TransactionView {
    TransactionView {
        id: listing.id,
        amount: amount,
        date: listing.date,
        description: listing.description,
    }
}

/// Puts the numbers that the amounts of a page read as in their place.
pub fn value_page(page: &Vec<Listing>, amounts: &Vec<Option<Amount>>) -> (r: Vec<
    TellerTransaction,
>)
    requires
        page@.len() == amounts@.len(),
    ensures
        r.deep_view() == Seq::new(
            page@.len(),
            |i: int| valued(page.deep_view()[i], amounts@[i]),
        ),
{
    let mut r: Vec<TellerTransaction> = Vec::new();
    let mut i: usize = 0;
    while i < page.len()
        invariant
            i <= page@.len(),
            page@.len() == amounts@.len(),
            r@.len() == i,
            forall|j: int|
                0 <= j < i ==> (#[trigger] r@[j]).deep_view() == valued(
                    page@[j].deep_view(),
                    amounts@[j],
                ),
        decreases page@.len() - i,
    {
        r.push(
            TellerTransaction {
                id: page[i].id.clone(),
                amount: amounts[i],
                date: page[i].date.clone(),
                description: page[i].description.clone(),
            },
        );
        i = i + 1;
    }
    assert(r.deep_view() =~= Seq::new(
        page@.len(),
        |i: int| valued(page.deep_view()[i], amounts@[i]),
    ));
    r
}

} // verus!
