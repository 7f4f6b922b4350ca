//! Cash that came in or went out.

use vstd::prelude::*;

use crate::amount::Amount;
use crate::reply::{Body, Reply, Status};
use crate::store::{
    for_user, of_owner, of_user, owned, readable, readable_rows, Param, ParamView, Statement,
    StatementView,
};
use crate::text::same;

verus! {

/// What is sent to note cash.
pub struct CashEntryRequest {
    pub date: String,
    pub amount: Amount,
    /// Whether it came in or went out: [`INCOME`] or [`EXPENSE`].
    pub entry_type: String,
    pub description: String,
}

/// Cash that was noted.
pub struct CashEntry {
    pub id: i64,
    pub date: String,
    pub amount: Amount,
    pub entry_type: String,
    pub description: String,
}

/// Cash that came in.
pub const INCOME: &'static str = "income";

/// Cash that went out.
pub const EXPENSE: &'static str = "expense";

/// Notes cash.
pub const INSERT_ENTRY: &'static str = "INSERT INTO cash_entries (user_id, date, amount, entry_type, description)
 VALUES (?1, ?2, ?3, ?4, ?5)";

/// The cash of a user.
pub const LIST_ENTRIES: &'static str = "SELECT id, date, amount, entry_type, description
 FROM cash_entries WHERE ";

/// What follows the user in [`LIST_ENTRIES`].
pub const LIST_ENTRIES_END: &'static str = " ORDER BY date DESC";

/// Strikes out cash of a user.
pub const DELETE_ENTRY: &'static str = "DELETE FROM cash_entries WHERE id = ?1 AND ";

/// The type is one of the two that there are.
pub open spec fn is_entry_type(t: Seq<char>) -> bool {
    t == INCOME@ || t == EXPENSE@
}

/// Why cash is not noted.
pub open spec fn objection(request: CashEntryRequest) -> Option<Seq<char>> {
    if !is_entry_type(request.entry_type@) {
        Some("entry_type must be 'income' or 'expense'"@)
    } else if request.amount.at_most_zero() {
        Some("amount must be positive"@)
    } else {
        None
    }
}

/// The statement that notes cash of the user.
pub open spec fn new_entry(user: i64, request: CashEntryRequest) -> StatementView {
    StatementView {
        sql: INSERT_ENTRY@,
        params: seq![
            ParamView::Integer(user),
            ParamView::Text(request.date@),
            ParamView::Real(request.amount),
            ParamView::Text(request.entry_type@),
            ParamView::Text(request.description@),
        ],
    }
}

/// Notes cash of the user, or reports what is wrong with it.
pub fn add_cash_entry(user: i64, request: &CashEntryRequest) -> (r: Result<Statement, Reply>)
    ensures
        match objection(*request) {
            Some(message) => r matches Err(reply) && reply.refuses(Status::BadRequest, message),
            None => r matches Ok(s) && s.deep_view() == new_entry(user, *request),
        },
{
    if !same(request.entry_type.as_str(), INCOME) && !same(request.entry_type.as_str(), EXPENSE) {
        let message = "entry_type must be 'income' or 'expense'".to_string();
        return Err(Reply::refusal(Status::BadRequest, message));
    }
    if request.amount.is_at_most_zero() {
        return Err(Reply::refusal(Status::BadRequest, "amount must be positive".to_string()));
    }
    let r = Statement {
        sql: INSERT_ENTRY.to_string(),
        params: vec![
            Param::Integer(user),
            Param::Text(request.date.clone()),
            Param::Real(request.amount),
            Param::Text(request.entry_type.clone()),
            Param::Text(request.description.clone()),
        ],
    };
    assert(r.params.deep_view() =~= new_entry(user, *request).params);
    Ok(r)
}

/// Reports that cash was noted, or could not be.
pub fn cash_entry_added(added: Result<(), String>) -> (r: Reply)
    ensures
        match added {
            Ok(_) => r.reports(Status::Created, "Cash entry added"@),
            Err(e) => r.refuses(Status::Internal, e@),
        },
{
    match added {
        Ok(_) => Reply::report(Status::Created, "Cash entry added".to_string()),
        Err(e) => Reply::refusal(Status::Internal, e),
    }
}

/// Asks for the cash of the user.
pub fn list_entries(user: i64) -> (r: Statement)
    ensures
        r.deep_view() == for_user(LIST_ENTRIES@, LIST_ENTRIES_END@, user),
{
    of_user(LIST_ENTRIES, LIST_ENTRIES_END, user)
}

/// The amounts of the entries of that type, in their order.
pub open spec fn amounts_of(entries: Seq<CashEntry>, entry_type: Seq<char>) -> Seq<Amount>
    decreases entries.len(),
{
    if entries.len() == 0 {
        Seq::<Amount>::empty()
    } else {
        let before = amounts_of(entries.drop_last(), entry_type);
        if entries.last().entry_type@ == entry_type {
            before.push(entries.last().amount)
        } else {
            before
        }
    }
}

/// Picks the amounts of the entries of that type.
fn pick_amounts(entries: &Vec<CashEntry>, entry_type: &str) -> (r: Vec<Amount>)
    ensures
        r@ == amounts_of(entries@, entry_type@),
{
    let mut r: Vec<Amount> = Vec::new();
    let mut i: usize = 0;
    assert(r@ =~= amounts_of(entries@.take(0), entry_type@));
    while i < entries.len()
        invariant
            i <= entries@.len(),
            r@ == amounts_of(entries@.take(i as int), entry_type@),
        decreases entries@.len() - i,
    {
        assert(entries@.take(i + 1).drop_last() =~= entries@.take(i as int));
        if same(entries[i].entry_type.as_str(), entry_type) {
            r.push(entries[i].amount);
        }
        i = i + 1;
    }
    assert(entries@.take(entries@.len() as int) =~= entries@);
    r
}

/// Shows the cash of the user that could be read, with the amounts that came in
/// and those that went out.
pub fn cash_reply(found: Result<Vec<Option<CashEntry>>, String>) -> (r: Reply)
    ensures
        match found {
            Ok(rows) => r.status == Status::Fine && (r.body matches Body::Cash {
                entries,
                income,
                expense,
            } && entries@ == readable(rows@) && income@ == amounts_of(entries@, INCOME@)
                && expense@ == amounts_of(entries@, EXPENSE@)),
            Err(e) => r.refuses(Status::Internal, e@),
        },
{
    match found {
        Ok(rows) => {
            let entries = readable_rows(rows);
            let income = pick_amounts(&entries, INCOME);
            let expense = pick_amounts(&entries, EXPENSE);
            Reply { status: Status::Fine, body: Body::Cash { entries, income, expense } }
        },
        Err(e) => Reply::refusal(Status::Internal, e),
    }
}

/// Cash that was noted counts exactly once: it came in or went out, and not both.
pub proof fn law_cash_counts_once(entries: Seq<CashEntry>)
    requires
        forall|i: int| 0 <= i < entries.len() ==> is_entry_type((#[trigger] entries[i]).entry_type@),
    ensures
        amounts_of(entries, INCOME@).len() + amounts_of(entries, EXPENSE@).len() == entries.len(),
    decreases entries.len(),
{
    reveal_strlit("income");
    reveal_strlit("expense");
    if entries.len() > 0 {
        assert(is_entry_type(entries[entries.len() - 1].entry_type@));
        assert forall|i: int| 0 <= i < entries.len() - 1 implies is_entry_type(
            (#[trigger] entries.drop_last()[i]).entry_type@,
        ) by {
            assert(entries.drop_last()[i] == entries[i]);
        }
        law_cash_counts_once(entries.drop_last());
        assert(INCOME@.len() != EXPENSE@.len());
    }
}

/// Strikes out an entry of the user.
pub fn delete_cash_entry(id: i64, user: i64) -> (r: Statement)
    ensures
        r.deep_view() == owned(DELETE_ENTRY@, id, user),
{
    of_owner(DELETE_ENTRY, id, user)
}

/// Reports how many entries were struck out: none means that the user had no such
/// entry.
pub fn cash_entry_deleted(deleted: Result<usize, String>) -> (r: Reply)
    ensures
        match deleted {
            Ok(n) => if n == 0 {
                r.refuses(Status::NotFound, "Entry not found"@)
            } else {
                r.reports(Status::Fine, "Deleted"@)
            },
            Err(e) => r.refuses(Status::Internal, e@),
        },
{
    match deleted {
        Ok(n) => if n == 0 {
            Reply::refusal(Status::NotFound, "Entry not found".to_string())
        } else {
            Reply::report(Status::Fine, "Deleted".to_string())
        },
        Err(e) => Reply::refusal(Status::Internal, e),
    }
}

} // verus!
