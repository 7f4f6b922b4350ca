//! What a user has spent: the summary, the analytics and the transactions.

use vstd::prelude::*;
use vstd::utf8::encode_utf8;

use crate::amount::Amount;
use crate::record::Record;
use crate::reply::{Body, Reply, Status};
use crate::store::{
    for_user, for_user_twice, of_user, of_user_twice, readable, readable_rows, Statement,
    StatementView,
};
use crate::text::{
    cuts_at, decimal, decimal_text, first_bytes, left_aligned, occurs_at, occurs_in,
    push_left_aligned, push_right_aligned, right_aligned, take_bytes,
};

verus! {

/// How many transactions a user has, and what they come to.
pub const TOTALS: &'static str = "SELECT COUNT(*), ROUND(COALESCE(SUM(amount), 0.0), 2)
 FROM transactions
 WHERE ";

/// The transactions of a user, month by month.
pub const BY_MONTH: &'static str = "SELECT substr(date, 7, 4) || '-' || substr(date, 1, 2) as month,
        COUNT(*) as count, ROUND(SUM(amount), 2) as total
 FROM transactions
 WHERE ";

/// What follows the condition of [`BY_MONTH`].
pub const BY_MONTH_END: &'static str = "
 GROUP BY month ORDER BY month ASC";

/// The transactions of a user, category by category.
pub const BY_CATEGORY: &'static str = "SELECT category,
        COUNT(*) as count,
        ROUND(SUM(amount), 2) as total,
        ROUND(SUM(amount) * 100.0 / (
            SELECT COALESCE(SUM(amount), 1) FROM transactions
            WHERE ";

/// What stands between the two conditions of [`BY_CATEGORY`].
pub const BY_CATEGORY_MIDDLE: &'static str = "
        ), 1) as pct
 FROM transactions
 WHERE ";

/// What follows the conditions of [`BY_CATEGORY`].
pub const BY_CATEGORY_END: &'static str = "
 GROUP BY category ORDER BY total DESC";

/// The merchants that a user has spent most at.
pub const TOP_MERCHANTS: &'static str = "SELECT description, COUNT(*) as visits, ROUND(SUM(amount), 2) as total
 FROM transactions
 WHERE ";

/// What follows the condition of [`TOP_MERCHANTS`].
pub const TOP_MERCHANTS_END: &'static str = "
 GROUP BY description ORDER BY total DESC LIMIT 5";

/// The largest transactions of a user.
pub const BIGGEST: &'static str = "SELECT date, description, amount, category
 FROM transactions
 WHERE ";

/// What follows the condition of [`BIGGEST`].
pub const BIGGEST_END: &'static str = "
 ORDER BY amount DESC LIMIT 5";

/// What a user spends in a month on average.
pub const MONTHLY_AVERAGE: &'static str = "SELECT COALESCE(AVG(monthly_total), 0.0) FROM (
     SELECT SUM(amount) as monthly_total
     FROM transactions
     WHERE ";

/// What follows the condition of [`MONTHLY_AVERAGE`].
pub const MONTHLY_AVERAGE_END: &'static str = "
     GROUP BY substr(date, 7, 4) || '-' || substr(date, 1, 2)
 )";

/// The transactions of a user.
pub const LIST_TRANSACTIONS: &'static str = "SELECT date, description, amount, category FROM transactions
 WHERE ";

/// What follows the condition of [`LIST_TRANSACTIONS`].
pub const LIST_TRANSACTIONS_END: &'static str = " ORDER BY date DESC";

/// The condition that a transaction is spending: payments to card issuers are not.
pub const SPENDING: &'static str = "category != 'payment' AND ";

/// A statement about what the user has spent: the conditions stand between the
/// two parts.
pub open spec fn spending(head: Seq<char>, tail: Seq<char>, user: i64) -> StatementView {
    for_user(head + SPENDING@, tail, user)
}

/// A statement that asks twice for what the user has spent: the conditions stand
/// between the three parts.
pub open spec fn spending_twice(
    head: Seq<char>,
    middle: Seq<char>,
    tail: Seq<char>,
    user: i64,
) -> StatementView {
    for_user_twice(head + SPENDING@, middle + SPENDING@, tail, user)
}

fn of_spending(head: &str, tail: &str, user: i64) -> (r: Statement)
    ensures
        r.deep_view() == spending(head@, tail@, user),
{
    let mut front: String = head.to_string();
    front.append(SPENDING);
    of_user(front.as_str(), tail, user)
}

fn of_spending_twice(head: &str, middle: &str, tail: &str, user: i64) -> (r: Statement)
    ensures
        r.deep_view() == spending_twice(head@, middle@, tail@, user),
{
    let mut front: String = head.to_string();
    front.append(SPENDING);
    let mut between: String = middle.to_string();
    between.append(SPENDING);
    of_user_twice(front.as_str(), between.as_str(), tail, user)
}

/// The text of every statement that is made about the user's spending holds the
/// condition that leaves payments out, whatever stands around it.
pub proof fn law_spending_queries_hold_the_condition(
    head: Seq<char>,
    middle: Seq<char>,
    tail: Seq<char>,
    user: i64,
)
    ensures
        occurs_in(spending(head, tail, user).sql, "category != 'payment'"@),
        occurs_in(spending_twice(head, middle, tail, user).sql, "category != 'payment'"@),
{
    reveal_strlit("category != 'payment' AND ");
    reveal_strlit("category != 'payment'");
    let part = "category != 'payment'"@;
    let from = head.len() as int;
    let to = from + part.len();
    let once = spending(head, tail, user).sql;
    assert(once.subrange(from, to) =~= part);
    assert(occurs_at(once, part, from));
    let twice = spending_twice(head, middle, tail, user).sql;
    assert(twice.subrange(from, to) =~= part);
    assert(occurs_at(twice, part, from));
}

/// What is asked for a summary.
pub struct SummaryQueries {
    pub totals: Statement,
    pub months: Statement,
    pub categories: Statement,
    pub merchants: Statement,
    pub biggest: Statement,
}

/// The statements that ask for what the summary of the user is made of.
pub open spec fn summary_statements(user: i64) -> Seq<StatementView> {
    seq![
        spending(TOTALS@, ""@, user),
        spending(BY_MONTH@, BY_MONTH_END@, user),
        spending_twice(BY_CATEGORY@, BY_CATEGORY_MIDDLE@, BY_CATEGORY_END@, user),
        spending(TOP_MERCHANTS@, TOP_MERCHANTS_END@, user),
        spending(BIGGEST@, BIGGEST_END@, user),
    ]
}

/// Asks for what the summary of the user is made of.
pub fn summary_queries(user: i64) -> (r: SummaryQueries)
    ensures
        r.totals.deep_view() == summary_statements(user)[0],
        r.months.deep_view() == summary_statements(user)[1],
        r.categories.deep_view() == summary_statements(user)[2],
        r.merchants.deep_view() == summary_statements(user)[3],
        r.biggest.deep_view() == summary_statements(user)[4],
{
    SummaryQueries {
        totals: of_spending(TOTALS, "", user),
        months: of_spending(BY_MONTH, BY_MONTH_END, user),
        categories: of_spending_twice(BY_CATEGORY, BY_CATEGORY_MIDDLE, BY_CATEGORY_END, user),
        merchants: of_spending(TOP_MERCHANTS, TOP_MERCHANTS_END, user),
        biggest: of_spending(BIGGEST, BIGGEST_END, user),
    }
}

/// How many transactions there are, and what they come to, in dollars and cents.
pub struct Totals {
    pub count: i64,
    pub spent: String,
}

/// The transactions of a month, and what they come to, in dollars and cents.
pub struct MonthRow {
    pub month: String,
    pub count: i64,
    pub total: String,
}

/// The transactions of a category, what they come to, in dollars and cents, and
/// their share of everything, in per cent with one decimal.
pub struct CategoryRow {
    pub category: String,
    pub count: i64,
    pub total: String,
    pub share: String,
}

/// The transactions with a merchant, and what they come to, in dollars and cents.
pub struct MerchantRow {
    pub description: String,
    pub visits: i64,
    pub total: String,
}

/// A transaction, its amount in dollars and cents.
pub struct BigRow {
    pub date: String,
    pub description: String,
    pub amount: String,
    pub category: String,
}

/// What a user without transactions is told.
pub const NO_TRANSACTIONS: &'static str = "No transactions found. Upload a statement to get started.";

/// The text, cut off after that many bytes.
pub open spec fn shortened(s: Seq<char>, limit: int) -> Seq<char> {
    if encode_utf8(s).len() > limit {
        first_bytes(s, limit)
    } else {
        s
    }
}

/// The text can be cut off after that many bytes: no character goes across.
pub open spec fn shortens(s: Seq<char>, limit: int) -> bool {
    encode_utf8(s).len() > limit ==> cuts_at(s, limit)
}

/// Cuts the text off after that many bytes.
fn shorten(s: &str, limit: usize) -> (r: String)
    requires
        shortens(s@, limit as int),
    ensures
        r@ == shortened(s@, limit as int),
{
    if s.as_bytes().len() > limit {
        take_bytes(s, limit)
    } else {
        s.to_string()
    }
}

/// The line of the totals.
pub open spec fn totals_line(row: Totals) -> Seq<char> {
    "Total Transactions: "@ + decimal(row.count as int) + "   Total Spent: $"@ + row.spent@
        + "\n\n"@
}

/// The line of a month.
pub open spec fn month_line(row: MonthRow) -> Seq<char> {
    "  "@ + row.month@ + ": "@ + decimal(row.count as int) + " transactions  $"@ + row.total@
        + "\n"@
}

/// The line of a category.
pub open spec fn category_line(row: CategoryRow) -> Seq<char> {
    "  "@ + left_aligned(row.category@, 20) + " "@ + right_aligned(decimal(row.count as int), 3)
        + " transactions  $"@ + right_aligned(row.total@, 8) + "  ("@ + row.share@ + "%)\n"@
}

/// The line of a merchant.
pub open spec fn merchant_line(row: MerchantRow) -> Seq<char> {
    "  "@ + left_aligned(shortened(row.description@, 40), 40) + "  "@ + decimal(row.visits as int)
        + "x  $"@ + row.total@ + "\n"@
}

/// The line of a large transaction.
pub open spec fn big_line(row: BigRow) -> Seq<char> {
    "  "@ + row.date@ + "  $"@ + right_aligned(row.amount@, 8) + "  "@ + left_aligned(
        row.category@,
        15,
    ) + "  "@ + shortened(row.description@, 35) + "\n"@
}

/// The lines, one after the other.
pub open spec fn run_together(lines: Seq<Seq<char>>) -> Seq<char>
    decreases lines.len(),
{
    if lines.len() == 0 {
        Seq::<char>::empty()
    } else {
        run_together(lines.drop_last()) + lines.last()
    }
}

proof fn lemma_next_line(lines: Seq<Seq<char>>, i: int)
    requires
        0 <= i < lines.len(),
    ensures
        run_together(lines.take(i + 1)) == run_together(lines.take(i)) + lines[i],
{
    assert(lines.take(i + 1).drop_last() =~= lines.take(i));
}

/// The lines of the months.
pub open spec fn month_lines(rows: Seq<MonthRow>) -> Seq<Seq<char>> {
    Seq::new(rows.len(), |i: int| month_line(rows[i]))
}

/// The lines of the categories.
pub open spec fn category_lines(rows: Seq<CategoryRow>) -> Seq<Seq<char>> {
    Seq::new(rows.len(), |i: int| category_line(rows[i]))
}

/// The lines of the merchants.
pub open spec fn merchant_lines(rows: Seq<MerchantRow>) -> Seq<Seq<char>> {
    Seq::new(rows.len(), |i: int| merchant_line(rows[i]))
}

/// The lines of the large transactions.
pub open spec fn big_lines(rows: Seq<BigRow>) -> Seq<Seq<char>> {
    Seq::new(rows.len(), |i: int| big_line(rows[i]))
}

fn push_totals(r: &mut String, row: &Totals)
    ensures
        final(r)@ == old(r)@ + totals_line(*row),
{
    r.append("Total Transactions: ");
    r.append(decimal_text(row.count).as_str());
    r.append("   Total Spent: $");
    r.append(row.spent.as_str());
    r.append("\n\n");
    assert(r@ =~= old(r)@ + totals_line(*row));
}

fn push_month(r: &mut String, row: &MonthRow)
    ensures
        final(r)@ == old(r)@ + month_line(*row),
{
    r.append("  ");
    r.append(row.month.as_str());
    r.append(": ");
    r.append(decimal_text(row.count).as_str());
    r.append(" transactions  $");
    r.append(row.total.as_str());
    r.append("\n");
    assert(r@ =~= old(r)@ + month_line(*row));
}

fn push_category(r: &mut String, row: &CategoryRow)
    ensures
        final(r)@ == old(r)@ + category_line(*row),
{
    r.append("  ");
    push_left_aligned(r, row.category.as_str(), 20);
    r.append(" ");
    push_right_aligned(r, decimal_text(row.count).as_str(), 3);
    r.append(" transactions  $");
    push_right_aligned(r, row.total.as_str(), 8);
    r.append("  (");
    r.append(row.share.as_str());
    r.append("%)\n");
    assert(r@ =~= old(r)@ + category_line(*row));
}

fn push_merchant(r: &mut String, row: &MerchantRow)
    requires
        shortens(row.description@, 40),
    ensures
        final(r)@ == old(r)@ + merchant_line(*row),
{
    r.append("  ");
    push_left_aligned(r, shorten(row.description.as_str(), 40).as_str(), 40);
    r.append("  ");
    r.append(decimal_text(row.visits).as_str());
    r.append("x  $");
    r.append(row.total.as_str());
    r.append("\n");
    assert(r@ =~= old(r)@ + merchant_line(*row));
}

fn push_big(r: &mut String, row: &BigRow)
    requires
        shortens(row.description@, 35),
    ensures
        final(r)@ == old(r)@ + big_line(*row),
{
    r.append("  ");
    r.append(row.date.as_str());
    r.append("  $");
    push_right_aligned(r, row.amount.as_str(), 8);
    r.append("  ");
    push_left_aligned(r, row.category.as_str(), 15);
    r.append("  ");
    r.append(shorten(row.description.as_str(), 35).as_str());
    r.append("\n");
    assert(r@ =~= old(r)@ + big_line(*row));
}

fn push_months(r: &mut String, rows: &Vec<MonthRow>)
    ensures
        final(r)@ == old(r)@ + run_together(month_lines(rows@)),
{
    let ghost start = r@;
    let ghost lines = month_lines(rows@);
    let mut i: usize = 0;
    assert(start + run_together(lines.take(0)) =~= start);
    while i < rows.len()
        invariant
            i <= rows@.len(),
            lines == month_lines(rows@),
            r@ == start + run_together(lines.take(i as int)),
        decreases rows@.len() - i,
    {
        push_month(r, &rows[i]);
        proof {
            lemma_next_line(lines, i as int);
        }
        i = i + 1;
        assert(r@ =~= start + run_together(lines.take(i as int)));
    }
    assert(lines.take(rows@.len() as int) =~= lines);
}

fn push_categories(r: &mut String, rows: &Vec<CategoryRow>)
    ensures
        final(r)@ == old(r)@ + run_together(category_lines(rows@)),
{
    let ghost start = r@;
    let ghost lines = category_lines(rows@);
    let mut i: usize = 0;
    assert(start + run_together(lines.take(0)) =~= start);
    while i < rows.len()
        invariant
            i <= rows@.len(),
            lines == category_lines(rows@),
            r@ == start + run_together(lines.take(i as int)),
        decreases rows@.len() - i,
    {
        push_category(r, &rows[i]);
        proof {
            lemma_next_line(lines, i as int);
        }
        i = i + 1;
        assert(r@ =~= start + run_together(lines.take(i as int)));
    }
    assert(lines.take(rows@.len() as int) =~= lines);
}

fn push_merchants(r: &mut String, rows: &Vec<MerchantRow>)
    requires
        merchants_shorten(rows@),
    ensures
        final(r)@ == old(r)@ + run_together(merchant_lines(rows@)),
{
    let ghost start = r@;
    let ghost lines = merchant_lines(rows@);
    let mut i: usize = 0;
    assert(start + run_together(lines.take(0)) =~= start);
    while i < rows.len()
        invariant
            i <= rows@.len(),
            merchants_shorten(rows@),
            lines == merchant_lines(rows@),
            r@ == start + run_together(lines.take(i as int)),
        decreases rows@.len() - i,
    {
        push_merchant(r, &rows[i]);
        proof {
            lemma_next_line(lines, i as int);
        }
        i = i + 1;
        assert(r@ =~= start + run_together(lines.take(i as int)));
    }
    assert(lines.take(rows@.len() as int) =~= lines);
}

fn push_biggest(r: &mut String, rows: &Vec<BigRow>)
    requires
        biggest_shorten(rows@),
    ensures
        final(r)@ == old(r)@ + run_together(big_lines(rows@)),
{
    let ghost start = r@;
    let ghost lines = big_lines(rows@);
    let mut i: usize = 0;
    assert(start + run_together(lines.take(0)) =~= start);
    while i < rows.len()
        invariant
            i <= rows@.len(),
            biggest_shorten(rows@),
            lines == big_lines(rows@),
            r@ == start + run_together(lines.take(i as int)),
        decreases rows@.len() - i,
    {
        push_big(r, &rows[i]);
        proof {
            lemma_next_line(lines, i as int);
        }
        i = i + 1;
        assert(r@ =~= start + run_together(lines.take(i as int)));
    }
    assert(lines.take(rows@.len() as int) =~= lines);
}

/// The merchants' names can be cut off.
pub open spec fn merchants_shorten(rows: Seq<MerchantRow>) -> bool {
    forall|i: int| 0 <= i < rows.len() ==> shortens((#[trigger] rows[i]).description@, 40)
}

/// The descriptions of the large transactions can be cut off.
pub open spec fn biggest_shorten(rows: Seq<BigRow>) -> bool {
    forall|i: int| 0 <= i < rows.len() ==> shortens((#[trigger] rows[i]).description@, 35)
}

/// The summary of what was spent.
pub open spec fn summary(
    totals: Totals,
    months: Seq<MonthRow>,
    categories: Seq<CategoryRow>,
    merchants: Seq<MerchantRow>,
    biggest: Seq<BigRow>,
) -> Seq<char> {
    "Spending Summary: \n\n"@ + totals_line(totals) + "Spending by month:\n"@ + run_together(
        month_lines(months),
    ) + "\nSpending by category:\n"@ + run_together(category_lines(categories))
        + "\nTop 5 merchants:\n"@ + run_together(merchant_lines(merchants))
        + "\nBiggest transactions:\n"@ + run_together(big_lines(biggest))
}

/// Builds the summary from what was found of the user's transactions, or reports
/// the first question that was not answered. Without transactions there is
/// nothing to sum up, and only the totals count.
pub fn build_summary(
    totals: Result<Totals, String>,
    months: Result<Vec<MonthRow>, String>,
    categories: Result<Vec<CategoryRow>, String>,
    merchants: Result<Vec<MerchantRow>, String>,
    biggest: Result<Vec<BigRow>, String>,
) -> (r: Result<String, String>)
    requires
        totals is Ok && totals->Ok_0.count != 0 && months is Ok && categories is Ok && merchants
            is Ok ==> {
            &&& merchants_shorten(merchants->Ok_0@)
            &&& biggest matches Ok(rows) ==> biggest_shorten(rows@)
        },
    ensures
        match (totals, months, categories, merchants, biggest) {
            (Err(e), _, _, _, _) => r matches Err(reason) && reason@ == e@,
            (Ok(t), months, categories, merchants, biggest) => if t.count == 0 {
                r matches Ok(text) && text@ == NO_TRANSACTIONS@
            } else {
                match (months, categories, merchants, biggest) {
                    (Err(e), _, _, _) => r matches Err(reason) && reason@ == e@,
                    (_, Err(e), _, _) => r matches Err(reason) && reason@ == e@,
                    (_, _, Err(e), _) => r matches Err(reason) && reason@ == e@,
                    (_, _, _, Err(e)) => r matches Err(reason) && reason@ == e@,
                    (Ok(m), Ok(c), Ok(s), Ok(b)) => r matches Ok(text) && text@ == summary(
                        t,
                        m@,
                        c@,
                        s@,
                        b@,
                    ),
                }
            },
        },
{
    let totals = match totals {
        Ok(totals) => totals,
        Err(e) => {
            return Err(e);
        },
    };
    if totals.count == 0 {
        return Ok(NO_TRANSACTIONS.to_string());
    }
    let months = match months {
        Ok(rows) => rows,
        Err(e) => {
            return Err(e);
        },
    };
    let categories = match categories {
        Ok(rows) => rows,
        Err(e) => {
            return Err(e);
        },
    };
    let merchants = match merchants {
        Ok(rows) => rows,
        Err(e) => {
            return Err(e);
        },
    };
    let biggest = match biggest {
        Ok(rows) => rows,
        Err(e) => {
            return Err(e);
        },
    };
    let mut r: String = "Spending Summary: \n\n".to_string();
    push_totals(&mut r, &totals);
    r.append("Spending by month:\n");
    push_months(&mut r, &months);
    r.append("\nSpending by category:\n");
    push_categories(&mut r, &categories);
    r.append("\nTop 5 merchants:\n");
    push_merchants(&mut r, &merchants);
    r.append("\nBiggest transactions:\n");
    push_biggest(&mut r, &biggest);
    assert(r@ =~= summary(totals, months@, categories@, merchants@, biggest@));
    Ok(r)
}

/// Shows the summary.
pub fn summary_reply(summary: Result<String, String>) -> (r: Reply)
    ensures
        match summary {
            Ok(text) => r.status == Status::Fine && (r.body matches Body::Summary(t) && t@
                == text@),
            Err(e) => r.refuses(Status::Internal, e@),
        },
{
    match summary {
        Ok(text) => Reply { status: Status::Fine, body: Body::Summary(text) },
        Err(e) => Reply::refusal(Status::Internal, e),
    }
}

/// What the assistant is told of the user's spending.
pub fn chat_context(summary: Result<String, String>) -> (r: String)
    ensures
        r@ == match summary {
            Ok(text) => text@,
            Err(_) => "No transaction data available."@,
        },
{
    match summary {
        Ok(text) => text,
        Err(_) => "No transaction data available.".to_string(),
    }
}

/// One of the largest expenses.
pub struct TopExpense {
    pub date: String,
    pub description: String,
    pub amount: Amount,
    pub category: String,
}

/// Asks for the monthly average and for the largest expenses of the user.
pub fn analytics_queries(user: i64) -> (r: (Statement, Statement))
    ensures
        r.0.deep_view() == spending(MONTHLY_AVERAGE@, MONTHLY_AVERAGE_END@, user),
        r.1.deep_view() == spending(BIGGEST@, BIGGEST_END@, user),
{
    (of_spending(MONTHLY_AVERAGE, MONTHLY_AVERAGE_END, user), of_spending(BIGGEST, BIGGEST_END, user))
}

/// Shows the monthly average, zero where it was not found, and those of the
/// largest expenses that could be read.
pub fn analytics_reply(average: Option<Amount>, found: Vec<Option<TopExpense>>) -> (r: Reply)
    ensures
        r.status == Status::Fine,
        r.body matches Body::Analytics { monthly_average, top_expenses } && monthly_average == (
        match average {
            Some(amount) => amount,
            None => Amount::zero(),
        }) && top_expenses@ == readable(found@),
{
    let monthly_average: Amount = match average {
        Some(amount) => amount,
        None => Amount { bits: 0 },
    };
    let top_expenses = readable_rows(found);
    Reply { status: Status::Fine, body: Body::Analytics { monthly_average, top_expenses } }
}

/// Asks for the transactions of the user.
pub fn list_transactions(user: i64) -> (r: Statement)
    ensures
        r.deep_view() == for_user(LIST_TRANSACTIONS@, LIST_TRANSACTIONS_END@, user),
{
    of_user(LIST_TRANSACTIONS, LIST_TRANSACTIONS_END, user)
}

/// Shows the transactions of the user that could be read.
pub fn transactions_reply(found: Result<Vec<Option<Record>>, String>) -> (r: Reply)
    ensures
        match found {
            Ok(rows) => r.status == Status::Fine && (r.body matches Body::Transactions(shown)
                && shown@ == readable(rows@)),
            Err(e) => r.refuses(Status::Internal, e@),
        },
{
    match found {
        Ok(rows) => Reply { status: Status::Fine, body: Body::Transactions(readable_rows(rows)) },
        Err(e) => Reply::refusal(Status::Internal, e),
    }
}

} // verus!
