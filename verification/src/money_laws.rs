//! What the summary, the cash and the uploads show.

use vstd::prelude::*;
use vstd::utf8::encode_utf8;

use crate::amount::Amount;
use crate::cash::{
    amounts_of, is_entry_type, objection, CashEntry, CashEntryRequest, EXPENSE, INCOME,
};
use crate::store::readable;
use crate::summary::{
    big_line, big_lines, category_line, category_lines, merchant_line, merchant_lines, month_line,
    month_lines, run_together, shortened, summary, totals_line, BigRow, CategoryRow, MerchantRow,
    MonthRow, Totals, NO_TRANSACTIONS,
};
use crate::text::{cuts_at, decimal, left_aligned, right_aligned};
use crate::upload::{upload_message, DEFAULT_NAME, OTHER_FORMATS};

verus! {

/// The summary: its heading, the totals, and then the months, the categories, the
/// merchants and the largest transactions, each under a heading of its own.
pub proof fn law_summary(
    totals: Totals,
    months: Seq<MonthRow>,
    categories: Seq<CategoryRow>,
    merchants: Seq<MerchantRow>,
    biggest: Seq<BigRow>,
)
    ensures
        summary(totals, months, categories, merchants, biggest) == "Spending Summary: \n\n"@ + (
        "Total Transactions: "@ + decimal(totals.count as int) + "   Total Spent: $"@
            + totals.spent@ + "\n\n"@) + "Spending by month:\n"@ + run_together(
            month_lines(months),
        ) + "\nSpending by category:\n"@ + run_together(category_lines(categories))
            + "\nTop 5 merchants:\n"@ + run_together(merchant_lines(merchants))
            + "\nBiggest transactions:\n"@ + run_together(big_lines(biggest)),
        NO_TRANSACTIONS@ == "No transactions found. Upload a statement to get started."@,
        totals_line(totals) == "Total Transactions: "@ + decimal(totals.count as int)
            + "   Total Spent: $"@ + totals.spent@ + "\n\n"@,
{
}

/// Every row has a line of its own, in its place.
pub proof fn law_one_line_each(
    months: Seq<MonthRow>,
    categories: Seq<CategoryRow>,
    merchants: Seq<MerchantRow>,
    biggest: Seq<BigRow>,
)
    ensures
        month_lines(months).len() == months.len(),
        forall|i: int|
            0 <= i < months.len() ==> #[trigger] month_lines(months)[i] == month_line(months[i]),
        category_lines(categories).len() == categories.len(),
        forall|i: int|
            0 <= i < categories.len() ==> #[trigger] category_lines(categories)[i]
                == category_line(categories[i]),
        merchant_lines(merchants).len() == merchants.len(),
        forall|i: int|
            0 <= i < merchants.len() ==> #[trigger] merchant_lines(merchants)[i] == merchant_line(
                merchants[i],
            ),
        big_lines(biggest).len() == biggest.len(),
        forall|i: int|
            0 <= i < biggest.len() ==> #[trigger] big_lines(biggest)[i] == big_line(biggest[i]),
{
}

/// What the lines say: a month, its count and its total; a category, its count, its
/// total and its share; a merchant, the visits and the total; and a day, an amount,
/// a category and a description.
pub proof fn law_lines(m: MonthRow, c: CategoryRow, s: MerchantRow, b: BigRow)
    ensures
        month_line(m) == "  "@ + m.month@ + ": "@ + decimal(m.count as int)
            + " transactions  $"@ + m.total@ + "\n"@,
        category_line(c) == "  "@ + left_aligned(c.category@, 20) + " "@ + right_aligned(
            decimal(c.count as int),
            3,
        ) + " transactions  $"@ + right_aligned(c.total@, 8) + "  ("@ + c.share@ + "%)\n"@,
        merchant_line(s) == "  "@ + left_aligned(shortened(s.description@, 40), 40) + "  "@
            + decimal(s.visits as int) + "x  $"@ + s.total@ + "\n"@,
        big_line(b) == "  "@ + b.date@ + "  $"@ + right_aligned(b.amount@, 8) + "  "@
            + left_aligned(b.category@, 15) + "  "@ + shortened(b.description@, 35) + "\n"@,
{
}

/// Lines run together are the first ones and then the last ones, with nothing
/// between.
pub proof fn law_run_together(a: Seq<Seq<char>>, b: Seq<Seq<char>>, line: Seq<char>)
    ensures
        run_together(a + b) == run_together(a) + run_together(b),
        run_together(seq![line]) == line,
        run_together(Seq::<Seq<char>>::empty()).len() == 0,
    decreases b.len(),
{
    assert(seq![line].drop_last() =~= Seq::<Seq<char>>::empty());
    assert(run_together(seq![line].drop_last()) =~= Seq::<char>::empty());
    assert(run_together(seq![line]) =~= line);
    if b.len() == 0 {
        assert(a + b =~= a);
        assert(run_together(a) + run_together(b) =~= run_together(a));
    } else {
        law_run_together(a, b.drop_last(), line);
        assert((a + b).drop_last() =~= a + b.drop_last());
        assert(run_together(a + b) =~= run_together(a) + run_together(b));
    }
}

/// A text is cut after the given number of bytes, where it is longer.
pub proof fn law_shortened(s: Seq<char>, limit: int)
    requires
        0 <= limit,
    ensures
        encode_utf8(s).len() <= limit ==> shortened(s, limit) == s,
        encode_utf8(s).len() > limit && cuts_at(s, limit) ==> encode_utf8(shortened(s, limit))
            == encode_utf8(s).subrange(0, limit),
{
    if encode_utf8(s).len() > limit && cuts_at(s, limit) {
        crate::text_laws::law_bytes(s, limit);
    }
}

/// Rows that could be read are kept in their order, and no others.
pub proof fn law_readable<T>(a: Seq<Option<T>>, b: Seq<Option<T>>, row: T)
    ensures
        readable(a + b) == readable(a) + readable(b),
        readable(seq![Some(row)]) == seq![row],
        readable(seq![None::<T>]).len() == 0,
        readable(Seq::<Option<T>>::empty()).len() == 0,
    decreases b.len(),
{
    reveal_with_fuel(readable, 2);
    assert(seq![Some(row)].drop_last() =~= Seq::<Option<T>>::empty());
    assert(readable(seq![Some(row)]) =~= seq![row]);
    if b.len() == 0 {
        assert(a + b =~= a);
        assert(readable(a) + readable(b) =~= readable(a));
    } else {
        law_readable(a, b.drop_last(), row);
        assert((a + b).drop_last() =~= a + b.drop_last());
        assert(readable(a + b) =~= readable(a) + readable(b));
    }
}

/// Cash is refused where it is neither income nor expense, and else where its
/// amount is zero or less: where its bits are those of zero or of a number with the
/// sign.
pub proof fn law_objection(request: CashEntryRequest)
    ensures
        request.entry_type@ != "income"@ && request.entry_type@ != "expense"@ ==> objection(request)
            == Some("entry_type must be 'income' or 'expense'"@),
        request.entry_type@ == "income"@ || request.entry_type@ == "expense"@ ==> objection(request)
            == if request.amount.bits == 0 || 0x8000_0000_0000_0000 <= request.amount.bits
            <= 0xfff0_0000_0000_0000 {
            Some("amount must be positive"@)
        } else {
            None
        },
        INCOME@ == "income"@,
        EXPENSE@ == "expense"@,
        is_entry_type(request.entry_type@) <==> request.entry_type@ == "income"@
            || request.entry_type@ == "expense"@,
{
}

/// The amounts of a type are those of the entries of that type, in their order.
pub proof fn law_amounts_of(
    a: Seq<CashEntry>,
    b: Seq<CashEntry>,
    entry: CashEntry,
    entry_type: Seq<char>,
)
    ensures
        amounts_of(a + b, entry_type) == amounts_of(a, entry_type) + amounts_of(b, entry_type),
        entry.entry_type@ == entry_type ==> amounts_of(seq![entry], entry_type) == seq![
            entry.amount,
        ],
        entry.entry_type@ != entry_type ==> amounts_of(seq![entry], entry_type).len() == 0,
        amounts_of(Seq::<CashEntry>::empty(), entry_type).len() == 0,
    decreases b.len(),
{
    assert(seq![entry].drop_last() =~= Seq::<CashEntry>::empty());
    assert(amounts_of(seq![entry].drop_last(), entry_type) =~= Seq::<Amount>::empty());
    if b.len() == 0 {
        assert(a + b =~= a);
        assert(amounts_of(a, entry_type) + amounts_of(b, entry_type) =~= amounts_of(a, entry_type));
    } else {
        law_amounts_of(a, b.drop_last(), entry, entry_type);
        assert((a + b).drop_last() =~= a + b.drop_last());
        assert(amounts_of(a + b, entry_type) =~= amounts_of(a, entry_type) + amounts_of(
            b,
            entry_type,
        ));
    }
}

/// How amounts compare with zero, and what their absolute value is, in their bits:
/// the first is the sign, and above the rest of infinity stands what is no number.
pub proof fn law_amounts(a: Amount)
    ensures
        a.at_most_zero() <==> a.bits == 0 || 0x8000_0000_0000_0000 <= a.bits
            <= 0xfff0_0000_0000_0000,
        a.at_least_zero() <==> a.bits <= 0x7ff0_0000_0000_0000 || a.bits == 0x8000_0000_0000_0000,
        a.absolute().bits == if a.bits >= 0x8000_0000_0000_0000 {
            a.bits - 0x8000_0000_0000_0000
        } else {
            a.bits as int
        },
        Amount::zero().bits == 0,
        a.deep_view() == a,
{
}

/// How an upload is reported.
pub proof fn law_upload_message(name: Seq<char>, count: int, assistant: Seq<char>)
    ensures
        upload_message(name, 0, assistant) == "No transactions found in "@ + name
            + ". If this isn't an Apple Card or Discover statement, \
     make sure ANTHROPIC_API_KEY is set — "@ + assistant + " is used to parse other formats."@,
        count != 0 ==> upload_message(name, count, assistant) == "Successfully processed "@
            + decimal(count) + " transactions from "@ + name,
        DEFAULT_NAME@ == "upload.pdf"@,
        OTHER_FORMATS@ == ". If this isn't an Apple Card or Discover statement, \
     make sure ANTHROPIC_API_KEY is set — "@,
{
}

} // verus!
