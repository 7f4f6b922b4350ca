//! What is recorded of the lines of a statement.

use vstd::prelude::*;
use vstd::utf8::encode_utf8;

use crate::amount::Amount;
use crate::categories::category_of;
use crate::outside::{lowercase, regex_captures};
use crate::pdf::{
    apple_list, are_lines, discover_list, found_lines, long_date, APPLE_CARD, DISCOVER,
};
use crate::record::{
    all_completed, all_recorded, collected, completed, expenses, fails_first, outcome, outcomes,
    recorded, Line, LineView, Record, RecordView,
};
use crate::text::{lemma_split_around, single_spaced, split_on, trimmed, without};

verus! {

/// A record of a line has the day, the description and the amount of the line, and
/// the category of its description; a bank's name it has not.
pub proof fn law_recorded(line: LineView, amount: Amount)
    ensures
        recorded(line, amount).date == line.date,
        recorded(line, amount).amount == amount,
        recorded(line, amount).description == line.description,
        recorded(line, amount).category == category_of(lowercase(line.description)),
        recorded(line, amount).teller_id is None,
{
}

/// Of one line, the record is made exactly where the amount was read and is above
/// zero, or no number: where its bits are neither those of zero nor those of a
/// number with the sign.
pub proof fn law_one_expense(line: LineView, amount: Option<Amount>)
    ensures
        match amount {
            None => expenses(seq![line], seq![amount]).len() == 0,
            Some(a) => if a.bits == 0 || 0x8000_0000_0000_0000 <= a.bits <= 0xfff0_0000_0000_0000 {
                expenses(seq![line], seq![amount]).len() == 0
            } else {
                expenses(seq![line], seq![amount]) == seq![
                    RecordView {
                        date: line.date,
                        amount: a,
                        description: line.description,
                        category: category_of(lowercase(line.description)),
                        teller_id: None,
                    },
                ]
            },
        },
        expenses(Seq::<LineView>::empty(), Seq::<Option<Amount>>::empty()).len() == 0,
{
    let lines = seq![line];
    let amounts = seq![amount];
    assert(lines.drop_last() =~= Seq::<LineView>::empty());
    assert(expenses(lines.drop_last(), amounts.drop_last()) =~= Seq::<RecordView>::empty());
}

/// The expenses of two lists of lines, one after the other, are the expenses of
/// each, one after the other: no line has a say in what is recorded of another.
pub proof fn law_expenses_of_two_lists(
    l1: Seq<LineView>,
    a1: Seq<Option<Amount>>,
    l2: Seq<LineView>,
    a2: Seq<Option<Amount>>,
)
    requires
        l1.len() == a1.len(),
        l2.len() == a2.len(),
    ensures
        expenses(l1 + l2, a1 + a2) == expenses(l1, a1) + expenses(l2, a2),
    decreases l2.len(),
{
    if l2.len() == 0 {
        assert(l1 + l2 =~= l1);
        assert(a1 + a2 =~= a1);
        assert(expenses(l1, a1) + expenses(l2, a2) =~= expenses(l1, a1));
    } else {
        law_expenses_of_two_lists(l1, a1, l2.drop_last(), a2.drop_last());
        assert((l1 + l2).drop_last() =~= l1 + l2.drop_last());
        assert((a1 + a2).drop_last() =~= a1 + a2.drop_last());
        assert(expenses(l1 + l2, a1 + a2) =~= expenses(l1, a1) + expenses(l2, a2));
    }
}

/// How many of the amounts were read and are above zero, or no number.
pub open spec fn spent(amounts: Seq<Option<Amount>>) -> int
    decreases amounts.len(),
{
    if amounts.len() == 0 {
        0
    } else {
        spent(amounts.drop_last()) + if amounts.last() matches Some(a) && a.bits != 0 && !(
        0x8000_0000_0000_0000 <= a.bits <= 0xfff0_0000_0000_0000) {
            1int
        } else {
            0
        }
    }
}

/// Every line that states an expense is recorded, and there are as many records as
/// there are such lines.
pub proof fn law_every_expense_is_recorded(lines: Seq<LineView>, amounts: Seq<Option<Amount>>)
    requires
        lines.len() == amounts.len(),
    ensures
        expenses(lines, amounts).len() == spent(amounts),
        forall|k: int|
            0 <= k < lines.len() && (#[trigger] amounts[k] matches Some(a) && a.bits != 0 && !(
            0x8000_0000_0000_0000 <= a.bits <= 0xfff0_0000_0000_0000)) ==> expenses(
                lines,
                amounts,
            ).contains(recorded(lines[k], amounts[k]->0)),
    decreases lines.len(),
{
    if lines.len() > 0 {
        let all = expenses(lines, amounts);
        let before = expenses(lines.drop_last(), amounts.drop_last());
        law_every_expense_is_recorded(lines.drop_last(), amounts.drop_last());
        assert forall|k: int|
            0 <= k < lines.len() && (#[trigger] amounts[k] matches Some(a) && a.bits != 0 && !(
            0x8000_0000_0000_0000 <= a.bits <= 0xfff0_0000_0000_0000)) implies all.contains(
            recorded(lines[k], amounts[k]->0),
        ) by {
            let record = recorded(lines[k], amounts[k]->0);
            if k < lines.len() - 1 {
                assert(amounts.drop_last()[k] == amounts[k]);
                assert(lines.drop_last()[k] == lines[k]);
                assert(before.contains(record));
                let i = choose|i: int| 0 <= i < before.len() && before[i] == record;
                assert(all[i] == record);
            } else {
                assert(all[all.len() - 1] == record);
            }
        }
    }
}

/// Every line is recorded in its place, whatever its sign, where all amounts were
/// read; else the first failure is reported, and nothing is recorded.
pub proof fn law_all_recorded(lines: Seq<LineView>, amounts: Seq<Result<Amount, Seq<char>>>)
    requires
        lines.len() == amounts.len(),
    ensures
        (forall|i: int| 0 <= i < amounts.len() ==> (#[trigger] amounts[i]) is Ok) ==> {
            &&& all_recorded(lines, amounts) is Ok
            &&& all_recorded(lines, amounts)->Ok_0.len() == lines.len()
            &&& forall|i: int|
                0 <= i < lines.len() ==> {
                    &&& (#[trigger] all_recorded(lines, amounts)->Ok_0[i]).date == lines[i].date
                    &&& all_recorded(lines, amounts)->Ok_0[i].amount == amounts[i]->Ok_0
                    &&& all_recorded(lines, amounts)->Ok_0[i].description == lines[i].description
                    &&& all_recorded(lines, amounts)->Ok_0[i].category == category_of(
                        lowercase(lines[i].description),
                    )
                    &&& all_recorded(lines, amounts)->Ok_0[i].teller_id is None
                }
        },
        forall|i: int|
            0 <= i < amounts.len() && (#[trigger] amounts[i]) is Err && (forall|j: int|
                0 <= j < i ==> (#[trigger] amounts[j]) is Ok) ==> all_recorded(lines, amounts)
                == Err::<Seq<RecordView>, Seq<char>>(amounts[i]->Err_0),
{
    law_collected(amounts);
}

/// All results are collected, in their order, where there is no failure; else the
/// first failure is.
pub proof fn law_collected<T>(v: Seq<Result<T, Seq<char>>>)
    ensures
        (forall|i: int| 0 <= i < v.len() ==> (#[trigger] v[i]) is Ok) ==> {
            &&& collected(v) is Ok
            &&& collected(v)->Ok_0.len() == v.len()
            &&& forall|i: int|
                0 <= i < v.len() ==> #[trigger] collected(v)->Ok_0[i] == v[i]->Ok_0
        },
        forall|i: int|
            0 <= i < v.len() && (#[trigger] v[i]) is Err && (forall|j: int|
                0 <= j < i ==> (#[trigger] v[j]) is Ok) ==> collected(v) == Err::<
                Seq<T>,
                Seq<char>,
            >(v[i]->Err_0),
{
    assert forall|i: int|
        0 <= i < v.len() && (#[trigger] v[i]) is Err && (forall|j: int|
            0 <= j < i ==> (#[trigger] v[j]) is Ok) implies collected(v) == Err::<
        Seq<T>,
        Seq<char>,
    >(v[i]->Err_0) by {
        assert(fails_first(v, i));
        let k = choose|k: int| fails_first(v, k);
        assert(k == i);
    }
}

/// A row keeps what it holds; only a missing category is filled in, with that of
/// the description.
pub proof fn law_completed(r: RecordView)
    ensures
        completed(r).date == r.date,
        completed(r).amount == r.amount,
        completed(r).description == r.description,
        completed(r).teller_id == r.teller_id,
        r.category.len() > 0 ==> completed(r).category == r.category,
        r.category.len() == 0 ==> completed(r).category == category_of(lowercase(r.description)),
{
}

/// Every row is completed in its place where all rows were read; else the first
/// failure is reported.
pub proof fn law_all_completed(rows: Seq<Result<RecordView, Seq<char>>>)
    ensures
        (forall|i: int| 0 <= i < rows.len() ==> (#[trigger] rows[i]) is Ok) ==> {
            &&& all_completed(rows) is Ok
            &&& all_completed(rows)->Ok_0.len() == rows.len()
            &&& forall|i: int|
                0 <= i < rows.len() ==> #[trigger] all_completed(rows)->Ok_0[i] == completed(
                    rows[i]->Ok_0,
                )
        },
        forall|i: int|
            0 <= i < rows.len() && (#[trigger] rows[i]) is Err && (forall|j: int|
                0 <= j < i ==> (#[trigger] rows[j]) is Ok) ==> all_completed(rows) == Err::<
                Seq<RecordView>,
                Seq<char>,
            >(rows[i]->Err_0),
{
    law_collected(rows);
}

/// What an attempt came to is what its value holds, or the text of its failure; and
/// of a list of attempts each came to that in its place.
pub proof fn law_outcomes<T: DeepView>(
    value: T,
    reason: String,
    attempts: Seq<Result<T, String>>,
    i: int,
)
    ensures
        outcome(Ok::<T, String>(value)) == Ok::<T::V, Seq<char>>(value.deep_view()),
        outcome(Err::<T, String>(reason)) == Err::<T::V, Seq<char>>(reason@),
        outcomes(attempts).len() == attempts.len(),
        0 <= i < attempts.len() ==> outcomes(attempts)[i] == outcome(attempts[i]),
{
}

/// What a record and a line hold is what their fields hold.
pub proof fn law_views(record: Record, line: Line)
    ensures
        record.deep_view().date == record.date@,
        record.deep_view().amount == record.amount,
        record.deep_view().description == record.description@,
        record.deep_view().category == record.category@,
        record.deep_view().teller_id == record.teller_id.deep_view(),
        line.deep_view().date == line.date@,
        line.deep_view().description == line.description@,
        line.deep_view().amount == line.amount@,
{
}

/// The two patterns, and the lines that they find: the first group is the day, the
/// second the description, and the third the amount, whose commas go.
pub proof fn law_statement_lines(
    found: Seq<Seq<Option<Seq<char>>>>,
    text: Seq<char>,
    i: int,
)
    requires
        0 <= i < found.len(),
        found[i].len() > 3,
        found[i][1] is Some && found[i][2] is Some && found[i][3] is Some,
    ensures
        apple_list(found).len() == found.len(),
        apple_list(found)[i].date == found[i][1]->0,
        apple_list(found)[i].description == trimmed(found[i][2]->0),
        apple_list(found)[i].amount == without(found[i][3]->0, ','),
        discover_list(found).len() == found.len(),
        discover_list(found)[i].date == long_date(found[i][1]->0),
        discover_list(found)[i].description == single_spaced(found[i][2]->0),
        discover_list(found)[i].amount == without(found[i][3]->0, ','),
        APPLE_CARD@
            == r"(\d{2}/\d{2}/\d{4})\s+([A-Z0-9 \*\.\-]+?)\s+\d+%\s+\$[\d\.]+\s+\$(-?[\d\.]+)"@,
        DISCOVER@
            == r"(?s)(\d{2}/\d{2}/\d{2})\s+\d{2}/\d{2}/\d{2}\s+(.+?)\$\s+(-?[\d,]+\.\d{2})"@,
{
}

/// What a pattern finds is used exactly where every match has its three groups.
pub proof fn law_found_lines(pattern: Seq<char>, text: Seq<char>)
    ensures
        found_lines(pattern, text) matches Some(found) ==> regex_captures(pattern, text) == Some(
            found,
        ),
        regex_captures(pattern, text) matches Some(found) ==> (forall|i: int|
            0 <= i < found.len() ==> (#[trigger] found[i]).len() > 3 && found[i][1] is Some
                && found[i][2] is Some && found[i][3] is Some) ==> found_lines(pattern, text)
            == Some(found),
        found_lines(pattern, text) matches Some(found) ==> forall|i: int|
            0 <= i < found.len() ==> (#[trigger] found[i]).len() > 3 && found[i][1] is Some
                && found[i][2] is Some && found[i][3] is Some,
        are_lines(Seq::<Seq<Option<Seq<char>>>>::empty()),
{
}

/// A date that is not made of three parts, or whose last part is not two bytes
/// long, is left as it is.
pub proof fn law_other_dates_stay(date: Seq<char>, a: Seq<char>, b: Seq<char>, c: Seq<char>)
    ensures
        !date.contains('/') ==> long_date(date) == date,
        !a.contains('/') && !b.contains('/') ==> long_date(a + seq!['/'] + b) == a + seq!['/'] + b,
        !a.contains('/') && !b.contains('/') && !c.contains('/') && encode_utf8(c).len() != 2
            ==> long_date(a + seq!['/'] + b + seq!['/'] + c) == a + seq!['/'] + b + seq!['/'] + c,
        split_on(date, '/').len() > 3 ==> long_date(date) == date,
{
    if !date.contains('/') {
        crate::text::lemma_split_whole(date, '/');
    }
    if !a.contains('/') && !b.contains('/') {
        crate::text::lemma_split_whole(a, '/');
        crate::text::lemma_split_whole(b, '/');
        lemma_split_around(a, '/', b);
        if !c.contains('/') {
            crate::text::lemma_split_whole(c, '/');
            lemma_split_around(a + seq!['/'] + b, '/', c);
        }
    }
}

} // verus!
