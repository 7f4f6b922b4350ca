//! Transactions, and the lines of text that they come from.

use vstd::prelude::*;

use crate::amount::Amount;
use crate::categories::{categorize, category_of};
use crate::outside::lowercase;

verus! {

/// A transaction of a user.
pub struct Record {
    /// The day, as MM/DD/YYYY.
    pub date: String,
    pub amount: Amount,
    pub description: String,
    pub category: String,
    /// The bank's own name for the transaction, where it came by bank sync.
    pub teller_id: Option<String>,
}

/// What a record holds.
pub struct RecordView {
    pub date: Seq<char>,
    pub amount: Amount,
    pub description: Seq<char>,
    pub category: Seq<char>,
    pub teller_id: Option<Seq<char>>,
}

impl DeepView for Record {
    type V = RecordView;

    open spec fn deep_view(&self) -> RecordView {
        RecordView {
            date: self.date@,
            amount: self.amount,
            description: self.description@,
            category: self.category@,
            teller_id: self.teller_id.deep_view(),
        }
    }
}

/// A transaction as a document states it, its amount still in writing.
pub struct Line {
    pub date: String,
    pub description: String,
    pub amount: String,
}

/// What a line holds.
pub struct LineView {
    pub date: Seq<char>,
    pub description: Seq<char>,
    pub amount: Seq<char>,
}

impl DeepView for Line {
    type V = LineView;

    open spec fn deep_view(&self) -> LineView {
        LineView {
            date: self.date@,
            description: self.description@,
            amount: self.amount@,
        }
    }
}

/// The record of a line that turned out to be of that amount.
pub open spec fn recorded(line: LineView, amount: Amount) -> RecordView {
    RecordView {
        date: line.date,
        amount: amount,
        description: line.description,
        category: category_of(lowercase(line.description)),
        teller_id: None,
    }
}

/// The records of the lines that state an expense: those whose amount can be
/// read and is not zero or less.
pub open spec fn expenses(lines: Seq<LineView>, amounts: Seq<Option<Amount>>) -> Seq<RecordView>
    decreases lines.len(),
{
    if lines.len() == 0 {
        Seq::<RecordView>::empty()
    } else {
        let before = expenses(lines.drop_last(), amounts.drop_last());
        match amounts.last() {
            Some(amount) => if amount.at_most_zero() {
                before
            } else {
                before.push(recorded(lines.last(), amount))
            },
            None => before,
        }
    }
}

/// Records one line.
fn record_line(line: &Line, amount: Amount) -> (r: Record)
    ensures
        r.deep_view() == recorded(line.deep_view(), amount),
{
    Record {
        date: line.date.clone(),
        amount: amount,
        description: line.description.clone(),
        category: categorize(line.description.as_str()),
        teller_id: None,
    }
}

/// Records the expenses among the lines. `amounts` holds what each line's
/// amount reads as, or nothing where it does not read as a number.
pub fn expense_records(lines: &Vec<Line>, amounts: &Vec<Option<Amount>>) -> (r: Vec<Record>)
    requires
        lines@.len() == amounts@.len(),
    ensures
        r.deep_view() == expenses(lines.deep_view(), amounts@),
{
    let mut r: Vec<Record> = Vec::new();
    let mut i: usize = 0;
    assert(r.deep_view() =~= expenses(lines.deep_view().take(0), amounts@.take(0)));
    while i < lines.len()
        invariant
            i <= lines@.len(),
            lines@.len() == amounts@.len(),
            r.deep_view() == expenses(lines.deep_view().take(i as int), amounts@.take(i as int)),
        decreases lines@.len() - i,
    {
        let ghost before = r.deep_view();
        proof {
            assert(lines.deep_view().take(i + 1).drop_last() =~= lines.deep_view().take(i as int));
            assert(amounts@.take(i + 1).drop_last() =~= amounts@.take(i as int));
        }
        if let Some(amount) = amounts[i] {
            if !amount.is_at_most_zero() {
                let record = record_line(&lines[i], amount);
                let ghost pushed = record.deep_view();
                r.push(record);
                assert(r.deep_view() =~= before.push(pushed));
            }
        }
        i = i + 1;
    }
    proof {
        assert(lines.deep_view().take(lines@.len() as int) =~= lines.deep_view());
        assert(amounts@.take(amounts@.len() as int) =~= amounts@);
    }
    r
}

/// Every recorded expense is above zero (or no number at all), carries the
/// category of its description, and stems from one of the lines.
pub proof fn law_expenses_are_positive(
    lines: Seq<LineView>,
    amounts: Seq<Option<Amount>>,
    i: int,
)
    requires
        lines.len() == amounts.len(),
        0 <= i < expenses(lines, amounts).len(),
    ensures
        !expenses(lines, amounts)[i].amount.at_most_zero(),
        expenses(lines, amounts)[i].category == category_of(
            lowercase(expenses(lines, amounts)[i].description),
        ),
        exists|k: int|
            0 <= k < lines.len() && #[trigger] amounts[k] == Some(
                expenses(lines, amounts)[i].amount,
            ) && expenses(lines, amounts)[i] == recorded(
                lines[k],
                expenses(lines, amounts)[i].amount,
            ),
    decreases lines.len(),
{
    if lines.len() > 0 {
        let before = expenses(lines.drop_last(), amounts.drop_last());
        if i < before.len() {
            law_expenses_are_positive(lines.drop_last(), amounts.drop_last(), i);
            let k = choose|k: int|
                0 <= k < lines.len() - 1 && #[trigger] amounts.drop_last()[k] == Some(
                    before[i].amount,
                ) && before[i] == recorded(lines.drop_last()[k], before[i].amount);
            assert(amounts[k] == amounts.drop_last()[k]);
        } else {
            assert(amounts[lines.len() - 1] == amounts.last());
        }
    }
}

/// What an attempt came to, with the text of its failure.
pub open spec fn outcome<T: DeepView>(r: Result<T, String>) -> Result<T::V, Seq<char>> {
    match r {
        Ok(v) => Ok(v.deep_view()),
        Err(e) => Err(e@),
    }
}

/// What a list of attempts came to.
pub open spec fn outcomes<T: DeepView>(v: Seq<Result<T, String>>) -> Seq<Result<T::V, Seq<char>>> {
    Seq::new(v.len(), |i: int| outcome(v[i]))
}

/// Attempt `i` failed, and none before it did.
pub open spec fn fails_first<T>(v: Seq<Result<T, Seq<char>>>, i: int) -> bool {
    &&& 0 <= i < v.len()
    &&& v[i] is Err
    &&& forall|j: int| 0 <= j < i ==> (#[trigger] v[j]) is Ok
}

/// What all attempts came to, or the first failure.
pub open spec fn collected<T>(v: Seq<Result<T, Seq<char>>>) -> Result<Seq<T>, Seq<char>> {
    if exists|i: int| fails_first(v, i) {
        Err(v[choose|i: int| fails_first(v, i)]->Err_0)
    } else {
        Ok(Seq::new(v.len(), |i: int| v[i]->Ok_0))
    }
}

proof fn lemma_collected_fails<T>(v: Seq<Result<T, Seq<char>>>, i: int)
    requires
        fails_first(v, i),
    ensures
        collected(v) == Err::<Seq<T>, Seq<char>>(v[i]->Err_0),
{
    let k = choose|k: int| fails_first(v, k);
    assert(k == i);
}

/// The records of all lines, whatever their sign, or the first failure to read
/// an amount.
pub open spec fn all_recorded(
    lines: Seq<LineView>,
    amounts: Seq<Result<Amount, Seq<char>>>,
) -> Result<Seq<RecordView>, Seq<char>> {
    match collected(amounts) {
        Err(e) => Err(e),
        Ok(read) => Ok(Seq::new(lines.len(), |i: int| recorded(lines[i], read[i]))),
    }
}

/// Records every line, whatever its sign, and gives up at the first amount that
/// does not read as a number.
pub fn record_all(lines: &Vec<Line>, amounts: &Vec<Result<Amount, String>>) -> (r: Result<
    Vec<Record>,
    String,
>)
    requires
        lines@.len() == amounts@.len(),
    ensures
        outcome(r) == all_recorded(lines.deep_view(), outcomes(amounts@)),
{
    let mut r: Vec<Record> = Vec::new();
    let mut i: usize = 0;
    let ghost read = outcomes(amounts@);
    while i < lines.len()
        invariant
            i <= lines@.len(),
            lines@.len() == amounts@.len(),
            read == outcomes(amounts@),
            r@.len() == i,
            forall|j: int| 0 <= j < i ==> (#[trigger] read[j]) is Ok,
            forall|j: int|
                0 <= j < i ==> (#[trigger] r@[j]).deep_view() == recorded(
                    lines@[j].deep_view(),
                    read[j]->Ok_0,
                ),
        decreases lines@.len() - i,
    {
        assert(read[i as int] == outcome(amounts@[i as int]));
        match &amounts[i] {
            Err(e) => {
                proof {
                    lemma_collected_fails(read, i as int);
                }
                return Err(e.clone());
            },
            Ok(amount) => {
                r.push(record_line(&lines[i], *amount));
            },
        }
        i = i + 1;
    }
    proof {
        assert(collected(read) is Ok);
        assert(r.deep_view() =~= all_recorded(lines.deep_view(), read)->Ok_0);
    }
    Ok(r)
}

/// The record with the category of its description, where it came without one.
pub open spec fn completed(r: RecordView) -> RecordView {
    if r.category.len() == 0 {
        RecordView { category: category_of(lowercase(r.description)), ..r }
    } else {
        r
    }
}

/// All rows with their categories filled in, or the first failure to read one.
pub open spec fn all_completed(rows: Seq<Result<RecordView, Seq<char>>>) -> Result<
    Seq<RecordView>,
    Seq<char>,
> {
    match collected(rows) {
        Err(e) => Err(e),
        Ok(read) => Ok(Seq::new(read.len(), |i: int| completed(read[i]))),
    }
}

/// Fills in the missing categories of the rows of a table, and gives up at the
/// first row that could not be read.
pub fn complete_rows(rows: Vec<Result<Record, String>>) -> (r: Result<Vec<Record>, String>)
    ensures
        outcome(r) == all_completed(outcomes(rows@)),
{
    let mut r: Vec<Record> = Vec::new();
    let mut i: usize = 0;
    let ghost read = outcomes(rows@);
    while i < rows.len()
        invariant
            i <= rows@.len(),
            read == outcomes(rows@),
            r@.len() == i,
            forall|j: int| 0 <= j < i ==> (#[trigger] read[j]) is Ok,
            forall|j: int|
                0 <= j < i ==> (#[trigger] r@[j]).deep_view() == completed(read[j]->Ok_0),
        decreases rows@.len() - i,
    {
        assert(read[i as int] == outcome(rows@[i as int]));
        match &rows[i] {
            Err(e) => {
                proof {
                    lemma_collected_fails(read, i as int);
                }
                return Err(e.clone());
            },
            Ok(row) => {
                let category = if row.category.as_str().is_empty() {
                    categorize(row.description.as_str())
                } else {
                    row.category.clone()
                };
                r.push(
                    Record {
                        date: row.date.clone(),
                        amount: row.amount,
                        description: row.description.clone(),
                        category: category,
                        teller_id: row.teller_id.clone(),
                    },
                );
            },
        }
        i = i + 1;
    }
    proof {
        assert(collected(read) is Ok);
        assert(r.deep_view() =~= all_completed(read)->Ok_0);
    }
    Ok(r)
}

} // verus!
