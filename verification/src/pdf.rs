//! Reading bank statements from the text of their PDF.

use vstd::prelude::*;
use vstd::utf8::encode_utf8;

use crate::amount::Amount;
use crate::outside::{captures, regex_captures};
use crate::record::{expense_records, expenses, Line, LineView, Record};
use crate::text::{
    collapse_spaces, lemma_pieces_are_whole, lemma_split_around, lemma_split_whole, remove_char,
    single_spaced, split, split_on, trim, trimmed, without,
};

verus! {

/// An Apple Card transaction: the day, the description, the cash back in
/// percent and in dollars, and the amount.
pub const APPLE_CARD: &'static str = r"(\d{2}/\d{2}/\d{4})\s+([A-Z0-9 \*\.\-]+?)\s+\d+%\s+\$[\d\.]+\s+\$(-?[\d\.]+)";

/// A Discover transaction: the day, the day it was posted, the description,
/// which may go over several lines, and the amount.
pub const DISCOVER: &'static str = r"(?s)(\d{2}/\d{2}/\d{2})\s+\d{2}/\d{2}/\d{2}\s+(.+?)\$\s+(-?[\d,]+\.\d{2})";

/// A date whose year is written with two digits, with the century put before
/// it. Any other text is left as it is.
pub open spec fn long_date(date: Seq<char>) -> Seq<char> {
    let parts = split_on(date, '/');
    if parts.len() == 3 && encode_utf8(parts[2]).len() == 2 {
        parts[0] + seq!['/'] + parts[1] + seq!['/', '2', '0'] + parts[2]
    } else {
        date
    }
}

/// Writes out the year of a Discover date: MM/DD/YY becomes MM/DD/20YY.
pub fn discover_date(date: &str) -> (r: String)
    ensures
        r@ == long_date(date@),
{
    let parts = split(date, '/');
    assert(forall|i: int| 0 <= i < parts@.len() ==> parts@[i]@ == #[trigger] parts.deep_view()[i]);
    if parts.len() == 3 && parts[2].as_str().as_bytes().len() == 2 {
        let mut r: String = parts[0].clone();
        r.push('/');
        r.append(parts[1].as_str());
        r.push('/');
        r.push('2');
        r.push('0');
        r.append(parts[2].as_str());
        assert(r@ =~= long_date(date@));
        r
    } else {
        date.to_string()
    }
}

/// A day, a month and a year with slashes between them split into these three.
proof fn lemma_date_parts(month: Seq<char>, day: Seq<char>, year: Seq<char>)
    requires
        !month.contains('/'),
        !day.contains('/'),
        !year.contains('/'),
    ensures
        split_on(month + seq!['/'] + day + seq!['/'] + year, '/') == seq![month, day, year],
{
    let front = month + seq!['/'] + day;
    lemma_split_whole(month, '/');
    lemma_split_whole(day, '/');
    lemma_split_whole(year, '/');
    lemma_split_around(month, '/', day);
    lemma_split_around(front, '/', year);
    assert(seq![month] + seq![day] + seq![year] =~= seq![month, day, year]);
}

/// MM/DD/YY becomes MM/DD/20YY, whatever the month, the day and the two bytes of
/// the year are.
pub proof fn law_discover_date_writes_the_century(
    month: Seq<char>,
    day: Seq<char>,
    year: Seq<char>,
)
    requires
        !month.contains('/'),
        !day.contains('/'),
        !year.contains('/'),
        encode_utf8(year).len() == 2,
    ensures
        long_date(month + seq!['/'] + day + seq!['/'] + year) == month + seq!['/'] + day + seq![
            '/',
            '2',
            '0',
        ] + year,
{
    lemma_date_parts(month, day, year);
}

/// A date that was written out once stays as it is.
pub proof fn law_discover_date_is_final(date: Seq<char>)
    ensures
        long_date(long_date(date)) == long_date(date),
{
    let parts = split_on(date, '/');
    if parts.len() == 3 && encode_utf8(parts[2]).len() == 2 {
        lemma_pieces_are_whole(date, '/', 0);
        lemma_pieces_are_whole(date, '/', 1);
        lemma_pieces_are_whole(date, '/', 2);
        let year = seq!['2', '0'] + parts[2];
        assert forall|k: int| 0 <= k < year.len() implies year[k] != '/' by {
            if k >= 2 {
                assert(parts[2][k - 2] != '/');
            }
        }
        lemma_date_parts(parts[0], parts[1], year);
        assert(long_date(date) =~= parts[0] + seq!['/'] + parts[1] + seq!['/'] + year);
        assert(encode_utf8(year).len() == 4) by {
            assert(year.drop_first() =~= seq!['0'] + parts[2]);
            assert((seq!['0'] + parts[2]).drop_first() =~= parts[2]);
            reveal_with_fuel(encode_utf8, 3);
        }
    }
}

/// The groups of one match of a pattern, the whole match first.
pub type Groups = Vec<Option<String>>;

/// The match has a text for each of the three groups that make up a line.
pub open spec fn is_line(groups: Seq<Option<Seq<char>>>) -> bool {
    &&& groups.len() > 3
    &&& groups[1] is Some
    &&& groups[2] is Some
    &&& groups[3] is Some
}

/// Every match makes up a line.
pub open spec fn are_lines(found: Seq<Seq<Option<Seq<char>>>>) -> bool {
    forall|i: int| 0 <= i < found.len() ==> is_line(#[trigger] found[i])
}

/// The line of an Apple Card match.
pub open spec fn apple_line(groups: Seq<Option<Seq<char>>>) -> LineView {
    LineView {
        date: groups[1]->0,
        description: trimmed(groups[2]->0),
        amount: without(groups[3]->0, ','),
    }
}

/// The line of a Discover match.
pub open spec fn discover_line(groups: Seq<Option<Seq<char>>>) -> LineView {
    LineView {
        date: long_date(groups[1]->0),
        description: single_spaced(groups[2]->0),
        amount: without(groups[3]->0, ','),
    }
}

/// The lines of all Apple Card matches.
pub open spec fn apple_list(found: Seq<Seq<Option<Seq<char>>>>) -> Seq<LineView> {
    Seq::new(found.len(), |i: int| apple_line(found[i]))
}

/// The lines of all Discover matches.
pub open spec fn discover_list(found: Seq<Seq<Option<Seq<char>>>>) -> Seq<LineView> {
    Seq::new(found.len(), |i: int| discover_line(found[i]))
}

/// Whether every match makes up a line.
pub fn all_lines(found: &Vec<Groups>) -> (r: bool)
    ensures
        r == are_lines(found.deep_view()),
{
    let mut i: usize = 0;
    while i < found.len()
        invariant
            i <= found@.len(),
            forall|j: int| 0 <= j < i ==> is_line(#[trigger] found.deep_view()[j]),
        decreases found@.len() - i,
    {
        let groups = &found[i];
        assert(found.deep_view()[i as int] == groups.deep_view());
        if groups.len() <= 3 || groups[1].is_none() || groups[2].is_none() || groups[3].is_none() {
            assert(!is_line(found.deep_view()[i as int]));
            return false;
        }
        i = i + 1;
    }
    true
}

/// The text of a group that took part in the match.
fn group(groups: &Groups, n: usize) -> (r: &str)
    requires
        n < groups@.len(),
        groups@[n as int] is Some,
    ensures
        groups.deep_view()[n as int] == Some(r@),
{
    match &groups[n] {
        Some(text) => text.as_str(),
        None => "",
    }
}

/// The transactions of an Apple Card statement, from the matches of its pattern.
pub fn apple_lines(found: &Vec<Groups>) -> (r: Vec<Line>)
    requires
        are_lines(found.deep_view()),
    ensures
        r.deep_view() == apple_list(found.deep_view()),
{
    let mut r: Vec<Line> = Vec::new();
    let mut i: usize = 0;
    while i < found.len()
        invariant
            i <= found@.len(),
            are_lines(found.deep_view()),
            r@.len() == i,
            forall|j: int|
                0 <= j < i ==> (#[trigger] r@[j]).deep_view() == apple_line(found.deep_view()[j]),
        decreases found@.len() - i,
    {
        let groups = &found[i];
        assert(found.deep_view()[i as int] == groups.deep_view());
        assert(is_line(found.deep_view()[i as int]));
        r.push(
            Line {
                date: group(groups, 1).to_string(),
                description: trim(group(groups, 2)),
                amount: remove_char(group(groups, 3), ','),
            },
        );
        i = i + 1;
    }
    assert(r.deep_view() =~= apple_list(found.deep_view()));
    r
}

/// The transactions of a Discover statement, from the matches of its pattern.
pub fn discover_lines(found: &Vec<Groups>) -> (r: Vec<Line>)
    requires
        are_lines(found.deep_view()),
    ensures
        r.deep_view() == discover_list(found.deep_view()),
{
    let mut r: Vec<Line> = Vec::new();
    let mut i: usize = 0;
    while i < found.len()
        invariant
            i <= found@.len(),
            are_lines(found.deep_view()),
            r@.len() == i,
            forall|j: int|
                0 <= j < i ==> (#[trigger] r@[j]).deep_view() == discover_line(
                    found.deep_view()[j],
                ),
        decreases found@.len() - i,
    {
        let groups = &found[i];
        assert(found.deep_view()[i as int] == groups.deep_view());
        assert(is_line(found.deep_view()[i as int]));
        r.push(
            Line {
                date: discover_date(group(groups, 1)),
                description: collapse_spaces(group(groups, 2)),
                amount: remove_char(group(groups, 3), ','),
            },
        );
        i = i + 1;
    }
    assert(r.deep_view() =~= discover_list(found.deep_view()));
    r
}

/// What the pattern finds in the text, where every match makes up a line.
pub open spec fn found_lines(pattern: Seq<char>, text: Seq<char>) -> Option<
    Seq<Seq<Option<Seq<char>>>>,
> {
    match regex_captures(pattern, text) {
        Some(found) => if are_lines(found) {
            Some(found)
        } else {
            None
        },
        None => None,
    }
}

/// The transactions that the Apple Card pattern finds in the text of a
/// statement. There is no answer where the pattern does not compile, or a match
/// leaves out a group.
pub fn apple_card(text: &str) -> (r: Option<Vec<Line>>)
    ensures
        r.deep_view() == match found_lines(APPLE_CARD@, text@) {
            Some(found) => Some(apple_list(found)),
            None => None,
        },
{
    match captures(APPLE_CARD, text) {
        Some(found) => if all_lines(&found) {
            Some(apple_lines(&found))
        } else {
            None
        },
        None => None,
    }
}

/// The transactions that the Discover pattern finds in the text of a statement.
/// There is no answer where the pattern does not compile, or a match leaves out
/// a group.
pub fn discover(text: &str) -> (r: Option<Vec<Line>>)
    ensures
        r.deep_view() == match found_lines(DISCOVER@, text@) {
            Some(found) => Some(discover_list(found)),
            None => None,
        },
{
    match captures(DISCOVER, text) {
        Some(found) => if all_lines(&found) {
            Some(discover_lines(&found))
        } else {
            None
        },
        None => None,
    }
}

/// Chooses the transactions of a statement from what the two patterns found in
/// it: the expenses of the Apple Card pattern, or, where it found none, those of
/// the Discover pattern. Where neither found any, the statement is of another
/// bank.
pub fn extract_records(
    apple: &Vec<Line>,
    apple_amounts: &Vec<Option<Amount>>,
    discover: &Vec<Line>,
    discover_amounts: &Vec<Option<Amount>>,
) -> (r: Option<Vec<Record>>)
    requires
        apple@.len() == apple_amounts@.len(),
        discover@.len() == discover_amounts@.len(),
    ensures
        r.deep_view() == {
            let first = expenses(apple.deep_view(), apple_amounts@);
            let second = expenses(discover.deep_view(), discover_amounts@);
            if first.len() > 0 {
                Some(first)
            } else if second.len() > 0 {
                Some(second)
            } else {
                None
            }
        },
{
    let first = expense_records(apple, apple_amounts);
    assert(first.deep_view().len() == first@.len());
    if first.len() > 0 {
        return Some(first);
    }
    let second = expense_records(discover, discover_amounts);
    assert(second.deep_view().len() == second@.len());
    if second.len() > 0 {
        return Some(second);
    }
    None
}

} // verus!
