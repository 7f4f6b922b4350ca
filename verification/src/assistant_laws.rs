//! What is asked of the assistant, and what its replies come to.

use vstd::prelude::*;
use vstd::utf8::encode_utf8;

use crate::assistant::{
    answer, api_failure, excerpt, first_text, preview, reach, reply_keys, row_line, row_lines,
    stated_amount, stated_lines, unfenced, API_URL, API_VERSION, CHAT_OPENING, CHAT_REQUEST,
    EXTRACTION, MAX_TOKENS, NO_KEY, PROBE, RELEASE, STATEMENT_LIMIT,
};
use crate::outside::{json_fields, json_text_at, RowView};
use crate::record::LineView;
use crate::text::{cuts_at, without};

verus! {

/// Where the assistant is asked, how much it may answer, and in which words.
pub proof fn law_assistant_texts()
    ensures
        API_URL@ == "https://api.anthropic.com/v1/messages"@,
        API_VERSION@ == "2023-06-01"@,
        RELEASE@ == "-haiku-4-5-20251001"@,
        NO_KEY@ == "ANTHROPIC_API_KEY not set — check your .env file"@,
        EXTRACTION@ == "You are a financial data extractor. From the bank/credit card statement below, \
     extract every purchase/expense transaction.\n\
     Return ONLY a JSON array. Each object must have exactly:\n\
     - \"date\": string in MM/DD/YYYY format\n\
     - \"description\": merchant name in UPPERCASE\n\
     - \"amount\": positive number (dollars, no $ sign)\n\
     Exclude payments, refunds, and credits. Return [] if none found.\n\
     No markdown, no explanation — only the JSON array.\n\n\
     Statement:\n"@,
        CHAT_OPENING@ == "You are a personal finance assistant. Here is the user's spending summary:\n"@,
        CHAT_REQUEST@ == "\n\n\
     Answer the user's question concisely and helpfully. \
     Do not add any prefix or label to your response.\n\n\
     User: "@,
        PROBE@ == "Say 'ok' and nothing else."@,
        MAX_TOKENS == 2048,
        STATEMENT_LIMIT == 20_000,
{
}

/// An answer is the text that was found in it; without one it is reported in full,
/// and what failed with its reason.
pub proof fn law_answer(
    name: Seq<char>,
    json: Seq<char>,
    text: Seq<char>,
    found: Option<Seq<char>>,
    reason: Seq<char>,
)
    ensures
        answer(name, Ok(json), Some(text)) == Ok::<Seq<char>, Seq<char>>(text),
        answer(name, Ok(json), None) == Err::<Seq<char>, Seq<char>>(
            "Unexpected "@ + name + " response shape: "@ + json,
        ),
        answer(name, Err(reason), found) == Err::<Seq<char>, Seq<char>>(reason),
        api_failure(name) == name + " API error"@,
        first_text(Ok(json)) == json_text_at(json, "content"@, 0, "text"@),
        first_text(Err(reason)) is None,
{
}

/// Of a statement the first twenty thousand bytes are sent, or all of it.
pub proof fn law_excerpt(text: Seq<char>)
    ensures
        encode_utf8(text).len() <= 20_000 ==> excerpt(text) == text,
        encode_utf8(text).len() > 20_000 && cuts_at(text, 20_000) ==> encode_utf8(excerpt(text))
            == encode_utf8(text).subrange(0, 20_000),
{
    if encode_utf8(text).len() > 20_000 && cuts_at(text, 20_000) {
        crate::text_laws::law_bytes(text, 20_000);
    }
}

/// A row states a transaction exactly where its date and its description are texts
/// and its amount is a number or a text; a number counts as it is written, a text
/// without its dollar signs and commas.
pub proof fn law_row_line(row: RowView)
    requires
        row.len() == 3,
    ensures
        row_line(row) is Some <==> row[0].0 is Some && row[1].0 is Some && (row[2].1 is Some
            || row[2].0 is Some),
        row_line(row) matches Some(line) ==> {
            &&& Some(line.date) == row[0].0
            &&& Some(line.description) == row[1].0
            &&& row[2].1 matches Some(number) ==> line.amount == number
            &&& row[2].1 is None ==> line.amount == without(without(row[2].0->0, '$'), ',')
        },
        stated_amount(row[2]) is Some <==> row[2].1 is Some || row[2].0 is Some,
        reply_keys() == seq!["date"@, "description"@, "amount"@],
{
}

/// The transactions of two lists of rows are those of each, one after the other;
/// that of one row is what it states, if anything. What is no list states nothing.
pub proof fn law_row_lines(a: Seq<RowView>, b: Seq<RowView>, row: RowView, reply: Seq<char>)
    ensures
        row_lines(a + b) == row_lines(a) + row_lines(b),
        row_line(row) matches Some(line) ==> row_lines(seq![row]) == seq![line],
        row_line(row) is None ==> row_lines(seq![row]).len() == 0,
        row_lines(Seq::<RowView>::empty()).len() == 0,
        json_fields(unfenced(reply), seq!["date"@, "description"@, "amount"@]) matches Some(rows)
            ==> stated_lines(reply) == row_lines(rows),
        json_fields(unfenced(reply), seq!["date"@, "description"@, "amount"@]) is None
            ==> stated_lines(reply).len() == 0,
    decreases b.len(),
{
    assert(seq![row].drop_last() =~= Seq::<RowView>::empty());
    assert(row_lines(seq![row].drop_last()) =~= Seq::<LineView>::empty());
    if b.len() == 0 {
        assert(a + b =~= a);
        assert(row_lines(a) + row_lines(b) =~= row_lines(a));
    } else {
        law_row_lines(a, b.drop_last(), row, reply);
        assert((a + b).drop_last() =~= a + b.drop_last());
        assert(row_lines(a + b) =~= row_lines(a) + row_lines(b));
    }
}

/// A key is shown by its first four and its last four bytes, with dots between
/// them; one of less than four bytes by all of it, twice; and one that is not set
/// is said not to be.
pub proof fn law_preview(
    key: Seq<char>,
    head: Seq<char>,
    rest: Seq<char>,
    front: Seq<char>,
    tail: Seq<char>,
)
    requires
        key != "NOT SET"@,
    ensures
        key == head + rest && key == front + tail && encode_utf8(head).len() == 4 && encode_utf8(
            tail,
        ).len() == 4 ==> preview(Some(key)) == head + "..."@ + tail,
        encode_utf8(key).len() < 4 ==> preview(Some(key)) == key + "..."@ + key,
        preview(None) == "NOT SET"@,
        preview(Some("NOT SET"@)) == "NOT SET"@,
{
    let bytes = encode_utf8(key);
    crate::text::lemma_encode_concat(head, rest);
    crate::text::lemma_encode_concat(front, tail);
    vstd::utf8::encode_utf8_decode_utf8(head);
    vstd::utf8::encode_utf8_decode_utf8(tail);
    vstd::utf8::encode_utf8_decode_utf8(key);
    assert(bytes.subrange(0, bytes.len() as int) =~= bytes);
    if key == head + rest && key == front + tail && encode_utf8(head).len() == 4 && encode_utf8(
        tail,
    ).len() == 4 {
        assert(bytes.subrange(0, 4) =~= encode_utf8(head));
        assert(bytes.subrange(bytes.len() - 4, bytes.len() as int) =~= encode_utf8(tail));
    }
}

/// The assistant is reachable where a trial got an answer.
pub proof fn law_reach(text: Seq<char>, reason: Seq<char>)
    ensures
        reach(Ok(text)) == "reachable"@,
        reach(Err(reason)) == "error: "@ + reason,
{
}

} // verus!
