//! Talking to the assistant: the prompts that are sent and what the replies mean.

use vstd::prelude::*;
use vstd::utf8::encode_utf8;

use crate::exchange::{serve, served, Exchange};
use crate::outside::{
    json_fields, json_rows, json_text, json_text_at, lowercase, to_lowercase, Field, RowView,
};
use crate::record::{outcome, Line, LineView};
use crate::reply::{Body, Reply, Status};
use crate::text::{
    begins_with, bytes_from, chars_of, cuts_at, ends_with, first_bytes, is_white_space,
    left_trimmed, lemma_encode_concat, remove_char, same, skip_bytes, skip_leading, skip_trailing,
    string_of, take_bytes, trim_range, trimmed, without, without_leading, without_trailing,
};
use crate::text_laws::{blank, law_trimmed, law_without_ends};

verus! {

/// Where messages are asked for.
pub const API_URL: &'static str = "https://api.anthropic.com/v1/messages";

/// The version of the API that is spoken.
pub const API_VERSION: &'static str = "2023-06-01";

/// A language model that can be asked.
pub struct Assistant {
    /// What it is called where it is spoken of.
    pub name: String,
    /// What it is called where it is asked.
    pub model: String,
}

/// How the identifier of the model that is asked goes on after its name.
pub const RELEASE: &'static str = "-haiku-4-5-20251001";

/// The assistant of that name: the model that is asked is its Haiku, in the one
/// release that is in use.
pub fn claude_haiku(name: String) -> (r: Assistant)
    ensures
        r.name@ == name@,
        r.model@ == lowercase(name@) + RELEASE@,
{
    let mut model: String = to_lowercase(name.as_str());
    model.append(RELEASE);
    Assistant { name, model }
}

/// The most that the model may answer, in tokens.
pub const MAX_TOKENS: u32 = 2048;

/// How much of a statement is sent, in bytes.
pub const STATEMENT_LIMIT: usize = 20_000;

/// What is reported where no API key is configured.
pub const NO_KEY: &'static str = "ANTHROPIC_API_KEY not set — check your .env file";

/// What is asked of a statement, before its text.
pub const EXTRACTION: &'static str = "You are a financial data extractor. From the bank/credit card statement below, \
     extract every purchase/expense transaction.\n\
     Return ONLY a JSON array. Each object must have exactly:\n\
     - \"date\": string in MM/DD/YYYY format\n\
     - \"description\": merchant name in UPPERCASE\n\
     - \"amount\": positive number (dollars, no $ sign)\n\
     Exclude payments, refunds, and credits. Return [] if none found.\n\
     No markdown, no explanation — only the JSON array.\n\n\
     Statement:\n";

/// What opens the prompt of a chat, before the spending summary.
pub const CHAT_OPENING: &'static str = "You are a personal finance assistant. Here is the user's spending summary:\n";

/// What stands between the spending summary and the user's message.
pub const CHAT_REQUEST: &'static str = "\n\n\
     Answer the user's question concisely and helpfully. \
     Do not add any prefix or label to your response.\n\n\
     User: ";

/// A request for one message of the model.
pub struct MessageRequest {
    pub model: String,
    pub max_tokens: u32,
    /// What the user says: the only message of the conversation.
    pub content: String,
    /// The key that the request is signed with.
    pub api_key: String,
}

/// Prepares the request for an answer to a prompt, or reports that there is no
/// key to send it with.
pub fn message_request(assistant: &Assistant, api_key: Option<String>, prompt: String) -> (r: Result<
    MessageRequest,
    String,
>)
    ensures
        r is Ok <==> api_key is Some,
        r matches Ok(q) ==> {
            &&& q.model@ == assistant.model@
            &&& q.max_tokens == MAX_TOKENS
            &&& q.content@ == prompt@
            &&& q.api_key@ == api_key->0@
        },
        r matches Err(e) ==> e@ == NO_KEY@,
{
    match api_key {
        Some(key) => Ok(
            MessageRequest {
                model: assistant.model.clone(),
                max_tokens: MAX_TOKENS,
                content: prompt,
                api_key: key,
            },
        ),
        None => Err(NO_KEY.to_string()),
    }
}

/// What is reported where the API does not serve a request.
pub open spec fn api_failure(name: Seq<char>) -> Seq<char> {
    name + " API error"@
}

/// The text of an answer whose JSON came with that text in its content, or the
/// reason why there is none.
pub open spec fn answer(
    name: Seq<char>,
    json: Result<Seq<char>, Seq<char>>,
    text: Option<Seq<char>>,
) -> Result<Seq<char>, Seq<char>> {
    match (json, text) {
        (Err(reason), _) => Err(reason),
        (Ok(_), Some(text)) => Ok(text),
        (Ok(json), None) => Err("Unexpected "@ + name + " response shape: "@ + json),
    }
}

/// Decides what an answer comes to, from its JSON and the text that was found in
/// it.
pub fn judge_answer(
    assistant: &Assistant,
    json: Result<String, String>,
    text: Option<String>,
) -> (r: Result<String, String>)
    ensures
        outcome(r) == answer(assistant.name@, outcome(json), text.deep_view()),
{
    match json {
        Err(reason) => Err(reason),
        Ok(json) => match text {
            Some(text) => Ok(text),
            None => {
                let mut e: String = "Unexpected ".to_string();
                e.append(assistant.name.as_str());
                e.append(" response shape: ");
                e.append(json.as_str());
                Err(e)
            },
        },
    }
}

/// The text of the first part of an answer's content.
pub open spec fn first_text(json: Result<Seq<char>, Seq<char>>) -> Option<Seq<char>> {
    match json {
        Ok(json) => json_text_at(json, "content"@, 0, "text"@),
        Err(_) => None,
    }
}

/// Reads the answer to a request.
pub fn read_answer(assistant: &Assistant, exchange: Exchange) -> (r: Result<String, String>)
    ensures
        outcome(r) == answer(
            assistant.name@,
            served(exchange, api_failure(assistant.name@)),
            first_text(served(exchange, api_failure(assistant.name@))),
        ),
{
    let mut failure: String = assistant.name.clone();
    failure.append(" API error");
    let json = serve(exchange, failure.as_str());
    let text = match &json {
        Ok(json) => json_text(json.as_str(), "content", 0, "text"),
        Err(_) => None,
    };
    judge_answer(assistant, json, text)
}

/// A reply without the code fences, and the white space, around it.
pub open spec fn unfenced(s: Seq<char>) -> Seq<char> {
    trimmed(
        without_trailing(
            without_leading(without_leading(trimmed(s), "```json"@), "```"@),
            "```"@,
        ),
    )
}

/// Strips the markdown code fences that the assistant sometimes wraps JSON in.
pub fn strip_code_fences(s: &str) -> (r: String)
    ensures
        r@ == unfenced(s@),
{
    let chars = chars_of(s);
    let json_fence = chars_of("```json");
    let fence = chars_of("```");
    proof {
        reveal_strlit("```json");
        reveal_strlit("```");
    }
    assert(chars@.subrange(0, chars@.len() as int) =~= s@);
    let (a, b) = trim_range(&chars, 0, chars.len());
    let a = skip_leading(&chars, a, b, &json_fence);
    let a = skip_leading(&chars, a, b, &fence);
    let b = skip_trailing(&chars, a, b, &fence);
    let (a, b) = trim_range(&chars, a, b);
    string_of(&chars, a, b)
}

/// Code fences come off: what was wrapped in them, with or without the name of
/// the language, comes out as it went in, but for the white space at its ends.
pub proof fn law_code_fences_come_off(t: Seq<char>)
    ensures
        unfenced("```json\n"@ + t + "\n```"@) == trimmed(t),
        unfenced("```\n"@ + t + "\n```"@) == trimmed(t),
{
    lemma_named_fence(t);
    lemma_plain_fence(t);
}

/// What stands between the opening fence and the end: a line, and the closing
/// fence.
spec fn fenced_end(t: Seq<char>) -> Seq<char> {
    seq!['\n'] + t + seq!['\n', '`', '`', '`']
}

proof fn lemma_fenced_end(t: Seq<char>)
    ensures
        without_leading(fenced_end(t), "```json"@) == fenced_end(t),
        without_leading(fenced_end(t), "```"@) == fenced_end(t),
        trimmed(without_trailing(fenced_end(t), "```"@)) == trimmed(t),
{
    reveal_strlit("```");
    let end = fenced_end(t);
    let line = seq!['\n'] + t + seq!['\n'];
    lemma_no_fence(end);
    lemma_no_fence(line);
    lemma_trim_lines(t);
    assert(end.subrange(end.len() - 3, end.len() as int) =~= "```"@);
    assert(end.take(end.len() - 3) =~= line);
}

proof fn lemma_named_fence(t: Seq<char>)
    ensures
        unfenced("```json\n"@ + t + "\n```"@) == trimmed(t),
{
    reveal_strlit("```json\n");
    reveal_strlit("\n```");
    reveal_strlit("```json");
    let s = "```json\n"@ + t + "\n```"@;
    lemma_fenced_end(t);
    assert(s.first() == '`' && s.last() == '`');
    assert(s.subrange(0, 7) =~= "```json"@);
    assert(s.skip(7) =~= fenced_end(t));
}

proof fn lemma_plain_fence(t: Seq<char>)
    ensures
        unfenced("```\n"@ + t + "\n```"@) == trimmed(t),
{
    reveal_strlit("```\n");
    reveal_strlit("\n```");
    reveal_strlit("```json");
    reveal_strlit("```");
    let s = "```\n"@ + t + "\n```"@;
    lemma_fenced_end(t);
    assert(s.first() == '`' && s.last() == '`');
    assert(s[3] == '\n');
    if begins_with(s, "```json"@) {
        assert(s.subrange(0, 7)[3] == "```json"@[3]);
    }
    assert(s.subrange(0, 3) =~= "```"@);
    assert(s.skip(3) =~= fenced_end(t));
}

/// White space around a reply makes no difference, and none is left around it; nor
/// does a fence before it or after it that has no other.
pub proof fn law_fences_come_off_one_side(a: Seq<char>, t: Seq<char>, b: Seq<char>)
    requires
        blank(a),
        blank(b),
        t.len() > 0,
        !is_white_space(t.first()) && !is_white_space(t.last()),
        t.first() != '`' && t.last() != '`',
    ensures
        unfenced(a + t + b) == t,
        unfenced(a + ("```json"@ + t) + b) == t,
        unfenced(a + ("```"@ + t) + b) == t || begins_with("```"@ + t, "```json"@),
        unfenced(a + (t + "```"@) + b) == t,
{
    reveal_strlit("```json");
    reveal_strlit("```");
    lemma_no_fence(t);
    law_trimmed(a, t, b);
    law_trimmed(Seq::<char>::empty(), t, Seq::<char>::empty());
    assert(Seq::<char>::empty() + t + Seq::<char>::empty() =~= t);
    let tagged = "```json"@ + t;
    law_trimmed(a, tagged, b);
    law_without_ends(t, "```json"@);
    let plain = "```"@ + t;
    law_trimmed(a, plain, b);
    law_without_ends(t, "```"@);
    law_without_ends(plain, "```json"@);
    let trailed = t + "```"@;
    law_trimmed(a, trailed, b);
    lemma_no_fence(trailed);
}

/// A reply between two fences comes out without them, and without the white space
/// inside and outside of them.
pub proof fn law_fences_come_off_both_sides(
    a: Seq<char>,
    c: Seq<char>,
    t: Seq<char>,
    d: Seq<char>,
    b: Seq<char>,
)
    requires
        blank(a),
        blank(b),
        blank(c),
        blank(d),
        t.len() > 0,
        !is_white_space(t.first()) && !is_white_space(t.last()),
        t.first() != '`' && t.last() != '`',
    ensures
        unfenced(a + ("```json"@ + (c + t + d) + "```"@) + b) == t,
        c.len() > 0 ==> unfenced(a + ("```"@ + (c + t + d) + "```"@) + b) == t,
{
    reveal_strlit("```json");
    reveal_strlit("```");
    let inner = c + t + d;
    let ended = inner + "```"@;
    assert(inner.first() == if c.len() > 0 { c[0] } else { t.first() });
    assert(inner.last() == if d.len() > 0 { d[d.len() - 1] } else { t.last() });
    assert(c.len() > 0 ==> is_white_space(c[0]));
    assert(d.len() > 0 ==> is_white_space(d[d.len() - 1]));
    assert(ended.first() == inner.first());
    lemma_no_fence(inner);
    lemma_no_fence(ended);
    law_trimmed(c, t, d);
    law_without_ends(inner, "```"@);
    let tagged = "```json"@ + inner + "```"@;
    assert(tagged =~= "```json"@ + ended);
    law_trimmed(a, tagged, b);
    law_without_ends(ended, "```json"@);
    let plain = "```"@ + inner + "```"@;
    assert(plain =~= "```"@ + ended);
    law_trimmed(a, plain, b);
    law_without_ends(ended, "```"@);
    law_without_ends(plain, "```json"@);
    if c.len() > 0 && begins_with(plain, "```json"@) {
        assert(plain[3] == c[0]);
        assert(plain.subrange(0, 7)[3] == "```json"@[3]);
    }
}

/// What is not wrapped comes out as it went in: a text without white space at its
/// ends that neither begins nor ends with a fence.
pub proof fn law_bare_replies_stay(t: Seq<char>)
    requires
        trimmed(t) == t,
        !begins_with(t, "```"@),
        !ends_with(t, "```"@),
    ensures
        unfenced(t) == t,
{
    reveal_strlit("```json");
    reveal_strlit("```");
    if begins_with(t, "```json"@) {
        assert(t.subrange(0, 3) =~= t.subrange(0, 7).subrange(0, 3));
        assert("```json"@.subrange(0, 3) =~= "```"@);
    }
}

/// A line of its own is trimmed as it would be without the ends of lines around
/// it.
proof fn lemma_trim_lines(t: Seq<char>)
    ensures
        trimmed(seq!['\n'] + t + seq!['\n']) == trimmed(t),
{
    let wrapped = seq!['\n'] + t + seq!['\n'];
    assert(wrapped.drop_first() =~= t + seq!['\n']);
    lemma_left_trimmed_line(t);
    let rest = left_trimmed(t);
    if rest.len() > 0 {
        assert((rest + seq!['\n']).drop_last() =~= rest);
    }
}

proof fn lemma_left_trimmed_line(t: Seq<char>)
    ensures
        left_trimmed(t + seq!['\n']) == if left_trimmed(t).len() == 0 {
            Seq::<char>::empty()
        } else {
            left_trimmed(t) + seq!['\n']
        },
    decreases t.len(),
{
    let line = t + seq!['\n'];
    if t.len() == 0 {
        assert(line.drop_first() =~= Seq::<char>::empty());
        assert(left_trimmed(line.drop_first()) =~= Seq::<char>::empty());
    } else {
        assert(line.first() == t.first());
        if is_white_space(t.first()) {
            assert(line.drop_first() =~= t.drop_first() + seq!['\n']);
            lemma_left_trimmed_line(t.drop_first());
        }
    }
}

/// A text whose first character is no backtick has no leading fence, and one
/// whose last is none has no trailing fence.
proof fn lemma_no_fence(s: Seq<char>)
    requires
        s.len() > 0,
    ensures
        s.first() != '`' ==> without_leading(s, "```json"@) == s,
        s.first() != '`' ==> without_leading(s, "```"@) == s,
        s.last() != '`' ==> without_trailing(s, "```"@) == s,
{
    reveal_strlit("```json");
    reveal_strlit("```");
    if s.first() != '`' {
        if begins_with(s, "```json"@) {
            assert(s.subrange(0, 7)[0] == s[0]);
        }
        if begins_with(s, "```"@) {
            assert(s.subrange(0, 3)[0] == s[0]);
        }
    }
    if s.last() != '`' {
        if ends_with(s, "```"@) {
            assert(s.subrange(s.len() - 3, s.len() as int)[2] == s.last());
        }
    }
}

/// As much of a statement as is sent.
pub open spec fn excerpt(text: Seq<char>) -> Seq<char> {
    if encode_utf8(text).len() > STATEMENT_LIMIT {
        first_bytes(text, STATEMENT_LIMIT as int)
    } else {
        text
    }
}

/// The prompt that asks for the transactions of a statement.
pub fn extraction_prompt(text: &str) -> (r: String)
    requires
        encode_utf8(text@).len() > STATEMENT_LIMIT ==> cuts_at(text@, STATEMENT_LIMIT as int),
    ensures
        r@ == EXTRACTION@ + excerpt(text@),
{
    let mut r: String = EXTRACTION.to_string();
    if text.as_bytes().len() > STATEMENT_LIMIT {
        r.append(take_bytes(text, STATEMENT_LIMIT).as_str());
    } else {
        r.append(text);
    }
    r
}

/// The prompt of a chat: what the user spends, and what the user asks.
pub fn chat_prompt(summary: &str, message: &str) -> (r: String)
    ensures
        r@ == CHAT_OPENING@ + summary@ + CHAT_REQUEST@ + message@,
{
    let mut r: String = CHAT_OPENING.to_string();
    r.append(summary);
    r.append(CHAT_REQUEST);
    r.append(message);
    r
}

/// The amount that a value states: a number as it stands, a text without its
/// dollar signs and commas.
pub open spec fn stated_amount(field: (Option<Seq<char>>, Option<Seq<char>>)) -> Option<
    Seq<char>,
> {
    match field.1 {
        Some(number) => Some(number),
        None => match field.0 {
            Some(text) => Some(without(without(text, '$'), ',')),
            None => None,
        },
    }
}

/// The transaction of a row that states a date, a description and an amount.
pub open spec fn row_line(row: RowView) -> Option<LineView> {
    match (row[0].0, row[1].0, stated_amount(row[2])) {
        (Some(date), Some(description), Some(amount)) => Some(
            LineView { date, description, amount },
        ),
        _ => None,
    }
}

/// The transactions of the rows that state one.
pub open spec fn row_lines(rows: Seq<RowView>) -> Seq<LineView>
    decreases rows.len(),
{
    if rows.len() == 0 {
        Seq::<LineView>::empty()
    } else {
        let before = row_lines(rows.drop_last());
        match row_line(rows.last()) {
            Some(line) => before.push(line),
            None => before,
        }
    }
}

/// The transactions of the rows of a reply, each with its date, description and
/// amount. Rows that lack one of them are left out.
pub fn lines_of(rows: &Vec<Vec<Field>>) -> (r: Vec<Line>)
    requires
        forall|i: int| 0 <= i < rows@.len() ==> (#[trigger] rows@[i])@.len() == 3,
    ensures
        r.deep_view() == row_lines(rows.deep_view()),
{
    let mut r: Vec<Line> = Vec::new();
    let mut i: usize = 0;
    assert(r.deep_view() =~= row_lines(rows.deep_view().take(0)));
    while i < rows.len()
        invariant
            i <= rows@.len(),
            forall|j: int| 0 <= j < rows@.len() ==> (#[trigger] rows@[j])@.len() == 3,
            r.deep_view() == row_lines(rows.deep_view().take(i as int)),
        decreases rows@.len() - i,
    {
        let row = &rows[i];
        let ghost before = r.deep_view();
        proof {
            assert(rows.deep_view().take(i + 1).drop_last() =~= rows.deep_view().take(i as int));
            assert(rows.deep_view().take(i + 1).last() == row.deep_view());
            assert(row.deep_view()[0] == row@[0].deep_view());
            assert(row.deep_view()[1] == row@[1].deep_view());
            assert(row.deep_view()[2] == row@[2].deep_view());
        }
        let amount: Option<String> = match &row[2].1 {
            Some(number) => Some(number.clone()),
            None => match &row[2].0 {
                Some(text) => Some(remove_char(remove_char(text.as_str(), '$').as_str(), ',')),
                None => None,
            },
        };
        if let (Some(date), Some(description), Some(amount)) = (&row[0].0, &row[1].0, amount) {
            let line = Line { date: date.clone(), description: description.clone(), amount };
            let ghost pushed = line.deep_view();
            r.push(line);
            assert(r.deep_view() =~= before.push(pushed));
        }
        i = i + 1;
    }
    assert(rows.deep_view().take(rows@.len() as int) =~= rows.deep_view());
    r
}

/// The fields that make up a transaction in a reply.
pub open spec fn reply_keys() -> Seq<Seq<char>> {
    seq!["date"@, "description"@, "amount"@]
}

/// The transactions that a reply states: none where it is no JSON array.
pub open spec fn stated_lines(reply: Seq<char>) -> Seq<LineView> {
    match json_fields(unfenced(reply), reply_keys()) {
        Some(rows) => row_lines(rows),
        None => Seq::<LineView>::empty(),
    }
}

/// Reads the transactions that a reply states.
pub fn reply_lines(reply: &str) -> (r: Vec<Line>)
    ensures
        r.deep_view() == stated_lines(reply@),
{
    let cleaned = strip_code_fences(reply);
    let keys: Vec<&str> = vec!["date", "description", "amount"];
    assert(keys.deep_view() =~= reply_keys());
    match json_rows(cleaned.as_str(), &keys) {
        Some(rows) => lines_of(&rows),
        None => {
            let r: Vec<Line> = Vec::new();
            assert(r.deep_view() =~= Seq::<LineView>::empty());
            r
        },
    }
}

/// Reads the transactions of a statement out of what the assistant was asked for.
pub fn extracted_lines(answer: Result<String, String>) -> (r: Result<Vec<Line>, String>)
    ensures
        outcome(r) == match answer {
            Ok(reply) => Ok(stated_lines(reply@)),
            Err(e) => Err(e@),
        },
{
    match answer {
        Ok(reply) => Ok(reply_lines(reply.as_str())),
        Err(e) => Err(e),
    }
}

/// Where the last four bytes of a key begin.
pub open spec fn last_four(key: Seq<char>) -> int {
    if encode_utf8(key).len() > 4 {
        encode_utf8(key).len() - 4
    } else {
        0
    }
}

/// Where the first four bytes of a key end.
pub open spec fn first_four(key: Seq<char>) -> int {
    if encode_utf8(key).len() < 4 {
        encode_utf8(key).len() as int
    } else {
        4
    }
}

/// What may be shown of a key: its first and its last four bytes.
pub open spec fn preview(key: Option<Seq<char>>) -> Seq<char> {
    match key {
        None => "NOT SET"@,
        Some(key) => if key == "NOT SET"@ {
            "NOT SET"@
        } else {
            first_bytes(key, first_four(key)) + "..."@ + bytes_from(key, last_four(key))
        },
    }
}

/// Shows which key is configured without giving it away.
pub fn key_preview(key: &Option<String>) -> (r: String)
    requires
        key matches Some(k) ==> cuts_at(k@, first_four(k@)) && cuts_at(k@, last_four(k@)),
    ensures
        r@ == preview(key.deep_view()),
{
    match key {
        None => "NOT SET".to_string(),
        Some(key) => {
            if same(key.as_str(), "NOT SET") {
                return "NOT SET".to_string();
            }
            let len: usize = key.as_str().as_bytes().len();
            let head: usize = if len < 4 {
                len
            } else {
                4
            };
            let tail: usize = if len > 4 {
                len - 4
            } else {
                0
            };
            let mut r: String = take_bytes(key.as_str(), head);
            r.append("...");
            r.append(skip_bytes(key.as_str(), tail).as_str());
            r
        },
    }
}

/// The preview of a key never shows more than eight of its bytes: it is at most
/// eleven bytes long, dots included.
pub proof fn law_preview_is_short(key: Option<Seq<char>>)
    requires
        key matches Some(k) ==> cuts_at(k, first_four(k)) && cuts_at(k, last_four(k)),
    ensures
        encode_utf8(preview(key)).len() <= 11,
{
    reveal_strlit("NOT SET");
    reveal_strlit("...");
    vstd::utf8::is_ascii_chars_encode_utf8("NOT SET"@);
    vstd::utf8::is_ascii_chars_encode_utf8("..."@);
    if let Some(k) = key {
        if k != "NOT SET"@ {
            let bytes = encode_utf8(k);
            vstd::utf8::encode_utf8_valid_utf8(k);
            vstd::utf8::valid_utf8_split(bytes, first_four(k));
            vstd::utf8::valid_utf8_split(bytes, last_four(k));
            vstd::utf8::decode_utf8_encode_utf8(bytes.subrange(0, first_four(k)));
            vstd::utf8::decode_utf8_encode_utf8(
                bytes.subrange(last_four(k), bytes.len() as int),
            );
            lemma_encode_concat(first_bytes(k, first_four(k)), "..."@);
            lemma_encode_concat(
                first_bytes(k, first_four(k)) + "..."@,
                bytes_from(k, last_four(k)),
            );
        }
    }
}

/// Whether the assistant can be reached, from what a trial came to.
pub open spec fn reach(trial: Result<Seq<char>, Seq<char>>) -> Seq<char> {
    match trial {
        Ok(_) => "reachable"@,
        Err(e) => "error: "@ + e,
    }
}

/// Reports whether the assistant can be reached.
pub fn probe_status(trial: Result<String, String>) -> (r: String)
    ensures
        r@ == reach(outcome(trial)),
{
    match trial {
        Ok(_) => "reachable".to_string(),
        Err(e) => {
            let mut r: String = "error: ".to_string();
            r.append(e.as_str());
            r
        },
    }
}

/// What is asked to find out whether the assistant can be reached.
pub const PROBE: &'static str = "Say 'ok' and nothing else.";

/// Answers which key is set, and whether the assistant can be reached with it.
pub fn probe_reply(key: &Option<String>, trial: Result<String, String>) -> (r: Reply)
    requires
        key matches Some(k) ==> cuts_at(k@, first_four(k@)) && cuts_at(k@, last_four(k@)),
    ensures
        r.status == Status::Fine,
        r.body matches Body::Probe { key_preview, status } && key_preview@ == preview(
            key.deep_view(),
        ) && status@ == reach(outcome(trial)),
{
    let shown = key_preview(key);
    Reply {
        status: Status::Fine,
        body: Body::Probe { key_preview: shown, status: probe_status(trial) },
    }
}

/// Answers a chat with what the assistant said.
pub fn chat_reply(answer: Result<String, String>) -> (r: Reply)
    ensures
        answer matches Ok(text) ==> r.status == Status::Fine && (r.body matches Body::Reply(t)
            && t@ == text@),
        answer matches Err(e) ==> r.refuses(Status::Internal, e@),
{
    match answer {
        Ok(text) => Reply { status: Status::Fine, body: Body::Reply(text) },
        Err(e) => Reply::refusal(Status::Internal, e),
    }
}

} // verus!
