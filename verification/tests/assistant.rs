use finad::assistant::{
    chat_prompt, chat_reply, claude_haiku, extracted_lines, extraction_prompt, judge_answer, key_preview,
    lines_of, message_request, probe_reply, probe_status, read_answer, reply_lines,
    strip_code_fences, Assistant, CHAT_OPENING, EXTRACTION,
};
use finad::exchange::Exchange;
use finad::reply::{Body, Status};

fn assistant() -> Assistant {
    Assistant { name: "Helper".to_string(), model: "helper-1".to_string() }
}

fn answered(success: bool, status: &str, body: &str) -> Exchange {
    Exchange::Answered { success, status: status.to_string(), body: body.to_string() }
}

#[test]
fn code_fences_come_off() {
    assert_eq!(strip_code_fences("```json\n[1]\n```"), "[1]");
    assert_eq!(strip_code_fences("```\n[1]\n```"), "[1]");
    assert_eq!(strip_code_fences("[1]"), "[1]");
    assert_eq!(strip_code_fences("  [1] \n"), "[1]");
    assert_eq!(strip_code_fences(""), "");
    assert_eq!(strip_code_fences("```"), "");
    assert_eq!(strip_code_fences("```json```json [1]``````"), "[1]");
    assert_eq!(strip_code_fences("a```b"), "a```b");
}

#[test]
fn code_fences_come_off_as_std_trims_them() {
    for s in ["``` ```json x```", "```json", "`````", " ```json\n{} ```\n", "x```", "```x"] {
        let expected = s
            .trim()
            .trim_start_matches("```json")
            .trim_start_matches("```")
            .trim_end_matches("```")
            .trim();
        assert_eq!(strip_code_fences(s), expected, "{:?}", s);
    }
}

#[test]
fn what_was_wrapped_is_trimmed() {
    for s in ["", " ", "`x`", " \t[1]\n\n", "```", "a ``` b", "```json\n1\n```"] {
        assert_eq!(strip_code_fences(&format!("```json\n{}\n```", s)), s.trim());
        assert_eq!(strip_code_fences(&format!("```\n{}\n```", s)), s.trim());
    }
    assert_eq!(strip_code_fences("`x`"), "`x`");
}

#[test]
fn the_model_is_a_haiku() {
    let helper = claude_haiku("Helper".to_string());
    assert_eq!(helper.name, "Helper");
    assert_eq!(helper.model, "helper-haiku-4-5-20251001");
}

#[test]
fn a_request_needs_a_key() {
    let request = message_request(&assistant(), Some("key".to_string()), "hello".to_string());
    let request = request.ok().expect("there is a key");
    assert_eq!(request.model, "helper-1");
    assert_eq!(request.max_tokens, 2048);
    assert_eq!(request.content, "hello");
    assert_eq!(request.api_key, "key");
    let refused = message_request(&assistant(), None, "hello".to_string());
    assert_eq!(
        refused.err(),
        Some("ANTHROPIC_API_KEY not set — check your .env file".to_string())
    );
}

#[test]
fn the_first_text_of_an_answer_counts() {
    let json = r#"{"content":[{"type":"text","text":"hi"},{"text":"no"}]}"#;
    assert_eq!(read_answer(&assistant(), answered(true, "200 OK", json)), Ok("hi".to_string()));
}

#[test]
fn other_answers_are_failures() {
    let failed = Exchange::Failed("no route".to_string());
    assert_eq!(read_answer(&assistant(), failed), Err("no route".to_string()));
    let refused = answered(false, "401 Unauthorized", r#"{"content":[{"text":"hi"}]}"#);
    assert_eq!(
        read_answer(&assistant(), refused),
        Err(r#"Helper API error 401 Unauthorized: {"content":[{"text":"hi"}]}"#.to_string())
    );
    for json in ["{}", r#"{"content":[]}"#, r#"{"content":[{"text":1}]}"#, "[]", "null"] {
        assert_eq!(
            read_answer(&assistant(), answered(true, "200 OK", json)),
            Err(format!("Unexpected Helper response shape: {}", json))
        );
    }
}

#[test]
fn an_answer_is_judged_by_its_text() {
    let text = Some("t".to_string());
    assert_eq!(
        judge_answer(&assistant(), Ok("j".to_string()), text.clone()),
        Ok("t".to_string())
    );
    assert_eq!(judge_answer(&assistant(), Err("e".to_string()), text), Err("e".to_string()));
    assert_eq!(
        judge_answer(&assistant(), Ok("j".to_string()), None),
        Err("Unexpected Helper response shape: j".to_string())
    );
}

#[test]
fn a_statement_is_sent_up_to_a_limit() {
    assert_eq!(extraction_prompt("abc"), format!("{}abc", EXTRACTION));
    let long = "x".repeat(30_000);
    assert_eq!(extraction_prompt(&long), format!("{}{}", EXTRACTION, "x".repeat(20_000)));
    let exact = "é".repeat(10_000);
    assert_eq!(extraction_prompt(&exact), format!("{}{}", EXTRACTION, exact));
    let cut = "é".repeat(10_001);
    assert_eq!(extraction_prompt(&cut), format!("{}{}", EXTRACTION, exact));
    assert!(EXTRACTION.starts_with(
        "You are a financial data extractor. From the bank/credit card statement below, \
         extract every purchase/expense transaction.\nReturn ONLY a JSON array."
    ));
    assert!(EXTRACTION.ends_with("only the JSON array.\n\nStatement:\n"));
}

#[test]
fn a_chat_is_opened_with_the_summary() {
    assert_eq!(
        chat_prompt("SUMMARY", "why?"),
        "You are a personal finance assistant. Here is the user's spending summary:\nSUMMARY\n\n\
         Answer the user's question concisely and helpfully. \
         Do not add any prefix or label to your response.\n\n\
         User: why?"
    );
    assert!(chat_prompt("", "").starts_with(CHAT_OPENING));
}

#[test]
fn replies_state_transactions() {
    let reply = "```json\n[\
        {\"date\":\"01/02/2026\",\"description\":\"CAFE\",\"amount\":4.5},\
        {\"date\":\"01/03/2026\",\"description\":\"SHOP\",\"amount\":\"$1,234.50\"},\
        {\"date\":\"01/04/2026\",\"description\":\"INT\",\"amount\":7},\
        {\"date\":\"01/05/2026\",\"amount\":1},\
        {\"description\":\"X\",\"amount\":1},\
        {\"date\":1,\"description\":\"X\",\"amount\":1},\
        {\"date\":\"d\",\"description\":\"X\",\"amount\":null},\
        5]\n```";
    let lines = reply_lines(reply);
    let found: Vec<(&str, &str, &str)> = lines
        .iter()
        .map(|l| (l.date.as_str(), l.description.as_str(), l.amount.as_str()))
        .collect();
    assert_eq!(
        found,
        vec![
            ("01/02/2026", "CAFE", "4.5"),
            ("01/03/2026", "SHOP", "1234.50"),
            ("01/04/2026", "INT", "7"),
        ]
    );
}

#[test]
fn replies_that_are_no_list_state_nothing() {
    for reply in ["", "{}", "sorry", "[", "{\"date\":\"d\"}"] {
        assert_eq!(reply_lines(reply).len(), 0);
    }
    assert_eq!(reply_lines("[]").len(), 0);
}

#[test]
fn an_extraction_fails_with_its_answer() {
    assert_eq!(extracted_lines(Err("down".to_string())).err(), Some("down".to_string()));
    assert_eq!(extracted_lines(Ok("no".to_string())).ok().expect("an answer").len(), 0);
    let one = "[{\"date\":\"d\",\"description\":\"X\",\"amount\":1}]".to_string();
    assert_eq!(extracted_lines(Ok(one)).ok().expect("an answer").len(), 1);
}

#[test]
fn numbers_come_before_texts() {
    let text = |s: &str| Some(s.to_string());
    let rows = vec![vec![(text("d"), None), (text("x"), None), (text("$9"), text("8"))]];
    assert_eq!(lines_of(&rows)[0].amount, "8");
    let rows = vec![vec![(text("d"), None), (text("x"), None), (text("$9,0"), None)]];
    assert_eq!(lines_of(&rows)[0].amount, "90");
}

#[test]
fn keys_are_previewed() {
    let shown = |key: &str| key_preview(&Some(key.to_string()));
    assert_eq!(shown("sk-abcdefgh"), "sk-a...efgh");
    assert_eq!(shown("abc"), "abc...abc");
    assert_eq!(shown("abcd"), "abcd...abcd");
    assert_eq!(shown(""), "...");
    assert_eq!(shown("NOT SET"), "NOT SET");
    assert_eq!(key_preview(&None), "NOT SET");
    assert!(shown(&"x".repeat(100)).len() <= 11);
}

#[test]
fn a_probe_reports_reach() {
    assert_eq!(probe_status(Ok("ok".to_string())), "reachable");
    assert_eq!(probe_status(Err("down".to_string())), "error: down");
    let reply = probe_reply(&None, Err("x".to_string()));
    assert_eq!(reply.status, Status::Fine);
    match reply.body {
        Body::Probe { key_preview, status } => {
            assert_eq!(key_preview, "NOT SET");
            assert_eq!(status, "error: x");
        }
        _ => panic!("no probe"),
    }
}

#[test]
fn a_chat_is_answered() {
    let reply = chat_reply(Ok("fine".to_string()));
    assert_eq!(reply.status, Status::Fine);
    assert!(matches!(reply.body, Body::Reply(t) if t == "fine"));
    let reply = chat_reply(Err("down".to_string()));
    assert_eq!(reply.status, Status::Internal);
    assert!(matches!(reply.body, Body::Error(e) if e == "down"));
}
