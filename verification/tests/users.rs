use finad::auth::{
    authenticate, authorize, bearer_token, begin_update, change_password, change_password_with,
    check_current, continue_update, continue_update_with, create_token, end_update, find_hash,
    find_profile, find_user, issue, let_in, login, password_changed, profile_reply, register,
    register_with, registered, token_at, token_secret, AccountUpdateRequest, AuthRequest,
    ChangePasswordRequest,
};
use finad::reply::{Body, Reply, Status};
use finad::store::{Param, Statement};

fn refused(reply: &Reply, status: Status, message: &str) -> bool {
    reply.status == status && matches!(&reply.body, Body::Error(m) if m == message)
}

fn text(param: &Param) -> String {
    match param {
        Param::Text(t) => t.clone(),
        _ => panic!("no text"),
    }
}

fn integer(param: &Param) -> i64 {
    match param {
        Param::Integer(n) => *n,
        _ => panic!("no integer"),
    }
}

fn request(password: &str) -> AuthRequest {
    AuthRequest { email: "a@b.c".to_string(), password: password.to_string() }
}

fn bearer(token: &str) -> Option<String> {
    Some(format!("Bearer {}", token))
}

#[test]
fn the_secret_has_a_default() {
    assert_eq!(token_secret(None), "change_me_in_production");
    assert_eq!(token_secret(Some("s".to_string())), "s");
}

#[test]
fn headers_hold_tokens() {
    assert_eq!(bearer_token(&bearer("t")), Ok("t".to_string()));
    assert_eq!(bearer_token(&bearer("")), Ok(String::new()));
    assert_eq!(bearer_token(&None), Err("Missing Authorization header".to_string()));
    for header in ["", "Bearer", "bearer t", "Basic t"] {
        assert_eq!(
            bearer_token(&Some(header.to_string())),
            Err("Invalid Authorization format, expected: Bearer <token>".to_string())
        );
    }
}

#[test]
fn claims_name_users() {
    assert_eq!(authorize(Some((Some(5), Some(1)))).ok().expect("a user").user_id, 5);
    for claims in [None, Some((None, Some(1))), Some((Some(5), None))] {
        let reply = authorize(claims).err().expect("a refusal");
        assert!(refused(&reply, Status::Unauthorized, "Invalid or expired token"));
    }
}

#[test]
fn a_token_is_its_users() {
    for user in [1i64, 42, i64::MAX, -3] {
        let token = create_token(user, "secret").expect("a token");
        let sender = authenticate(&bearer(&token), "secret").ok().expect("a sender");
        assert_eq!(sender.user_id, user);
    }
}

#[test]
fn a_token_of_another_secret_is_nobodys() {
    let token = create_token(1, "secret").expect("a token");
    let reply = authenticate(&bearer(&token), "other").err().expect("a refusal");
    assert!(refused(&reply, Status::Unauthorized, "Invalid or expired token"));
    for broken in ["", "x", "a.b.c", &token[..token.len() - 1], &format!("{}x", token)] {
        assert!(authenticate(&bearer(broken), "secret").is_err());
    }
}

#[test]
fn an_expired_token_is_nobodys() {
    // Seven days after the first second of 1970.
    let token = token_at(1, 0, "secret").expect("a token");
    let reply = authenticate(&bearer(&token), "secret").err().expect("a refusal");
    assert!(refused(&reply, Status::Unauthorized, "Invalid or expired token"));
    // A token of the far future has not expired.
    let token = token_at(1, 4_000_000_000, "secret").expect("a token");
    assert!(authenticate(&bearer(&token), "secret").is_ok());
}

#[test]
fn a_token_is_written_with_its_subject_first() {
    // {"typ":"JWT","alg":"HS256"}, then {"sub":1,"exp":604805}, signed with "s".
    let token = [
        "eyJ0eXAiOiJKV1QiLCJhbGciOiJIUzI1NiJ9",
        "eyJzdWIiOjEsImV4cCI6NjA0ODA1fQ",
        "4ZpLfN533AdR7omeWLdwG21z0YmGyEQN5L-vf5YYT1U",
    ]
    .join(".");
    assert_eq!(token_at(1, 5, "s"), Some(token));
}

#[test]
fn a_token_depends_on_its_claims_alone() {
    assert_eq!(token_at(1, 5, "s"), token_at(1, 5, "s"));
    assert_ne!(token_at(1, 5, "s"), token_at(2, 5, "s"));
    assert_ne!(token_at(1, 5, "s"), token_at(1, 6, "s"));
    assert_ne!(token_at(1, 5, "s"), token_at(1, 5, "t"));
}

#[test]
fn a_request_without_a_token_is_refused() {
    let reply = authenticate(&None, "secret").err().expect("a refusal");
    assert!(refused(&reply, Status::Unauthorized, "Missing Authorization header"));
    let reply = authenticate(&Some("x".to_string()), "secret").err().expect("a refusal");
    assert!(refused(
        &reply,
        Status::Unauthorized,
        "Invalid Authorization format, expected: Bearer <token>"
    ));
}

#[test]
fn tokens_are_handed_out() {
    let reply = issue(Status::Created, Some("t".to_string()));
    assert_eq!(reply.status, Status::Created);
    assert!(matches!(reply.body, Body::Token(t) if t == "t"));
    assert!(refused(&issue(Status::Fine, None), Status::Internal, "Failed to create token"));
}

fn token_of(reply: Reply) -> String {
    match reply.body {
        Body::Token(t) => t,
        _ => panic!("no token"),
    }
}

#[test]
fn whoever_registers_can_log_in() {
    let statement: Statement = register(&request("pass word")).ok().expect("a statement");
    assert_eq!(
        statement.sql,
        "INSERT INTO users (email, password_hash, created_at) VALUES (?1, ?2, ?3)"
    );
    assert_eq!(text(&statement.params[0]), "a@b.c");
    let hash = text(&statement.params[1]);
    assert_ne!(hash, "pass word");
    let reply = login(&request("pass word"), &Some((9, hash.clone())), "secret");
    assert_eq!(reply.status, Status::Fine);
    let sender = authenticate(&bearer(&token_of(reply)), "secret").ok().expect("a sender");
    assert_eq!(sender.user_id, 9);
    let reply = login(&request("pass-word"), &Some((9, hash)), "secret");
    assert!(refused(&reply, Status::Unauthorized, "Invalid credentials"));
}

#[test]
fn strangers_cannot_log_in() {
    let reply = login(&request("x"), &None, "secret");
    assert!(refused(&reply, Status::Unauthorized, "Invalid credentials"));
    // What was stored is no hash.
    let reply = login(&request("x"), &Some((9, "x".to_string())), "secret");
    assert!(refused(&reply, Status::Unauthorized, "Invalid credentials"));
    assert_eq!(let_in(Some(1), Some(true)), Some(1));
    assert_eq!(let_in(Some(1), Some(false)), None);
    assert_eq!(let_in(Some(1), None), None);
    assert_eq!(let_in(None, Some(true)), None);
}

#[test]
fn a_registration_needs_a_hash() {
    let statement = register_with("e", Some("h".to_string()), "t".to_string());
    let params = statement.ok().expect("a statement").params;
    assert_eq!(params.iter().map(text).collect::<Vec<_>>(), vec!["e", "h", "t"]);
    let reply = register_with("e", None, "t".to_string()).err().expect("a refusal");
    assert!(refused(&reply, Status::Internal, "Failed to hash password"));
}

#[test]
fn a_registration_ends_with_a_token() {
    let reply = registered(Ok(4), "secret");
    assert_eq!(reply.status, Status::Created);
    let sender = authenticate(&bearer(&token_of(reply)), "secret").ok().expect("a sender");
    assert_eq!(sender.user_id, 4);
    let taken = registered(Err("UNIQUE constraint failed: users.email".to_string()), "secret");
    assert!(refused(&taken, Status::Conflict, "Email already registered"));
    let failed = registered(Err("disk full".to_string()), "secret");
    assert!(refused(&failed, Status::Internal, "disk full"));
}

#[test]
fn users_are_asked_for() {
    let statement = find_user("a@b.c");
    assert_eq!(statement.sql, "SELECT id, password_hash FROM users WHERE email = ?1");
    assert_eq!(text(&statement.params[0]), "a@b.c");
    assert_eq!(integer(&find_profile(3).params[0]), 3);
    assert_eq!(integer(&find_hash(3).params[0]), 3);
}

#[test]
fn profiles_are_shown() {
    let row = ("e".to_string(), Some("p".to_string()), None);
    match profile_reply(Ok(row)).body {
        Body::Profile { email, phone, security_question } => {
            assert_eq!(email, "e");
            assert_eq!(phone, Some("p".to_string()));
            assert!(security_question.is_none());
        }
        _ => panic!("no profile"),
    }
    assert!(refused(&profile_reply(Err("x".to_string())), Status::Internal, "x"));
}

fn update(phone: Option<&str>, question: Option<&str>, answer: Option<&str>) -> AccountUpdateRequest {
    AccountUpdateRequest {
        phone: phone.map(|s| s.to_string()),
        security_question: question.map(|s| s.to_string()),
        security_answer: answer.map(|s| s.to_string()),
    }
}

#[test]
fn phones_are_updated() {
    let statement = begin_update(3, &update(Some("1"), None, None)).expect("a statement");
    assert_eq!(statement.sql, "UPDATE users SET phone = ?1 WHERE id = ?2");
    assert_eq!(text(&statement.params[0]), "1");
    assert_eq!(integer(&statement.params[1]), 3);
    assert!(begin_update(3, &update(None, Some("q"), Some("a"))).is_none());
}

#[test]
fn security_questions_need_answers() {
    let both = update(None, Some("q"), Some("a"));
    let statement = continue_update(3, &both, Ok(())).ok().expect("no refusal");
    let statement = statement.expect("a statement");
    assert_eq!(
        statement.sql,
        "UPDATE users SET security_question = ?1, security_answer = ?2 WHERE id = ?3"
    );
    assert_eq!(text(&statement.params[0]), "q");
    assert_ne!(text(&statement.params[1]), "a");
    let reply = login(&request("a"), &Some((3, text(&statement.params[1]))), "secret");
    assert_eq!(reply.status, Status::Fine);
    assert_eq!(integer(&statement.params[2]), 3);
    for half in [update(None, Some("q"), None), update(None, None, Some("a"))] {
        assert!(continue_update(3, &half, Ok(())).ok().expect("no refusal").is_none());
    }
    let failed = continue_update(3, &both, Err("locked".to_string())).err().expect("a refusal");
    assert!(refused(&failed, Status::Internal, "locked"));
    let failed = continue_update_with(3, &both, Ok(()), None).err().expect("a refusal");
    assert!(refused(&failed, Status::Internal, "Failed to hash answer"));
}

#[test]
fn updates_end() {
    let reply = end_update(Ok(()));
    assert_eq!(reply.status, Status::Fine);
    assert!(matches!(reply.body, Body::Message(m) if m == "Account updated"));
    assert!(refused(&end_update(Err("x".to_string())), Status::Internal, "x"));
}

fn change(current: &str, new: &str) -> ChangePasswordRequest {
    ChangePasswordRequest { current_password: current.to_string(), new_password: new.to_string() }
}

#[test]
fn whoever_changes_the_password_can_log_in() {
    let stored = register(&request("old")).ok().expect("a statement");
    let hash = text(&stored.params[1]);
    let changed = change_password(3, &change("old", "new"), Ok(hash.clone()));
    let statement = changed.ok().expect("a statement");
    assert_eq!(statement.sql, "UPDATE users SET password_hash = ?1 WHERE id = ?2");
    assert_eq!(integer(&statement.params[1]), 3);
    let new_hash = text(&statement.params[0]);
    let reply = login(&request("new"), &Some((3, new_hash.clone())), "secret");
    assert_eq!(reply.status, Status::Fine);
    let reply = login(&request("old"), &Some((3, new_hash)), "secret");
    assert_eq!(reply.status, Status::Unauthorized);
    let wrong = change_password(3, &change("odl", "new"), Ok(hash)).err().expect("a refusal");
    assert!(refused(&wrong, Status::Unauthorized, "Current password is incorrect"));
}

#[test]
fn a_change_of_password_can_fail() {
    let request = change("old", "new");
    let failed = change_password(3, &request, Err("locked".to_string())).err();
    assert!(refused(&failed.expect("a refusal"), Status::Internal, "locked"));
    let failed = change_password(3, &request, Ok("no hash".to_string())).err();
    assert!(refused(
        &failed.expect("a refusal"),
        Status::Internal,
        "Password verification failed"
    ));
    let failed = change_password_with(3, None).err().expect("a refusal");
    assert!(refused(&failed, Status::Internal, "Failed to hash password"));
    assert!(check_current(Some(true)).is_none());
    let reply = password_changed(Ok(()));
    assert!(matches!(reply.body, Body::Message(m) if m == "Password changed successfully"));
    assert!(refused(&password_changed(Err("x".to_string())), Status::Internal, "x"));
}
