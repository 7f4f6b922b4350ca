//! Who is let in, and what is kept of users.

use vstd::prelude::*;

use crate::auth::{
    accepted, asks_security, claimed, gives_password, hands_out, named, registers, stores_answer,
    token_in, AccountUpdateRequest, BEARER, DEFAULT_SECRET, TOKEN_LIFETIME,
};
use crate::outside::{bcrypt_accepts, jwt_claims, shown_in_writing};
use crate::reply::{Body, Reply, Status};
use crate::store::{optional, owner, Param, ParamView, Statement, StatementView};

verus! {

/// A token lasts seven days, and what it is signed with has a default.
pub proof fn law_token_settings()
    ensures
        TOKEN_LIFETIME == 7 * 24 * 60 * 60,
        BEARER@ == "Bearer "@,
        DEFAULT_SECRET@ == "change_me_in_production"@,
{
}

/// The token of a request is what follows "Bearer " in its header. There is none
/// without a header, nor in one that begins otherwise.
pub proof fn law_token_in(token: Seq<char>, header: Seq<char>)
    ensures
        token_in(Some("Bearer "@ + token)) == Ok::<Seq<char>, Seq<char>>(token),
        (forall|t: Seq<char>| header != #[trigger] ("Bearer "@ + t)) ==> token_in(Some(header))
            == Err::<Seq<char>, Seq<char>>(
            "Invalid Authorization format, expected: Bearer <token>"@,
        ),
        token_in(None) == Err::<Seq<char>, Seq<char>>("Missing Authorization header"@),
{
    let whole = "Bearer "@ + token;
    assert(whole.subrange(0, "Bearer "@.len() as int) =~= "Bearer "@);
    assert(whole.skip("Bearer "@.len() as int) =~= token);
    if crate::text::begins_with(header, "Bearer "@) {
        let n = "Bearer "@.len() as int;
        assert(header =~= header.subrange(0, n) + header.skip(n));
        assert(header == "Bearer "@ + header.skip(n));
    }
}

/// Claims are about the user that they name, where they name one and a time of
/// expiry; a request is about the user whom its token claims, and about nobody where
/// it has no token.
pub proof fn law_claimed(
    user: i64,
    exp: u64,
    token: Seq<char>,
    secret: Seq<char>,
    header: Seq<char>,
)
    ensures
        claimed(Some((Some(user), Some(exp)))) == Some(user),
        claimed(Some((None, Some(exp)))) is None,
        claimed(Some((Some(user), None))) is None,
        claimed(Some((None, None))) is None,
        claimed(None) is None,
        named(Some("Bearer "@ + token), secret) == claimed(jwt_claims(token, secret)),
        named(None, secret) is None,
        (forall|t: Seq<char>| header != #[trigger] ("Bearer "@ + t)) ==> named(
            Some(header),
            secret,
        ) is None,
{
    law_token_in(token, header);
}

/// A token is handed out as it is, under the given status; without one the answer
/// is a failure.
pub proof fn law_hands_out(reply: Reply, status: Status, token: Seq<char>)
    ensures
        hands_out(reply, status, Some(token)) <==> reply.status == status && (
        reply.body matches Body::Token(t) && t@ == token),
        hands_out(reply, status, None) <==> reply.status == Status::Internal && (
        reply.body matches Body::Error(e) && e@ == "Failed to create token"@),
{
}

/// A refusal and a report carry their status and their words.
pub proof fn law_replies(reply: Reply, status: Status, message: Seq<char>)
    ensures
        reply.refuses(status, message) <==> reply.status == status && (
        reply.body matches Body::Error(e) && e@ == message),
        reply.reports(status, message) <==> reply.status == status && (
        reply.body matches Body::Message(m) && m@ == message),
{
}

/// A password is accepted where its hash says so. Registering, changing a password
/// and setting a security answer store a hash that accepts what was given, for the
/// user in question.
pub proof fn law_hashes_are_stored(
    s: StatementView,
    user: i64,
    email: Seq<char>,
    question: Seq<char>,
    word: Seq<char>,
    hash: Seq<char>,
)
    ensures
        accepted(word, hash) <==> bcrypt_accepts(word, hash) == Some(true),
        registers(s, email, word) ==> {
            &&& s.sql
                == "INSERT INTO users (email, password_hash, created_at) VALUES (?1, ?2, ?3)"@
            &&& s.params.len() == 3
            &&& s.params[0] == ParamView::Text(email)
            &&& s.params[1] matches ParamView::Text(h) && bcrypt_accepts(word, h) == Some(true)
            &&& s.params[2] matches ParamView::Text(t) && shown_in_writing(t)
        },
        gives_password(s, user, word) ==> {
            &&& s.sql == "UPDATE users SET password_hash = ?1 WHERE id = ?2"@
            &&& s.params.len() == 2
            &&& s.params[0] matches ParamView::Text(h) && bcrypt_accepts(word, h) == Some(true)
            &&& s.params[1] == ParamView::Integer(user)
        },
        stores_answer(s, user, question, word) ==> {
            &&& s.sql
                == "UPDATE users SET security_question = ?1, security_answer = ?2 WHERE id = ?3"@
            &&& s.params.len() == 3
            &&& s.params[0] == ParamView::Text(question)
            &&& s.params[1] matches ParamView::Text(h) && bcrypt_accepts(word, h) == Some(true)
            &&& s.params[2] == ParamView::Integer(user)
        },
{
}

/// The security question changes where a question and an answer were sent.
pub proof fn law_asks_security(request: AccountUpdateRequest)
    ensures
        asks_security(request) <==> request.security_question is Some && request.security_answer
            is Some,
{
}

/// What a statement says is what its fields hold, each parameter as it is.
pub proof fn law_statement_views(
    s: Statement,
    text: String,
    n: i64,
    amount: crate::amount::Amount,
    t: Seq<char>,
)
    ensures
        s.deep_view().sql == s.sql@,
        s.deep_view().params == s.params.deep_view(),
        Param::Text(text).deep_view() == ParamView::Text(text@),
        Param::Integer(n).deep_view() == ParamView::Integer(n),
        Param::Real(amount).deep_view() == ParamView::Real(amount),
        Param::Null.deep_view() == ParamView::Null,
        optional(Some(t)) == ParamView::Text(t),
        optional(None) == ParamView::Null,
        owner(Some(n)) == ParamView::Integer(n),
        owner(None) == ParamView::Null,
{
}

} // verus!
