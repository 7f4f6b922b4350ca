//! Users: registering, logging in, telling who sends a request, and keeping the
//! profile.

use vstd::prelude::*;

use crate::outside::{
    bcrypt_accepts, decode_token, encode_token, hash_password, jwt, jwt_claims, now,
    now_in_writing, refused, shown, shown_in_writing, unhashed, verify_password,
};
use crate::record::outcome;
use crate::reply::{Body, Reply, Status};
use crate::store::{
    about, with_one, with_three, with_two, Param, ParamView, Statement, StatementView,
};
use crate::text::{begins_with, chars_of, contains, occurs_in, strip_prefix};

verus! {

/// The secret that tokens are signed with where none is configured.
pub const DEFAULT_SECRET: &'static str = "change_me_in_production";

/// How long a token is good for, in seconds: seven days.
pub const TOKEN_LIFETIME: i64 = 604_800;

/// What stands before the token in the header of a request.
pub const BEARER: &'static str = "Bearer ";

/// The sender of a request.
pub struct AuthUser {
    pub user_id: i64,
}

/// The secret that tokens are signed with.
pub fn token_secret(configured: Option<String>) -> (r: String)
    ensures
        r@ == match configured {
            Some(secret) => secret@,
            None => DEFAULT_SECRET@,
        },
{
    match configured {
        Some(secret) => secret,
        None => DEFAULT_SECRET.to_string(),
    }
}

/// The token in the header of a request, or why there is none.
pub open spec fn token_in(header: Option<Seq<char>>) -> Result<Seq<char>, Seq<char>> {
    match header {
        None => Err("Missing Authorization header"@),
        Some(header) => if begins_with(header, BEARER@) {
            Ok(header.skip(BEARER@.len() as int))
        } else {
            Err("Invalid Authorization format, expected: Bearer <token>"@)
        },
    }
}

/// Takes the token out of the header of a request.
pub fn bearer_token(header: &Option<String>) -> (r: Result<String, String>)
    ensures
        outcome(r) == token_in(header.deep_view()),
{
    match header {
        None => Err("Missing Authorization header".to_string()),
        Some(header) => match strip_prefix(header.as_str(), BEARER) {
            Some(token) => Ok(token),
            None => Err("Invalid Authorization format, expected: Bearer <token>".to_string()),
        },
    }
}

/// The user whom claims are about. Claims without an integer for the user and one
/// for the time of expiry are about nobody.
pub open spec fn claimed(claims: Option<(Option<i64>, Option<u64>)>) -> Option<i64> {
    match claims {
        Some((Some(user), Some(_))) => Some(user),
        _ => None,
    }
}

/// Decides who sent a request, from the claims of its token: nobody where there
/// are none.
pub fn authorize(claims: Option<(Option<i64>, Option<u64>)>) -> (r: Result<AuthUser, Reply>)
    ensures
        match claimed(claims) {
            Some(user) => r matches Ok(sender) && sender.user_id == user,
            None => r matches Err(reply) && reply.refuses(
                Status::Unauthorized,
                "Invalid or expired token"@,
            ),
        },
{
    match claims {
        Some((Some(user_id), Some(_))) => Ok(AuthUser { user_id }),
        _ => Err(Reply::refusal(Status::Unauthorized, "Invalid or expired token".to_string())),
    }
}

/// The user whom the token of a request was issued for under that secret.
pub open spec fn named(header: Option<Seq<char>>, secret: Seq<char>) -> Option<i64> {
    match token_in(header) {
        Ok(token) => claimed(jwt_claims(token, secret)),
        Err(_) => None,
    }
}

/// Tells who sends a request. A request whose token names nobody is refused; one
/// whose token names a user is taken as that user's, unless decoding the token was
/// refused, as it is where the token has expired.
pub fn authenticate(header: &Option<String>, secret: &str) -> (r: Result<AuthUser, Reply>)
    ensures
        r matches Ok(sender) ==> named(header.deep_view(), secret@) == Some(sender.user_id),
        r matches Err(reply) ==> reply.refuses(
            Status::Unauthorized,
            match token_in(header.deep_view()) {
                Ok(_) => "Invalid or expired token"@,
                Err(e) => e,
            },
        ),
        r is Err ==> (token_in(header.deep_view()) matches Ok(token) ==> refused(token, secret@)
            || named(header.deep_view(), secret@) is None),
{
    match bearer_token(header) {
        Ok(token) => authorize(decode_token(token.as_str(), secret)),
        Err(e) => Err(Reply::refusal(Status::Unauthorized, e)),
    }
}

/// Issues a token for the user at that time.
pub fn token_at(user: i64, time: i64, secret: &str) -> (r: Option<String>)
    requires
        0 <= time <= i64::MAX - TOKEN_LIFETIME,
    ensures
        r.deep_view() == jwt(user, (time + TOKEN_LIFETIME) as u64, secret@),
        r matches Some(token) ==> jwt_claims(token@, secret@) == Some(
            (Some(user), Some((time + TOKEN_LIFETIME) as u64)),
        ),
{
    let exp: u64 = (time + TOKEN_LIFETIME) as u64;
    encode_token(user, exp, secret)
}

/// The last moment that a clock can show, in seconds since 1970, and a bit more.
pub const END_OF_TIME: i64 = 9_000_000_000_000;

/// The token is the user's: it expires a lifetime after a moment that the clock
/// showed, and reads back as theirs.
pub open spec fn is_token_of(token: Option<Seq<char>>, user: i64, secret: Seq<char>) -> bool {
    exists|moment: i64|
        {
            &&& #[trigger] shown(moment)
            &&& 0 <= moment < END_OF_TIME
            &&& token == jwt(user, (moment + TOKEN_LIFETIME) as u64, secret)
            &&& token matches Some(t) ==> jwt_claims(t, secret) == Some(
                (Some(user), Some((moment + TOKEN_LIFETIME) as u64)),
            )
        }
}

/// Issues a token for the user that is good from now on.
pub fn create_token(user: i64, secret: &str) -> (r: Option<String>)
    ensures
        is_token_of(r.deep_view(), user, secret@),
{
    token_at(user, now(), secret)
}

/// A request that carries a token issued for a user names that user, and so it is
/// never taken as anybody else's.
pub proof fn law_issued_token_is_recognised(token: Seq<char>, secret: Seq<char>, user: i64)
    requires
        is_token_of(Some(token), user, secret),
    ensures
        named(Some(BEARER@ + token), secret) == Some(user),
{
    assert((BEARER@ + token).subrange(0, BEARER@.len() as int) =~= BEARER@);
    assert((BEARER@ + token).skip(BEARER@.len() as int) =~= token);
}

/// A token that was issued for a user claims that user, and expires seven days
/// after a moment that the clock showed.
pub proof fn law_token_lasts_seven_days(token: Seq<char>, secret: Seq<char>, user: i64)
    requires
        is_token_of(Some(token), user, secret),
    ensures
        exists|moment: i64| #[trigger]
            shown(moment) && 0 <= moment < END_OF_TIME && jwt_claims(token, secret) == Some(
                (Some(user), Some((moment + 7 * 24 * 60 * 60) as u64)),
            ) && jwt(user, (moment + 7 * 24 * 60 * 60) as u64, secret) == Some(token),
{
}

/// Whoever registers or logs in is answered with a token of their own, which
/// expires seven days after a moment that the clock showed, or told that there is
/// none, where none could be made.
pub proof fn law_answer_holds_the_users_token(
    reply: Reply,
    status: Status,
    user: i64,
    secret: Seq<char>,
)
    requires
        hands_out_for(reply, status, user, secret),
    ensures
        exists|moment: i64|
            {
                &&& #[trigger] shown(moment)
                &&& 0 <= moment < END_OF_TIME
                &&& match jwt(user, (moment + 7 * 24 * 60 * 60) as u64, secret) {
                    Some(token) => reply.status == status && (reply.body matches Body::Token(t)
                        && t@ == token),
                    None => reply.status == Status::Internal && (reply.body matches Body::Error(e)
                        && e@ == "Failed to create token"@),
                }
            },
{
    let token = choose|token: Option<Seq<char>>| #[trigger]
        hands_out(reply, status, token) && is_token_of(token, user, secret);
    let moment = choose|moment: i64|
        {
            &&& #[trigger] shown(moment)
            &&& 0 <= moment < END_OF_TIME
            &&& token == jwt(user, (moment + TOKEN_LIFETIME) as u64, secret)
            &&& token matches Some(t) ==> jwt_claims(t, secret) == Some(
                (Some(user), Some((moment + TOKEN_LIFETIME) as u64)),
            )
        };
    assert(shown(moment));
}

/// The answer hands out the token, or reports that there is none.
pub open spec fn hands_out(reply: Reply, status: Status, token: Option<Seq<char>>) -> bool {
    match token {
        Some(token) => reply.status == status && (reply.body matches Body::Token(t) && t@ == token),
        None => reply.refuses(Status::Internal, "Failed to create token"@),
    }
}

/// Hands out a token.
pub fn issue(status: Status, token: Option<String>) -> (r: Reply)
    ensures
        hands_out(r, status, token.deep_view()),
{
    match token {
        Some(token) => Reply { status, body: Body::Token(token) },
        None => Reply::refusal(Status::Internal, "Failed to create token".to_string()),
    }
}

/// The answer hands out a token of the user, or reports that there is none.
pub open spec fn hands_out_for(reply: Reply, status: Status, user: i64, secret: Seq<char>) -> bool {
    exists|token: Option<Seq<char>>| #[trigger]
        hands_out(reply, status, token) && is_token_of(token, user, secret)
}

/// What is sent to register or to log in.
pub struct AuthRequest {
    pub email: String,
    pub password: String,
}

/// Adds a user.
pub const INSERT_USER: &'static str = "INSERT INTO users (email, password_hash, created_at) VALUES (?1, ?2, ?3)";

/// The statement that adds a user.
pub open spec fn new_user(email: Seq<char>, hash: Seq<char>, created_at: Seq<char>) -> StatementView {
    StatementView {
        sql: INSERT_USER@,
        params: seq![
            ParamView::Text(email),
            ParamView::Text(hash),
            ParamView::Text(created_at),
        ],
    }
}

/// Adds a user whose password has that hash, or reports that it could not be
/// hashed.
pub fn register_with(email: &str, hash: Option<String>, created_at: String) -> (r: Result<
    Statement,
    Reply,
>)
    ensures
        match hash {
            Some(hash) => r matches Ok(s) && s.deep_view() == new_user(
                email@,
                hash@,
                created_at@,
            ),
            None => r matches Err(reply) && reply.refuses(
                Status::Internal,
                "Failed to hash password"@,
            ),
        },
{
    match hash {
        Some(hash) => Ok(
            with_three(
                INSERT_USER,
                Param::Text(email.to_string()),
                Param::Text(hash),
                Param::Text(created_at),
            ),
        ),
        None => Err(Reply::refusal(Status::Internal, "Failed to hash password".to_string())),
    }
}

/// A password is accepted against the hash that was stored for a user.
pub open spec fn accepted(password: Seq<char>, hash: Seq<char>) -> bool {
    bcrypt_accepts(password, hash) == Some(true)
}

/// The statement adds a user with that email, whose password is the one given and
/// is stored as a hash that accepts it.
pub open spec fn registers(s: StatementView, email: Seq<char>, password: Seq<char>) -> bool {
    exists|hash: Seq<char>, created_at: Seq<char>|
        s == #[trigger] new_user(email, hash, created_at) && accepted(password, hash)
            && shown_in_writing(created_at)
}

/// Registers a user: stores the email and a hash of the password.
pub fn register(request: &AuthRequest) -> (r: Result<Statement, Reply>)
    ensures
        match r {
            Ok(s) => registers(s.deep_view(), request.email@, request.password@),
            Err(reply) => unhashed(request.password@) && reply.refuses(
                Status::Internal,
                "Failed to hash password"@,
            ),
        },
{
    let hash = hash_password(request.password.as_str());
    let created_at = now_in_writing();
    register_with(request.email.as_str(), hash, created_at)
}

/// Ends a registration, once the user was added under that number or could not
/// be: hands out a token, or reports that the email is taken or what else failed.
pub fn registered(added: Result<i64, String>, secret: &str) -> (r: Reply)
    ensures
        match added {
            Ok(user) => hands_out_for(r, Status::Created, user, secret@),
            Err(e) => if occurs_in(e@, "UNIQUE"@) {
                r.refuses(Status::Conflict, "Email already registered"@)
            } else {
                r.refuses(Status::Internal, e@)
            },
        },
{
    match added {
        Ok(user) => issue(Status::Created, create_token(user, secret)),
        Err(e) => {
            let chars = chars_of(e.as_str());
            if contains(&chars, "UNIQUE") {
                Reply::refusal(Status::Conflict, "Email already registered".to_string())
            } else {
                Reply::refusal(Status::Internal, e)
            }
        },
    }
}

/// The user with that email, and the hash of the password.
pub const FIND_USER: &'static str = "SELECT id, password_hash FROM users WHERE email = ?1";

/// Asks for the user with that email.
pub fn find_user(email: &str) -> (r: Statement)
    ensures
        r.deep_view() == (StatementView {
            sql: FIND_USER@,
            params: seq![ParamView::Text(email@)],
        }),
{
    with_one(FIND_USER, Param::Text(email.to_string()))
}

/// Decides whom a password lets in, from what was found under the email and what
/// the hash said to the password.
pub fn let_in(user: Option<i64>, checked: Option<bool>) -> (r: Option<i64>)
    ensures
        r == if checked == Some(true) {
            user
        } else {
            None
        },
{
    match checked {
        Some(true) => user,
        _ => None,
    }
}

/// Ends a login, once the user was looked up: hands out a token where the
/// password is the user's, and else reports no more than that it is not, or that
/// there is no such user.
pub fn login(request: &AuthRequest, found: &Option<(i64, String)>, secret: &str) -> (r: Reply)
    ensures
        match *found {
            Some((user, hash)) => if accepted(request.password@, hash@) {
                hands_out_for(r, Status::Fine, user, secret@)
            } else {
                r.refuses(Status::Unauthorized, "Invalid credentials"@)
            },
            None => r.refuses(Status::Unauthorized, "Invalid credentials"@),
        },
{
    let admitted: Option<i64> = match found {
        Some((user, hash)) => let_in(
            Some(*user),
            verify_password(request.password.as_str(), hash.as_str()),
        ),
        None => None,
    };
    match admitted {
        Some(user) => issue(Status::Fine, create_token(user, secret)),
        None => Reply::refusal(Status::Unauthorized, "Invalid credentials".to_string()),
    }
}

/// Whoever was registered is let in with the password of the registration, from
/// what the registration stored: the email and the hash that a login looks up.
pub proof fn law_registered_password_lets_in(
    s: StatementView,
    email: Seq<char>,
    password: Seq<char>,
)
    requires
        registers(s, email, password),
    ensures
        s.params[0] == ParamView::Text(email),
        s.params[1] matches ParamView::Text(hash) && accepted(password, hash),
{
}

/// The profile of a user.
pub const FIND_PROFILE: &'static str = "SELECT email, phone, security_question FROM users WHERE id = ?1";

/// Asks for the profile of the user.
pub fn find_profile(user: i64) -> (r: Statement)
    ensures
        r.deep_view() == about(FIND_PROFILE@, user),
{
    with_one(FIND_PROFILE, Param::Integer(user))
}

/// What is known of a user: the email, the phone and the security question.
pub type ProfileRow = (String, Option<String>, Option<String>);

/// Shows the profile of the user.
pub fn profile_reply(found: Result<ProfileRow, String>) -> (r: Reply)
    ensures
        match found {
            Ok(row) => {
                &&& r.status == Status::Fine
                &&& r.body matches Body::Profile { email, phone, security_question } && email@
                    == row.0@ && phone.deep_view() == row.1.deep_view()
                    && security_question.deep_view() == row.2.deep_view()
            },
            Err(e) => r.refuses(Status::Internal, e@),
        },
{
    match found {
        Ok((email, phone, security_question)) => Reply {
            status: Status::Fine,
            body: Body::Profile { email, phone, security_question },
        },
        Err(e) => Reply::refusal(Status::Internal, e),
    }
}

/// What is to be changed in a profile.
pub struct AccountUpdateRequest {
    pub phone: Option<String>,
    pub security_question: Option<String>,
    pub security_answer: Option<String>,
}

/// Changes the phone of a user.
pub const UPDATE_PHONE: &'static str = "UPDATE users SET phone = ?1 WHERE id = ?2";

/// Changes the security question of a user, with its answer.
pub const UPDATE_SECURITY: &'static str = "UPDATE users SET security_question = ?1, security_answer = ?2 WHERE id = ?3";

/// The statement that changes the phone of the user.
pub open spec fn new_phone(user: i64, phone: Seq<char>) -> StatementView {
    StatementView {
        sql: UPDATE_PHONE@,
        params: seq![ParamView::Text(phone), ParamView::Integer(user)],
    }
}

/// The statement that changes the security question of the user.
pub open spec fn new_security(user: i64, question: Seq<char>, hash: Seq<char>) -> StatementView {
    StatementView {
        sql: UPDATE_SECURITY@,
        params: seq![
            ParamView::Text(question),
            ParamView::Text(hash),
            ParamView::Integer(user),
        ],
    }
}

/// Begins to update a profile: the phone comes first, where there is one.
pub fn begin_update(user: i64, request: &AccountUpdateRequest) -> (r: Option<Statement>)
    ensures
        r.deep_view() == match request.phone {
            Some(phone) => Some(new_phone(user, phone@)),
            None => None,
        },
{
    match &request.phone {
        Some(phone) => Some(
            with_two(UPDATE_PHONE, Param::Text(phone.clone()), Param::Integer(user)),
        ),
        None => None,
    }
}

/// The request changes the security question: it has a question and an answer.
pub open spec fn asks_security(request: AccountUpdateRequest) -> bool {
    request.security_question is Some && request.security_answer is Some
}

/// Goes on to the security question with the hash of its answer, once the phone
/// was changed, where it was to be. A question without an answer, or an answer
/// without a question, changes nothing.
pub fn continue_update_with(
    user: i64,
    request: &AccountUpdateRequest,
    phone: Result<(), String>,
    hash: Option<String>,
) -> (r: Result<Option<Statement>, Reply>)
    ensures
        match (phone, asks_security(*request), hash) {
            (Err(e), _, _) => r matches Err(reply) && reply.refuses(Status::Internal, e@),
            (Ok(_), false, _) => r matches Ok(s) && s is None,
            (Ok(_), true, Some(hash)) => r matches Ok(Some(s)) && s.deep_view() == new_security(
                user,
                request.security_question->0@,
                hash@,
            ),
            (Ok(_), true, None) => r matches Err(reply) && reply.refuses(
                Status::Internal,
                "Failed to hash answer"@,
            ),
        },
{
    if let Err(e) = phone {
        return Err(Reply::refusal(Status::Internal, e));
    }
    match (&request.security_question, &request.security_answer) {
        (Some(question), Some(_)) => match hash {
            Some(hash) => Ok(
                Some(
                    with_three(
                        UPDATE_SECURITY,
                        Param::Text(question.clone()),
                        Param::Text(hash),
                        Param::Integer(user),
                    ),
                ),
            ),
            None => Err(Reply::refusal(Status::Internal, "Failed to hash answer".to_string())),
        },
        _ => Ok(None),
    }
}

/// The statement stores the security question, with a hash that accepts the
/// answer.
pub open spec fn stores_answer(
    s: StatementView,
    user: i64,
    question: Seq<char>,
    answer: Seq<char>,
) -> bool {
    exists|hash: Seq<char>|
        s == #[trigger] new_security(user, question, hash) && accepted(answer, hash)
}

/// Goes on to the security question, once the phone was changed, where it was to
/// be.
pub fn continue_update(
    user: i64,
    request: &AccountUpdateRequest,
    phone: Result<(), String>,
) -> (r: Result<Option<Statement>, Reply>)
    ensures
        match (phone, asks_security(*request)) {
            (Err(e), _) => r matches Err(reply) && reply.refuses(Status::Internal, e@),
            (Ok(_), false) => r matches Ok(s) && s is None,
            (Ok(_), true) => match r {
                Ok(s) => s is Some && stores_answer(
                    s->0.deep_view(),
                    user,
                    request.security_question->0@,
                    request.security_answer->0@,
                ),
                Err(reply) => unhashed(request.security_answer->0@) && reply.refuses(
                    Status::Internal,
                    "Failed to hash answer"@,
                ),
            },
        },
{
    let hash: Option<String> = match (&phone, &request.security_question, &request.security_answer) {
        (Ok(_), Some(_), Some(answer)) => hash_password(answer.as_str()),
        _ => None,
    };
    continue_update_with(user, request, phone, hash)
}

/// Ends an update of a profile.
pub fn end_update(security: Result<(), String>) -> (r: Reply)
    ensures
        match security {
            Ok(_) => r.reports(Status::Fine, "Account updated"@),
            Err(e) => r.refuses(Status::Internal, e@),
        },
{
    match security {
        Ok(_) => Reply::report(Status::Fine, "Account updated".to_string()),
        Err(e) => Reply::refusal(Status::Internal, e),
    }
}

/// What is sent to change a password.
pub struct ChangePasswordRequest {
    pub current_password: String,
    pub new_password: String,
}

/// The hash of a user's password.
pub const FIND_HASH: &'static str = "SELECT password_hash FROM users WHERE id = ?1";

/// Changes the password of a user.
pub const UPDATE_PASSWORD: &'static str = "UPDATE users SET password_hash = ?1 WHERE id = ?2";

/// Asks for the hash of the user's password.
pub fn find_hash(user: i64) -> (r: Statement)
    ensures
        r.deep_view() == about(FIND_HASH@, user),
{
    with_one(FIND_HASH, Param::Integer(user))
}

/// The statement that changes the password of the user.
pub open spec fn new_password(user: i64, hash: Seq<char>) -> StatementView {
    StatementView {
        sql: UPDATE_PASSWORD@,
        params: seq![ParamView::Text(hash), ParamView::Integer(user)],
    }
}

/// Why a password is not changed, from what the hash of the current one said to
/// the current password that was sent.
pub fn check_current(checked: Option<bool>) -> (r: Option<Reply>)
    ensures
        match checked {
            Some(true) => r is None,
            Some(false) => r matches Some(reply) && reply.refuses(
                Status::Unauthorized,
                "Current password is incorrect"@,
            ),
            None => r matches Some(reply) && reply.refuses(
                Status::Internal,
                "Password verification failed"@,
            ),
        },
{
    match checked {
        Some(true) => None,
        Some(false) => Some(
            Reply::refusal(Status::Unauthorized, "Current password is incorrect".to_string()),
        ),
        None => Some(
            Reply::refusal(Status::Internal, "Password verification failed".to_string()),
        ),
    }
}

/// Changes the password to the one with that hash, or reports that it could not
/// be hashed.
pub fn change_password_with(user: i64, hash: Option<String>) -> (r: Result<Statement, Reply>)
    ensures
        match hash {
            Some(hash) => r matches Ok(s) && s.deep_view() == new_password(user, hash@),
            None => r matches Err(reply) && reply.refuses(
                Status::Internal,
                "Failed to hash password"@,
            ),
        },
{
    match hash {
        Some(hash) => Ok(with_two(UPDATE_PASSWORD, Param::Text(hash), Param::Integer(user))),
        None => Err(Reply::refusal(Status::Internal, "Failed to hash password".to_string())),
    }
}

/// The statement gives the user the password, stored as a hash that accepts it.
pub open spec fn gives_password(s: StatementView, user: i64, password: Seq<char>) -> bool {
    exists|hash: Seq<char>|
        s == #[trigger] new_password(user, hash) && accepted(password, hash)
}

/// Changes the password of the user, once the hash of the current one was looked
/// up: only where the current password was sent along.
pub fn change_password(
    user: i64,
    request: &ChangePasswordRequest,
    found: Result<String, String>,
) -> (r: Result<Statement, Reply>)
    ensures
        match found {
            Err(e) => r matches Err(reply) && reply.refuses(Status::Internal, e@),
            Ok(hash) => match bcrypt_accepts(request.current_password@, hash@) {
                None => r matches Err(reply) && reply.refuses(
                    Status::Internal,
                    "Password verification failed"@,
                ),
                Some(false) => r matches Err(reply) && reply.refuses(
                    Status::Unauthorized,
                    "Current password is incorrect"@,
                ),
                Some(true) => match r {
                    Ok(s) => gives_password(s.deep_view(), user, request.new_password@),
                    Err(reply) => unhashed(request.new_password@) && reply.refuses(
                        Status::Internal,
                        "Failed to hash password"@,
                    ),
                },
            },
        },
{
    match found {
        Err(e) => Err(Reply::refusal(Status::Internal, e)),
        Ok(hash) => {
            let checked = verify_password(request.current_password.as_str(), hash.as_str());
            match check_current(checked) {
                Some(reply) => Err(reply),
                None => change_password_with(user, hash_password(request.new_password.as_str())),
            }
        },
    }
}

/// Ends a change of password.
pub fn password_changed(changed: Result<(), String>) -> (r: Reply)
    ensures
        match changed {
            Ok(_) => r.reports(Status::Fine, "Password changed successfully"@),
            Err(e) => r.refuses(Status::Internal, e@),
        },
{
    match changed {
        Ok(_) => Reply::report(Status::Fine, "Password changed successfully".to_string()),
        Err(e) => Reply::refusal(Status::Internal, e),
    }
}

/// Whoever changed the password is let in with the new one, from what the change
/// stored.
pub proof fn law_changed_password_lets_in(s: StatementView, user: i64, password: Seq<char>)
    requires
        gives_password(s, user, password),
    ensures
        s.params[1] == ParamView::Integer(user),
        s.params[0] matches ParamView::Text(hash) && accepted(password, hash),
{
}

} // verus!
