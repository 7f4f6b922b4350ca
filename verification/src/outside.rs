//! The calls into other crates and into the parts of the standard library that
//! carry no contract of their own. What each contract here claims is taken from
//! the called code and not proved.

use vstd::prelude::*;

verus! {

/// The lower case form of a text.
pub uninterp spec fn lowercase(s: Seq<char>) -> Seq<char>;

/// `str::to_lowercase`. The result depends on the text alone; which characters
/// it maps to which is left to Unicode.
#[verifier::external_body]
pub(crate) fn to_lowercase(s: &str) -> (r: String)
    ensures
        r@ == lowercase(s@),
{
    s.to_lowercase()
}

/// The upper case form of a text.
pub uninterp spec fn uppercase(s: Seq<char>) -> Seq<char>;

/// `str::to_uppercase`. The result depends on the text alone; which characters
/// it maps to which is left to Unicode.
#[verifier::external_body]
pub(crate) fn to_uppercase(s: &str) -> (r: String)
    ensures
        r@ == uppercase(s@),
{
    s.to_uppercase()
}

/// The matches of a pattern in a text, from left to right and without overlap;
/// of each match the text of every group, the whole match first, and nothing
/// for a group that took no part in it. There is no answer for a pattern that
/// does not compile.
pub uninterp spec fn regex_captures(pattern: Seq<char>, text: Seq<char>) -> Option<
    Seq<Seq<Option<Seq<char>>>>,
>;

/// `regex::Regex::new`, then `Regex::captures_iter`. What is found depends on
/// the pattern and the text alone.
#[verifier::external_body]
pub(crate) fn captures(pattern: &str, text: &str) -> (r: Option<Vec<Vec<Option<String>>>>)
    ensures
        r.deep_view() == regex_captures(pattern@, text@),
{
    let regex = regex::Regex::new(pattern).ok()?;
    let found = regex.captures_iter(text);
    Some(
        found
            .map(|c| c.iter().map(|g| g.map(|m| m.as_str().to_string())).collect())
            .collect(),
    )
}

/// One value in a row of a JSON array: the text that it is, and the number that it
/// is, in writing.
pub type Field = (Option<String>, Option<String>);

/// What a row of a JSON array holds.
pub type RowView = Seq<(Option<Seq<char>>, Option<Seq<char>>)>;

/// The rows of a JSON array: of each element the value under every key, as the
/// text that it is and as the number that it is, in writing. There is no answer
/// for a text that is no JSON array.
pub uninterp spec fn json_fields(text: Seq<char>, keys: Seq<Seq<char>>) -> Option<Seq<RowView>>;

/// `serde_json::from_str` into a list of values, then, for each value and key,
/// `Value::as_str` and `Value::as_number` of what indexing gives. The rows depend
/// on the text and the keys alone, and a row has one entry for each key.
#[verifier::external_body]
pub(crate) fn json_rows(text: &str, keys: &Vec<&str>) -> (r: Option<Vec<Vec<Field>>>)
    ensures
        r.deep_view() == json_fields(text@, keys.deep_view()),
        r matches Some(rows) ==> forall|i: int|
            0 <= i < rows@.len() ==> (#[trigger] rows@[i])@.len() == keys@.len(),
{
    let values: Vec<serde_json::Value> = serde_json::from_str(text).ok()?;
    let text_of = |v: &serde_json::Value| v.as_str().map(|s| s.to_string());
    let number_of = |v: &serde_json::Value| v.as_number().map(|n| n.to_string());
    Some(
        values
            .iter()
            .map(|v| keys.iter().map(|k| (text_of(&v[*k]), number_of(&v[*k]))).collect())
            .collect(),
    )
}

/// The text under a field of one item of a list in a JSON object, where there is
/// one.
pub uninterp spec fn json_text_at(
    text: Seq<char>,
    list: Seq<char>,
    index: usize,
    field: Seq<char>,
) -> Option<Seq<char>>;

/// `serde_json::from_str`, then indexing by the list's name, the item's number
/// and the field's name, and `Value::as_str` of what that gives. The result
/// depends on the text, the names and the number alone.
#[verifier::external_body]
pub(crate) fn json_text(text: &str, list: &str, index: usize, field: &str) -> (r: Option<String>)
    ensures
        r.deep_view() == json_text_at(text@, list@, index, field@),
{
    let value: serde_json::Value = serde_json::from_str(text).ok()?;
    value[list][index][field].as_str().map(|s| s.to_string())
}

/// Whether a password is the one that a hash was made of. There is no answer for
/// a text that is no hash.
pub uninterp spec fn bcrypt_accepts(password: Seq<char>, hash: Seq<char>) -> Option<bool>;

/// `bcrypt::verify`. The answer depends on the password and the hash alone.
#[verifier::external_body]
pub(crate) fn verify_password(password: &str, hash: &str) -> (r: Option<bool>)
    ensures
        r == bcrypt_accepts(password@, hash@),
{
    bcrypt::verify(password, hash).ok()
}

/// Hashing the password failed, at some time: outside this module, only what
/// [`hash_password`] did not return is known to have.
pub closed spec fn unhashed(password: Seq<char>) -> bool {
    true
}

/// `bcrypt::hash` at `bcrypt::DEFAULT_COST`. It draws a salt, so that a password
/// has many hashes; each of them accepts the password. There is no hash where no
/// salt could be drawn.
#[verifier::external_body]
pub(crate) fn hash_password(password: &str) -> (r: Option<String>)
    ensures
        r matches Some(h) ==> bcrypt_accepts(password@, h@) == Some(true),
        r is None ==> unhashed(password@),
{
    bcrypt::hash(password, bcrypt::DEFAULT_COST).ok()
}

/// The token that claims a subject and a time of expiry, signed with a secret.
pub uninterp spec fn jwt(sub: i64, exp: u64, secret: Seq<char>) -> Option<Seq<char>>;

/// The subject and the time of expiry that a token claims, each where it is an
/// integer. There is no answer for a token that is malformed or was not signed
/// with the secret. Whether the token has expired plays no part.
pub uninterp spec fn jwt_claims(token: Seq<char>, secret: Seq<char>) -> Option<
    (Option<i64>, Option<u64>),
>;

/// `jsonwebtoken::encode` with the default header and a key from the secret. The
/// subject is written before the time of expiry. The token depends on the claims and
/// the secret alone, and reads back as the claims that it was made of.
#[verifier::external_body]
pub(crate) fn encode_token(sub: i64, exp: u64, secret: &str) -> (r: Option<String>)
    ensures
        r.deep_view() == jwt(sub, exp, secret@),
        r matches Some(token) ==> jwt_claims(token@, secret@) == Some((Some(sub), Some(exp))),
{
    let sub = (std::cmp::Reverse("sub"), serde_json::Value::from(sub));
    let exp = (std::cmp::Reverse("exp"), serde_json::Value::from(exp));
    let claims = std::collections::BTreeMap::from([sub, exp]);
    let key = jsonwebtoken::EncodingKey::from_secret(secret.as_bytes());
    jsonwebtoken::encode(&jsonwebtoken::Header::default(), &claims, &key).ok()
}

/// Decoding refused the token under the secret, at some time: outside this module,
/// only what [`decode_token`] did not return is known to have been.
pub closed spec fn refused(token: Seq<char>, secret: Seq<char>) -> bool {
    true
}

/// `jsonwebtoken::decode` with a key from the secret and the default validation.
/// What it returns are the claims of a token that was signed with the secret. It
/// also refuses tokens that have expired or that name an audience: when it does
/// is left open here, for it depends on the time.
#[verifier::external_body]
pub(crate) fn decode_token(token: &str, secret: &str) -> (r: Option<(Option<i64>, Option<u64>)>)
    ensures
        r is Some ==> r == jwt_claims(token@, secret@),
        r is None ==> refused(token@, secret@),
{
    let key = jsonwebtoken::DecodingKey::from_secret(secret.as_bytes());
    let validation = jsonwebtoken::Validation::default();
    let data = jsonwebtoken::decode::<std::collections::BTreeMap<String, serde_json::Value>>(
        token, &key, &validation,
    ).ok()?;
    let sub = data.claims.get("sub").and_then(|v| v.as_i64());
    let exp = data.claims.get("exp").and_then(|v| v.as_u64());
    Some((sub, exp))
}

/// A moment that the clock showed, in seconds since 1970: outside this module, only
/// what [`now`] returned is known to be one.
pub closed spec fn shown(moment: i64) -> bool {
    0 <= moment < 9_000_000_000_000
}

/// `chrono::Utc::now` and `DateTime::timestamp`: the seconds since 1970. Of the
/// clock only the range of dates that the crate can hold is known, from 1970 on.
#[verifier::external_body]
pub(crate) fn now() -> (r: i64)
    ensures
        0 <= r < 9_000_000_000_000,
        shown(r),
{
    chrono::Utc::now().timestamp()
}

/// A moment that the clock showed, in writing: outside this module, only what
/// [`now_in_writing`] returned is known to be one.
pub closed spec fn shown_in_writing(moment: Seq<char>) -> bool {
    moment.len() > 0
}

/// `chrono::Utc::now` and `DateTime::to_rfc3339`: the time in writing. It depends
/// on the clock; all that is claimed of it is that there is something to read.
#[verifier::external_body]
pub(crate) fn now_in_writing() -> (r: String)
    ensures
        shown_in_writing(r@),
{
    chrono::Utc::now().to_rfc3339()
}

} // verus!
