use vstd::prelude::*;

verus! {

/// Pattern that finds the `execution` nonce of the login form.
pub const EXECUTION_PATTERN: &'static str = "<input[^>]*?name=\"execution\"[^>]*?value=\"([^\"]*)\"[^>]*?>";

/// Pattern that finds the password salt of the login form.
pub const SALT_PATTERN: &'static str = "<input[^>]*?id=\"pwdEncryptSalt\"[^>]*?value=\"([^\"]*)\"[^>]*?>";

/// The text of the first capture group of the leftmost match of `pattern` in
/// `content`; `None` when the pattern does not compile, does not match, or its
/// first group takes no part in the match.
pub uninterp spec fn first_capture(pattern: Seq<char>, content: Seq<char>) -> Option<Seq<char>>;

/// Relies on `regex::Regex::new`, `Regex::captures` and `Captures::get`:
/// the first group of the leftmost-first match, or `None`.
#[verifier::external_body]
fn regex_first_capture(pattern: &str, content: &str) -> (r: Option<String>)
    ensures
        match r {
            Some(s) => first_capture(pattern@, content@) == Some(s@),
            None => first_capture(pattern@, content@) is None,
        },
{
    regex::Regex::new(pattern).ok().and_then(
        |re| re.captures(content).and_then(|c| c.get(1)).map(|m| m.as_str().to_string()),
    )
}

/// Turns the outcome of a pattern search into a token or `ParseKey`.
pub fn token_from_capture(capture: Option<String>) -> (r: Result<String, crate::login::Error>)
    ensures
        match capture {
            Some(v) => r == Ok::<String, crate::login::Error>(v),
            None => r == Err::<String, crate::login::Error>(crate::login::Error::ParseKey),
        },
{
    match capture {
        Some(v) => Ok(v),
        None => Err(crate::login::Error::ParseKey),
    }
}

/// The first capture of `pattern` in `content`, or `ParseKey` when there is none.
pub fn regex_get_first(pattern: &str, content: &str) -> (r: Result<String, crate::login::Error>)
    ensures
        match first_capture(pattern@, content@) {
            Some(v) => r matches Ok(s) && s@ == v,
            None => r == Err::<String, crate::login::Error>(crate::login::Error::ParseKey),
        },
{
    token_from_capture(regex_first_capture(pattern, content))
}

/// The `execution` nonce of a login page.
pub fn get_execution(content: &str) -> (r: Result<String, crate::login::Error>)
    ensures
        match first_capture(EXECUTION_PATTERN@, content@) {
            Some(v) => r matches Ok(s) && s@ == v,
            None => r == Err::<String, crate::login::Error>(crate::login::Error::ParseKey),
        },
{
    regex_get_first(EXECUTION_PATTERN, content)
}

/// The password salt of a login page.
pub fn get_salt(content: &str) -> (r: Result<String, crate::login::Error>)
    ensures
        match first_capture(SALT_PATTERN@, content@) {
            Some(v) => r matches Ok(s) && s@ == v,
            None => r == Err::<String, crate::login::Error>(crate::login::Error::ParseKey),
        },
{
    regex_get_first(SALT_PATTERN, content)
}

} // verus!
