//! What is asked of the server: the puzzle's address and the headers sent with it.

use vstd::prelude::*;
use vstd::string::*;

verus! {

/// Where the puzzles are published.
pub const SITE: &'static str = "https://adventofcode.com/";

/// What stands between the year and the day in a puzzle's address.
pub const DAY_PATH: &'static str = "/day/";

/// The name of the header that says who asks.
pub const USER_AGENT_HEADER: &'static str = "User-Agent";

/// How this program names itself to the server.
pub const USER_AGENT: &'static str = "https://github.com/dacbd/aocmd-dl";

/// The name of the header that carries the session.
pub const COOKIE_HEADER: &'static str = "Cookie";

/// What stands before the token in the session cookie.
pub const SESSION_PREFIX: &'static str = "session=";

/// The address of the puzzle of `day` in `year`.
pub open spec fn puzzle_address(year: Seq<char>, day: Seq<char>) -> Seq<char> {
    SITE@ + year + DAY_PATH@ + day
}

/// The cookie that carries the session token `token`.
pub open spec fn session_cookie_text(token: Seq<char>) -> Seq<char> {
    SESSION_PREFIX@ + token
}

/// The headers of a request, each a name and a value: the user agent, and after
/// it the session cookie where there is a token.
pub open spec fn header_list(token: Option<Seq<char>>) -> Seq<(Seq<char>, Seq<char>)> {
    let agent = seq![(USER_AGENT_HEADER@, USER_AGENT@)];
    match token {
        Some(token) => agent.push((COOKIE_HEADER@, session_cookie_text(token))),
        None => agent,
    }
}

/// The view of an optional token.
pub open spec fn token_view(token: Option<&str>) -> Option<Seq<char>> {
    match token {
        Some(token) => Some(token@),
        None => None,
    }
}

/// The address of the puzzle of `day` in `year`.
pub fn puzzle_url(year: &str, day: &str) -> (url: String)
    ensures
        url@ == puzzle_address(year@, day@),
{
    let mut url = String::from_str(SITE);
    url.append(year);
    url.append(DAY_PATH);
    url.append(day);
    url
}

/// The value of the cookie header for the session token `token`.
pub fn session_cookie(token: &str) -> (cookie: String)
    ensures
        cookie@ == session_cookie_text(token@),
{
    let mut cookie = String::from_str(SESSION_PREFIX);
    cookie.append(token);
    cookie
}

/// The headers to send: always the user agent; the session cookie only with a token.
pub fn request_headers(token: Option<&str>) -> (headers: Vec<(String, String)>)
    ensures
        headers.deep_view() == header_list(token_view(token)),
{
    let mut headers: Vec<(String, String)> = Vec::new();
    headers.push((String::from_str(USER_AGENT_HEADER), String::from_str(USER_AGENT)));
    if let Some(token) = token {
        headers.push((String::from_str(COOKIE_HEADER), session_cookie(token)));
    }
    assert(headers.deep_view() =~= header_list(token_view(token)));
    headers
}

} // verus!
