//! Finding the session identifier of a request.
//!
//! The cookie header is tried first, then the one header that the host hands
//! over. Finding nothing is an answer, not a failure.

use crate::config::{SessionExtraction, SessionExtractionView};
use crate::text::{
    chars_of, eq_ignore_ascii_case, find_char, position, range_equals, range_starts_with,
    same_ignoring_ascii_case, split, substring, trim, trim_range,
};
use vstd::prelude::*;
use vstd::string::*;

verus! {

/// The key and the value of one piece of a cookie header: the piece is
/// trimmed and cut at its first `=`. A piece without `=` has neither.
pub open spec fn cookie_pair(piece: Seq<char>) -> Option<(Seq<char>, Seq<char>)> {
    let pair = trim(piece);
    let eq = position(pair, '=');
    if 0 <= eq < pair.len() {
        Some((pair.take(eq), pair.skip(eq + 1)))
    } else {
        None
    }
}

/// The value of the first of `pieces` whose key is `name`.
pub open spec fn first_value(pieces: Seq<Seq<char>>, name: Seq<char>) -> Option<Seq<char>>
    decreases pieces.len(),
{
    if pieces.len() == 0 {
        None
    } else {
        match cookie_pair(pieces.first()) {
            Some((key, value)) if key == name => Some(value),
            _ => first_value(pieces.drop_first(), name),
        }
    }
}

/// The value that a cookie header gives the cookie `name`: the header is
/// split at each `;`, and the first pair with that key counts. Keys are
/// compared as they stand, capitals and all.
pub open spec fn cookie_lookup(header: Seq<char>, name: Seq<char>) -> Option<Seq<char>> {
    first_value(split(header, ';'), name)
}

/// The prefix that marks a bearer token.
pub open spec fn bearer_prefix() -> Seq<char> {
    "Bearer "@
}

/// A header value without its bearer prefix: where the value begins with
/// `Bearer `, letter for letter, what follows the prefix; else the value as
/// it came.
pub open spec fn without_bearer(value: Seq<char>) -> Seq<char> {
    if bearer_prefix().is_prefix_of(value) {
        value.skip(bearer_prefix().len() as int)
    } else {
        value
    }
}

/// The session identifier that the cookie header gives, where a cookie name
/// is configured and a header is there.
pub open spec fn cookie_session(how: SessionExtractionView, cookies: Option<Seq<char>>) -> Option<
    Seq<char>,
> {
    match (how.cookie_name, cookies) {
        (Some(name), Some(header)) => cookie_lookup(header, name),
        _ => None,
    }
}

/// The session identifier that the header gives, where a header name is
/// configured and the header handed over bears that name, capitals of `A` to
/// `Z` aside.
pub open spec fn header_session(
    how: SessionExtractionView,
    header: Option<(Seq<char>, Seq<char>)>,
) -> Option<Seq<char>> {
    match (how.header_name, header) {
        (Some(wanted), Some((name, value))) if eq_ignore_ascii_case(wanted, name) => Some(
            if how.header_bearer {
                without_bearer(value)
            } else {
                value
            },
        ),
        _ => None,
    }
}

/// The session identifier of a request: from the cookie header where it
/// gives one, else from the header.
pub open spec fn session_id(
    how: SessionExtractionView,
    cookies: Option<Seq<char>>,
    header: Option<(Seq<char>, Seq<char>)>,
) -> Option<Seq<char>> {
    match cookie_session(how, cookies) {
        Some(id) => Some(id),
        None => header_session(how, header),
    }
}

/// The value of the cookie `name` in a cookie header, if the header holds
/// that cookie.
pub fn cookie_value(header: &str, name: &str) -> (value: Option<String>)
    ensures
        value.deep_view() == cookie_lookup(header@, name@),
{
    let chars = chars_of(header);
    let wanted = chars_of(name);
    let len = chars.len();
    let mut start: usize = 0;
    assert(chars@.subrange(0, len as int) =~= chars@);
    loop
        invariant
            chars@ == header@,
            wanted@ == name@,
            len == chars.len(),
            start <= len,
            cookie_lookup(header@, name@) == first_value(
                split(chars@.subrange(start as int, len as int), ';'),
                name@,
            ),
        decreases len - start,
    {
        let end = find_char(&chars, start, len, ';');
        let (a, b) = trim_range(&chars, start, end);
        let eq = find_char(&chars, a, b, '=');
        proof {
            let rest = chars@.subrange(start as int, len as int);
            let piece = chars@.subrange(start as int, end as int);
            let pair = chars@.subrange(a as int, b as int);
            assert(rest.take(end - start) =~= piece);
            assert(pair.take(eq - a) =~= chars@.subrange(a as int, eq as int));
            if eq < b {
                assert(pair.skip(eq - a + 1) =~= chars@.subrange(eq + 1, b as int));
            }
            if end < len {
                let later = chars@.subrange(end + 1, len as int);
                assert(rest.skip(end - start + 1) =~= later);
                assert(split(rest, ';') == seq![piece] + split(later, ';'));
                assert((seq![piece] + split(later, ';')).drop_first() =~= split(later, ';'));
            } else {
                assert(split(rest, ';') == seq![piece]);
                assert(seq![piece].drop_first() =~= Seq::<Seq<char>>::empty());
                assert(first_value(Seq::<Seq<char>>::empty(), name@) is None);
            }
            assert(split(rest, ';').first() == piece);
        }
        if eq < b && range_equals(&chars, a, eq, &wanted) {
            return Some(substring(header, eq + 1, b));
        }
        if end == len {
            return None;
        }
        start = end + 1;
    }
}

/// A header value without its bearer prefix; the value as it came where it
/// has none.
pub fn bearer_token(value: &str) -> (token: String)
    ensures
        token@ == without_bearer(value@),
{
    let chars = chars_of(value);
    let prefix = chars_of("Bearer ");
    assert(chars@.subrange(0, chars.len() as int) =~= chars@);
    if range_starts_with(&chars, 0, chars.len(), &prefix) {
        assert(chars@.skip(prefix@.len() as int) =~= chars@.subrange(
            prefix@.len() as int,
            chars.len() as int,
        ));
        substring(value, prefix.len(), chars.len())
    } else {
        String::from_str(value)
    }
}

/// The header of a request as one pair, from a name and a value that a host
/// hands over apart: there is a header only where both are there.
pub fn header_pair<'a>(name: Option<&'a str>, value: Option<&'a str>) -> (pair: Option<
    (&'a str, &'a str),
>)
    ensures
        pair == (match (name, value) {
            (Some(n), Some(v)) => Some((n, v)),
            _ => None,
        }),
{
    match (name, value) {
        (Some(n), Some(v)) => Some((n, v)),
        _ => None,
    }
}

impl SessionExtraction {
    /// The session identifier of a request, from its cookie header and from
    /// the one header that the host picked, either of which may be missing.
    pub fn extract(&self, cookies: Option<&str>, header: Option<(&str, &str)>) -> (id: Option<
        String,
    >)
        ensures
            id.deep_view() == session_id(self@, cookies.deep_view(), header.deep_view()),
    {
        if let Some(cookie_name) = &self.cookie_name {
            if let Some(raw) = cookies {
                if let Some(value) = cookie_value(raw, cookie_name.as_str()) {
                    return Some(value);
                }
            }
        }
        if let Some(wanted) = &self.header_name {
            if let Some((name, value)) = header {
                if same_ignoring_ascii_case(wanted.as_str(), name) {
                    if self.header_bearer {
                        return Some(bearer_token(value));
                    }
                    return Some(String::from_str(value));
                }
            }
        }
        None
    }
}

/// The cookie wins: where the cookie header gives a session identifier, the
/// header is not looked at.
pub proof fn lemma_cookie_wins(
    how: SessionExtractionView,
    cookies: Option<Seq<char>>,
    header: Option<(Seq<char>, Seq<char>)>,
)
    requires
        cookie_session(how, cookies) is Some,
    ensures
        session_id(how, cookies, header) == cookie_session(how, cookies),
{
}

/// Where the cookie header gives nothing, the header decides.
pub proof fn lemma_header_after_cookie(
    how: SessionExtractionView,
    cookies: Option<Seq<char>>,
    header: Option<(Seq<char>, Seq<char>)>,
)
    requires
        cookie_session(how, cookies) is None,
    ensures
        session_id(how, cookies, header) == header_session(how, header),
{
}

/// A value that begins with the bearer prefix loses the prefix and nothing
/// else: the prefix and the token, put together again, are the value.
pub proof fn lemma_bearer_stripped(value: Seq<char>)
    requires
        bearer_prefix().is_prefix_of(value),
    ensures
        bearer_prefix() + without_bearer(value) == value,
{
    assert(bearer_prefix() + value.skip(bearer_prefix().len() as int) =~= value);
}

/// A piece without `=` is passed over: the pieces after it are searched as
/// if it were not there.
pub proof fn lemma_malformed_piece_skipped(
    piece: Seq<char>,
    later: Seq<Seq<char>>,
    name: Seq<char>,
)
    requires
        cookie_pair(piece) is None,
    ensures
        first_value(seq![piece] + later, name) == first_value(later, name),
{
    assert((seq![piece] + later).drop_first() =~= later);
}

/// A value that does not begin with the bearer prefix passes unchanged.
pub proof fn lemma_bearer_passthrough(value: Seq<char>)
    requires
        !bearer_prefix().is_prefix_of(value),
    ensures
        without_bearer(value) == value,
{
}

} // verus!
