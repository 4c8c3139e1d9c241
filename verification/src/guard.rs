//! The access guard: who is asking, according to the `Authorization` header.

use vstd::prelude::*;
use vstd::string::StringExecFns;
use crate::auth::tokenizer::{is_invalid_token, speaks_for, Identity, Tokenizer};
use crate::error::{ApiError, UNAUTHORIZED};

verus! {

/// The word that introduces a bearer token.
pub open spec fn marker() -> Seq<char> {
    seq!['B', 'e', 'a', 'r', 'e', 'r']
}

/// Whether `pattern` stands in `text` at index `at`.
pub open spec fn occurs_at(text: Seq<char>, pattern: Seq<char>, at: int) -> bool {
    &&& 0 <= at
    &&& at + pattern.len() <= text.len()
    &&& text.subrange(at, at + pattern.len()) == pattern
}

/// The least index from `from` on at which `pattern` stands in `text`.
pub open spec fn find(text: Seq<char>, pattern: Seq<char>, from: int) -> Option<int>
    decreases text.len() - from + 1,
{
    if from < 0 || from + pattern.len() > text.len() {
        None
    } else if occurs_at(text, pattern, from) {
        Some(from)
    } else {
        find(text, pattern, from + 1)
    }
}

/// Whether a character counts as white space when a token is trimmed: the
/// characters with the Unicode property `White_Space`.
pub open spec fn is_space(c: char) -> bool {
    let u = c as u32;
    ||| 0x09 <= u <= 0x0d
    ||| u == 0x20
    ||| u == 0x85
    ||| u == 0xa0
    ||| u == 0x1680
    ||| 0x2000 <= u <= 0x200a
    ||| u == 0x2028
    ||| u == 0x2029
    ||| u == 0x202f
    ||| u == 0x205f
    ||| u == 0x3000
}

/// The number of white-space characters that `text` starts with.
pub open spec fn leading_spaces(text: Seq<char>) -> nat
    decreases text.len(),
{
    if text.len() > 0 && is_space(text.first()) {
        1 + leading_spaces(text.drop_first())
    } else {
        0
    }
}

/// The number of white-space characters that `text` ends with.
pub open spec fn trailing_spaces(text: Seq<char>) -> nat
    decreases text.len(),
{
    if text.len() > 0 && is_space(text.last()) {
        1 + trailing_spaces(text.drop_last())
    } else {
        0
    }
}

/// `text` without the white space at its start and at its end.
pub open spec fn trimmed(text: Seq<char>) -> Seq<char> {
    let start = leading_spaces(text) as int;
    if start == text.len() {
        Seq::empty()
    } else {
        text.subrange(start, text.len() - trailing_spaces(text))
    }
}

/// What follows the `Bearer` a header value begins with, up to the next
/// `Bearer` or to the end, or nothing where the value does not begin with `Bearer`.
pub open spec fn after_marker(header: Seq<char>) -> Option<Seq<char>> {
    if occurs_at(header, marker(), 0) {
        let start = marker().len() as int;
        match find(header, marker(), start) {
            None => Some(header.subrange(start, header.len() as int)),
            Some(end) => Some(header.subrange(start, end)),
        }
    } else {
        None
    }
}

/// The bearer token of a request: what follows the `Bearer` that the header
/// begins with, trimmed. A missing header, a header that does not begin with
/// `Bearer` and an empty token all give none.
pub open spec fn bearer_token(header: Option<Seq<char>>) -> Option<Seq<char>> {
    match header {
        None => None,
        Some(value) => match after_marker(value) {
            None => None,
            Some(part) => if trimmed(part).len() == 0 {
                None
            } else {
                Some(trimmed(part))
            },
        },
    }
}

/// The number of leading white-space characters, from where the first other character stands.
proof fn lemma_leading_spaces(text: Seq<char>, k: int)
    requires
        0 <= k <= text.len(),
        forall|i: int| 0 <= i < k ==> is_space(#[trigger] text[i]),
        k == text.len() || !is_space(text[k]),
    ensures
        leading_spaces(text) == k,
    decreases k,
{
    if k > 0 {
        let rest = text.drop_first();
        assert forall|i: int| 0 <= i < k - 1 implies is_space(#[trigger] rest[i]) by {
            assert(rest[i] == text[i + 1]);
        }
        lemma_leading_spaces(rest, k - 1);
    }
}

/// The number of trailing white-space characters, from where the last other character stands.
proof fn lemma_trailing_spaces(text: Seq<char>, k: int)
    requires
        0 <= k <= text.len(),
        forall|i: int| text.len() - k <= i < text.len() ==> is_space(#[trigger] text[i]),
        k == text.len() || !is_space(text[text.len() - k - 1]),
    ensures
        trailing_spaces(text) == k,
    decreases k,
{
    if k > 0 {
        let rest = text.drop_last();
        assert forall|i: int| rest.len() - (k - 1) <= i < rest.len() implies is_space(
            #[trigger] rest[i],
        ) by {
            assert(rest[i] == text[i]);
        }
        lemma_trailing_spaces(rest, k - 1);
    }
}

/// Whether a character counts as white space when a token is trimmed.
fn is_white_space(c: char) -> (space: bool)
    ensures
        space == is_space(c),
{
    let u = c as u32;
    (0x09 <= u && u <= 0x0d) || u == 0x20 || u == 0x85 || u == 0xa0 || u == 0x1680 || (0x2000 <= u
        && u <= 0x200a) || u == 0x2028 || u == 0x2029 || u == 0x202f || u == 0x205f || u == 0x3000
}

/// Whether `Bearer` stands in `text` at index `at`.
fn marker_at(text: &str, len: usize, at: usize) -> (found: bool)
    requires
        len == text@.len(),
        at + 6 <= len,
    ensures
        found == occurs_at(text@, marker(), at as int),
{
    let found = text.get_char(at) == 'B' && text.get_char(at + 1) == 'e' && text.get_char(at + 2)
        == 'a' && text.get_char(at + 3) == 'r' && text.get_char(at + 4) == 'e' && text.get_char(
        at + 5,
    ) == 'r';
    proof {
        let part = text@.subrange(at as int, at + 6);
        if found {
            assert(part =~= marker());
        } else {
            assert(part[0] == text@[at as int]);
            assert(part[1] == text@[at + 1]);
            assert(part[2] == text@[at + 2]);
            assert(part[3] == text@[at + 3]);
            assert(part[4] == text@[at + 4]);
            assert(part[5] == text@[at + 5]);
        }
    }
    found
}

/// The least index from `from` on at which `Bearer` stands in `text`.
fn find_marker(text: &str, len: usize, from: usize) -> (at: Option<usize>)
    requires
        len == text@.len(),
    ensures
        match at {
            Some(i) => find(text@, marker(), from as int) == Some(i as int) && from <= i && i + 6
                <= len,
            None => find(text@, marker(), from as int) is None,
        },
{
    if len < 6 || from > len - 6 {
        return None;
    }
    let mut i = from;
    while i <= len - 6
        invariant
            len == text@.len(),
            6 <= len,
            from <= i,
            find(text@, marker(), from as int) == find(text@, marker(), i as int),
        decreases len - i,
    {
        if marker_at(text, len, i) {
            return Some(i);
        }
        i += 1;
    }
    None
}

/// The bearer token in the value of an `Authorization` header.
pub fn bearer<'a>(header: Option<&'a str>) -> (token: Option<&'a str>)
    ensures
        match token {
            Some(text) => bearer_token(header_view(header)) == Some(text@),
            None => bearer_token(header_view(header)) is None,
        },
{
    let value = match header {
        Some(value) => value,
        None => { return None; },
    };
    let len = value.unicode_len();
    if len < 6 || !marker_at(value, len, 0) {
        return None;
    }
    let from: usize = 6;
    let to = match find_marker(value, len, from) {
        Some(end) => end,
        None => len,
    };
    let ghost part = value@.subrange(from as int, to as int);
    assert(after_marker(value@) == Some(part));
    let mut start = from;
    while start < to && is_white_space(value.get_char(start))
        invariant
            from <= start <= to <= len,
            len == value@.len(),
            part == value@.subrange(from as int, to as int),
            forall|i: int| 0 <= i < start - from ==> is_space(#[trigger] part[i]),
        decreases to - start,
    {
        assert(part[start - from] == value@[start as int]);
        start += 1;
    }
    proof {
        if start < to {
            assert(part[start - from] == value@[start as int]);
        }
        lemma_leading_spaces(part, start - from);
    }
    if start == to {
        return None;
    }
    let mut end = to;
    while end > start && is_white_space(value.get_char(end - 1))
        invariant
            from <= start < end <= to <= len,
            len == value@.len(),
            part == value@.subrange(from as int, to as int),
            !is_space(part[start - from]),
            forall|i: int| end - from <= i < to - from ==> is_space(#[trigger] part[i]),
        decreases end - start,
    {
        assert(part[end - 1 - from] == value@[end - 1]);
        end -= 1;
        assert(end > start);
    }
    proof {
        assert(part[end - 1 - from] == value@[end - 1]);
        lemma_trailing_spaces(part, to - end);
        assert(trimmed(part) =~= value@.subrange(start as int, end as int));
    }
    Some(value.substring_char(start, end))
}

/// The value of an `Authorization` header that carries `token`.
pub fn bearer_header(token: &str) -> (header: String)
    ensures
        header@ == "Bearer "@ + token@,
{
    "Bearer ".to_owned().concat(token)
}

/// The header value as a sequence of characters.
pub open spec fn header_view(header: Option<&str>) -> Option<Seq<char>> {
    match header {
        Some(value) => Some(value@),
        None => None,
    }
}

/// What the guard lets through: the identity that the bearer token of the
/// request speaks for, where the tokenizer accepts the token. Every failure is
/// answered with status 401, before any route runs: it is
/// [`ApiError::UnauthenticatedUser`] where there is no tokenizer or no bearer
/// token, and the one error of a token that is not accepted otherwise.
pub fn from_request(tokenizer: Option<&Tokenizer>, header: Option<&str>) -> (outcome: Result<
    Identity,
    (u16, ApiError),
>)
    ensures
        outcome matches Ok(identity) ==> {
            &&& tokenizer is Some
            &&& bearer_token(header_view(header)) matches Some(token)
            &&& speaks_for(token) == Some((identity.id, identity.sys_role@))
        },
        outcome is Err ==> outcome->Err_0.0 == UNAUTHORIZED,
        tokenizer is None || bearer_token(header_view(header)) is None ==> outcome is Err
            && outcome->Err_0.1 is UnauthenticatedUser,
        tokenizer is Some && bearer_token(header_view(header)) is Some && outcome is Err
            ==> is_invalid_token(Err::<Identity, ApiError>(outcome->Err_0.1)),
{
    let tokenizer = match tokenizer {
        Some(tokenizer) => tokenizer,
        None => { return Err((UNAUTHORIZED, ApiError::UnauthenticatedUser)); },
    };
    match bearer(header) {
        None => Err((UNAUTHORIZED, ApiError::UnauthenticatedUser)),
        Some(token) => match tokenizer.verify(token) {
            Ok(identity) => Ok(identity),
            Err(e) => Err((UNAUTHORIZED, e)),
        },
    }
}

/// Where a pattern stands nowhere from `from` on, it is not found from there.
proof fn lemma_not_found(text: Seq<char>, pattern: Seq<char>, from: int)
    requires
        forall|at: int| from <= at ==> !occurs_at(text, pattern, at),
    ensures
        find(text, pattern, from) is None,
    decreases text.len() - from + 1,
{
    if !(from < 0 || from + pattern.len() > text.len()) {
        assert(!occurs_at(text, pattern, from));
        lemma_not_found(text, pattern, from + 1);
    }
}

/// What [`bearer_header`] writes, [`bearer`] reads: a header made from a token
/// is read back as that token, provided the token is not empty, neither starts
/// nor ends with white space, and does not hold the word `Bearer`.
pub proof fn law_header_round_trip(token: Seq<char>)
    requires
        token.len() > 0,
        !is_space(token.first()),
        !is_space(token.last()),
        forall|at: int| !occurs_at(token, marker(), at),
    ensures
        bearer_token(Some("Bearer "@ + token)) == Some(token),
{
    reveal_strlit("Bearer ");
    let prefix = "Bearer "@;
    let header = prefix + token;
    assert(prefix =~= seq!['B', 'e', 'a', 'r', 'e', 'r', ' ']);
    assert(header.subrange(0, 6) =~= marker());
    assert(occurs_at(header, marker(), 0));
    assert forall|at: int| 6 <= at implies !occurs_at(header, marker(), at) by {
        if occurs_at(header, marker(), at) {
            let found = header.subrange(at, at + 6);
            if at == 6 {
                assert(found[0] == header[6]);
                assert(marker()[0] == 'B');
            } else {
                assert(found =~= token.subrange(at - 7, at - 1));
                assert(occurs_at(token, marker(), at - 7));
            }
        }
    }
    lemma_not_found(header, marker(), 6);
    let part = header.subrange(6, header.len() as int);
    assert(after_marker(header) == Some(part));
    assert(part[0] == ' ');
    assert(part[1] == token.first());
    assert(part[part.len() - 1] == token.last());
    lemma_leading_spaces(part, 1);
    lemma_trailing_spaces(part, 0);
    assert(trimmed(part) =~= token);
}

} // verus!
