use vstd::prelude::*;
use crate::error::{EnvelopeSide, GtError};
use crate::json::{json_text, parse_json, Json};
use crate::text::{decimal, push_decimal, starts_with};

verus! {

/// The JSONP callback name sent with a request issued at `millis`.
pub open spec fn callback_name(millis: nat) -> Seq<char> {
    "geetest_"@ + decimal(millis)
}

/// A callback token derived from the caller's clock reading, so that no two
/// requests carry the same fixed name.
pub fn callback_token(millis: u64) -> (r: String)
    ensures
        r@ == callback_name(millis as nat),
{
    let mut s = String::from_str("geetest_");
    push_decimal(&mut s, millis);
    s
}

/// What lies between `token(` and the closing `)` of a wrapped response.
pub open spec fn envelope_interior(text: Seq<char>, token: Seq<char>) -> Result<Seq<char>, GtError> {
    let p = token.push('(');
    if !starts_with(text, p) {
        Err(GtError::Framing(EnvelopeSide::Prefix))
    } else if text.len() > p.len() && text.last() == ')' {
        Ok(text.subrange(p.len() as int, text.len() - 1))
    } else {
        Err(GtError::Framing(EnvelopeSide::Suffix))
    }
}

/// Strips the `token(` ... `)` wrapper from a response.
pub fn strip_envelope(text: &str, token: &str) -> (r: Result<String, GtError>)
    ensures
        match r {
            Ok(inner) => envelope_interior(text@, token@) == Ok::<Seq<char>, GtError>(inner@),
            Err(e) => envelope_interior(text@, token@) == Err::<Seq<char>, GtError>(e),
        },
{
    let n = text.unicode_len();
    let m = token.unicode_len();
    let ghost p = token@.push('(');
    if m >= n {
        assert(!starts_with(text@, p));
        return Err(GtError::Framing(EnvelopeSide::Prefix));
    }
    let mut i: usize = 0;
    while i < m
        invariant
            n == text@.len(),
            m == token@.len(),
            p == token@.push('('),
            m < n,
            i <= m,
            text@.subrange(0, i as int) == token@.subrange(0, i as int),
        decreases m - i,
    {
        if text.get_char(i) != token.get_char(i) {
            assert(text@.subrange(0, p.len() as int)[i as int] == text@[i as int]);
            assert(p[i as int] == token@[i as int]);
            return Err(GtError::Framing(EnvelopeSide::Prefix));
        }
        assert(text@.subrange(0, i + 1) =~= text@.subrange(0, i as int).push(text@[i as int]));
        assert(token@.subrange(0, i + 1) =~= token@.subrange(0, i as int).push(token@[i as int]));
        i = i + 1;
    }
    assert(token@.subrange(0, m as int) =~= token@);
    if text.get_char(m) != '(' {
        assert(text@.subrange(0, p.len() as int)[m as int] == text@[m as int]);
        assert(p[m as int] == '(');
        return Err(GtError::Framing(EnvelopeSide::Prefix));
    }
    assert(text@.subrange(0, p.len() as int) =~= p);
    if n == m + 1 || text.get_char(n - 1) != ')' {
        return Err(GtError::Framing(EnvelopeSide::Suffix));
    }
    let inner = text.substring_char(m + 1, n - 1);
    Ok(String::from_str(inner))
}

/// The JSON value that a wrapped response carries, or why it carries none.
pub open spec fn envelope_value(text: Seq<char>, token: Seq<char>) -> Result<Json, GtError> {
    match envelope_interior(text, token) {
        Ok(inner) => match json_text(inner) {
            Some(v) => Ok(v),
            None => Err(GtError::InvalidJson),
        },
        Err(e) => Err(e),
    }
}

/// Strips the wrapper of a response and parses the JSON inside.
pub fn decode_envelope(text: &str, token: &str) -> (r: Result<Json, GtError>)
    ensures
        r == envelope_value(text@, token@),
{
    match strip_envelope(text, token) {
        Ok(inner) => match parse_json(inner.as_str()) {
            Some(v) => Ok(v),
            None => Err(GtError::InvalidJson),
        },
        Err(e) => Err(e),
    }
}

/// Wrapping any text in `token(` ... `)` and stripping it again gives the text back.
pub proof fn lemma_envelope_round_trip(token: Seq<char>, body: Seq<char>)
    ensures
        envelope_interior(token.push('(') + body.push(')'), token) == Ok::<Seq<char>, GtError>(body),
        envelope_value(token.push('(') + body.push(')'), token) == match json_text(body) {
            Some(v) => Ok(v),
            None => Err::<Json, GtError>(GtError::InvalidJson),
        },
{
    let p = token.push('(');
    let text = p + body.push(')');
    assert(text.subrange(0, p.len() as int) =~= p);
    assert(text.subrange(p.len() as int, text.len() - 1) =~= body);
}

/// A response that does not open with `token(` is refused at the prefix, and
/// one that does but does not close with `)` is refused at the suffix.
pub proof fn lemma_envelope_framing(text: Seq<char>, token: Seq<char>)
    ensures
        !starts_with(text, token.push('(')) ==> envelope_interior(text, token)
            == Err::<Seq<char>, GtError>(GtError::Framing(EnvelopeSide::Prefix)),
        starts_with(text, token.push('(')) && !(text.len() > 0 && text.last() == ')')
            ==> envelope_interior(text, token) == Err::<Seq<char>, GtError>(
            GtError::Framing(EnvelopeSide::Suffix),
        ),
{
}

} // verus!
