use vstd::prelude::*;
use crate::protocol::PuzzleKind;

verus! {

/// A GET request: its address and its query parameters, in order.
#[derive(Debug)]
pub struct Request {
    pub url: String,
    pub query: Vec<(String, String)>,
}

/// The text of each key and value of a query.
pub open spec fn query_view(q: Seq<(String, String)>) -> Seq<(Seq<char>, Seq<char>)> {
    q.map_values(|p: (String, String)| (p.0@, p.1@))
}

impl View for Request {
    type V = (Seq<char>, Seq<(Seq<char>, Seq<char>)>);

    open spec fn view(&self) -> Self::V {
        (self.url@, query_view(self.query@))
    }
}

/// The text of an optional token.
pub open spec fn opt_text(w: Option<&str>) -> Option<Seq<char>> {
    match w {
        Some(x) => Some(x@),
        None => None,
    }
}

/// The parameters that name an attempt and the callback its answer is wrapped in.
pub open spec fn base_query(gt: Seq<char>, challenge: Seq<char>, callback: Seq<char>) -> Seq<(Seq<char>, Seq<char>)> {
    seq![("gt"@, gt), ("challenge"@, challenge), ("callback"@, callback)]
}

/// The base parameters, followed by `w` where a signed token is at hand.
pub open spec fn signed_query(
    gt: Seq<char>,
    challenge: Seq<char>,
    callback: Seq<char>,
    w: Option<Seq<char>>,
) -> Seq<(Seq<char>, Seq<char>)> {
    match w {
        Some(w) => base_query(gt, challenge, callback).push(("w"@, w)),
        None => base_query(gt, challenge, callback),
    }
}

/// The parameters of a puzzle fetch.
pub open spec fn puzzle_query(kind: PuzzleKind, gt: Seq<char>, challenge: Seq<char>, callback: Seq<char>) -> Seq<(Seq<char>, Seq<char>)> {
    seq![
        ("gt"@, gt),
        ("challenge"@, challenge),
        ("is_next"@, "true"@),
        ("offline"@, "false"@),
        ("isPC"@, "true"@),
        ("type"@, kind_name(kind)),
        ("callback"@, callback),
    ]
}

/// The word the vendor uses for a puzzle family.
pub open spec fn kind_name(kind: PuzzleKind) -> Seq<char> {
    match kind {
        PuzzleKind::Slide => "slide"@,
        PuzzleKind::Click => "click"@,
    }
}

/// The word the vendor uses for a puzzle family.
pub fn kind_word(kind: PuzzleKind) -> (r: &'static str)
    ensures
        r@ == kind_name(kind),
{
    match kind {
        PuzzleKind::Slide => "slide",
        PuzzleKind::Click => "click",
    }
}

/// The parameter endpoint.
pub open spec fn params_url() -> Seq<char> {
    "https://api.geetest.com/get.php"@
}

/// The type-discovery endpoint.
pub open spec fn type_url() -> Seq<char> {
    "https://api.geevisit.com/ajax.php"@
}

/// The puzzle-fetch endpoint of a family.
pub open spec fn puzzle_url(kind: PuzzleKind) -> Seq<char> {
    match kind {
        PuzzleKind::Click => "https://api.geevisit.com/get.php"@,
        PuzzleKind::Slide => "http://api.geevisit.com/get.php"@,
    }
}

/// The submission endpoint of a family.
pub open spec fn submission_url(kind: PuzzleKind) -> Seq<char> {
    match kind {
        PuzzleKind::Click => "https://api.geevisit.com/ajax.php"@,
        PuzzleKind::Slide => "http://api.geevisit.com/ajax.php"@,
    }
}

/// The refresh endpoint.
pub open spec fn refresh_url() -> Seq<char> {
    "https://api.geevisit.com/refresh.php"@
}

fn pair(k: &str, v: &str) -> (r: (String, String))
    ensures
        r.0@ == k@,
        r.1@ == v@,
{
    (String::from_str(k), String::from_str(v))
}

fn base(gt: &str, challenge: &str, callback: &str) -> (r: Vec<(String, String)>)
    ensures
        query_view(r@) == base_query(gt@, challenge@, callback@),
{
    let mut q: Vec<(String, String)> = Vec::new();
    q.push(pair("gt", gt));
    q.push(pair("challenge", challenge));
    q.push(pair("callback", callback));
    assert(query_view(q@) =~= base_query(gt@, challenge@, callback@));
    q
}

fn signed(gt: &str, challenge: &str, callback: &str, w: Option<&str>) -> (r: Vec<(String, String)>)
    ensures
        query_view(r@) == signed_query(gt@, challenge@, callback@, opt_text(w)),
{
    let mut q = base(gt, challenge, callback);
    match w {
        Some(w) => {
            let ghost before = q@;
            q.push(pair("w", w));
            assert(query_view(q@) =~= query_view(before).push(("w"@, w@)));
        },
        None => {},
    }
    q
}

/// The request for the `(c, s)` pair of an attempt.
pub fn params_request(gt: &str, challenge: &str, callback: &str, w: Option<&str>) -> (r: Request)
    ensures
        r@ == (params_url(), signed_query(gt@, challenge@, callback@, opt_text(w))),
{
    Request { url: String::from_str("https://api.geetest.com/get.php"), query: signed(gt, challenge, callback, w) }
}

/// The request that asks which puzzle family an attempt uses.
pub fn type_request(gt: &str, challenge: &str, callback: &str, w: Option<&str>) -> (r: Request)
    ensures
        r@ == (type_url(), signed_query(gt@, challenge@, callback@, opt_text(w))),
{
    Request { url: String::from_str("https://api.geevisit.com/ajax.php"), query: signed(gt, challenge, callback, w) }
}

/// The request that fetches a puzzle of the given family.
pub fn puzzle_request(kind: PuzzleKind, gt: &str, challenge: &str, callback: &str) -> (r: Request)
    ensures
        r@ == (puzzle_url(kind), puzzle_query(kind, gt@, challenge@, callback@)),
{
    let mut q: Vec<(String, String)> = Vec::new();
    q.push(pair("gt", gt));
    q.push(pair("challenge", challenge));
    q.push(pair("is_next", "true"));
    q.push(pair("offline", "false"));
    q.push(pair("isPC", "true"));
    q.push(pair("type", kind_word(kind)));
    q.push(pair("callback", callback));
    assert(query_view(q@) =~= puzzle_query(kind, gt@, challenge@, callback@));
    let url = match kind {
        PuzzleKind::Click => String::from_str("https://api.geevisit.com/get.php"),
        PuzzleKind::Slide => String::from_str("http://api.geevisit.com/get.php"),
    };
    Request { url, query: q }
}

/// The request that submits an answer of the given family.
pub fn submission_request(kind: PuzzleKind, gt: &str, challenge: &str, callback: &str, w: Option<&str>) -> (r: Request)
    ensures
        r@ == (submission_url(kind), signed_query(gt@, challenge@, callback@, opt_text(w))),
{
    let url = match kind {
        PuzzleKind::Click => String::from_str("https://api.geevisit.com/ajax.php"),
        PuzzleKind::Slide => String::from_str("http://api.geevisit.com/ajax.php"),
    };
    Request { url, query: signed(gt, challenge, callback, w) }
}

/// The request that asks for a fresh puzzle after a rejected answer.
pub fn refresh_request(gt: &str, challenge: &str, callback: &str) -> (r: Request)
    ensures
        r@ == (refresh_url(), base_query(gt@, challenge@, callback@)),
{
    Request { url: String::from_str("https://api.geevisit.com/refresh.php"), query: base(gt, challenge, callback) }
}

} // verus!
