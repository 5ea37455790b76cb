use vstd::prelude::*;
use crate::envelope::{decode_envelope, envelope_value};
use crate::error::{Field, GtError};
use crate::fields::{
    bytes_at, first_server_at, read_bytes, read_first_server, read_str, read_sub, str_at,
    sub_at, text_view, then,
};
use crate::json::{json_text, parse_json, Json};

verus! {

/// The two puzzle families the vendor issues.
#[derive(Clone, Copy, Debug, PartialEq, Eq, Structural)]
pub enum PuzzleKind {
    Slide,
    Click,
}

/// Where a registration endpoint keeps the vendor ids.
#[derive(Clone, Copy, Debug, PartialEq, Eq, Structural)]
pub enum Integration {
    /// Under `data.geetest`, as the click-integration endpoint answers.
    Nested,
    /// At the top level, as the generic endpoint answers.
    TopLevel,
}

/// The value of `r` seen through its view.
pub open spec fn res_view<T: View>(r: Result<T, GtError>) -> Result<T::V, GtError> {
    match r {
        Ok(v) => Ok(v@),
        Err(e) => Err(e),
    }
}

/// The vendor ids of one attempt.
#[derive(Debug)]
pub struct Registration {
    pub gt: String,
    pub challenge: String,
}

impl View for Registration {
    type V = (Seq<char>, Seq<char>);

    open spec fn view(&self) -> Self::V {
        (self.gt@, self.challenge@)
    }
}

/// The opaque `(c, s)` pair that the token generator echoes back.
#[derive(Debug)]
pub struct PuzzleMaterial {
    pub c: Vec<u8>,
    pub s: String,
}

impl View for PuzzleMaterial {
    type V = (Seq<u8>, Seq<char>);

    open spec fn view(&self) -> Self::V {
        (self.c@, self.s@)
    }
}

/// A fetched click puzzle: its material and the address of its image.
#[derive(Debug)]
pub struct ClickPuzzle {
    pub material: PuzzleMaterial,
    pub pic_url: String,
}

impl View for ClickPuzzle {
    type V = ((Seq<u8>, Seq<char>), Seq<char>);

    open spec fn view(&self) -> Self::V {
        (self.material@, self.pic_url@)
    }
}

/// A fetched slide puzzle: its material, the refreshed challenge, and the
/// addresses of the full background, the scrambled background and the slice.
#[derive(Debug)]
pub struct SlidePuzzle {
    pub material: PuzzleMaterial,
    pub challenge: String,
    pub fullbg_url: String,
    pub bg_url: String,
    pub slice_url: String,
}

impl View for SlidePuzzle {
    type V = ((Seq<u8>, Seq<char>), Seq<char>, Seq<char>, Seq<char>, Seq<char>);

    open spec fn view(&self) -> Self::V {
        (self.material@, self.challenge@, self.fullbg_url@, self.bg_url@, self.slice_url@)
    }
}

/// The vendor's answer to a submission: its status word and the validate string.
#[derive(Debug)]
pub struct Submission {
    pub status: String,
    pub validate: String,
}

impl View for Submission {
    type V = (Seq<char>, Seq<char>);

    open spec fn view(&self) -> Self::V {
        (self.status@, self.validate@)
    }
}

/// A document as read from a plain JSON body.
pub open spec fn body_value(body: Seq<char>) -> Result<Json, GtError> {
    match json_text(body) {
        Some(v) => Ok(v),
        None => Err(GtError::InvalidJson),
    }
}

/// `gt` and `challenge` of an object.
pub open spec fn ids_in(obj: Json) -> Result<(Seq<char>, Seq<char>), GtError> {
    then(str_at(obj, Field::Gt), |gt: Seq<char>|
        then(str_at(obj, Field::Challenge), |ch: Seq<char>| Ok((gt, ch))))
}

/// The vendor ids in a registration document.
pub open spec fn registration_of(doc: Json, integration: Integration) -> Result<(Seq<char>, Seq<char>), GtError> {
    match integration {
        Integration::TopLevel => ids_in(doc),
        Integration::Nested => then(sub_at(doc, Field::Data), |d: Json|
            then(sub_at(d, Field::Geetest), |g: Json| ids_in(g))),
    }
}

/// The `(c, s)` pair under `data` of a parameter response.
pub open spec fn params_of(doc: Json) -> Result<(Seq<u8>, Seq<char>), GtError> {
    then(sub_at(doc, Field::Data), |d: Json|
        then(bytes_at(d, Field::C), |c: Seq<u8>|
            then(str_at(d, Field::S), |s: Seq<char>| Ok((c, s)))))
}

/// The puzzle family named under `data.result` of a type response.
pub open spec fn kind_of(doc: Json) -> Result<PuzzleKind, GtError> {
    then(sub_at(doc, Field::Data), |d: Json|
        then(str_at(d, Field::Result), |t: Seq<char>|
            if t == "slide"@ {
                Ok(PuzzleKind::Slide)
            } else if t == "click"@ {
                Ok(PuzzleKind::Click)
            } else {
                Err(GtError::UnknownPuzzleType)
            }))
}

/// The address of an asset on a static host.
pub open spec fn asset_url(host: Seq<char>, path: Seq<char>) -> Seq<char> {
    "https://"@ + host + path
}

/// A path with one leading `/` dropped, where it has one.
pub open spec fn drop_one_slash(path: Seq<char>) -> Seq<char> {
    if path.len() > 0 && path[0] == '/' {
        path.drop_first()
    } else {
        path
    }
}

/// The address of an asset whose path must open with `/`, which is dropped.
pub open spec fn rooted_asset_url(host: Seq<char>, pic: Seq<char>) -> Result<Seq<char>, GtError> {
    if pic.len() > 0 && pic[0] == '/' {
        Ok(asset_url(host, pic.drop_first()))
    } else {
        Err(GtError::MissingLeadingSlash(Field::Pic))
    }
}

/// The click puzzle under `data` of a puzzle response.
pub open spec fn click_puzzle_of(doc: Json) -> Result<((Seq<u8>, Seq<char>), Seq<char>), GtError> {
    then(sub_at(doc, Field::Data), |d: Json|
        then(bytes_at(d, Field::C), |c: Seq<u8>|
            then(first_server_at(d, Field::StaticServers), |host: Seq<char>|
                then(str_at(d, Field::S), |s: Seq<char>|
                    then(str_at(d, Field::Pic), |pic: Seq<char>|
                        then(rooted_asset_url(host, pic), |url: Seq<char>| Ok(((c, s), url))))))))
}

/// The slide puzzle at the top level of a puzzle response; its asset paths are
/// resolved as the click image is, a leading `/` dropped.
pub open spec fn slide_puzzle_of(doc: Json) -> Result<((Seq<u8>, Seq<char>), Seq<char>, Seq<char>, Seq<char>, Seq<char>), GtError> {
    then(bytes_at(doc, Field::C), |c: Seq<u8>|
        then(first_server_at(doc, Field::StaticServers), |host: Seq<char>|
            then(str_at(doc, Field::S), |s: Seq<char>|
                then(str_at(doc, Field::Challenge), |ch: Seq<char>|
                    then(str_at(doc, Field::FullBg), |f: Seq<char>|
                        then(str_at(doc, Field::Bg), |b: Seq<char>|
                            then(str_at(doc, Field::Slice), |sl: Seq<char>|
                                Ok(((c, s), ch, asset_url(host, drop_one_slash(f)), asset_url(host, drop_one_slash(b)), asset_url(host, drop_one_slash(sl)))))))))))
}

/// The verdict under `data` of a click submission response.
pub open spec fn click_submission_of(doc: Json) -> Result<(Seq<char>, Seq<char>), GtError> {
    then(sub_at(doc, Field::Data), |d: Json|
        then(str_at(d, Field::Result), |st: Seq<char>|
            then(str_at(d, Field::Validate), |v: Seq<char>| Ok((st, v)))))
}

/// The verdict at the top level of a slide submission response.
pub open spec fn slide_submission_of(doc: Json) -> Result<(Seq<char>, Seq<char>), GtError> {
    then(str_at(doc, Field::Message), |st: Seq<char>|
        then(str_at(doc, Field::Validate), |v: Seq<char>| Ok((st, v))))
}

/// The address of the new image under `data` of a click refresh response.
pub open spec fn click_refresh_of(doc: Json) -> Result<Seq<char>, GtError> {
    then(sub_at(doc, Field::Data), |d: Json|
        then(first_server_at(d, Field::ImageServers), |host: Seq<char>|
            then(str_at(d, Field::Pic), |pic: Seq<char>| rooted_asset_url(host, pic))))
}

fn ids_from(obj: &Json) -> (r: Result<Registration, GtError>)
    ensures
        res_view(r) == ids_in(*obj),
{
    let gt = match read_str(obj, Field::Gt) {
        Ok(v) => v,
        Err(e) => return Err(e),
    };
    let challenge = match read_str(obj, Field::Challenge) {
        Ok(v) => v,
        Err(e) => return Err(e),
    };
    Ok(Registration { gt, challenge })
}

/// Reads the vendor ids from a registration document.
pub fn registration_from(doc: &Json, integration: Integration) -> (r: Result<Registration, GtError>)
    ensures
        res_view(r) == registration_of(*doc, integration),
{
    match integration {
        Integration::TopLevel => ids_from(doc),
        Integration::Nested => {
            let d = match read_sub(doc, Field::Data) {
                Ok(v) => v,
                Err(e) => return Err(e),
            };
            let g = match read_sub(d, Field::Geetest) {
                Ok(v) => v,
                Err(e) => return Err(e),
            };
            ids_from(g)
        },
    }
}

/// Reads the vendor ids from the body of a registration response.
pub fn decode_registration(body: &str, integration: Integration) -> (r: Result<Registration, GtError>)
    ensures
        res_view(r) == then(body_value(body@), |doc: Json| registration_of(doc, integration)),
{
    match parse_json(body) {
        Some(doc) => registration_from(&doc, integration),
        None => Err(GtError::InvalidJson),
    }
}

/// Reads `data.c` and `data.s` from a parameter document.
pub fn params_from(doc: &Json) -> (r: Result<PuzzleMaterial, GtError>)
    ensures
        res_view(r) == params_of(*doc),
{
    let d = match read_sub(doc, Field::Data) {
        Ok(v) => v,
        Err(e) => return Err(e),
    };
    let c = match read_bytes(d, Field::C) {
        Ok(v) => v,
        Err(e) => return Err(e),
    };
    let s = match read_str(d, Field::S) {
        Ok(v) => v,
        Err(e) => return Err(e),
    };
    Ok(PuzzleMaterial { c, s })
}

/// Decodes a wrapped parameter response.
pub fn decode_params(text: &str, token: &str) -> (r: Result<PuzzleMaterial, GtError>)
    ensures
        res_view(r) == then(envelope_value(text@, token@), |doc: Json| params_of(doc)),
{
    match decode_envelope(text, token) {
        Ok(doc) => params_from(&doc),
        Err(e) => Err(e),
    }
}

/// Reads the puzzle family from a type document.
pub fn kind_from(doc: &Json) -> (r: Result<PuzzleKind, GtError>)
    ensures
        r == kind_of(*doc),
{
    let d = match read_sub(doc, Field::Data) {
        Ok(v) => v,
        Err(e) => return Err(e),
    };
    let t = match read_str(d, Field::Result) {
        Ok(v) => v,
        Err(e) => return Err(e),
    };
    proof {
        reveal_strlit("slide");
        reveal_strlit("click");
    }
    if crate::text::str_eq(t.as_str(), "slide") {
        Ok(PuzzleKind::Slide)
    } else if crate::text::str_eq(t.as_str(), "click") {
        Ok(PuzzleKind::Click)
    } else {
        Err(GtError::UnknownPuzzleType)
    }
}

/// Decodes a wrapped type response.
pub fn decode_kind(text: &str, token: &str) -> (r: Result<PuzzleKind, GtError>)
    ensures
        r == then(envelope_value(text@, token@), |doc: Json| kind_of(doc)),
{
    match decode_envelope(text, token) {
        Ok(doc) => kind_from(&doc),
        Err(e) => Err(e),
    }
}

fn join_asset_url(host: &str, path: &str) -> (r: String)
    ensures
        r@ == asset_url(host@, path@),
{
    let mut url = String::from_str("https://");
    url.append(host);
    url.append(path);
    url
}

/// The address of an asset on a static host, one leading `/` of the path dropped.
fn slash_trimmed_url(host: &str, path: &str) -> (r: String)
    ensures
        r@ == asset_url(host@, drop_one_slash(path@)),
{
    let n = path.unicode_len();
    if n > 0 && path.get_char(0) == '/' {
        let rest = path.substring_char(1, n);
        assert(rest@ =~= path@.drop_first());
        join_asset_url(host, rest)
    } else {
        join_asset_url(host, path)
    }
}

fn rooted_url(host: &str, pic: &str) -> (r: Result<String, GtError>)
    ensures
        text_view(r) == rooted_asset_url(host@, pic@),
{
    let n = pic.unicode_len();
    if n == 0 || pic.get_char(0) != '/' {
        return Err(GtError::MissingLeadingSlash(Field::Pic));
    }
    let rest = pic.substring_char(1, n);
    assert(rest@ =~= pic@.drop_first());
    Ok(join_asset_url(host, rest))
}

/// Reads a click puzzle from a puzzle document.
pub fn click_puzzle_from(doc: &Json) -> (r: Result<ClickPuzzle, GtError>)
    ensures
        res_view(r) == click_puzzle_of(*doc),
{
    let d = match read_sub(doc, Field::Data) {
        Ok(v) => v,
        Err(e) => return Err(e),
    };
    let c = match read_bytes(d, Field::C) {
        Ok(v) => v,
        Err(e) => return Err(e),
    };
    let host = match read_first_server(d, Field::StaticServers) {
        Ok(v) => v,
        Err(e) => return Err(e),
    };
    let s = match read_str(d, Field::S) {
        Ok(v) => v,
        Err(e) => return Err(e),
    };
    let pic = match read_str(d, Field::Pic) {
        Ok(v) => v,
        Err(e) => return Err(e),
    };
    let pic_url = match rooted_url(host.as_str(), pic.as_str()) {
        Ok(v) => v,
        Err(e) => return Err(e),
    };
    Ok(ClickPuzzle { material: PuzzleMaterial { c, s }, pic_url })
}

/// Decodes a wrapped click puzzle response.
pub fn decode_click_puzzle(text: &str, token: &str) -> (r: Result<ClickPuzzle, GtError>)
    ensures
        res_view(r) == then(envelope_value(text@, token@), |doc: Json| click_puzzle_of(doc)),
{
    match decode_envelope(text, token) {
        Ok(doc) => click_puzzle_from(&doc),
        Err(e) => Err(e),
    }
}

/// Reads a slide puzzle from a puzzle document.
pub fn slide_puzzle_from(doc: &Json) -> (r: Result<SlidePuzzle, GtError>)
    ensures
        res_view(r) == slide_puzzle_of(*doc),
{
    let c = match read_bytes(doc, Field::C) {
        Ok(v) => v,
        Err(e) => return Err(e),
    };
    let host = match read_first_server(doc, Field::StaticServers) {
        Ok(v) => v,
        Err(e) => return Err(e),
    };
    let s = match read_str(doc, Field::S) {
        Ok(v) => v,
        Err(e) => return Err(e),
    };
    let challenge = match read_str(doc, Field::Challenge) {
        Ok(v) => v,
        Err(e) => return Err(e),
    };
    let fullbg = match read_str(doc, Field::FullBg) {
        Ok(v) => v,
        Err(e) => return Err(e),
    };
    let bg = match read_str(doc, Field::Bg) {
        Ok(v) => v,
        Err(e) => return Err(e),
    };
    let slice = match read_str(doc, Field::Slice) {
        Ok(v) => v,
        Err(e) => return Err(e),
    };
    Ok(SlidePuzzle {
        material: PuzzleMaterial { c, s },
        challenge,
        fullbg_url: slash_trimmed_url(host.as_str(), fullbg.as_str()),
        bg_url: slash_trimmed_url(host.as_str(), bg.as_str()),
        slice_url: slash_trimmed_url(host.as_str(), slice.as_str()),
    })
}

/// Decodes a wrapped slide puzzle response.
pub fn decode_slide_puzzle(text: &str, token: &str) -> (r: Result<SlidePuzzle, GtError>)
    ensures
        res_view(r) == then(envelope_value(text@, token@), |doc: Json| slide_puzzle_of(doc)),
{
    match decode_envelope(text, token) {
        Ok(doc) => slide_puzzle_from(&doc),
        Err(e) => Err(e),
    }
}

/// Reads the verdict of a submission document of the given family.
pub fn submission_from(doc: &Json, kind: PuzzleKind) -> (r: Result<Submission, GtError>)
    ensures
        res_view(r) == match kind {
            PuzzleKind::Click => click_submission_of(*doc),
            PuzzleKind::Slide => slide_submission_of(*doc),
        },
{
    let obj = match kind {
        PuzzleKind::Click => match read_sub(doc, Field::Data) {
            Ok(v) => v,
            Err(e) => return Err(e),
        },
        PuzzleKind::Slide => doc,
    };
    let (status_field, validate_field) = match kind {
        PuzzleKind::Click => (Field::Result, Field::Validate),
        PuzzleKind::Slide => (Field::Message, Field::Validate),
    };
    let status = match read_str(obj, status_field) {
        Ok(v) => v,
        Err(e) => return Err(e),
    };
    let validate = match read_str(obj, validate_field) {
        Ok(v) => v,
        Err(e) => return Err(e),
    };
    Ok(Submission { status, validate })
}

/// Decodes a wrapped submission response of the given family.
pub fn decode_submission(text: &str, token: &str, kind: PuzzleKind) -> (r: Result<Submission, GtError>)
    ensures
        res_view(r) == then(envelope_value(text@, token@), |doc: Json| match kind {
            PuzzleKind::Click => click_submission_of(doc),
            PuzzleKind::Slide => slide_submission_of(doc),
        }),
{
    match decode_envelope(text, token) {
        Ok(doc) => submission_from(&doc, kind),
        Err(e) => Err(e),
    }
}

/// Reads the new image address from a click refresh document.
pub fn click_refresh_from(doc: &Json) -> (r: Result<String, GtError>)
    ensures
        text_view(r) == click_refresh_of(*doc),
{
    let d = match read_sub(doc, Field::Data) {
        Ok(v) => v,
        Err(e) => return Err(e),
    };
    let host = match read_first_server(d, Field::ImageServers) {
        Ok(v) => v,
        Err(e) => return Err(e),
    };
    let pic = match read_str(d, Field::Pic) {
        Ok(v) => v,
        Err(e) => return Err(e),
    };
    rooted_url(host.as_str(), pic.as_str())
}

/// Decodes a wrapped refresh response of the given family. The slide family
/// has no refresh step, which is reported rather than attempted.
pub fn decode_refresh(text: &str, token: &str, kind: PuzzleKind) -> (r: Result<String, GtError>)
    ensures
        text_view(r) == match kind {
            PuzzleKind::Click => then(envelope_value(text@, token@), |doc: Json| click_refresh_of(doc)),
            PuzzleKind::Slide => Err(GtError::NotImplemented),
        },
{
    match kind {
        PuzzleKind::Slide => Err(GtError::NotImplemented),
        PuzzleKind::Click => match decode_envelope(text, token) {
            Ok(doc) => click_refresh_from(&doc),
            Err(e) => Err(e),
        },
    }
}

} // verus!
