use vstd::prelude::*;

verus! {

/// The JSON keys that the vendor's responses are read through.
#[derive(Clone, Copy, Debug, PartialEq, Eq, Structural)]
pub enum Field {
    Data,
    Geetest,
    Gt,
    Challenge,
    C,
    S,
    Result,
    Validate,
    Message,
    StaticServers,
    ImageServers,
    Pic,
    FullBg,
    Bg,
    Slice,
}

/// The key of a field, as it is spelled on the wire.
pub open spec fn field_key(f: Field) -> Seq<char> {
    match f {
        Field::Data => "data"@,
        Field::Geetest => "geetest"@,
        Field::Gt => "gt"@,
        Field::Challenge => "challenge"@,
        Field::C => "c"@,
        Field::S => "s"@,
        Field::Result => "result"@,
        Field::Validate => "validate"@,
        Field::Message => "message"@,
        Field::StaticServers => "static_servers"@,
        Field::ImageServers => "image_servers"@,
        Field::Pic => "pic"@,
        Field::FullBg => "fullbg"@,
        Field::Bg => "bg"@,
        Field::Slice => "slice"@,
    }
}

impl Field {
    pub fn key(self) -> (r: &'static str)
        ensures
            r@ == field_key(self),
    {
        match self {
            Field::Data => "data",
            Field::Geetest => "geetest",
            Field::Gt => "gt",
            Field::Challenge => "challenge",
            Field::C => "c",
            Field::S => "s",
            Field::Result => "result",
            Field::Validate => "validate",
            Field::Message => "message",
            Field::StaticServers => "static_servers",
            Field::ImageServers => "image_servers",
            Field::Pic => "pic",
            Field::FullBg => "fullbg",
            Field::Bg => "bg",
            Field::Slice => "slice",
        }
    }
}

/// Which side of the `token(` ... `)` wrapper failed to match.
#[derive(Clone, Copy, Debug, PartialEq, Eq, Structural)]
pub enum EnvelopeSide {
    Prefix,
    Suffix,
}

/// Every way a step of the verification flow can fail.
#[derive(Clone, Copy, Debug, PartialEq, Eq, Structural)]
pub enum GtError {
    /// The network, DNS or TLS layer failed, or a response body could not be read.
    Transport,
    /// The JSONP wrapper did not match the token sent with the request.
    Framing(EnvelopeSide),
    /// The interior of a response is not JSON text.
    InvalidJson,
    /// A JSON key is absent.
    MissingField(Field),
    /// A JSON key holds a value of another type than the one expected.
    WrongFieldType(Field),
    /// A JSON list that must name at least one server is empty.
    EmptyList(Field),
    /// An asset path lacks the leading `/` that the vendor always sends.
    MissingLeadingSlash(Field),
    /// Type discovery named neither `slide` nor `click`.
    UnknownPuzzleType,
    /// The detector, the matcher, or an image decode failed.
    SolverInternal,
    /// The step has no implementation for this puzzle family.
    NotImplemented,
}

impl GtError {
    /// Whether a fresh puzzle can cure this failure: only transport and solver
    /// failures are worth another attempt; the rest signal a protocol change.
    pub open spec fn spec_is_retryable(self) -> bool {
        match self {
            GtError::Transport | GtError::SolverInternal => true,
            _ => false,
        }
    }

    #[verifier::when_used_as_spec(spec_is_retryable)]
    pub fn is_retryable(self) -> (r: bool)
        ensures
            r == self.spec_is_retryable(),
    {
        match self {
            GtError::Transport | GtError::SolverInternal => true,
            _ => false,
        }
    }
}

} // verus!
