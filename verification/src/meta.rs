//! Shapes shared by every endpoint family: the tagged success/failure
//! result, cursor-based pagination, the graph API's structured error
//! envelope, the profile endpoint's error shape, and the hard failure
//! kept when a body matches no shape at all.

use vstd::prelude::*;
use crate::json::Json;
use crate::json::json_of;
use crate::json::spec_lookup;
use crate::json::req_str;
use crate::json::req_bool;
use crate::json::req_i32;
use crate::json::opt_str;
use crate::json::lookup;
use crate::json::get_req_str;
use crate::json::get_req_bool;
use crate::json::get_req_i32;
use crate::json::get_opt_str;
use crate::json::i32_text;
use crate::json::lemma_lookup_at;
use crate::text::make_preview;
use crate::text::preview_of;

verus! {

// ---------------------------------------------------------------------
// The tagged result
// ---------------------------------------------------------------------

/// What an endpoint call produces once its body classified: either the
/// endpoint's typed success payload or its typed error payload, never
/// both and never neither.
#[derive(Clone, Debug, PartialEq)]
pub enum ApiResult<S, E> {
    Success(S),
    Failure(E),
}

/// The mathematical value of an [`ApiResult`].
pub enum ApiResultV<SV, EV> {
    Success(SV),
    Failure(EV),
}

impl<S: View, E: View> View for ApiResult<S, E> {
    type V = ApiResultV<S::V, E::V>;

    open spec fn view(&self) -> ApiResultV<S::V, E::V> {
        match self {
            ApiResult::Success(s) => ApiResultV::Success(s@),
            ApiResult::Failure(e) => ApiResultV::Failure(e@),
        }
    }
}

impl<S, E> ApiResult<S, E> {
    /// Wraps a success payload.
    pub fn success(value: S) -> (r: Self)
        ensures
            r == ApiResult::<S, E>::Success(value),
    {
        ApiResult::Success(value)
    }

    /// Wraps an error payload.
    pub fn error(err: E) -> (r: Self)
        ensures
            r == ApiResult::<S, E>::Failure(err),
    {
        ApiResult::Failure(err)
    }

    /// The tag, fixed at construction.
    pub fn is_success(&self) -> (r: bool)
        ensures
            r == (self is Success),
    {
        match self {
            ApiResult::Success(_) => true,
            ApiResult::Failure(_) => false,
        }
    }

    /// The tag, fixed at construction.
    pub fn is_error(&self) -> (r: bool)
        ensures
            r == (self is Failure),
    {
        match self {
            ApiResult::Success(_) => false,
            ApiResult::Failure(_) => true,
        }
    }

    /// The success payload, when the tag says there is one.
    pub fn value(&self) -> (r: Option<&S>)
        ensures
            (r is Some) == (self is Success),
            r matches Some(v) ==> *v == self->Success_0,
    {
        match self {
            ApiResult::Success(s) => Some(s),
            ApiResult::Failure(_) => None,
        }
    }

    /// The error payload, when the tag says there is one.
    pub fn get_error(&self) -> (r: Option<&E>)
        ensures
            (r is Some) == (self is Failure),
            r matches Some(e) ==> *e == self->Failure_0,
    {
        match self {
            ApiResult::Success(_) => None,
            ApiResult::Failure(e) => Some(e),
        }
    }
}

// ---------------------------------------------------------------------
// The hard failure
// ---------------------------------------------------------------------

/// Why a body matched no shape.
#[derive(Clone, Copy, Debug, PartialEq, Eq, Structural)]
pub enum ParseFault {
    /// The body is not valid JSON at all.
    InvalidJson,
    /// The body is valid JSON but matches neither the expected success
    /// shape nor the expected error shape.
    ShapeMismatch,
}

/// A body that matched neither the success shape nor the error shape:
/// fatal for the call, surfaced with the HTTP status (when one is
/// known), the kind of fault, and a bounded preview of the body.
#[derive(Clone, Debug, PartialEq)]
pub struct UnparseableResponse {
    pub status: Option<u16>,
    pub fault: ParseFault,
    pub body_preview: String,
}

/// The mathematical value of an [`UnparseableResponse`].
pub struct UnparseableV {
    pub status: Option<u16>,
    pub fault: ParseFault,
    pub body_preview: Seq<char>,
}

impl View for UnparseableResponse {
    type V = UnparseableV;

    open spec fn view(&self) -> UnparseableV {
        UnparseableV { status: self.status, fault: self.fault, body_preview: self.body_preview@ }
    }
}

/// The hard failure owed for a body that matched no shape: the fault
/// names whether the body was JSON at all, and the preview keeps its
/// first 200 characters.
pub open spec fn unparseable_of(status: Option<u16>, body: Seq<char>) -> UnparseableV {
    UnparseableV {
        status,
        fault: if json_of(body) is None {
            ParseFault::InvalidJson
        } else {
            ParseFault::ShapeMismatch
        },
        body_preview: preview_of(body),
    }
}

/// Builds the hard failure for a body, with the caller's fault kind and
/// the body's bounded preview.
pub(crate) fn make_unparseable(status: Option<u16>, fault: ParseFault, body: &str) -> (u:
    UnparseableResponse)
    ensures
        u@ == (UnparseableV { status, fault, body_preview: preview_of(body@) }),
{
    UnparseableResponse { status, fault, body_preview: make_preview(body) }
}

/// The hard failure never loses the body silently: its preview is the
/// body's own first characters, bounded at 200, and empty only when the
/// body itself was empty.
pub proof fn lemma_unparseable_preview(status: Option<u16>, body: Seq<char>)
    ensures
        unparseable_of(status, body).body_preview.len() <= 200,
        body.len() > 0 ==> unparseable_of(status, body).body_preview.len() > 0,
        unparseable_of(status, body).body_preview == (if body.len() <= 200 {
            body
        } else {
            body.subrange(0, 200)
        }),
        unparseable_of(status, body).status == status,
{
}

// ---------------------------------------------------------------------
// Pagination
// ---------------------------------------------------------------------

/// Opaque pagination tokens.
#[derive(Clone, Debug, PartialEq)]
pub struct Cursor {
    pub before: String,
    pub after: String,
}

/// The mathematical value of a [`Cursor`].
pub struct CursorV {
    pub before: Seq<char>,
    pub after: Seq<char>,
}

impl View for Cursor {
    type V = CursorV;

    open spec fn view(&self) -> CursorV {
        CursorV { before: self.before@, after: self.after@ }
    }
}

/// A page's continuation: `next`, when present, is a complete request
/// URL; its absence says no further page exists.
#[derive(Clone, Debug, PartialEq)]
pub struct Paging {
    pub next: Option<String>,
    pub cursors: Cursor,
}

/// The mathematical value of a [`Paging`].
pub struct PagingV {
    pub next: Option<Seq<char>>,
    pub cursors: CursorV,
}

impl View for Paging {
    type V = PagingV;

    open spec fn view(&self) -> PagingV {
        PagingV {
            next: match self.next {
                Some(u) => Some(u@),
                None => None,
            },
            cursors: self.cursors@,
        }
    }
}

impl Paging {
    /// Whether a further page exists; when this is false the caller
    /// must stop paging.
    pub fn has_next(&self) -> (r: bool)
        ensures
            r == (self@.next is Some),
    {
        match &self.next {
            Some(_) => true,
            None => false,
        }
    }

    /// The URL of the next page, fetched verbatim.
    pub fn next_url(&self) -> (r: Option<&String>)
        ensures
            (r is Some) == (self@.next is Some),
            r matches Some(u) ==> self@.next == Some(u@),
    {
        match &self.next {
            Some(u) => Some(u),
            None => None,
        }
    }
}

/// The JSON shape of a cursor object: both tokens required strings.
pub open spec fn cursor_of(j: Json) -> Option<CursorV> {
    match j {
        Json::Obj(f) => match (req_str(f@, "before"@), req_str(f@, "after"@)) {
            (Some(b), Some(a)) => Some(CursorV { before: b, after: a }),
            _ => None,
        },
        _ => None,
    }
}

/// Reads a cursor object.
pub fn parse_cursor(j: &Json) -> (r: Option<Cursor>)
    ensures
        (r is Some) == (cursor_of(*j) is Some),
        r matches Some(c) ==> cursor_of(*j) == Some(c@),
{
    match j {
        Json::Obj(fields) => {
            let before = match get_req_str(fields, "before") {
                Some(s) => s,
                None => {
                    return None;
                },
            };
            let after = match get_req_str(fields, "after") {
                Some(s) => s,
                None => {
                    return None;
                },
            };
            Some(Cursor { before, after })
        },
        _ => None,
    }
}

/// The JSON shape of a paging object: `next` optional, `cursors`
/// required.
pub open spec fn paging_of(j: Json) -> Option<PagingV> {
    match j {
        Json::Obj(f) => match (opt_str(f@, "next"@), spec_lookup(f@, "cursors"@)) {
            (Some(nx), Some(cj)) => match cursor_of(cj) {
                Some(c) => Some(PagingV { next: nx, cursors: c }),
                None => None,
            },
            _ => None,
        },
        _ => None,
    }
}

/// Reads a paging object.
pub fn parse_paging(j: &Json) -> (r: Option<Paging>)
    ensures
        (r is Some) == (paging_of(*j) is Some),
        r matches Some(p) ==> paging_of(*j) == Some(p@),
{
    match j {
        Json::Obj(fields) => {
            let next = match get_opt_str(fields, "next") {
                Some(nx) => nx,
                None => {
                    return None;
                },
            };
            let cursors = match lookup(fields, "cursors") {
                Some(cj) => match parse_cursor(cj) {
                    Some(c) => c,
                    None => {
                        return None;
                    },
                },
                None => {
                    return None;
                },
            };
            Some(Paging { next, cursors })
        },
        _ => None,
    }
}

/// Builds the JSON document of a cursor; reading it back yields the
/// same value.
pub fn cursor_to_json(c: &Cursor) -> (j: Json)
    ensures
        cursor_of(j) == Some(c@),
{
    let mut fields: Vec<(String, Json)> = Vec::new();
    fields.push(("before".to_owned(), Json::Str(c.before.clone())));
    fields.push(("after".to_owned(), Json::Str(c.after.clone())));
    let ghost fs = fields@;
    let j = Json::Obj(fields);
    proof {
        reveal_strlit("before");
        reveal_strlit("after");
        assert(fs[0].0@ == "before"@);
        assert(fs[1].0@ == "after"@);
        lemma_lookup_at(fs, "before"@, 0);
        lemma_lookup_at(fs, "after"@, 1);
    }
    j
}

/// Builds the JSON document of a paging object, with an explicit null
/// standing for an absent `next`; reading it back yields the same
/// value.
pub fn paging_to_json(p: &Paging) -> (j: Json)
    ensures
        paging_of(j) == Some(p@),
{
    let next = match &p.next {
        Some(u) => Json::Str(u.clone()),
        None => Json::Null,
    };
    let cursors = cursor_to_json(&p.cursors);
    let mut fields: Vec<(String, Json)> = Vec::new();
    fields.push(("next".to_owned(), next));
    fields.push(("cursors".to_owned(), cursors));
    let ghost fs = fields@;
    let j = Json::Obj(fields);
    proof {
        reveal_strlit("next");
        reveal_strlit("cursors");
        assert(fs[0].0@ == "next"@);
        assert(fs[1].0@ == "cursors"@);
        lemma_lookup_at(fs, "next"@, 0);
        lemma_lookup_at(fs, "cursors"@, 1);
    }
    j
}

// ---------------------------------------------------------------------
// The graph API's error envelope
// ---------------------------------------------------------------------

/// The payload nested under the graph API's `error` key.
#[derive(Clone, Debug, PartialEq)]
pub struct MetaErrorData {
    pub message: String,
    pub error_type: String,
    pub code: i32,
    pub fbtrace_id: String,
    pub is_transient: bool,
}

/// The mathematical value of a [`MetaErrorData`].
pub struct MetaErrorDataV {
    pub message: Seq<char>,
    pub error_type: Seq<char>,
    pub code: int,
    pub fbtrace_id: Seq<char>,
    pub is_transient: bool,
}

impl View for MetaErrorData {
    type V = MetaErrorDataV;

    open spec fn view(&self) -> MetaErrorDataV {
        MetaErrorDataV {
            message: self.message@,
            error_type: self.error_type@,
            code: self.code as int,
            fbtrace_id: self.fbtrace_id@,
            is_transient: self.is_transient,
        }
    }
}

/// The graph API's error envelope: a single `error` object.
#[derive(Clone, Debug, PartialEq)]
pub struct MetaError {
    pub error: MetaErrorData,
}

/// The mathematical value of a [`MetaError`].
pub struct MetaErrorV {
    pub error: MetaErrorDataV,
}

impl View for MetaError {
    type V = MetaErrorV;

    open spec fn view(&self) -> MetaErrorV {
        MetaErrorV { error: self.error@ }
    }
}

/// The JSON shape of the error payload: every field required, the
/// wire name of the type field being `type`.
pub open spec fn meta_error_data_of(j: Json) -> Option<MetaErrorDataV> {
    match j {
        Json::Obj(f) => {
            let message = req_str(f@, "message"@);
            let error_type = req_str(f@, "type"@);
            let code = req_i32(f@, "code"@);
            let fbtrace_id = req_str(f@, "fbtrace_id"@);
            let is_transient = req_bool(f@, "is_transient"@);
            if message is Some && error_type is Some && code is Some && fbtrace_id is Some
                && is_transient is Some {
                Some(
                    MetaErrorDataV {
                        message: message->0,
                        error_type: error_type->0,
                        code: code->0,
                        fbtrace_id: fbtrace_id->0,
                        is_transient: is_transient->0,
                    },
                )
            } else {
                None
            }
        },
        _ => None,
    }
}

/// Reads the error payload.
pub fn parse_meta_error_data(j: &Json) -> (r: Option<MetaErrorData>)
    ensures
        (r is Some) == (meta_error_data_of(*j) is Some),
        r matches Some(d) ==> meta_error_data_of(*j) == Some(d@),
{
    match j {
        Json::Obj(fields) => {
            let message = match get_req_str(fields, "message") {
                Some(s) => s,
                None => {
                    return None;
                },
            };
            let error_type = match get_req_str(fields, "type") {
                Some(s) => s,
                None => {
                    return None;
                },
            };
            let code = match get_req_i32(fields, "code") {
                Some(v) => v,
                None => {
                    return None;
                },
            };
            let fbtrace_id = match get_req_str(fields, "fbtrace_id") {
                Some(s) => s,
                None => {
                    return None;
                },
            };
            let is_transient = match get_req_bool(fields, "is_transient") {
                Some(b) => b,
                None => {
                    return None;
                },
            };
            Some(MetaErrorData { message, error_type, code, fbtrace_id, is_transient })
        },
        _ => None,
    }
}

/// The JSON shape of the graph error envelope: a top-level `error`
/// object carrying the full payload. No graph success shape carries an
/// `error` key, so this shape is disjoint from all of them.
pub open spec fn meta_error_of(j: Json) -> Option<MetaErrorV> {
    match j {
        Json::Obj(f) => match spec_lookup(f@, "error"@) {
            Some(inner) => match meta_error_data_of(inner) {
                Some(d) => Some(MetaErrorV { error: d }),
                None => None,
            },
            None => None,
        },
        _ => None,
    }
}

/// Reads the graph error envelope.
pub fn parse_meta_error(j: &Json) -> (r: Option<MetaError>)
    ensures
        (r is Some) == (meta_error_of(*j) is Some),
        r matches Some(e) ==> meta_error_of(*j) == Some(e@),
{
    match j {
        Json::Obj(fields) => match lookup(fields, "error") {
            Some(inner) => match parse_meta_error_data(inner) {
                Some(d) => Some(MetaError { error: d }),
                None => None,
            },
            None => None,
        },
        _ => None,
    }
}

/// Builds the JSON document of a graph error envelope; reading it back
/// yields exactly the same value, witnessing that classification
/// round-trips the fields of an error body.
pub fn meta_error_to_json(e: &MetaError) -> (j: Json)
    ensures
        meta_error_of(j) == Some(e@),
{
    let mut inner: Vec<(String, Json)> = Vec::new();
    inner.push(("message".to_owned(), Json::Str(e.error.message.clone())));
    inner.push(("type".to_owned(), Json::Str(e.error.error_type.clone())));
    inner.push(("code".to_owned(), Json::Num(i32_text(e.error.code))));
    inner.push(("fbtrace_id".to_owned(), Json::Str(e.error.fbtrace_id.clone())));
    inner.push(("is_transient".to_owned(), Json::Bool(e.error.is_transient)));
    let ghost ifs = inner@;
    let data = Json::Obj(inner);
    proof {
        reveal_strlit("message");
        reveal_strlit("type");
        reveal_strlit("code");
        reveal_strlit("fbtrace_id");
        reveal_strlit("is_transient");
        assert(ifs[0].0@ == "message"@);
        assert(ifs[1].0@ == "type"@);
        assert(ifs[2].0@ == "code"@);
        assert(ifs[3].0@ == "fbtrace_id"@);
        assert(ifs[4].0@ == "is_transient"@);
        assert(ifs[0].0@ != "type"@);
        assert(ifs[0].0@ != "code"@);
        assert(ifs[1].0@ != "code"@) by {
            assert("type"@[0] == 't');
            assert("code"@[0] == 'c');
        }
        assert(ifs[0].0@ != "fbtrace_id"@);
        assert(ifs[1].0@ != "fbtrace_id"@);
        assert(ifs[2].0@ != "fbtrace_id"@);
        assert(ifs[0].0@ != "is_transient"@);
        assert(ifs[1].0@ != "is_transient"@);
        assert(ifs[2].0@ != "is_transient"@);
        assert(ifs[3].0@ != "is_transient"@);
        lemma_lookup_at(ifs, "message"@, 0);
        lemma_lookup_at(ifs, "type"@, 1);
        lemma_lookup_at(ifs, "code"@, 2);
        lemma_lookup_at(ifs, "fbtrace_id"@, 3);
        lemma_lookup_at(ifs, "is_transient"@, 4);
        assert(meta_error_data_of(data) == Some(e.error@));
    }
    let mut outer: Vec<(String, Json)> = Vec::new();
    outer.push(("error".to_owned(), data));
    let ghost ofs = outer@;
    let j = Json::Obj(outer);
    proof {
        reveal_strlit("error");
        lemma_lookup_at(ofs, "error"@, 0);
    }
    j
}

// ---------------------------------------------------------------------
// The profile endpoint's error shape
// ---------------------------------------------------------------------

/// The unofficial profile endpoint's error payload: flat, every field
/// required.
#[derive(Clone, Debug, PartialEq)]
pub struct MetaInstagramError {
    pub message: String,
    pub require_login: bool,
    pub igweb_rollout: bool,
    pub status: String,
}

/// The mathematical value of a [`MetaInstagramError`].
pub struct MetaInstagramErrorV {
    pub message: Seq<char>,
    pub require_login: bool,
    pub igweb_rollout: bool,
    pub status: Seq<char>,
}

impl View for MetaInstagramError {
    type V = MetaInstagramErrorV;

    open spec fn view(&self) -> MetaInstagramErrorV {
        MetaInstagramErrorV {
            message: self.message@,
            require_login: self.require_login,
            igweb_rollout: self.igweb_rollout,
            status: self.status@,
        }
    }
}

/// The JSON shape of the profile endpoint's error payload.
pub open spec fn meta_instagram_error_of(j: Json) -> Option<MetaInstagramErrorV> {
    match j {
        Json::Obj(f) => {
            let message = req_str(f@, "message"@);
            let require_login = req_bool(f@, "require_login"@);
            let igweb_rollout = req_bool(f@, "igweb_rollout"@);
            let status = req_str(f@, "status"@);
            if message is Some && require_login is Some && igweb_rollout is Some
                && status is Some {
                Some(
                    MetaInstagramErrorV {
                        message: message->0,
                        require_login: require_login->0,
                        igweb_rollout: igweb_rollout->0,
                        status: status->0,
                    },
                )
            } else {
                None
            }
        },
        _ => None,
    }
}

/// Reads the profile endpoint's error payload.
pub fn parse_meta_instagram_error(j: &Json) -> (r: Option<MetaInstagramError>)
    ensures
        (r is Some) == (meta_instagram_error_of(*j) is Some),
        r matches Some(e) ==> meta_instagram_error_of(*j) == Some(e@),
{
    match j {
        Json::Obj(fields) => {
            let message = match get_req_str(fields, "message") {
                Some(s) => s,
                None => {
                    return None;
                },
            };
            let require_login = match get_req_bool(fields, "require_login") {
                Some(b) => b,
                None => {
                    return None;
                },
            };
            let igweb_rollout = match get_req_bool(fields, "igweb_rollout") {
                Some(b) => b,
                None => {
                    return None;
                },
            };
            let status = match get_req_str(fields, "status") {
                Some(s) => s,
                None => {
                    return None;
                },
            };
            Some(MetaInstagramError { message, require_login, igweb_rollout, status })
        },
        _ => None,
    }
}

} // verus!
