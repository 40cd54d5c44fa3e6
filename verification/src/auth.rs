//! The version normalizer used to build versioned URLs, and the shape
//! of the token endpoint's response.

use vstd::prelude::*;
use vstd::string::StrSliceExecFns;
use vstd::string::StringExecFns;
use crate::json::Json;
use crate::json::json_of;
use crate::json::req_str;
use crate::json::parse_json;
use crate::json::get_req_str;

verus! {

/// A version string prefixed with `v` unless already so prefixed; total
/// over all strings, and the empty string yields `v` itself.
pub open spec fn normalized_version(v: Seq<char>) -> Seq<char> {
    if v.len() > 0 && v[0] == 'v' {
        v
    } else {
        seq!['v'] + v
    }
}

/// Prefixes a version string with `v` unless already so prefixed.
pub fn normalize_version(version: &str) -> (r: String)
    ensures
        r@ == normalized_version(version@),
{
    if !version.is_empty() && version.get_char(0) == 'v' {
        version.to_owned()
    } else {
        let mut s = "v".to_owned();
        proof {
            reveal_strlit("v");
            assert("v"@ =~= seq!['v']);
        }
        s.append(version);
        s
    }
}

/// Normalization is idempotent: a normalized version is left unchanged.
pub proof fn lemma_normalize_idempotent(v: Seq<char>)
    ensures
        normalized_version(normalized_version(v)) == normalized_version(v),
{
    if !(v.len() > 0 && v[0] == 'v') {
        assert((seq!['v'] + v)[0] == 'v');
    }
}

/// The token endpoint's response body: a single required field holding
/// the access token.
#[derive(Clone, Debug, PartialEq)]
pub struct AccessTokenResponse {
    pub access_token: String,
}

/// The mathematical value of an [`AccessTokenResponse`].
pub struct AccessTokenResponseV {
    pub access_token: Seq<char>,
}

impl View for AccessTokenResponse {
    type V = AccessTokenResponseV;

    open spec fn view(&self) -> AccessTokenResponseV {
        AccessTokenResponseV { access_token: self.access_token@ }
    }
}

/// The JSON shape of the token endpoint's response.
pub open spec fn access_token_response_of(j: Json) -> Option<AccessTokenResponseV> {
    match j {
        Json::Obj(f) => match req_str(f@, "access_token"@) {
            Some(t) => Some(AccessTokenResponseV { access_token: t }),
            None => None,
        },
        _ => None,
    }
}

/// What a token body parses to: `None` when the body is not JSON or
/// lacks the token.
pub open spec fn token_outcome(body: Seq<char>) -> Option<AccessTokenResponseV> {
    match json_of(body) {
        None => None,
        Some(j) => access_token_response_of(j),
    }
}

/// Reads the token endpoint's response body.
pub fn parse_access_token_response(body: &str) -> (r: Option<AccessTokenResponse>)
    ensures
        (r is Some) == (token_outcome(body@) is Some),
        r matches Some(t) ==> token_outcome(body@) == Some(t@),
{
    let j = match parse_json(body) {
        Some(j) => j,
        None => {
            return None;
        },
    };
    match &j {
        Json::Obj(fields) => match get_req_str(fields, "access_token") {
            Some(t) => Some(AccessTokenResponse { access_token: t }),
            None => None,
        },
        _ => None,
    }
}

} // verus!
