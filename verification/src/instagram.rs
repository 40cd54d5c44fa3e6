//! The unofficial profile endpoint: its success shape, the literal
//! marker that routes classification (success and error bodies are not
//! structurally disjoint there), and the fixed pools of impersonation
//! headers the endpoint is called with.

use vstd::prelude::*;
use crate::json::Json;
use crate::json::json_of;
use crate::json::spec_lookup;
use crate::json::dft_str;
use crate::json::opt_str;
use crate::json::dft_i32;
use crate::json::lookup;
use crate::json::parse_json;
use crate::json::get_dft_str;
use crate::json::get_opt_str;
use crate::json::get_dft_i32;
use crate::json::i32_text;
use crate::json::lemma_lookup_at;
use crate::json::lemma_lookup_none;
use crate::meta::ApiResult;
use crate::meta::ApiResultV;
use crate::meta::MetaInstagramError;
use crate::meta::MetaInstagramErrorV;
use crate::meta::ParseFault;
use crate::meta::UnparseableResponse;
use crate::meta::meta_instagram_error_of;
use crate::meta::parse_meta_instagram_error;
use crate::meta::make_unparseable;
use crate::meta::unparseable_of;
use crate::text::contains_str;
use crate::text::has_substring;

verus! {

// ---------------------------------------------------------------------
// Profile shapes
// ---------------------------------------------------------------------

/// A profile's follower tally.
#[derive(Clone, Debug, PartialEq)]
pub struct FollowedBy {
    pub count: i32,
}

/// The mathematical value of a [`FollowedBy`].
pub struct FollowedByV {
    pub count: int,
}

impl View for FollowedBy {
    type V = FollowedByV;

    open spec fn view(&self) -> FollowedByV {
        FollowedByV { count: self.count as int }
    }
}

/// The zero value of a follower tally, used when the field is absent.
pub open spec fn followed_by_zero() -> FollowedByV {
    FollowedByV { count: 0 }
}

/// The JSON shape of a follower tally.
pub open spec fn followed_by_of(j: Json) -> Option<FollowedByV> {
    match j {
        Json::Obj(f) => match dft_i32(f@, "count"@) {
            Some(count) => Some(FollowedByV { count }),
            None => None,
        },
        _ => None,
    }
}

/// Reads a follower tally.
pub fn parse_followed_by(j: &Json) -> (r: Option<FollowedBy>)
    ensures
        (r is Some) == (followed_by_of(*j) is Some),
        r matches Some(f) ==> followed_by_of(*j) == Some(f@),
{
    match j {
        Json::Obj(fields) => match get_dft_i32(fields, "count") {
            Some(count) => Some(FollowedBy { count }),
            None => None,
        },
        _ => None,
    }
}

/// A profile. Every field falls back to its zero value when absent,
/// except the category name, whose absence is meaningful and stays
/// unset.
#[derive(Clone, Debug, PartialEq)]
pub struct UserInfo {
    pub eimu_id: String,
    pub biography: String,
    pub edge_followed_by: FollowedBy,
    pub full_name: String,
    pub highlight_reel_count: i32,
    pub category_name: Option<String>,
}

/// The mathematical value of a [`UserInfo`].
pub struct UserInfoV {
    pub eimu_id: Seq<char>,
    pub biography: Seq<char>,
    pub edge_followed_by: FollowedByV,
    pub full_name: Seq<char>,
    pub highlight_reel_count: int,
    pub category_name: Option<Seq<char>>,
}

impl View for UserInfo {
    type V = UserInfoV;

    open spec fn view(&self) -> UserInfoV {
        UserInfoV {
            eimu_id: self.eimu_id@,
            biography: self.biography@,
            edge_followed_by: self.edge_followed_by@,
            full_name: self.full_name@,
            highlight_reel_count: self.highlight_reel_count as int,
            category_name: self.category_name.deep_view(),
        }
    }
}

/// The zero value of a profile, used when the field is absent.
pub open spec fn user_info_zero() -> UserInfoV {
    UserInfoV {
        eimu_id: Seq::empty(),
        biography: Seq::empty(),
        edge_followed_by: followed_by_zero(),
        full_name: Seq::empty(),
        highlight_reel_count: 0,
        category_name: None,
    }
}

/// The JSON shape of a profile.
pub open spec fn user_info_of(j: Json) -> Option<UserInfoV> {
    match j {
        Json::Obj(f) => {
            let eimu_id = dft_str(f@, "eimu_id"@);
            let biography = dft_str(f@, "biography"@);
            let edge_followed_by = match spec_lookup(f@, "edge_followed_by"@) {
                None => Some(followed_by_zero()),
                Some(fj) => followed_by_of(fj),
            };
            let full_name = dft_str(f@, "full_name"@);
            let highlight_reel_count = dft_i32(f@, "highlight_reel_count"@);
            let category_name = opt_str(f@, "category_name"@);
            if eimu_id is Some && biography is Some && edge_followed_by is Some
                && full_name is Some && highlight_reel_count is Some && category_name is Some {
                Some(
                    UserInfoV {
                        eimu_id: eimu_id->0,
                        biography: biography->0,
                        edge_followed_by: edge_followed_by->0,
                        full_name: full_name->0,
                        highlight_reel_count: highlight_reel_count->0,
                        category_name: category_name->0,
                    },
                )
            } else {
                None
            }
        },
        _ => None,
    }
}

/// Reads a profile.
pub fn parse_user_info(j: &Json) -> (r: Option<UserInfo>)
    ensures
        (r is Some) == (user_info_of(*j) is Some),
        r matches Some(u) ==> user_info_of(*j) == Some(u@),
{
    match j {
        Json::Obj(fields) => {
            let eimu_id = match get_dft_str(fields, "eimu_id") {
                Some(s) => s,
                None => {
                    return None;
                },
            };
            let biography = match get_dft_str(fields, "biography") {
                Some(s) => s,
                None => {
                    return None;
                },
            };
            let edge_followed_by = match lookup(fields, "edge_followed_by") {
                None => FollowedBy { count: 0 },
                Some(fj) => match parse_followed_by(fj) {
                    Some(f) => f,
                    None => {
                        return None;
                    },
                },
            };
            let full_name = match get_dft_str(fields, "full_name") {
                Some(s) => s,
                None => {
                    return None;
                },
            };
            let highlight_reel_count = match get_dft_i32(fields, "highlight_reel_count") {
                Some(v) => v,
                None => {
                    return None;
                },
            };
            let category_name = match get_opt_str(fields, "category_name") {
                Some(c) => c,
                None => {
                    return None;
                },
            };
            Some(
                UserInfo {
                    eimu_id,
                    biography,
                    edge_followed_by,
                    full_name,
                    highlight_reel_count,
                    category_name,
                },
            )
        },
        _ => None,
    }
}

/// The `data` wrapper around a profile.
#[derive(Clone, Debug, PartialEq)]
pub struct InstagramPageData {
    pub user: UserInfo,
}

/// The mathematical value of an [`InstagramPageData`].
pub struct InstagramPageDataV {
    pub user: UserInfoV,
}

impl View for InstagramPageData {
    type V = InstagramPageDataV;

    open spec fn view(&self) -> InstagramPageDataV {
        InstagramPageDataV { user: self.user@ }
    }
}

/// The zero value of the `data` wrapper, used when the field is absent.
pub open spec fn instagram_page_data_zero() -> InstagramPageDataV {
    InstagramPageDataV { user: user_info_zero() }
}

/// The JSON shape of the `data` wrapper.
pub open spec fn instagram_page_data_of(j: Json) -> Option<InstagramPageDataV> {
    match j {
        Json::Obj(f) => {
            let user = match spec_lookup(f@, "user"@) {
                None => Some(user_info_zero()),
                Some(uj) => user_info_of(uj),
            };
            match user {
                Some(u) => Some(InstagramPageDataV { user: u }),
                None => None,
            }
        },
        _ => None,
    }
}

/// Reads the `data` wrapper.
pub fn parse_instagram_page_data(j: &Json) -> (r: Option<InstagramPageData>)
    ensures
        (r is Some) == (instagram_page_data_of(*j) is Some),
        r matches Some(d) ==> instagram_page_data_of(*j) == Some(d@),
{
    match j {
        Json::Obj(fields) => {
            let user = match lookup(fields, "user") {
                None => UserInfo {
                    eimu_id: String::new(),
                    biography: String::new(),
                    edge_followed_by: FollowedBy { count: 0 },
                    full_name: String::new(),
                    highlight_reel_count: 0,
                    category_name: None,
                },
                Some(uj) => match parse_user_info(uj) {
                    Some(u) => u,
                    None => {
                        return None;
                    },
                },
            };
            Some(InstagramPageData { user })
        },
        _ => None,
    }
}

/// The profile endpoint's success payload: the profile under `data`,
/// and the endpoint's own status text.
#[derive(Clone, Debug, PartialEq)]
pub struct InstagramPageInfo {
    pub data: InstagramPageData,
    pub status: String,
}

/// The mathematical value of an [`InstagramPageInfo`].
pub struct InstagramPageInfoV {
    pub data: InstagramPageDataV,
    pub status: Seq<char>,
}

impl View for InstagramPageInfo {
    type V = InstagramPageInfoV;

    open spec fn view(&self) -> InstagramPageInfoV {
        InstagramPageInfoV { data: self.data@, status: self.status@ }
    }
}

/// The JSON shape of the profile endpoint's success payload.
pub open spec fn instagram_page_info_of(j: Json) -> Option<InstagramPageInfoV> {
    match j {
        Json::Obj(f) => {
            let data = match spec_lookup(f@, "data"@) {
                None => Some(instagram_page_data_zero()),
                Some(dj) => instagram_page_data_of(dj),
            };
            let status = dft_str(f@, "status"@);
            if data is Some && status is Some {
                Some(InstagramPageInfoV { data: data->0, status: status->0 })
            } else {
                None
            }
        },
        _ => None,
    }
}

/// Reads the profile endpoint's success payload.
pub fn parse_instagram_page_info(j: &Json) -> (r: Option<InstagramPageInfo>)
    ensures
        (r is Some) == (instagram_page_info_of(*j) is Some),
        r matches Some(p) ==> instagram_page_info_of(*j) == Some(p@),
{
    match j {
        Json::Obj(fields) => {
            let data = match lookup(fields, "data") {
                None => InstagramPageData {
                    user: UserInfo {
                        eimu_id: String::new(),
                        biography: String::new(),
                        edge_followed_by: FollowedBy { count: 0 },
                        full_name: String::new(),
                        highlight_reel_count: 0,
                        category_name: None,
                    },
                },
                Some(dj) => match parse_instagram_page_data(dj) {
                    Some(d) => d,
                    None => {
                        return None;
                    },
                },
            };
            let status = match get_dft_str(fields, "status") {
                Some(s) => s,
                None => {
                    return None;
                },
            };
            Some(InstagramPageInfo { data, status })
        },
        _ => None,
    }
}

// ---------------------------------------------------------------------
// Classification
// ---------------------------------------------------------------------

/// The tagged result of a profile call.
pub type InstagramPageInfoResult = ApiResult<InstagramPageInfo, MetaInstagramError>;

impl ApiResult<InstagramPageInfo, MetaInstagramError> {
    /// The profile payload, when the tag says success.
    pub fn page_info(&self) -> (r: Option<&InstagramPageInfo>)
        ensures
            (r is Some) == (self is Success),
            r matches Some(p) ==> *p == self->Success_0,
    {
        self.value()
    }

    /// The error payload, when the tag says failure.
    pub fn error_info(&self) -> (r: Option<&MetaInstagramError>)
        ensures
            (r is Some) == (self is Failure),
            r matches Some(e) ==> *e == self->Failure_0,
    {
        self.get_error()
    }

    /// A short printable tag.
    pub fn repr(&self) -> (r: String)
        ensures
            r@ == (if self is Success {
                "InstagramPageInfoResult(Success)"@
            } else {
                "InstagramPageInfoResult(Error)"@
            }),
    {
        if self.is_success() {
            "InstagramPageInfoResult(Success)".to_owned()
        } else {
            "InstagramPageInfoResult(Error)".to_owned()
        }
    }
}

/// The literal marker that routes profile classification: the endpoint's
/// success and error bodies are not structurally disjoint, so a body is
/// routed to the success shape exactly when its raw text contains this
/// substring.
pub open spec fn status_ok_marker() -> Seq<char> {
    "\"status\":\"ok\""@
}

/// What a profile body classifies to: the marker routes to the success
/// shape, its absence to the error shape; the routed parse either
/// matches or the body is unparseable. This marker heuristic is the one
/// upstream-dependent point of the classifier and is kept exactly for
/// compatibility.
pub open spec fn instagram_outcome(body: Seq<char>) -> Option<
    ApiResultV<InstagramPageInfoV, MetaInstagramErrorV>,
> {
    if has_substring(body, status_ok_marker()) {
        match json_of(body) {
            None => None,
            Some(j) => match instagram_page_info_of(j) {
                Some(p) => Some(ApiResultV::Success(p)),
                None => None,
            },
        }
    } else {
        match json_of(body) {
            None => None,
            Some(j) => match meta_instagram_error_of(j) {
                Some(e) => Some(ApiResultV::Failure(e)),
                None => None,
            },
        }
    }
}

/// The full contract of profile classification.
pub open spec fn classified_instagram(
    status: Option<u16>,
    body: Seq<char>,
    r: Result<InstagramPageInfoResult, UnparseableResponse>,
) -> bool {
    match r {
        Ok(res) => instagram_outcome(body) == Some(res@),
        Err(u) => instagram_outcome(body) is None && u@ == unparseable_of(status, body),
    }
}

/// Classifies a profile response body.
pub fn classify_instagram_response(status: u16, body: &str) -> (r: Result<
    InstagramPageInfoResult,
    UnparseableResponse,
>)
    ensures
        classified_instagram(Some(status), body@, r),
{
    let marked = contains_str(body, "\"status\":\"ok\"");
    let j = match parse_json(body) {
        Some(j) => j,
        None => {
            return Err(make_unparseable(Some(status), ParseFault::InvalidJson, body));
        },
    };
    if marked {
        match parse_instagram_page_info(&j) {
            Some(p) => Ok(ApiResult::success(p)),
            None => Err(make_unparseable(Some(status), ParseFault::ShapeMismatch, body)),
        }
    } else {
        match parse_meta_instagram_error(&j) {
            Some(e) => Ok(ApiResult::error(e)),
            None => Err(make_unparseable(Some(status), ParseFault::ShapeMismatch, body)),
        }
    }
}

// ---------------------------------------------------------------------
// Laws
// ---------------------------------------------------------------------

/// Profile classification is a function of the body text alone.
pub proof fn lemma_classify_instagram_deterministic(
    status: Option<u16>,
    body: Seq<char>,
    r1: Result<InstagramPageInfoResult, UnparseableResponse>,
    r2: Result<InstagramPageInfoResult, UnparseableResponse>,
)
    requires
        classified_instagram(status, body, r1),
        classified_instagram(status, body, r2),
    ensures
        match (r1, r2) {
            (Ok(a), Ok(b)) => a@ == b@,
            (Err(a), Err(b)) => a@ == b@,
            _ => false,
        },
{
}

/// The marker routes classification: a body carrying the marker whose
/// document matches the profile shape classifies as Success; a body
/// without the marker whose document matches the error shape classifies
/// as Failure.
pub proof fn lemma_profile_marker_routing(body: Seq<char>, j: Json)
    requires
        json_of(body) == Some(j),
    ensures
        (has_substring(body, status_ok_marker()) && instagram_page_info_of(j) is Some)
            ==> instagram_outcome(body) == Some(
            ApiResultV::<InstagramPageInfoV, MetaInstagramErrorV>::Success(
                instagram_page_info_of(j)->0,
            ),
        ),
        (!has_substring(body, status_ok_marker()) && meta_instagram_error_of(j) is Some)
            ==> instagram_outcome(body) == Some(
            ApiResultV::<InstagramPageInfoV, MetaInstagramErrorV>::Failure(
                meta_instagram_error_of(j)->0,
            ),
        ),
{
}

/// The marker routing is exhaustive: a Success arises only from a
/// marked body matching the profile shape, and a Failure only from an
/// unmarked body matching the error shape.
pub proof fn lemma_profile_outcome_inversion(body: Seq<char>)
    ensures
        match instagram_outcome(body) {
            Some(ApiResultV::Success(p)) => {
                &&& has_substring(body, status_ok_marker())
                &&& json_of(body) matches Some(j) && instagram_page_info_of(j) == Some(p)
            },
            Some(ApiResultV::Failure(e)) => {
                &&& !has_substring(body, status_ok_marker())
                &&& json_of(body) matches Some(j) && meta_instagram_error_of(j) == Some(e)
            },
            None => true,
        },
{
}

/// Builds the JSON document of a profile payload; reading it back
/// yields exactly the same value, witnessing that classification
/// round-trips the fields of a profile success body, with an absent
/// category name staying unset.
pub fn instagram_page_info_to_json(p: &InstagramPageInfo) -> (j: Json)
    ensures
        instagram_page_info_of(j) == Some(p@),
{
    let mut fb: Vec<(String, Json)> = Vec::new();
    fb.push(("count".to_owned(), Json::Num(i32_text(p.data.user.edge_followed_by.count))));
    let ghost fbf = fb@;
    let fbj = Json::Obj(fb);
    proof {
        reveal_strlit("count");
        lemma_lookup_at(fbf, "count"@, 0);
        assert(followed_by_of(fbj) == Some(p.data.user.edge_followed_by@));
    }
    let mut uf: Vec<(String, Json)> = Vec::new();
    uf.push(("eimu_id".to_owned(), Json::Str(p.data.user.eimu_id.clone())));
    uf.push(("biography".to_owned(), Json::Str(p.data.user.biography.clone())));
    uf.push(("edge_followed_by".to_owned(), fbj));
    uf.push(("full_name".to_owned(), Json::Str(p.data.user.full_name.clone())));
    uf.push((
        "highlight_reel_count".to_owned(),
        Json::Num(i32_text(p.data.user.highlight_reel_count)),
    ));
    let category_present = match &p.data.user.category_name {
        Some(c) => {
            uf.push(("category_name".to_owned(), Json::Str(c.clone())));
            true
        },
        None => false,
    };
    let ghost uff = uf@;
    let uj = Json::Obj(uf);
    proof {
        reveal_strlit("eimu_id");
        reveal_strlit("biography");
        reveal_strlit("edge_followed_by");
        reveal_strlit("full_name");
        reveal_strlit("highlight_reel_count");
        reveal_strlit("category_name");
        assert(uff[0].0@ == "eimu_id"@);
        assert(uff[1].0@ == "biography"@);
        assert(uff[2].0@ == "edge_followed_by"@);
        assert(uff[3].0@ == "full_name"@);
        assert(uff[4].0@ == "highlight_reel_count"@);
        assert(uff[1].0@ != "full_name"@) by {
            assert("biography"@[0] == 'b');
            assert("full_name"@[0] == 'f');
        }
        lemma_lookup_at(uff, "eimu_id"@, 0);
        lemma_lookup_at(uff, "biography"@, 1);
        lemma_lookup_at(uff, "edge_followed_by"@, 2);
        lemma_lookup_at(uff, "full_name"@, 3);
        lemma_lookup_at(uff, "highlight_reel_count"@, 4);
        if category_present {
            assert(uff[5].0@ == "category_name"@);
            lemma_lookup_at(uff, "category_name"@, 5);
        } else {
            lemma_lookup_none(uff, "category_name"@);
        }
        assert(user_info_of(uj) == Some(p.data.user@));
    }
    let mut df: Vec<(String, Json)> = Vec::new();
    df.push(("user".to_owned(), uj));
    let ghost dff = df@;
    let dj = Json::Obj(df);
    proof {
        reveal_strlit("user");
        lemma_lookup_at(dff, "user"@, 0);
        assert(instagram_page_data_of(dj) == Some(p.data@));
    }
    let mut tf: Vec<(String, Json)> = Vec::new();
    tf.push(("data".to_owned(), dj));
    tf.push(("status".to_owned(), Json::Str(p.status.clone())));
    let ghost tff = tf@;
    let j = Json::Obj(tf);
    proof {
        reveal_strlit("data");
        reveal_strlit("status");
        assert(tff[0].0@ == "data"@);
        assert(tff[1].0@ == "status"@);
        lemma_lookup_at(tff, "data"@, 0);
        lemma_lookup_at(tff, "status"@, 1);
    }
    j
}

// ---------------------------------------------------------------------
// Impersonation header pools
// ---------------------------------------------------------------------

/// Membership in the fixed pool of client identification strings the
/// profile endpoint is called with.
pub open spec fn is_known_user_agent(s: Seq<char>) -> bool {
    ||| s == "Instagram 241.1.0.18.114 Android (31/12; 420dpi; 1080x2148; samsung; SM-G998B; o1s; exynos2100; en_US; 378436363)"@
    ||| s == "Instagram 244.0.0.17.110 Android (30/11; 480dpi; 1080x2400; xiaomi; M2103K19PG; dandelion; qcom; en_US; 383877306)"@
    ||| s == "Instagram 245.0.0.18.108 Android (28/9; 320dpi; 720x1382; OnePlus; ONEPLUS A3003; OnePlus3; qcom; en_US; 385416158)"@
    ||| s == "Instagram 239.0.0.14.111 Android (29/10; 480dpi; 1080x2310; Xiaomi; Redmi Note 8 Pro; begonia; mt6785; en_US; 373310557)"@
    ||| s == "Instagram 243.1.0.14.111 (iPhone13,4; iOS 16_5_1; en_US; en-US; scale=3.00; 1284x2778; 382468103)"@
    ||| s == "Instagram 244.0.0.15.110 (iPhone14,3; iOS 17_1; en_US; en-US; scale=3.00; 1170x2532; 384888781)"@
    ||| s == "Instagram 246.0.0.17.107 (iPhone12,1; iOS 15_7_9; en_US; en-US; scale=2.00; 828x1792; 387311294)"@
    ||| s == "Instagram 242.0.0.12.109 (iPad13,1; iOS 16_6; en_US; en-US; scale=2.00; 1620x2160; 381295754)"@
    ||| s == "Mozilla/5.0 (Windows NT 10.0; Win64; x64) AppleWebKit/537.36 (KHTML, like Gecko) Chrome/122.0.0.0 Safari/537.36"@
    ||| s == "Mozilla/5.0 (Macintosh; Intel Mac OS X 10_15_7) AppleWebKit/605.1.15 (KHTML, like Gecko) Version/17.0 Safari/605.1.15"@
    ||| s == "Mozilla/5.0 (X11; Linux x86_64) AppleWebKit/537.36 (KHTML, like Gecko) Chrome/121.0.0.0 Safari/537.36"@
}

/// Membership in the fixed pool of application identifiers.
pub open spec fn is_known_app_id(s: Seq<char>) -> bool {
    ||| s == "936619743392459"@
    ||| s == "124024574287414"@
    ||| s == "389801252"@
    ||| s == "503323726800545"@
    ||| s == "446889149701729"@
}

/// The fixed pool of client identification strings.
pub fn user_agents() -> (v: Vec<&'static str>)
    ensures
        v@.len() == 11,
        forall|k: int| 0 <= k < v@.len() ==> is_known_user_agent(#[trigger] v@[k]@),
        v@[0]@ == "Instagram 241.1.0.18.114 Android (31/12; 420dpi; 1080x2148; samsung; SM-G998B; o1s; exynos2100; en_US; 378436363)"@,
        v@[1]@ == "Instagram 244.0.0.17.110 Android (30/11; 480dpi; 1080x2400; xiaomi; M2103K19PG; dandelion; qcom; en_US; 383877306)"@,
        v@[2]@ == "Instagram 245.0.0.18.108 Android (28/9; 320dpi; 720x1382; OnePlus; ONEPLUS A3003; OnePlus3; qcom; en_US; 385416158)"@,
        v@[3]@ == "Instagram 239.0.0.14.111 Android (29/10; 480dpi; 1080x2310; Xiaomi; Redmi Note 8 Pro; begonia; mt6785; en_US; 373310557)"@,
        v@[4]@ == "Instagram 243.1.0.14.111 (iPhone13,4; iOS 16_5_1; en_US; en-US; scale=3.00; 1284x2778; 382468103)"@,
        v@[5]@ == "Instagram 244.0.0.15.110 (iPhone14,3; iOS 17_1; en_US; en-US; scale=3.00; 1170x2532; 384888781)"@,
        v@[6]@ == "Instagram 246.0.0.17.107 (iPhone12,1; iOS 15_7_9; en_US; en-US; scale=2.00; 828x1792; 387311294)"@,
        v@[7]@ == "Instagram 242.0.0.12.109 (iPad13,1; iOS 16_6; en_US; en-US; scale=2.00; 1620x2160; 381295754)"@,
        v@[8]@ == "Mozilla/5.0 (Windows NT 10.0; Win64; x64) AppleWebKit/537.36 (KHTML, like Gecko) Chrome/122.0.0.0 Safari/537.36"@,
        v@[9]@ == "Mozilla/5.0 (Macintosh; Intel Mac OS X 10_15_7) AppleWebKit/605.1.15 (KHTML, like Gecko) Version/17.0 Safari/605.1.15"@,
        v@[10]@ == "Mozilla/5.0 (X11; Linux x86_64) AppleWebKit/537.36 (KHTML, like Gecko) Chrome/121.0.0.0 Safari/537.36"@,
{
    let mut v: Vec<&'static str> = Vec::new();
    v.push("Instagram 241.1.0.18.114 Android (31/12; 420dpi; 1080x2148; samsung; SM-G998B; o1s; exynos2100; en_US; 378436363)");
    v.push("Instagram 244.0.0.17.110 Android (30/11; 480dpi; 1080x2400; xiaomi; M2103K19PG; dandelion; qcom; en_US; 383877306)");
    v.push("Instagram 245.0.0.18.108 Android (28/9; 320dpi; 720x1382; OnePlus; ONEPLUS A3003; OnePlus3; qcom; en_US; 385416158)");
    v.push("Instagram 239.0.0.14.111 Android (29/10; 480dpi; 1080x2310; Xiaomi; Redmi Note 8 Pro; begonia; mt6785; en_US; 373310557)");
    v.push("Instagram 243.1.0.14.111 (iPhone13,4; iOS 16_5_1; en_US; en-US; scale=3.00; 1284x2778; 382468103)");
    v.push("Instagram 244.0.0.15.110 (iPhone14,3; iOS 17_1; en_US; en-US; scale=3.00; 1170x2532; 384888781)");
    v.push("Instagram 246.0.0.17.107 (iPhone12,1; iOS 15_7_9; en_US; en-US; scale=2.00; 828x1792; 387311294)");
    v.push("Instagram 242.0.0.12.109 (iPad13,1; iOS 16_6; en_US; en-US; scale=2.00; 1620x2160; 381295754)");
    v.push("Mozilla/5.0 (Windows NT 10.0; Win64; x64) AppleWebKit/537.36 (KHTML, like Gecko) Chrome/122.0.0.0 Safari/537.36");
    v.push("Mozilla/5.0 (Macintosh; Intel Mac OS X 10_15_7) AppleWebKit/605.1.15 (KHTML, like Gecko) Version/17.0 Safari/605.1.15");
    v.push("Mozilla/5.0 (X11; Linux x86_64) AppleWebKit/537.36 (KHTML, like Gecko) Chrome/121.0.0.0 Safari/537.36");
    v
}

/// The fixed pool of application identifiers.
pub fn app_ids() -> (v: Vec<&'static str>)
    ensures
        v@.len() == 5,
        forall|k: int| 0 <= k < v@.len() ==> is_known_app_id(#[trigger] v@[k]@),
        v@[0]@ == "936619743392459"@,
        v@[1]@ == "124024574287414"@,
        v@[2]@ == "389801252"@,
        v@[3]@ == "503323726800545"@,
        v@[4]@ == "446889149701729"@,
{
    let mut v: Vec<&'static str> = Vec::new();
    v.push("936619743392459");
    v.push("124024574287414");
    v.push("389801252");
    v.push("503323726800545");
    v.push("446889149701729");
    v
}

/// Relies on rand::Rng::gen_range: a uniformly drawn index below `n`.
#[verifier::external_body]
fn pick_index(n: usize) -> (i: usize)
    requires
        n > 0,
    ensures
        i < n,
{
    rand::Rng::gen_range(&mut rand::thread_rng(), 0..n)
}

/// Draws one client identification string from the fixed pool.
pub fn choose_user_agent() -> (ua: &'static str)
    ensures
        is_known_user_agent(ua@),
{
    let agents = user_agents();
    let i = pick_index(agents.len());
    agents[i]
}

/// Draws one application identifier from the fixed pool.
pub fn choose_app_id() -> (id: &'static str)
    ensures
        is_known_app_id(id@),
{
    let ids = app_ids();
    let i = pick_index(ids.len());
    ids[i]
}

} // verus!
