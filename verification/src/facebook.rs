//! Typed shapes for the graph API's page and post payloads, and the
//! classifiers that turn a raw response body into a tagged result for
//! each page/post endpoint.

use vstd::prelude::*;
use crate::json::Json;
use crate::json::json_of;
use crate::json::spec_lookup;
use crate::json::dft_str;
use crate::json::opt_str;
use crate::json::dft_bool;
use crate::json::dft_i32;
use crate::json::dft_num_text;
use crate::json::lookup;
use crate::json::parse_json;
use crate::json::get_dft_str;
use crate::json::get_opt_str;
use crate::json::get_dft_bool;
use crate::json::get_dft_i32;
use crate::json::get_dft_num_text;
use crate::json::i32_text;
use crate::meta::ApiResult;
use crate::meta::ApiResultV;
use crate::meta::MetaError;
use crate::meta::MetaErrorV;
use crate::meta::Paging;
use crate::meta::PagingV;
use crate::meta::ParseFault;
use crate::meta::UnparseableResponse;
use crate::meta::meta_error_of;
use crate::meta::paging_of;
use crate::meta::parse_meta_error;
use crate::meta::parse_paging;
use crate::meta::paging_to_json;
use crate::meta::make_unparseable;
use crate::meta::unparseable_of;

verus! {

// ---------------------------------------------------------------------
// Page info
// ---------------------------------------------------------------------

/// A page's identity: both fields default to the empty string when the
/// response omits them.
#[derive(Clone, Debug, PartialEq)]
pub struct BasicPageInfo {
    pub id: String,
    pub name: String,
}

/// The mathematical value of a [`BasicPageInfo`].
pub struct BasicPageInfoV {
    pub id: Seq<char>,
    pub name: Seq<char>,
}

impl View for BasicPageInfo {
    type V = BasicPageInfoV;

    open spec fn view(&self) -> BasicPageInfoV {
        BasicPageInfoV { id: self.id@, name: self.name@ }
    }
}

/// The JSON shape of a page's identity.
pub open spec fn basic_page_info_of(j: Json) -> Option<BasicPageInfoV> {
    match j {
        Json::Obj(f) => match (dft_str(f@, "id"@), dft_str(f@, "name"@)) {
            (Some(id), Some(name)) => Some(BasicPageInfoV { id, name }),
            _ => None,
        },
        _ => None,
    }
}

/// Reads a page's identity.
pub fn parse_basic_page_info(j: &Json) -> (r: Option<BasicPageInfo>)
    ensures
        (r is Some) == (basic_page_info_of(*j) is Some),
        r matches Some(p) ==> basic_page_info_of(*j) == Some(p@),
{
    match j {
        Json::Obj(fields) => {
            let id = match get_dft_str(fields, "id") {
                Some(s) => s,
                None => {
                    return None;
                },
            };
            let name = match get_dft_str(fields, "name") {
                Some(s) => s,
                None => {
                    return None;
                },
            };
            Some(BasicPageInfo { id, name })
        },
        _ => None,
    }
}

// ---------------------------------------------------------------------
// Page engagement
// ---------------------------------------------------------------------

/// One entry of a page's category list.
#[derive(Clone, Debug, PartialEq)]
pub struct PageCategory {
    pub id: String,
    pub name: String,
}

/// The mathematical value of a [`PageCategory`].
pub struct PageCategoryV {
    pub id: Seq<char>,
    pub name: Seq<char>,
}

impl View for PageCategory {
    type V = PageCategoryV;

    open spec fn view(&self) -> PageCategoryV {
        PageCategoryV { id: self.id@, name: self.name@ }
    }
}

impl DeepView for PageCategory {
    type V = PageCategoryV;

    open spec fn deep_view(&self) -> PageCategoryV {
        self.view()
    }
}

/// The JSON shape of one category entry.
pub open spec fn page_category_of(j: Json) -> Option<PageCategoryV> {
    match j {
        Json::Obj(f) => match (dft_str(f@, "id"@), dft_str(f@, "name"@)) {
            (Some(id), Some(name)) => Some(PageCategoryV { id, name }),
            _ => None,
        },
        _ => None,
    }
}

/// Reads one category entry.
pub fn parse_page_category(j: &Json) -> (r: Option<PageCategory>)
    ensures
        (r is Some) == (page_category_of(*j) is Some),
        r matches Some(c) ==> page_category_of(*j) == Some(c@),
{
    match j {
        Json::Obj(fields) => {
            let id = match get_dft_str(fields, "id") {
                Some(s) => s,
                None => {
                    return None;
                },
            };
            let name = match get_dft_str(fields, "name") {
                Some(s) => s,
                None => {
                    return None;
                },
            };
            Some(PageCategory { id, name })
        },
        _ => None,
    }
}

/// The JSON shape of a category array: every element must be a
/// category entry.
pub open spec fn page_categories_of(items: Seq<Json>) -> Option<Seq<PageCategoryV>>
    decreases items.len(),
{
    if items.len() == 0 {
        Some(Seq::empty())
    } else {
        match (page_categories_of(items.drop_last()), page_category_of(items.last())) {
            (Some(rest), Some(c)) => Some(rest.push(c)),
            _ => None,
        }
    }
}

proof fn lemma_page_categories_of_bad(items: Seq<Json>, i: int)
    requires
        0 <= i < items.len(),
        page_category_of(items[i]) is None,
    ensures
        page_categories_of(items) is None,
    decreases items.len(),
{
    if i < items.len() - 1 {
        lemma_page_categories_of_bad(items.drop_last(), i);
    }
}

/// Reads a category array.
fn parse_page_categories(items: &Vec<Json>) -> (r: Option<Vec<PageCategory>>)
    ensures
        (r is Some) == (page_categories_of(items@) is Some),
        r matches Some(cs) ==> page_categories_of(items@) == Some(cs.deep_view()),
{
    let mut out: Vec<PageCategory> = Vec::new();
    let n = items.len();
    proof {
        assert(items@.take(0) =~= Seq::<Json>::empty());
        assert(out.deep_view() =~= Seq::<PageCategoryV>::empty());
    }
    let mut i: usize = 0;
    while i < n
        invariant
            i <= n,
            n == items@.len(),
            page_categories_of(items@.take(i as int)) == Some(out.deep_view()),
        decreases n - i,
    {
        let c = match parse_page_category(&items[i]) {
            Some(c) => c,
            None => {
                proof {
                    lemma_page_categories_of_bad(items@, i as int);
                }
                return None;
            },
        };
        let ghost prev = out.deep_view();
        let ghost cv = c@;
        out.push(c);
        proof {
            assert(out.deep_view() =~= prev.push(cv));
            let ext = items@.take(i as int + 1);
            assert(ext.drop_last() =~= items@.take(i as int));
            assert(ext.last() == items@[i as int]);
        }
        i += 1;
    }
    proof {
        assert(items@.take(n as int) =~= items@);
    }
    Some(out)
}

/// The category-list field: absent means the empty list; present must
/// be an array of category entries.
pub open spec fn category_list_of(f: Seq<(String, Json)>) -> Option<Seq<PageCategoryV>> {
    match spec_lookup(f, "category_list"@) {
        None => Some(Seq::empty()),
        Some(Json::Arr(items)) => page_categories_of(items@),
        Some(_) => None,
    }
}

fn get_category_list(fields: &Vec<(String, Json)>) -> (r: Option<Vec<PageCategory>>)
    ensures
        (r is Some) == (category_list_of(fields@) is Some),
        r matches Some(cs) ==> category_list_of(fields@) == Some(cs.deep_view()),
{
    match lookup(fields, "category_list") {
        None => {
            let out: Vec<PageCategory> = Vec::new();
            proof {
                assert(out.deep_view() =~= Seq::<PageCategoryV>::empty());
            }
            Some(out)
        },
        Some(Json::Arr(items)) => parse_page_categories(items),
        Some(_) => None,
    }
}

/// A page's engagement metrics. Every field defaults to its zero value
/// when the response omits it; the star rating keeps the number's
/// decimal text, since the upstream reports it with a fractional part.
#[derive(Clone, Debug, PartialEq)]
pub struct PageEngagement {
    pub category: String,
    pub category_list: Vec<PageCategory>,
    pub followers_count: i32,
    pub fan_count: i32,
    pub overall_star_rating: String,
    pub rating_count: i32,
    pub talking_about_count: i32,
    pub id: String,
}

/// The mathematical value of a [`PageEngagement`].
pub struct PageEngagementV {
    pub category: Seq<char>,
    pub category_list: Seq<PageCategoryV>,
    pub followers_count: int,
    pub fan_count: int,
    pub overall_star_rating: Seq<char>,
    pub rating_count: int,
    pub talking_about_count: int,
    pub id: Seq<char>,
}

impl View for PageEngagement {
    type V = PageEngagementV;

    open spec fn view(&self) -> PageEngagementV {
        PageEngagementV {
            category: self.category@,
            category_list: self.category_list.deep_view(),
            followers_count: self.followers_count as int,
            fan_count: self.fan_count as int,
            overall_star_rating: self.overall_star_rating@,
            rating_count: self.rating_count as int,
            talking_about_count: self.talking_about_count as int,
            id: self.id@,
        }
    }
}

/// The JSON shape of a page's engagement metrics.
pub open spec fn page_engagement_of(j: Json) -> Option<PageEngagementV> {
    match j {
        Json::Obj(f) => {
            let category = dft_str(f@, "category"@);
            let category_list = category_list_of(f@);
            let followers_count = dft_i32(f@, "followers_count"@);
            let fan_count = dft_i32(f@, "fan_count"@);
            let overall_star_rating = dft_num_text(f@, "overall_star_rating"@);
            let rating_count = dft_i32(f@, "rating_count"@);
            let talking_about_count = dft_i32(f@, "talking_about_count"@);
            let id = dft_str(f@, "id"@);
            if category is Some && category_list is Some && followers_count is Some
                && fan_count is Some && overall_star_rating is Some && rating_count is Some
                && talking_about_count is Some && id is Some {
                Some(
                    PageEngagementV {
                        category: category->0,
                        category_list: category_list->0,
                        followers_count: followers_count->0,
                        fan_count: fan_count->0,
                        overall_star_rating: overall_star_rating->0,
                        rating_count: rating_count->0,
                        talking_about_count: talking_about_count->0,
                        id: id->0,
                    },
                )
            } else {
                None
            }
        },
        _ => None,
    }
}

/// Reads a page's engagement metrics.
pub fn parse_page_engagement(j: &Json) -> (r: Option<PageEngagement>)
    ensures
        (r is Some) == (page_engagement_of(*j) is Some),
        r matches Some(p) ==> page_engagement_of(*j) == Some(p@),
{
    match j {
        Json::Obj(fields) => {
            let category = match get_dft_str(fields, "category") {
                Some(s) => s,
                None => {
                    return None;
                },
            };
            let category_list = match get_category_list(fields) {
                Some(cs) => cs,
                None => {
                    return None;
                },
            };
            let followers_count = match get_dft_i32(fields, "followers_count") {
                Some(v) => v,
                None => {
                    return None;
                },
            };
            let fan_count = match get_dft_i32(fields, "fan_count") {
                Some(v) => v,
                None => {
                    return None;
                },
            };
            let overall_star_rating = match get_dft_num_text(fields, "overall_star_rating") {
                Some(s) => s,
                None => {
                    return None;
                },
            };
            let rating_count = match get_dft_i32(fields, "rating_count") {
                Some(v) => v,
                None => {
                    return None;
                },
            };
            let talking_about_count = match get_dft_i32(fields, "talking_about_count") {
                Some(v) => v,
                None => {
                    return None;
                },
            };
            let id = match get_dft_str(fields, "id") {
                Some(s) => s,
                None => {
                    return None;
                },
            };
            Some(
                PageEngagement {
                    category,
                    category_list,
                    followers_count,
                    fan_count,
                    overall_star_rating,
                    rating_count,
                    talking_about_count,
                    id,
                },
            )
        },
        _ => None,
    }
}

// ---------------------------------------------------------------------
// Comments and likes
// ---------------------------------------------------------------------

/// One comment; both fields are optional and stay unset when absent,
/// since absence is distinct from an empty message.
#[derive(Clone, Debug, PartialEq)]
pub struct CommentInfo {
    pub message: Option<String>,
    pub created_time: Option<String>,
}

/// The mathematical value of a [`CommentInfo`].
pub struct CommentInfoV {
    pub message: Option<Seq<char>>,
    pub created_time: Option<Seq<char>>,
}

impl View for CommentInfo {
    type V = CommentInfoV;

    open spec fn view(&self) -> CommentInfoV {
        CommentInfoV { message: self.message.deep_view(), created_time: self.created_time.deep_view() }
    }
}

impl DeepView for CommentInfo {
    type V = CommentInfoV;

    open spec fn deep_view(&self) -> CommentInfoV {
        self.view()
    }
}

/// The JSON shape of one comment.
pub open spec fn comment_info_of(j: Json) -> Option<CommentInfoV> {
    match j {
        Json::Obj(f) => match (opt_str(f@, "message"@), opt_str(f@, "created_time"@)) {
            (Some(m), Some(t)) => Some(CommentInfoV { message: m, created_time: t }),
            _ => None,
        },
        _ => None,
    }
}

/// Reads one comment.
pub fn parse_comment_info(j: &Json) -> (r: Option<CommentInfo>)
    ensures
        (r is Some) == (comment_info_of(*j) is Some),
        r matches Some(c) ==> comment_info_of(*j) == Some(c@),
{
    match j {
        Json::Obj(fields) => {
            let message = match get_opt_str(fields, "message") {
                Some(m) => m,
                None => {
                    return None;
                },
            };
            let created_time = match get_opt_str(fields, "created_time") {
                Some(t) => t,
                None => {
                    return None;
                },
            };
            Some(CommentInfo { message, created_time })
        },
        _ => None,
    }
}

/// One like; the liker's id is optional.
#[derive(Clone, Debug, PartialEq)]
pub struct LikeInfo {
    pub id: Option<String>,
}

/// The mathematical value of a [`LikeInfo`].
pub struct LikeInfoV {
    pub id: Option<Seq<char>>,
}

impl View for LikeInfo {
    type V = LikeInfoV;

    open spec fn view(&self) -> LikeInfoV {
        LikeInfoV { id: self.id.deep_view() }
    }
}

impl DeepView for LikeInfo {
    type V = LikeInfoV;

    open spec fn deep_view(&self) -> LikeInfoV {
        self.view()
    }
}

/// The JSON shape of one like.
pub open spec fn like_info_of(j: Json) -> Option<LikeInfoV> {
    match j {
        Json::Obj(f) => match opt_str(f@, "id"@) {
            Some(id) => Some(LikeInfoV { id }),
            None => None,
        },
        _ => None,
    }
}

/// Reads one like.
pub fn parse_like_info(j: &Json) -> (r: Option<LikeInfo>)
    ensures
        (r is Some) == (like_info_of(*j) is Some),
        r matches Some(l) ==> like_info_of(*j) == Some(l@),
{
    match j {
        Json::Obj(fields) => {
            let id = match get_opt_str(fields, "id") {
                Some(id) => id,
                None => {
                    return None;
                },
            };
            Some(LikeInfo { id })
        },
        _ => None,
    }
}

/// A like tally; every field defaults to its zero value when absent.
#[derive(Clone, Debug, PartialEq)]
pub struct LikeSummary {
    pub total_count: i32,
    pub can_like: bool,
    pub has_liked: bool,
}

/// The mathematical value of a [`LikeSummary`].
pub struct LikeSummaryV {
    pub total_count: int,
    pub can_like: bool,
    pub has_liked: bool,
}

impl View for LikeSummary {
    type V = LikeSummaryV;

    open spec fn view(&self) -> LikeSummaryV {
        LikeSummaryV {
            total_count: self.total_count as int,
            can_like: self.can_like,
            has_liked: self.has_liked,
        }
    }
}

/// The JSON shape of a like tally.
pub open spec fn like_summary_of(j: Json) -> Option<LikeSummaryV> {
    match j {
        Json::Obj(f) => {
            let total_count = dft_i32(f@, "total_count"@);
            let can_like = dft_bool(f@, "can_like"@);
            let has_liked = dft_bool(f@, "has_liked"@);
            if total_count is Some && can_like is Some && has_liked is Some {
                Some(
                    LikeSummaryV {
                        total_count: total_count->0,
                        can_like: can_like->0,
                        has_liked: has_liked->0,
                    },
                )
            } else {
                None
            }
        },
        _ => None,
    }
}

/// Reads a like tally.
pub fn parse_like_summary(j: &Json) -> (r: Option<LikeSummary>)
    ensures
        (r is Some) == (like_summary_of(*j) is Some),
        r matches Some(s) ==> like_summary_of(*j) == Some(s@),
{
    match j {
        Json::Obj(fields) => {
            let total_count = match get_dft_i32(fields, "total_count") {
                Some(v) => v,
                None => {
                    return None;
                },
            };
            let can_like = match get_dft_bool(fields, "can_like") {
                Some(b) => b,
                None => {
                    return None;
                },
            };
            let has_liked = match get_dft_bool(fields, "has_liked") {
                Some(b) => b,
                None => {
                    return None;
                },
            };
            Some(LikeSummary { total_count, can_like, has_liked })
        },
        _ => None,
    }
}

/// A comment tally; every field defaults to its zero value when absent.
#[derive(Clone, Debug, PartialEq)]
pub struct CommentSummary {
    pub order: String,
    pub total_count: i32,
    pub can_comment: bool,
}

/// The mathematical value of a [`CommentSummary`].
pub struct CommentSummaryV {
    pub order: Seq<char>,
    pub total_count: int,
    pub can_comment: bool,
}

impl View for CommentSummary {
    type V = CommentSummaryV;

    open spec fn view(&self) -> CommentSummaryV {
        CommentSummaryV {
            order: self.order@,
            total_count: self.total_count as int,
            can_comment: self.can_comment,
        }
    }
}

/// The JSON shape of a comment tally.
pub open spec fn comment_summary_of(j: Json) -> Option<CommentSummaryV> {
    match j {
        Json::Obj(f) => {
            let order = dft_str(f@, "order"@);
            let total_count = dft_i32(f@, "total_count"@);
            let can_comment = dft_bool(f@, "can_comment"@);
            if order is Some && total_count is Some && can_comment is Some {
                Some(
                    CommentSummaryV {
                        order: order->0,
                        total_count: total_count->0,
                        can_comment: can_comment->0,
                    },
                )
            } else {
                None
            }
        },
        _ => None,
    }
}

/// Reads a comment tally.
pub fn parse_comment_summary(j: &Json) -> (r: Option<CommentSummary>)
    ensures
        (r is Some) == (comment_summary_of(*j) is Some),
        r matches Some(s) ==> comment_summary_of(*j) == Some(s@),
{
    match j {
        Json::Obj(fields) => {
            let order = match get_dft_str(fields, "order") {
                Some(s) => s,
                None => {
                    return None;
                },
            };
            let total_count = match get_dft_i32(fields, "total_count") {
                Some(v) => v,
                None => {
                    return None;
                },
            };
            let can_comment = match get_dft_bool(fields, "can_comment") {
                Some(b) => b,
                None => {
                    return None;
                },
            };
            Some(CommentSummary { order, total_count, can_comment })
        },
        _ => None,
    }
}

/// The JSON shape of a comment array.
pub open spec fn comment_infos_of(items: Seq<Json>) -> Option<Seq<CommentInfoV>>
    decreases items.len(),
{
    if items.len() == 0 {
        Some(Seq::empty())
    } else {
        match (comment_infos_of(items.drop_last()), comment_info_of(items.last())) {
            (Some(rest), Some(c)) => Some(rest.push(c)),
            _ => None,
        }
    }
}

proof fn lemma_comment_infos_of_bad(items: Seq<Json>, i: int)
    requires
        0 <= i < items.len(),
        comment_info_of(items[i]) is None,
    ensures
        comment_infos_of(items) is None,
    decreases items.len(),
{
    if i < items.len() - 1 {
        lemma_comment_infos_of_bad(items.drop_last(), i);
    }
}

/// Reads a comment array.
fn parse_comment_infos(items: &Vec<Json>) -> (r: Option<Vec<CommentInfo>>)
    ensures
        (r is Some) == (comment_infos_of(items@) is Some),
        r matches Some(cs) ==> comment_infos_of(items@) == Some(cs.deep_view()),
{
    let mut out: Vec<CommentInfo> = Vec::new();
    let n = items.len();
    proof {
        assert(items@.take(0) =~= Seq::<Json>::empty());
        assert(out.deep_view() =~= Seq::<CommentInfoV>::empty());
    }
    let mut i: usize = 0;
    while i < n
        invariant
            i <= n,
            n == items@.len(),
            comment_infos_of(items@.take(i as int)) == Some(out.deep_view()),
        decreases n - i,
    {
        let c = match parse_comment_info(&items[i]) {
            Some(c) => c,
            None => {
                proof {
                    lemma_comment_infos_of_bad(items@, i as int);
                }
                return None;
            },
        };
        let ghost prev = out.deep_view();
        let ghost cv = c@;
        out.push(c);
        proof {
            assert(out.deep_view() =~= prev.push(cv));
            let ext = items@.take(i as int + 1);
            assert(ext.drop_last() =~= items@.take(i as int));
            assert(ext.last() == items@[i as int]);
        }
        i += 1;
    }
    proof {
        assert(items@.take(n as int) =~= items@);
    }
    Some(out)
}

/// The JSON shape of a like array.
pub open spec fn like_infos_of(items: Seq<Json>) -> Option<Seq<LikeInfoV>>
    decreases items.len(),
{
    if items.len() == 0 {
        Some(Seq::empty())
    } else {
        match (like_infos_of(items.drop_last()), like_info_of(items.last())) {
            (Some(rest), Some(l)) => Some(rest.push(l)),
            _ => None,
        }
    }
}

proof fn lemma_like_infos_of_bad(items: Seq<Json>, i: int)
    requires
        0 <= i < items.len(),
        like_info_of(items[i]) is None,
    ensures
        like_infos_of(items) is None,
    decreases items.len(),
{
    if i < items.len() - 1 {
        lemma_like_infos_of_bad(items.drop_last(), i);
    }
}

/// Reads a like array.
fn parse_like_infos(items: &Vec<Json>) -> (r: Option<Vec<LikeInfo>>)
    ensures
        (r is Some) == (like_infos_of(items@) is Some),
        r matches Some(ls) ==> like_infos_of(items@) == Some(ls.deep_view()),
{
    let mut out: Vec<LikeInfo> = Vec::new();
    let n = items.len();
    proof {
        assert(items@.take(0) =~= Seq::<Json>::empty());
        assert(out.deep_view() =~= Seq::<LikeInfoV>::empty());
    }
    let mut i: usize = 0;
    while i < n
        invariant
            i <= n,
            n == items@.len(),
            like_infos_of(items@.take(i as int)) == Some(out.deep_view()),
        decreases n - i,
    {
        let l = match parse_like_info(&items[i]) {
            Some(l) => l,
            None => {
                proof {
                    lemma_like_infos_of_bad(items@, i as int);
                }
                return None;
            },
        };
        let ghost prev = out.deep_view();
        let ghost lv = l@;
        out.push(l);
        proof {
            assert(out.deep_view() =~= prev.push(lv));
            let ext = items@.take(i as int + 1);
            assert(ext.drop_last() =~= items@.take(i as int));
            assert(ext.last() == items@[i as int]);
        }
        i += 1;
    }
    proof {
        assert(items@.take(n as int) =~= items@);
    }
    Some(out)
}

/// An optional paging field: absent or null stays unset; a present
/// value must be a paging object.
pub open spec fn opt_paging_of(f: Seq<(String, Json)>) -> Option<Option<PagingV>> {
    match spec_lookup(f, "paging"@) {
        None => Some(None),
        Some(Json::Null) => Some(None),
        Some(pj) => match paging_of(pj) {
            Some(p) => Some(Some(p)),
            None => None,
        },
    }
}

fn get_opt_paging(fields: &Vec<(String, Json)>) -> (r: Option<Option<Paging>>)
    ensures
        match r {
            Some(None) => opt_paging_of(fields@) == Some(None::<PagingV>),
            Some(Some(p)) => opt_paging_of(fields@) == Some(Some(p@)),
            None => opt_paging_of(fields@) is None,
        },
{
    match lookup(fields, "paging") {
        None => Some(None),
        Some(Json::Null) => Some(None),
        Some(pj) => match parse_paging(pj) {
            Some(p) => Some(Some(p)),
            None => None,
        },
    }
}

/// A post's comments: the entries, an optional continuation, and the
/// tally; the entries and the tally fall back to their zero values when
/// absent.
#[derive(Clone, Debug, PartialEq)]
pub struct BasicCommentsInfo {
    pub data: Vec<CommentInfo>,
    pub paging: Option<Paging>,
    pub summary: CommentSummary,
}

/// The mathematical value of a [`BasicCommentsInfo`].
pub struct BasicCommentsInfoV {
    pub data: Seq<CommentInfoV>,
    pub paging: Option<PagingV>,
    pub summary: CommentSummaryV,
}

impl View for BasicCommentsInfo {
    type V = BasicCommentsInfoV;

    open spec fn view(&self) -> BasicCommentsInfoV {
        BasicCommentsInfoV {
            data: self.data.deep_view(),
            paging: match self.paging {
                Some(p) => Some(p@),
                None => None,
            },
            summary: self.summary@,
        }
    }
}

impl DeepView for BasicCommentsInfo {
    type V = BasicCommentsInfoV;

    open spec fn deep_view(&self) -> BasicCommentsInfoV {
        self.view()
    }
}

/// The zero value of a comment tally, used when the field is absent.
pub open spec fn comment_summary_zero() -> CommentSummaryV {
    CommentSummaryV { order: Seq::empty(), total_count: 0, can_comment: false }
}

/// The JSON shape of a post's comments block.
pub open spec fn basic_comments_info_of(j: Json) -> Option<BasicCommentsInfoV> {
    match j {
        Json::Obj(f) => {
            let data = match spec_lookup(f@, "data"@) {
                None => Some(Seq::<CommentInfoV>::empty()),
                Some(Json::Arr(items)) => comment_infos_of(items@),
                Some(_) => None,
            };
            let paging = opt_paging_of(f@);
            let summary = match spec_lookup(f@, "summary"@) {
                None => Some(comment_summary_zero()),
                Some(sj) => comment_summary_of(sj),
            };
            if data is Some && paging is Some && summary is Some {
                Some(BasicCommentsInfoV { data: data->0, paging: paging->0, summary: summary->0 })
            } else {
                None
            }
        },
        _ => None,
    }
}

/// Reads a post's comments block.
pub fn parse_basic_comments_info(j: &Json) -> (r: Option<BasicCommentsInfo>)
    ensures
        (r is Some) == (basic_comments_info_of(*j) is Some),
        r matches Some(c) ==> basic_comments_info_of(*j) == Some(c@),
{
    match j {
        Json::Obj(fields) => {
            let data = match lookup(fields, "data") {
                None => {
                    let out: Vec<CommentInfo> = Vec::new();
                    proof {
                        assert(out.deep_view() =~= Seq::<CommentInfoV>::empty());
                    }
                    out
                },
                Some(Json::Arr(items)) => match parse_comment_infos(items) {
                    Some(cs) => cs,
                    None => {
                        return None;
                    },
                },
                Some(_) => {
                    return None;
                },
            };
            let paging = match get_opt_paging(fields) {
                Some(p) => p,
                None => {
                    return None;
                },
            };
            let summary = match lookup(fields, "summary") {
                None => CommentSummary { order: String::new(), total_count: 0, can_comment: false },
                Some(sj) => match parse_comment_summary(sj) {
                    Some(s) => s,
                    None => {
                        return None;
                    },
                },
            };
            Some(BasicCommentsInfo { data, paging, summary })
        },
        _ => None,
    }
}

/// A post's likes: the entries, an optional continuation, and the
/// tally; the entries and the tally fall back to their zero values when
/// absent.
#[derive(Clone, Debug, PartialEq)]
pub struct BasicLikesInfo {
    pub data: Vec<LikeInfo>,
    pub paging: Option<Paging>,
    pub summary: LikeSummary,
}

/// The mathematical value of a [`BasicLikesInfo`].
pub struct BasicLikesInfoV {
    pub data: Seq<LikeInfoV>,
    pub paging: Option<PagingV>,
    pub summary: LikeSummaryV,
}

impl View for BasicLikesInfo {
    type V = BasicLikesInfoV;

    open spec fn view(&self) -> BasicLikesInfoV {
        BasicLikesInfoV {
            data: self.data.deep_view(),
            paging: match self.paging {
                Some(p) => Some(p@),
                None => None,
            },
            summary: self.summary@,
        }
    }
}

impl DeepView for BasicLikesInfo {
    type V = BasicLikesInfoV;

    open spec fn deep_view(&self) -> BasicLikesInfoV {
        self.view()
    }
}

/// The zero value of a like tally, used when the field is absent.
pub open spec fn like_summary_zero() -> LikeSummaryV {
    LikeSummaryV { total_count: 0, can_like: false, has_liked: false }
}

/// The JSON shape of a post's likes block.
pub open spec fn basic_likes_info_of(j: Json) -> Option<BasicLikesInfoV> {
    match j {
        Json::Obj(f) => {
            let data = match spec_lookup(f@, "data"@) {
                None => Some(Seq::<LikeInfoV>::empty()),
                Some(Json::Arr(items)) => like_infos_of(items@),
                Some(_) => None,
            };
            let paging = opt_paging_of(f@);
            let summary = match spec_lookup(f@, "summary"@) {
                None => Some(like_summary_zero()),
                Some(sj) => like_summary_of(sj),
            };
            if data is Some && paging is Some && summary is Some {
                Some(BasicLikesInfoV { data: data->0, paging: paging->0, summary: summary->0 })
            } else {
                None
            }
        },
        _ => None,
    }
}

/// Reads a post's likes block.
pub fn parse_basic_likes_info(j: &Json) -> (r: Option<BasicLikesInfo>)
    ensures
        (r is Some) == (basic_likes_info_of(*j) is Some),
        r matches Some(l) ==> basic_likes_info_of(*j) == Some(l@),
{
    match j {
        Json::Obj(fields) => {
            let data = match lookup(fields, "data") {
                None => {
                    let out: Vec<LikeInfo> = Vec::new();
                    proof {
                        assert(out.deep_view() =~= Seq::<LikeInfoV>::empty());
                    }
                    out
                },
                Some(Json::Arr(items)) => match parse_like_infos(items) {
                    Some(ls) => ls,
                    None => {
                        return None;
                    },
                },
                Some(_) => {
                    return None;
                },
            };
            let paging = match get_opt_paging(fields) {
                Some(p) => p,
                None => {
                    return None;
                },
            };
            let summary = match lookup(fields, "summary") {
                None => LikeSummary { total_count: 0, can_like: false, has_liked: false },
                Some(sj) => match parse_like_summary(sj) {
                    Some(s) => s,
                    None => {
                        return None;
                    },
                },
            };
            Some(BasicLikesInfo { data, paging, summary })
        },
        _ => None,
    }
}

// ---------------------------------------------------------------------
// Posts
// ---------------------------------------------------------------------

/// One post. `message` and `story` stay unset when absent, since their
/// absence is distinct from an empty string; the likes and comments
/// blocks are present only when the field selector asked for them.
#[derive(Clone, Debug, PartialEq)]
pub struct PostInfo {
    pub id: String,
    pub message: Option<String>,
    pub created_time: String,
    pub story: Option<String>,
    pub likes: Option<BasicLikesInfo>,
    pub comments: Option<BasicCommentsInfo>,
}

/// The mathematical value of a [`PostInfo`].
pub struct PostInfoV {
    pub id: Seq<char>,
    pub message: Option<Seq<char>>,
    pub created_time: Seq<char>,
    pub story: Option<Seq<char>>,
    pub likes: Option<BasicLikesInfoV>,
    pub comments: Option<BasicCommentsInfoV>,
}

impl View for PostInfo {
    type V = PostInfoV;

    open spec fn view(&self) -> PostInfoV {
        PostInfoV {
            id: self.id@,
            message: self.message.deep_view(),
            created_time: self.created_time@,
            story: self.story.deep_view(),
            likes: match self.likes {
                Some(l) => Some(l@),
                None => None,
            },
            comments: match self.comments {
                Some(c) => Some(c@),
                None => None,
            },
        }
    }
}

impl DeepView for PostInfo {
    type V = PostInfoV;

    open spec fn deep_view(&self) -> PostInfoV {
        self.view()
    }
}

/// An optional likes block: absent or null stays unset.
pub open spec fn opt_likes_of(f: Seq<(String, Json)>) -> Option<Option<BasicLikesInfoV>> {
    match spec_lookup(f, "likes"@) {
        None => Some(None),
        Some(Json::Null) => Some(None),
        Some(lj) => match basic_likes_info_of(lj) {
            Some(l) => Some(Some(l)),
            None => None,
        },
    }
}

/// An optional comments block: absent or null stays unset.
pub open spec fn opt_comments_of(f: Seq<(String, Json)>) -> Option<Option<BasicCommentsInfoV>> {
    match spec_lookup(f, "comments"@) {
        None => Some(None),
        Some(Json::Null) => Some(None),
        Some(cj) => match basic_comments_info_of(cj) {
            Some(c) => Some(Some(c)),
            None => None,
        },
    }
}

/// The JSON shape of one post.
pub open spec fn post_info_of(j: Json) -> Option<PostInfoV> {
    match j {
        Json::Obj(f) => {
            let id = dft_str(f@, "id"@);
            let message = opt_str(f@, "message"@);
            let created_time = dft_str(f@, "created_time"@);
            let story = opt_str(f@, "story"@);
            let likes = opt_likes_of(f@);
            let comments = opt_comments_of(f@);
            if id is Some && message is Some && created_time is Some && story is Some
                && likes is Some && comments is Some {
                Some(
                    PostInfoV {
                        id: id->0,
                        message: message->0,
                        created_time: created_time->0,
                        story: story->0,
                        likes: likes->0,
                        comments: comments->0,
                    },
                )
            } else {
                None
            }
        },
        _ => None,
    }
}

/// Reads one post.
pub fn parse_post_info(j: &Json) -> (r: Option<PostInfo>)
    ensures
        (r is Some) == (post_info_of(*j) is Some),
        r matches Some(p) ==> post_info_of(*j) == Some(p@),
{
    match j {
        Json::Obj(fields) => {
            let id = match get_dft_str(fields, "id") {
                Some(s) => s,
                None => {
                    return None;
                },
            };
            let message = match get_opt_str(fields, "message") {
                Some(m) => m,
                None => {
                    return None;
                },
            };
            let created_time = match get_dft_str(fields, "created_time") {
                Some(s) => s,
                None => {
                    return None;
                },
            };
            let story = match get_opt_str(fields, "story") {
                Some(s) => s,
                None => {
                    return None;
                },
            };
            let likes = match lookup(fields, "likes") {
                None => None,
                Some(Json::Null) => None,
                Some(lj) => match parse_basic_likes_info(lj) {
                    Some(l) => Some(l),
                    None => {
                        return None;
                    },
                },
            };
            let comments = match lookup(fields, "comments") {
                None => None,
                Some(Json::Null) => None,
                Some(cj) => match parse_basic_comments_info(cj) {
                    Some(c) => Some(c),
                    None => {
                        return None;
                    },
                },
            };
            Some(PostInfo { id, message, created_time, story, likes, comments })
        },
        _ => None,
    }
}

/// The JSON shape of a post array.
pub open spec fn post_infos_of(items: Seq<Json>) -> Option<Seq<PostInfoV>>
    decreases items.len(),
{
    if items.len() == 0 {
        Some(Seq::empty())
    } else {
        match (post_infos_of(items.drop_last()), post_info_of(items.last())) {
            (Some(rest), Some(p)) => Some(rest.push(p)),
            _ => None,
        }
    }
}

proof fn lemma_post_infos_of_bad(items: Seq<Json>, i: int)
    requires
        0 <= i < items.len(),
        post_info_of(items[i]) is None,
    ensures
        post_infos_of(items) is None,
    decreases items.len(),
{
    if i < items.len() - 1 {
        lemma_post_infos_of_bad(items.drop_last(), i);
    }
}

/// Reads a post array.
fn parse_post_infos(items: &Vec<Json>) -> (r: Option<Vec<PostInfo>>)
    ensures
        (r is Some) == (post_infos_of(items@) is Some),
        r matches Some(ps) ==> post_infos_of(items@) == Some(ps.deep_view()),
{
    let mut out: Vec<PostInfo> = Vec::new();
    let n = items.len();
    proof {
        assert(items@.take(0) =~= Seq::<Json>::empty());
        assert(out.deep_view() =~= Seq::<PostInfoV>::empty());
    }
    let mut i: usize = 0;
    while i < n
        invariant
            i <= n,
            n == items@.len(),
            post_infos_of(items@.take(i as int)) == Some(out.deep_view()),
        decreases n - i,
    {
        let p = match parse_post_info(&items[i]) {
            Some(p) => p,
            None => {
                proof {
                    lemma_post_infos_of_bad(items@, i as int);
                }
                return None;
            },
        };
        let ghost prev = out.deep_view();
        let ghost pv = p@;
        out.push(p);
        proof {
            assert(out.deep_view() =~= prev.push(pv));
            let ext = items@.take(i as int + 1);
            assert(ext.drop_last() =~= items@.take(i as int));
            assert(ext.last() == items@[i as int]);
        }
        i += 1;
    }
    proof {
        assert(items@.take(n as int) =~= items@);
    }
    Some(out)
}

/// One page of posts: the posts and the continuation, both required.
#[derive(Clone, Debug, PartialEq)]
pub struct BasicPostsInfo {
    pub data: Vec<PostInfo>,
    pub paging: Paging,
}

/// The mathematical value of a [`BasicPostsInfo`].
pub struct BasicPostsInfoV {
    pub data: Seq<PostInfoV>,
    pub paging: PagingV,
}

impl View for BasicPostsInfo {
    type V = BasicPostsInfoV;

    open spec fn view(&self) -> BasicPostsInfoV {
        BasicPostsInfoV { data: self.data.deep_view(), paging: self.paging@ }
    }
}

/// The JSON shape of a page of posts: `data` and `paging` required.
pub open spec fn basic_posts_info_of(j: Json) -> Option<BasicPostsInfoV> {
    match j {
        Json::Obj(f) => {
            let data = match spec_lookup(f@, "data"@) {
                Some(Json::Arr(items)) => post_infos_of(items@),
                _ => None,
            };
            let paging = match spec_lookup(f@, "paging"@) {
                Some(pj) => paging_of(pj),
                None => None,
            };
            if data is Some && paging is Some {
                Some(BasicPostsInfoV { data: data->0, paging: paging->0 })
            } else {
                None
            }
        },
        _ => None,
    }
}

/// Reads a page of posts.
pub fn parse_basic_posts_info(j: &Json) -> (r: Option<BasicPostsInfo>)
    ensures
        (r is Some) == (basic_posts_info_of(*j) is Some),
        r matches Some(p) ==> basic_posts_info_of(*j) == Some(p@),
{
    match j {
        Json::Obj(fields) => {
            let data = match lookup(fields, "data") {
                Some(Json::Arr(items)) => match parse_post_infos(items) {
                    Some(ps) => ps,
                    None => {
                        return None;
                    },
                },
                _ => {
                    return None;
                },
            };
            let paging = match lookup(fields, "paging") {
                Some(pj) => match parse_paging(pj) {
                    Some(p) => p,
                    None => {
                        return None;
                    },
                },
                None => {
                    return None;
                },
            };
            Some(BasicPostsInfo { data, paging })
        },
        _ => None,
    }
}

/// Builds the JSON document of one category entry; reading it back
/// yields the same value.
pub fn page_category_to_json(c: &PageCategory) -> (j: Json)
    ensures
        page_category_of(j) == Some(c@),
{
    let mut fields: Vec<(String, Json)> = Vec::new();
    fields.push(("id".to_owned(), Json::Str(c.id.clone())));
    fields.push(("name".to_owned(), Json::Str(c.name.clone())));
    let ghost fs = fields@;
    let j = Json::Obj(fields);
    proof {
        reveal_strlit("id");
        reveal_strlit("name");
        assert(fs[0].0@ == "id"@);
        assert(fs[1].0@ == "name"@);
        crate::json::lemma_lookup_at(fs, "id"@, 0);
        crate::json::lemma_lookup_at(fs, "name"@, 1);
    }
    j
}

/// Builds the JSON array of a category list; reading it back yields the
/// same entries in the same order.
fn page_categories_to_json(cs: &Vec<PageCategory>) -> (items: Vec<Json>)
    ensures
        page_categories_of(items@) == Some(cs.deep_view()),
{
    let mut items: Vec<Json> = Vec::new();
    let n = cs.len();
    proof {
        assert(items@ =~= Seq::<Json>::empty());
        assert(cs.deep_view().take(0) =~= Seq::<PageCategoryV>::empty());
    }
    let mut i: usize = 0;
    while i < n
        invariant
            i <= n,
            n == cs@.len(),
            items@.len() == i,
            page_categories_of(items@) == Some(cs.deep_view().take(i as int)),
        decreases n - i,
    {
        let j = page_category_to_json(&cs[i]);
        let ghost prev = items@;
        items.push(j);
        proof {
            assert(items@.drop_last() =~= prev);
            assert(items@.last() == j);
            assert(cs.deep_view().take(i as int + 1) =~= cs.deep_view().take(i as int).push(
                cs@[i as int]@,
            ));
        }
        i += 1;
    }
    proof {
        assert(cs.deep_view().take(n as int) =~= cs.deep_view());
    }
    items
}

/// Builds the JSON document of a page's engagement metrics; reading it
/// back yields exactly the same value, category list included.
pub fn page_engagement_to_json(p: &PageEngagement) -> (j: Json)
    ensures
        page_engagement_of(j) == Some(p@),
{
    let categories = page_categories_to_json(&p.category_list);
    let mut fields: Vec<(String, Json)> = Vec::new();
    fields.push(("category".to_owned(), Json::Str(p.category.clone())));
    fields.push(("category_list".to_owned(), Json::Arr(categories)));
    fields.push(("followers_count".to_owned(), Json::Num(i32_text(p.followers_count))));
    fields.push(("fan_count".to_owned(), Json::Num(i32_text(p.fan_count))));
    fields.push(("overall_star_rating".to_owned(), Json::Num(p.overall_star_rating.clone())));
    fields.push(("rating_count".to_owned(), Json::Num(i32_text(p.rating_count))));
    fields.push(("talking_about_count".to_owned(), Json::Num(i32_text(p.talking_about_count))));
    fields.push(("id".to_owned(), Json::Str(p.id.clone())));
    let ghost fs = fields@;
    let j = Json::Obj(fields);
    proof {
        reveal_strlit("category");
        reveal_strlit("category_list");
        reveal_strlit("followers_count");
        reveal_strlit("fan_count");
        reveal_strlit("overall_star_rating");
        reveal_strlit("rating_count");
        reveal_strlit("talking_about_count");
        reveal_strlit("id");
        assert(fs[0].0@ == "category"@);
        assert(fs[1].0@ == "category_list"@);
        assert(fs[2].0@ == "followers_count"@);
        assert(fs[3].0@ == "fan_count"@);
        assert(fs[4].0@ == "overall_star_rating"@);
        assert(fs[5].0@ == "rating_count"@);
        assert(fs[6].0@ == "talking_about_count"@);
        assert(fs[7].0@ == "id"@);
        assert(fs[4].0@ != "talking_about_count"@) by {
            assert("overall_star_rating"@[0] == 'o');
            assert("talking_about_count"@[0] == 't');
        }
        crate::json::lemma_lookup_at(fs, "category"@, 0);
        crate::json::lemma_lookup_at(fs, "category_list"@, 1);
        crate::json::lemma_lookup_at(fs, "followers_count"@, 2);
        crate::json::lemma_lookup_at(fs, "fan_count"@, 3);
        crate::json::lemma_lookup_at(fs, "overall_star_rating"@, 4);
        crate::json::lemma_lookup_at(fs, "rating_count"@, 5);
        crate::json::lemma_lookup_at(fs, "talking_about_count"@, 6);
        crate::json::lemma_lookup_at(fs, "id"@, 7);
    }
    j
}

/// Builds the JSON document of a like tally; reading it back yields the
/// same value.
pub fn like_summary_to_json(s: &LikeSummary) -> (j: Json)
    ensures
        like_summary_of(j) == Some(s@),
{
    let mut fields: Vec<(String, Json)> = Vec::new();
    fields.push(("total_count".to_owned(), Json::Num(i32_text(s.total_count))));
    fields.push(("can_like".to_owned(), Json::Bool(s.can_like)));
    fields.push(("has_liked".to_owned(), Json::Bool(s.has_liked)));
    let ghost fs = fields@;
    let j = Json::Obj(fields);
    proof {
        reveal_strlit("total_count");
        reveal_strlit("can_like");
        reveal_strlit("has_liked");
        assert(fs[0].0@ == "total_count"@);
        assert(fs[1].0@ == "can_like"@);
        assert(fs[2].0@ == "has_liked"@);
        crate::json::lemma_lookup_at(fs, "total_count"@, 0);
        crate::json::lemma_lookup_at(fs, "can_like"@, 1);
        crate::json::lemma_lookup_at(fs, "has_liked"@, 2);
    }
    j
}

/// Builds the JSON document of a comment tally; reading it back yields
/// the same value.
pub fn comment_summary_to_json(s: &CommentSummary) -> (j: Json)
    ensures
        comment_summary_of(j) == Some(s@),
{
    let mut fields: Vec<(String, Json)> = Vec::new();
    fields.push(("order".to_owned(), Json::Str(s.order.clone())));
    fields.push(("total_count".to_owned(), Json::Num(i32_text(s.total_count))));
    fields.push(("can_comment".to_owned(), Json::Bool(s.can_comment)));
    let ghost fs = fields@;
    let j = Json::Obj(fields);
    proof {
        reveal_strlit("order");
        reveal_strlit("total_count");
        reveal_strlit("can_comment");
        assert(fs[0].0@ == "order"@);
        assert(fs[1].0@ == "total_count"@);
        assert(fs[2].0@ == "can_comment"@);
        assert(fs[1].0@ != "can_comment"@) by {
            assert("total_count"@[0] == 't');
            assert("can_comment"@[0] == 'c');
        }
        crate::json::lemma_lookup_at(fs, "order"@, 0);
        crate::json::lemma_lookup_at(fs, "total_count"@, 1);
        crate::json::lemma_lookup_at(fs, "can_comment"@, 2);
    }
    j
}

/// Builds the JSON document of one like, with an explicit null standing
/// for an absent id; reading it back yields the same value.
pub fn like_info_to_json(l: &LikeInfo) -> (j: Json)
    ensures
        like_info_of(j) == Some(l@),
{
    let id = match &l.id {
        Some(s) => Json::Str(s.clone()),
        None => Json::Null,
    };
    let mut fields: Vec<(String, Json)> = Vec::new();
    fields.push(("id".to_owned(), id));
    let ghost fs = fields@;
    let j = Json::Obj(fields);
    proof {
        reveal_strlit("id");
        assert(fs[0].0@ == "id"@);
        crate::json::lemma_lookup_at(fs, "id"@, 0);
    }
    j
}

/// Builds the JSON document of one comment, with explicit nulls
/// standing for absent fields; reading it back yields the same value.
pub fn comment_info_to_json(c: &CommentInfo) -> (j: Json)
    ensures
        comment_info_of(j) == Some(c@),
{
    let message = match &c.message {
        Some(s) => Json::Str(s.clone()),
        None => Json::Null,
    };
    let created_time = match &c.created_time {
        Some(s) => Json::Str(s.clone()),
        None => Json::Null,
    };
    let mut fields: Vec<(String, Json)> = Vec::new();
    fields.push(("message".to_owned(), message));
    fields.push(("created_time".to_owned(), created_time));
    let ghost fs = fields@;
    let j = Json::Obj(fields);
    proof {
        reveal_strlit("message");
        reveal_strlit("created_time");
        assert(fs[0].0@ == "message"@);
        assert(fs[1].0@ == "created_time"@);
        crate::json::lemma_lookup_at(fs, "message"@, 0);
        crate::json::lemma_lookup_at(fs, "created_time"@, 1);
    }
    j
}

/// Builds the JSON array of a like list; reading it back yields the
/// same entries in the same order.
fn like_infos_to_json(ls: &Vec<LikeInfo>) -> (items: Vec<Json>)
    ensures
        like_infos_of(items@) == Some(ls.deep_view()),
{
    let mut items: Vec<Json> = Vec::new();
    let n = ls.len();
    proof {
        assert(items@ =~= Seq::<Json>::empty());
        assert(ls.deep_view().take(0) =~= Seq::<LikeInfoV>::empty());
    }
    let mut i: usize = 0;
    while i < n
        invariant
            i <= n,
            n == ls@.len(),
            items@.len() == i,
            like_infos_of(items@) == Some(ls.deep_view().take(i as int)),
        decreases n - i,
    {
        let j = like_info_to_json(&ls[i]);
        let ghost prev = items@;
        items.push(j);
        proof {
            assert(items@.drop_last() =~= prev);
            assert(items@.last() == j);
            assert(ls.deep_view().take(i as int + 1) =~= ls.deep_view().take(i as int).push(
                ls@[i as int]@,
            ));
        }
        i += 1;
    }
    proof {
        assert(ls.deep_view().take(n as int) =~= ls.deep_view());
    }
    items
}

/// Builds the JSON array of a comment list; reading it back yields the
/// same entries in the same order.
fn comment_infos_to_json(cs: &Vec<CommentInfo>) -> (items: Vec<Json>)
    ensures
        comment_infos_of(items@) == Some(cs.deep_view()),
{
    let mut items: Vec<Json> = Vec::new();
    let n = cs.len();
    proof {
        assert(items@ =~= Seq::<Json>::empty());
        assert(cs.deep_view().take(0) =~= Seq::<CommentInfoV>::empty());
    }
    let mut i: usize = 0;
    while i < n
        invariant
            i <= n,
            n == cs@.len(),
            items@.len() == i,
            comment_infos_of(items@) == Some(cs.deep_view().take(i as int)),
        decreases n - i,
    {
        let j = comment_info_to_json(&cs[i]);
        let ghost prev = items@;
        items.push(j);
        proof {
            assert(items@.drop_last() =~= prev);
            assert(items@.last() == j);
            assert(cs.deep_view().take(i as int + 1) =~= cs.deep_view().take(i as int).push(
                cs@[i as int]@,
            ));
        }
        i += 1;
    }
    proof {
        assert(cs.deep_view().take(n as int) =~= cs.deep_view());
    }
    items
}

/// Builds the JSON document of a likes block, with an explicit null
/// standing for an absent continuation; reading it back yields the same
/// value.
pub fn basic_likes_info_to_json(l: &BasicLikesInfo) -> (j: Json)
    ensures
        basic_likes_info_of(j) == Some(l@),
{
    let data = Json::Arr(like_infos_to_json(&l.data));
    let paging = match &l.paging {
        Some(p) => paging_to_json(p),
        None => Json::Null,
    };
    let summary = like_summary_to_json(&l.summary);
    let mut fields: Vec<(String, Json)> = Vec::new();
    fields.push(("data".to_owned(), data));
    fields.push(("paging".to_owned(), paging));
    fields.push(("summary".to_owned(), summary));
    let ghost fs = fields@;
    let j = Json::Obj(fields);
    proof {
        reveal_strlit("data");
        reveal_strlit("paging");
        reveal_strlit("summary");
        assert(fs[0].0@ == "data"@);
        assert(fs[1].0@ == "paging"@);
        assert(fs[2].0@ == "summary"@);
        crate::json::lemma_lookup_at(fs, "data"@, 0);
        crate::json::lemma_lookup_at(fs, "paging"@, 1);
        crate::json::lemma_lookup_at(fs, "summary"@, 2);
    }
    j
}

/// Builds the JSON document of a comments block, with an explicit null
/// standing for an absent continuation; reading it back yields the same
/// value.
pub fn basic_comments_info_to_json(c: &BasicCommentsInfo) -> (j: Json)
    ensures
        basic_comments_info_of(j) == Some(c@),
{
    let data = Json::Arr(comment_infos_to_json(&c.data));
    let paging = match &c.paging {
        Some(p) => paging_to_json(p),
        None => Json::Null,
    };
    let summary = comment_summary_to_json(&c.summary);
    let mut fields: Vec<(String, Json)> = Vec::new();
    fields.push(("data".to_owned(), data));
    fields.push(("paging".to_owned(), paging));
    fields.push(("summary".to_owned(), summary));
    let ghost fs = fields@;
    let j = Json::Obj(fields);
    proof {
        reveal_strlit("data");
        reveal_strlit("paging");
        reveal_strlit("summary");
        assert(fs[0].0@ == "data"@);
        assert(fs[1].0@ == "paging"@);
        assert(fs[2].0@ == "summary"@);
        crate::json::lemma_lookup_at(fs, "data"@, 0);
        crate::json::lemma_lookup_at(fs, "paging"@, 1);
        crate::json::lemma_lookup_at(fs, "summary"@, 2);
    }
    j
}

/// Builds the JSON document of one post, with explicit nulls standing
/// for absent optional fields; reading it back yields the same value.
pub fn post_info_to_json(p: &PostInfo) -> (j: Json)
    ensures
        post_info_of(j) == Some(p@),
{
    let message = match &p.message {
        Some(s) => Json::Str(s.clone()),
        None => Json::Null,
    };
    let story = match &p.story {
        Some(s) => Json::Str(s.clone()),
        None => Json::Null,
    };
    let likes = match &p.likes {
        Some(l) => basic_likes_info_to_json(l),
        None => Json::Null,
    };
    let comments = match &p.comments {
        Some(c) => basic_comments_info_to_json(c),
        None => Json::Null,
    };
    let mut fields: Vec<(String, Json)> = Vec::new();
    fields.push(("id".to_owned(), Json::Str(p.id.clone())));
    fields.push(("message".to_owned(), message));
    fields.push(("created_time".to_owned(), Json::Str(p.created_time.clone())));
    fields.push(("story".to_owned(), story));
    fields.push(("likes".to_owned(), likes));
    fields.push(("comments".to_owned(), comments));
    let ghost fs = fields@;
    let j = Json::Obj(fields);
    proof {
        reveal_strlit("id");
        reveal_strlit("message");
        reveal_strlit("created_time");
        reveal_strlit("story");
        reveal_strlit("likes");
        reveal_strlit("comments");
        assert(fs[0].0@ == "id"@);
        assert(fs[1].0@ == "message"@);
        assert(fs[2].0@ == "created_time"@);
        assert(fs[3].0@ == "story"@);
        assert(fs[4].0@ == "likes"@);
        assert(fs[5].0@ == "comments"@);
        assert(fs[3].0@ != "likes"@) by {
            assert("story"@[0] == 's');
            assert("likes"@[0] == 'l');
        }
        crate::json::lemma_lookup_at(fs, "id"@, 0);
        crate::json::lemma_lookup_at(fs, "message"@, 1);
        crate::json::lemma_lookup_at(fs, "created_time"@, 2);
        crate::json::lemma_lookup_at(fs, "story"@, 3);
        crate::json::lemma_lookup_at(fs, "likes"@, 4);
        crate::json::lemma_lookup_at(fs, "comments"@, 5);
    }
    j
}

/// Builds the JSON array of a post list; reading it back yields the
/// same entries in the same order.
fn post_infos_to_json(ps: &Vec<PostInfo>) -> (items: Vec<Json>)
    ensures
        post_infos_of(items@) == Some(ps.deep_view()),
{
    let mut items: Vec<Json> = Vec::new();
    let n = ps.len();
    proof {
        assert(items@ =~= Seq::<Json>::empty());
        assert(ps.deep_view().take(0) =~= Seq::<PostInfoV>::empty());
    }
    let mut i: usize = 0;
    while i < n
        invariant
            i <= n,
            n == ps@.len(),
            items@.len() == i,
            post_infos_of(items@) == Some(ps.deep_view().take(i as int)),
        decreases n - i,
    {
        let j = post_info_to_json(&ps[i]);
        let ghost prev = items@;
        items.push(j);
        proof {
            assert(items@.drop_last() =~= prev);
            assert(items@.last() == j);
            assert(ps.deep_view().take(i as int + 1) =~= ps.deep_view().take(i as int).push(
                ps@[i as int]@,
            ));
        }
        i += 1;
    }
    proof {
        assert(ps.deep_view().take(n as int) =~= ps.deep_view());
    }
    items
}

/// Builds the JSON document of a page of posts; reading it back yields
/// exactly the same value, posts, blocks and pagination included.
pub fn basic_posts_info_to_json(p: &BasicPostsInfo) -> (j: Json)
    ensures
        basic_posts_info_of(j) == Some(p@),
{
    let data = Json::Arr(post_infos_to_json(&p.data));
    let paging = paging_to_json(&p.paging);
    let mut fields: Vec<(String, Json)> = Vec::new();
    fields.push(("data".to_owned(), data));
    fields.push(("paging".to_owned(), paging));
    let ghost fs = fields@;
    let j = Json::Obj(fields);
    proof {
        reveal_strlit("data");
        reveal_strlit("paging");
        assert(fs[0].0@ == "data"@);
        assert(fs[1].0@ == "paging"@);
        crate::json::lemma_lookup_at(fs, "data"@, 0);
        crate::json::lemma_lookup_at(fs, "paging"@, 1);
    }
    j
}

// ---------------------------------------------------------------------
// Tagged results
// ---------------------------------------------------------------------

/// The tagged result of a page-info call.
pub type BasicPageInfoResult = ApiResult<BasicPageInfo, MetaError>;

/// The tagged result of an engagement call.
pub type PageEngagementResult = ApiResult<PageEngagement, MetaError>;

/// The tagged result of a posts call.
pub type BasicPostsInfoResult = ApiResult<BasicPostsInfo, MetaError>;

impl ApiResult<BasicPageInfo, MetaError> {
    /// The page payload, when the tag says success.
    pub fn page_info(&self) -> (r: Option<&BasicPageInfo>)
        ensures
            (r is Some) == (self is Success),
            r matches Some(p) ==> *p == self->Success_0,
    {
        self.value()
    }

    /// A short printable tag.
    pub fn repr(&self) -> (r: String)
        ensures
            r@ == (if self is Success {
                "BasicPageInfoResult(Success)"@
            } else {
                "BasicPageInfoResult(Error)"@
            }),
    {
        if self.is_success() {
            "BasicPageInfoResult(Success)".to_owned()
        } else {
            "BasicPageInfoResult(Error)".to_owned()
        }
    }
}

impl ApiResult<PageEngagement, MetaError> {
    /// The engagement payload, when the tag says success.
    pub fn page_engagement(&self) -> (r: Option<&PageEngagement>)
        ensures
            (r is Some) == (self is Success),
            r matches Some(p) ==> *p == self->Success_0,
    {
        self.value()
    }

    /// A short printable tag.
    pub fn repr(&self) -> (r: String)
        ensures
            r@ == (if self is Success {
                "PageEngagementResult(Success)"@
            } else {
                "PageEngagementResult(Error)"@
            }),
    {
        if self.is_success() {
            "PageEngagementResult(Success)".to_owned()
        } else {
            "PageEngagementResult(Error)".to_owned()
        }
    }
}

impl ApiResult<BasicPostsInfo, MetaError> {
    /// The posts payload, when the tag says success.
    pub fn posts_info(&self) -> (r: Option<&BasicPostsInfo>)
        ensures
            (r is Some) == (self is Success),
            r matches Some(p) ==> *p == self->Success_0,
    {
        self.value()
    }

    /// A short printable tag.
    pub fn repr(&self) -> (r: String)
        ensures
            r@ == (if self is Success {
                "BasicPostsInfoResult(Success)"@
            } else {
                "BasicPostsInfoResult(Error)"@
            }),
    {
        if self.is_success() {
            "BasicPostsInfoResult(Success)".to_owned()
        } else {
            "BasicPostsInfoResult(Error)".to_owned()
        }
    }
}

// ---------------------------------------------------------------------
// Classification
// ---------------------------------------------------------------------

/// What a page-info body classifies to: the graph error envelope is
/// probed first, since no graph success shape carries an `error` key;
/// only then the success shape. `None` means the body matched neither.
pub open spec fn page_info_outcome(body: Seq<char>) -> Option<
    ApiResultV<BasicPageInfoV, MetaErrorV>,
> {
    match json_of(body) {
        None => None,
        Some(j) => match meta_error_of(j) {
            Some(e) => Some(ApiResultV::Failure(e)),
            None => match basic_page_info_of(j) {
                Some(p) => Some(ApiResultV::Success(p)),
                None => None,
            },
        },
    }
}

/// What an engagement body classifies to.
pub open spec fn page_engagement_outcome(body: Seq<char>) -> Option<
    ApiResultV<PageEngagementV, MetaErrorV>,
> {
    match json_of(body) {
        None => None,
        Some(j) => match meta_error_of(j) {
            Some(e) => Some(ApiResultV::Failure(e)),
            None => match page_engagement_of(j) {
                Some(p) => Some(ApiResultV::Success(p)),
                None => None,
            },
        },
    }
}

/// What a posts body classifies to.
pub open spec fn posts_outcome(body: Seq<char>) -> Option<
    ApiResultV<BasicPostsInfoV, MetaErrorV>,
> {
    match json_of(body) {
        None => None,
        Some(j) => match meta_error_of(j) {
            Some(e) => Some(ApiResultV::Failure(e)),
            None => match basic_posts_info_of(j) {
                Some(p) => Some(ApiResultV::Success(p)),
                None => None,
            },
        },
    }
}

/// The full contract of page-info classification: a body that matches a
/// shape yields exactly its outcome; any other body yields the hard
/// failure with the fault and the bounded preview.
pub open spec fn classified_page_info(
    status: Option<u16>,
    body: Seq<char>,
    r: Result<BasicPageInfoResult, UnparseableResponse>,
) -> bool {
    match r {
        Ok(res) => page_info_outcome(body) == Some(res@),
        Err(u) => page_info_outcome(body) is None && u@ == unparseable_of(status, body),
    }
}

/// The full contract of engagement classification.
pub open spec fn classified_page_engagement(
    status: Option<u16>,
    body: Seq<char>,
    r: Result<PageEngagementResult, UnparseableResponse>,
) -> bool {
    match r {
        Ok(res) => page_engagement_outcome(body) == Some(res@),
        Err(u) => page_engagement_outcome(body) is None && u@ == unparseable_of(status, body),
    }
}

/// The full contract of posts classification.
pub open spec fn classified_posts(
    status: Option<u16>,
    body: Seq<char>,
    r: Result<BasicPostsInfoResult, UnparseableResponse>,
) -> bool {
    match r {
        Ok(res) => posts_outcome(body) == Some(res@),
        Err(u) => posts_outcome(body) is None && u@ == unparseable_of(status, body),
    }
}

/// Classifies a page-info response body, keeping the HTTP status for
/// diagnostics.
pub fn classify_page_info_response(status: u16, body: &str) -> (r: Result<
    BasicPageInfoResult,
    UnparseableResponse,
>)
    ensures
        classified_page_info(Some(status), body@, r),
{
    let j = match parse_json(body) {
        Some(j) => j,
        None => {
            return Err(make_unparseable(Some(status), ParseFault::InvalidJson, body));
        },
    };
    match parse_meta_error(&j) {
        Some(e) => Ok(ApiResult::error(e)),
        None => match parse_basic_page_info(&j) {
            Some(p) => Ok(ApiResult::success(p)),
            None => Err(make_unparseable(Some(status), ParseFault::ShapeMismatch, body)),
        },
    }
}

/// Classifies an engagement response body.
pub fn classify_page_engagement_response(status: u16, body: &str) -> (r: Result<
    PageEngagementResult,
    UnparseableResponse,
>)
    ensures
        classified_page_engagement(Some(status), body@, r),
{
    let j = match parse_json(body) {
        Some(j) => j,
        None => {
            return Err(make_unparseable(Some(status), ParseFault::InvalidJson, body));
        },
    };
    match parse_meta_error(&j) {
        Some(e) => Ok(ApiResult::error(e)),
        None => match parse_page_engagement(&j) {
            Some(p) => Ok(ApiResult::success(p)),
            None => Err(make_unparseable(Some(status), ParseFault::ShapeMismatch, body)),
        },
    }
}

/// Classifies a posts response body.
pub fn classify_posts_response(status: u16, body: &str) -> (r: Result<
    BasicPostsInfoResult,
    UnparseableResponse,
>)
    ensures
        classified_posts(Some(status), body@, r),
{
    let j = match parse_json(body) {
        Some(j) => j,
        None => {
            return Err(make_unparseable(Some(status), ParseFault::InvalidJson, body));
        },
    };
    match parse_meta_error(&j) {
        Some(e) => Ok(ApiResult::error(e)),
        None => match parse_basic_posts_info(&j) {
            Some(p) => Ok(ApiResult::success(p)),
            None => Err(make_unparseable(Some(status), ParseFault::ShapeMismatch, body)),
        },
    }
}

/// Classifies the body a pagination fetch returned, against the same
/// posts shapes as the page that produced the cursor. No HTTP status is
/// attached, since the caller fetched the page itself.
pub fn parse_next_results_to_basic_posts_info(raw_text: &str) -> (r: Result<
    BasicPostsInfoResult,
    UnparseableResponse,
>)
    ensures
        classified_posts(None, raw_text@, r),
{
    let j = match parse_json(raw_text) {
        Some(j) => j,
        None => {
            return Err(make_unparseable(None, ParseFault::InvalidJson, raw_text));
        },
    };
    match parse_meta_error(&j) {
        Some(e) => Ok(ApiResult::error(e)),
        None => match parse_basic_posts_info(&j) {
            Some(p) => Ok(ApiResult::success(p)),
            None => Err(make_unparseable(None, ParseFault::ShapeMismatch, raw_text)),
        },
    }
}

// ---------------------------------------------------------------------
// Laws
// ---------------------------------------------------------------------

/// Classification is a function of the body text alone: two results
/// that both satisfy the page-info contract for the same body are
/// structurally equal.
pub proof fn lemma_classify_page_info_deterministic(
    status: Option<u16>,
    body: Seq<char>,
    r1: Result<BasicPageInfoResult, UnparseableResponse>,
    r2: Result<BasicPageInfoResult, UnparseableResponse>,
)
    requires
        classified_page_info(status, body, r1),
        classified_page_info(status, body, r2),
    ensures
        match (r1, r2) {
            (Ok(a), Ok(b)) => a@ == b@,
            (Err(a), Err(b)) => a@ == b@,
            _ => false,
        },
{
}

/// Classification is a function of the body text alone (engagement).
pub proof fn lemma_classify_page_engagement_deterministic(
    status: Option<u16>,
    body: Seq<char>,
    r1: Result<PageEngagementResult, UnparseableResponse>,
    r2: Result<PageEngagementResult, UnparseableResponse>,
)
    requires
        classified_page_engagement(status, body, r1),
        classified_page_engagement(status, body, r2),
    ensures
        match (r1, r2) {
            (Ok(a), Ok(b)) => a@ == b@,
            (Err(a), Err(b)) => a@ == b@,
            _ => false,
        },
{
}

/// Classification is a function of the body text alone (posts); this
/// covers the pagination path too, which reuses the same contract.
pub proof fn lemma_classify_posts_deterministic(
    status: Option<u16>,
    body: Seq<char>,
    r1: Result<BasicPostsInfoResult, UnparseableResponse>,
    r2: Result<BasicPostsInfoResult, UnparseableResponse>,
)
    requires
        classified_posts(status, body, r1),
        classified_posts(status, body, r2),
    ensures
        match (r1, r2) {
            (Ok(a), Ok(b)) => a@ == b@,
            (Err(a), Err(b)) => a@ == b@,
            _ => false,
        },
{
}

/// The graph error envelope takes precedence: whichever success shape
/// an endpoint targeted, a body whose document matches the envelope
/// classifies as Failure carrying exactly that envelope.
pub proof fn lemma_error_envelope_precedence(body: Seq<char>, j: Json, e: MetaErrorV)
    requires
        json_of(body) == Some(j),
        meta_error_of(j) == Some(e),
    ensures
        page_info_outcome(body) == Some(ApiResultV::<BasicPageInfoV, MetaErrorV>::Failure(e)),
        page_engagement_outcome(body) == Some(
            ApiResultV::<PageEngagementV, MetaErrorV>::Failure(e),
        ),
        posts_outcome(body) == Some(ApiResultV::<BasicPostsInfoV, MetaErrorV>::Failure(e)),
{
}

/// A Failure arises only from the error envelope: classification never
/// downgrades or invents an API error.
pub proof fn lemma_failure_only_from_envelope(body: Seq<char>)
    ensures
        match page_info_outcome(body) {
            Some(ApiResultV::Failure(e)) => json_of(body) matches Some(j) && meta_error_of(j)
                == Some(e),
            _ => true,
        },
        match page_engagement_outcome(body) {
            Some(ApiResultV::Failure(e)) => json_of(body) matches Some(j) && meta_error_of(j)
                == Some(e),
            _ => true,
        },
        match posts_outcome(body) {
            Some(ApiResultV::Failure(e)) => json_of(body) matches Some(j) && meta_error_of(j)
                == Some(e),
            _ => true,
        },
{
}

/// Fetching a page's `next` URL and reclassifying the body against the
/// same posts shapes agrees with the classifier that produced the
/// cursor: the two entry points share one outcome, differing only in
/// the recorded HTTP status of a hard failure.
pub proof fn lemma_next_page_reclassification(
    status: u16,
    body: Seq<char>,
    r1: Result<BasicPostsInfoResult, UnparseableResponse>,
    r2: Result<BasicPostsInfoResult, UnparseableResponse>,
)
    requires
        classified_posts(Some(status), body, r1),
        classified_posts(None, body, r2),
    ensures
        (r1 is Ok) == (r2 is Ok),
        match (r1, r2) {
            (Ok(a), Ok(b)) => a@ == b@,
            _ => true,
        },
{
}

/// Builds the JSON document of a page identity; reading it back yields
/// exactly the same value, witnessing that classification round-trips
/// the fields of a success body.
pub fn basic_page_info_to_json(p: &BasicPageInfo) -> (j: Json)
    ensures
        basic_page_info_of(j) == Some(p@),
{
    let mut fields: Vec<(String, Json)> = Vec::new();
    fields.push(("id".to_owned(), Json::Str(p.id.clone())));
    fields.push(("name".to_owned(), Json::Str(p.name.clone())));
    let ghost fs = fields@;
    let j = Json::Obj(fields);
    proof {
        reveal_strlit("id");
        reveal_strlit("name");
        assert(fs.len() == 2);
        assert(fs[0].0@ == "id"@);
        assert(fs[1].0@ == "name"@);
        assert(fs[0].0@ != "name"@);
        crate::json::lemma_lookup_at(fs, "id"@, 0);
        crate::json::lemma_lookup_at(fs, "name"@, 1);
    }
    j
}

} // verus!
