use meta_stats::facebook::{
    classify_page_engagement_response, classify_page_info_response, classify_posts_response,
    parse_next_results_to_basic_posts_info, basic_page_info_to_json, parse_basic_page_info,
    BasicPageInfo,
};
use meta_stats::json::{parse_json, Json};
use meta_stats::meta::{meta_error_to_json, parse_meta_error, MetaError, MetaErrorData, ParseFault};

const PAGE_BODY: &str = "{\"id\":\"123\",\"name\":\"Acme\"}";
const ERROR_BODY: &str = "{\"error\":{\"message\":\"Invalid token\",\"type\":\"OAuthException\",\"code\":190,\"fbtrace_id\":\"abc\",\"is_transient\":false}}";
const POSTS_BODY: &str = "{\"data\":[{\"id\":\"p1\",\"message\":\"hello\",\"created_time\":\"2024-01-01T00:00:00+0000\"},{\"id\":\"p2\",\"created_time\":\"2024-01-02T00:00:00+0000\",\"story\":\"shared a post\"}],\"paging\":{\"cursors\":{\"before\":\"b0\",\"after\":\"a0\"},\"next\":\"https://example.invalid/page2\"}}";

#[test]
fn page_info_success_round_trips_fields() {
    let r = classify_page_info_response(200, PAGE_BODY).unwrap();
    assert!(r.is_success());
    assert!(!r.is_error());
    let p = r.page_info().unwrap();
    assert_eq!(p.id, "123");
    assert_eq!(p.name, "Acme");
    assert!(r.get_error().is_none());
}

#[test]
fn page_info_omitted_fields_default_to_zero_values() {
    let r = classify_page_info_response(200, "{}").unwrap();
    let p = r.page_info().unwrap();
    assert_eq!(p.id, "");
    assert_eq!(p.name, "");
}

#[test]
fn error_envelope_classifies_as_failure_for_page_info() {
    let r = classify_page_info_response(400, ERROR_BODY).unwrap();
    assert!(r.is_error());
    let e = r.get_error().unwrap();
    assert_eq!(e.error.message, "Invalid token");
    assert_eq!(e.error.error_type, "OAuthException");
    assert_eq!(e.error.code, 190);
    assert_eq!(e.error.fbtrace_id, "abc");
    assert!(!e.error.is_transient);
}

#[test]
fn error_envelope_classifies_as_failure_for_posts() {
    let r = classify_posts_response(400, ERROR_BODY).unwrap();
    assert!(r.is_error());
    assert_eq!(r.get_error().unwrap().error.code, 190);
}

#[test]
fn error_envelope_classifies_as_failure_for_engagement() {
    let r = classify_page_engagement_response(400, ERROR_BODY).unwrap();
    assert!(r.is_error());
    assert_eq!(r.get_error().unwrap().error.code, 190);
}

#[test]
fn incomplete_error_envelope_falls_through_to_defaulted_success() {
    // The envelope requires all five fields; with only a message it is
    // not an error shape, and the page-info shape accepts any object.
    let r = classify_page_info_response(200, "{\"error\":{\"message\":\"x\"}}").unwrap();
    assert!(r.is_success());
    assert_eq!(r.page_info().unwrap().id, "");
}

#[test]
fn non_json_body_is_unparseable_with_preview() {
    let err = classify_page_info_response(502, "<html>Bad gateway</html>").unwrap_err();
    assert_eq!(err.status, Some(502));
    assert_eq!(err.fault, ParseFault::InvalidJson);
    assert_eq!(err.body_preview, "<html>Bad gateway</html>");
    assert!(!err.body_preview.is_empty());
}

#[test]
fn long_body_preview_is_bounded_at_200_chars() {
    let body = "x".repeat(300);
    let err = classify_page_info_response(500, &body).unwrap_err();
    assert_eq!(err.body_preview.chars().count(), 200);
    assert_eq!(err.body_preview, "x".repeat(200));
}

#[test]
fn wrong_shape_json_is_unparseable_shape_mismatch() {
    let err = classify_page_info_response(200, "[1,2,3]").unwrap_err();
    assert_eq!(err.fault, ParseFault::ShapeMismatch);
    assert_eq!(err.body_preview, "[1,2,3]");
}

#[test]
fn classification_is_idempotent() {
    let r1 = classify_page_info_response(200, PAGE_BODY);
    let r2 = classify_page_info_response(200, PAGE_BODY);
    assert_eq!(r1, r2);
    let e1 = classify_page_info_response(400, ERROR_BODY);
    let e2 = classify_page_info_response(400, ERROR_BODY);
    assert_eq!(e1, e2);
    let u1 = classify_page_info_response(500, "not json");
    let u2 = classify_page_info_response(500, "not json");
    assert_eq!(u1, u2);
}

#[test]
fn posts_success_keeps_order_and_optional_fields_unset() {
    let r = classify_posts_response(200, POSTS_BODY).unwrap();
    let p = r.posts_info().unwrap();
    assert_eq!(p.data.len(), 2);
    assert_eq!(p.data[0].id, "p1");
    assert_eq!(p.data[0].message.as_deref(), Some("hello"));
    assert!(p.data[0].story.is_none());
    assert!(p.data[0].likes.is_none());
    assert!(p.data[0].comments.is_none());
    assert_eq!(p.data[1].id, "p2");
    assert!(p.data[1].message.is_none());
    assert_eq!(p.data[1].story.as_deref(), Some("shared a post"));
    assert_eq!(p.paging.cursors.before, "b0");
    assert_eq!(p.paging.cursors.after, "a0");
    assert!(p.paging.has_next());
    assert_eq!(p.paging.next_url().unwrap(), "https://example.invalid/page2");
}

#[test]
fn posts_body_without_paging_is_shape_mismatch() {
    let err = classify_posts_response(200, "{\"data\":[]}").unwrap_err();
    assert_eq!(err.fault, ParseFault::ShapeMismatch);
}

#[test]
fn posts_body_without_data_is_shape_mismatch() {
    let body = "{\"paging\":{\"cursors\":{\"before\":\"b\",\"after\":\"a\"}}}";
    let err = classify_posts_response(200, body).unwrap_err();
    assert_eq!(err.fault, ParseFault::ShapeMismatch);
}

#[test]
fn next_page_body_reclassifies_to_posts_page() {
    let last_page = "{\"data\":[{\"id\":\"p3\",\"created_time\":\"t\"}],\"paging\":{\"cursors\":{\"before\":\"b1\",\"after\":\"a1\"}}}";
    let r = parse_next_results_to_basic_posts_info(last_page).unwrap();
    let p = r.posts_info().unwrap();
    assert_eq!(p.data[0].id, "p3");
    assert!(!p.paging.has_next());
    assert!(p.paging.next_url().is_none());
}

#[test]
fn next_page_unparseable_has_no_status() {
    let err = parse_next_results_to_basic_posts_info("garbage").unwrap_err();
    assert_eq!(err.status, None);
    assert_eq!(err.fault, ParseFault::InvalidJson);
}

#[test]
fn engagement_full_body_round_trips() {
    let body = "{\"category\":\"Software\",\"category_list\":[{\"id\":\"c1\",\"name\":\"Software\"},{\"id\":\"c2\",\"name\":\"Tech\"}],\"followers_count\":1234,\"fan_count\":1200,\"overall_star_rating\":4.5,\"rating_count\":77,\"talking_about_count\":-3,\"id\":\"123\"}";
    let r = classify_page_engagement_response(200, body).unwrap();
    let p = r.page_engagement().unwrap();
    assert_eq!(p.category, "Software");
    assert_eq!(p.category_list.len(), 2);
    assert_eq!(p.category_list[0].id, "c1");
    assert_eq!(p.category_list[1].name, "Tech");
    assert_eq!(p.followers_count, 1234);
    assert_eq!(p.fan_count, 1200);
    assert_eq!(p.overall_star_rating, "4.5");
    assert_eq!(p.rating_count, 77);
    assert_eq!(p.talking_about_count, -3);
    assert_eq!(p.id, "123");
}

#[test]
fn engagement_omitted_fields_take_zero_values() {
    let r = classify_page_engagement_response(200, "{\"id\":\"9\"}").unwrap();
    let p = r.page_engagement().unwrap();
    assert_eq!(p.category, "");
    assert!(p.category_list.is_empty());
    assert_eq!(p.followers_count, 0);
    assert_eq!(p.fan_count, 0);
    assert_eq!(p.overall_star_rating, "0");
    assert_eq!(p.rating_count, 0);
    assert_eq!(p.talking_about_count, 0);
}

#[test]
fn engagement_count_out_of_i32_range_is_shape_mismatch() {
    let err =
        classify_page_engagement_response(200, "{\"followers_count\":2147483648}").unwrap_err();
    assert_eq!(err.fault, ParseFault::ShapeMismatch);
    let ok = classify_page_engagement_response(200, "{\"followers_count\":2147483647}").unwrap();
    assert_eq!(ok.page_engagement().unwrap().followers_count, 2147483647);
    let min = classify_page_engagement_response(200, "{\"followers_count\":-2147483648}").unwrap();
    assert_eq!(min.page_engagement().unwrap().followers_count, -2147483648);
}

#[test]
fn engagement_whole_star_rating_keeps_its_text() {
    let r = classify_page_engagement_response(200, "{\"overall_star_rating\":4}").unwrap();
    assert_eq!(r.page_engagement().unwrap().overall_star_rating, "4");
}

#[test]
fn engagement_fractional_count_is_shape_mismatch() {
    let err = classify_page_engagement_response(200, "{\"followers_count\":4.5}").unwrap_err();
    assert_eq!(err.fault, ParseFault::ShapeMismatch);
}

#[test]
fn engagement_wrongly_typed_field_is_shape_mismatch() {
    let err = classify_page_engagement_response(200, "{\"category\":17}").unwrap_err();
    assert_eq!(err.fault, ParseFault::ShapeMismatch);
}

#[test]
fn posts_with_summaries_round_trip() {
    let body = "{\"data\":[{\"id\":\"p1\",\"created_time\":\"t\",\"likes\":{\"data\":[{\"id\":\"u1\"},{}],\"summary\":{\"total_count\":2,\"can_like\":true,\"has_liked\":false}},\"comments\":{\"data\":[{\"message\":\"nice\",\"created_time\":\"t2\"}],\"summary\":{\"order\":\"ranked\",\"total_count\":1,\"can_comment\":true}}}],\"paging\":{\"cursors\":{\"before\":\"b\",\"after\":\"a\"}}}";
    let r = classify_posts_response(200, body).unwrap();
    let p = r.posts_info().unwrap();
    let post = &p.data[0];
    let likes = post.likes.as_ref().unwrap();
    assert_eq!(likes.data.len(), 2);
    assert_eq!(likes.data[0].id.as_deref(), Some("u1"));
    assert!(likes.data[1].id.is_none());
    assert_eq!(likes.summary.total_count, 2);
    assert!(likes.summary.can_like);
    assert!(!likes.summary.has_liked);
    assert!(likes.paging.is_none());
    let comments = post.comments.as_ref().unwrap();
    assert_eq!(comments.data[0].message.as_deref(), Some("nice"));
    assert_eq!(comments.summary.order, "ranked");
    assert_eq!(comments.summary.total_count, 1);
    assert!(comments.summary.can_comment);
}

#[test]
fn likes_block_with_null_entry_is_shape_mismatch() {
    let body = "{\"data\":[{\"id\":\"p\",\"created_time\":\"t\",\"likes\":{\"data\":[null]}}],\"paging\":{\"cursors\":{\"before\":\"b\",\"after\":\"a\"}}}";
    let err = classify_posts_response(200, body).unwrap_err();
    assert_eq!(err.fault, ParseFault::ShapeMismatch);
}

#[test]
fn repr_reflects_the_tag() {
    let ok = classify_page_info_response(200, PAGE_BODY).unwrap();
    assert_eq!(ok.repr(), "BasicPageInfoResult(Success)");
    let failed = classify_page_info_response(400, ERROR_BODY).unwrap();
    assert_eq!(failed.repr(), "BasicPageInfoResult(Error)");
    let posts = classify_posts_response(400, ERROR_BODY).unwrap();
    assert_eq!(posts.repr(), "BasicPostsInfoResult(Error)");
    let engagement = classify_page_engagement_response(400, ERROR_BODY).unwrap();
    assert_eq!(engagement.repr(), "PageEngagementResult(Error)");
}

#[test]
fn page_info_builder_round_trips_through_the_parser() {
    let p = BasicPageInfo { id: "123".to_string(), name: "Acme".to_string() };
    let j = basic_page_info_to_json(&p);
    assert_eq!(parse_basic_page_info(&j), Some(p));
}

#[test]
fn error_builder_round_trips_through_the_parser() {
    let e = MetaError {
        error: MetaErrorData {
            message: "Invalid token".to_string(),
            error_type: "OAuthException".to_string(),
            code: -190,
            fbtrace_id: "abc".to_string(),
            is_transient: true,
        },
    };
    let j = meta_error_to_json(&e);
    assert_eq!(parse_meta_error(&j), Some(e));
}

#[test]
fn parse_json_models_the_document() {
    match parse_json("{\"a\":[1,true,null,\"s\",2.5]}") {
        Some(Json::Obj(fields)) => {
            assert_eq!(fields.len(), 1);
            assert_eq!(fields[0].0, "a");
            match &fields[0].1 {
                Json::Arr(items) => {
                    assert!(matches!(&items[0], Json::Num(t) if t == "1"));
                    assert!(matches!(items[1], Json::Bool(true)));
                    assert!(matches!(items[2], Json::Null));
                    assert!(matches!(&items[3], Json::Str(s) if s == "s"));
                    assert!(matches!(&items[4], Json::Num(t) if t == "2.5"));
                },
                other => panic!("expected an array, got {:?}", other),
            }
        },
        other => panic!("expected an object, got {:?}", other),
    }
    assert!(parse_json("{\"a\":").is_none());
}
