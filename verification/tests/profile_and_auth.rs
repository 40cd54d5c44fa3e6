use meta_stats::auth::{normalize_version, parse_access_token_response};
use meta_stats::instagram::{
    choose_app_id, choose_user_agent, classify_instagram_response, user_agents, app_ids,
};
use meta_stats::meta::ParseFault;

const PROFILE_BODY: &str = "{\"data\":{\"user\":{\"eimu_id\":\"e-1\",\"biography\":\"bio\",\"edge_followed_by\":{\"count\":42},\"full_name\":\"Acme Inc\",\"highlight_reel_count\":3,\"category_name\":\"Business\"}},\"status\":\"ok\"}";
const PROFILE_ERROR_BODY: &str = "{\"message\":\"login_required\",\"require_login\":true,\"igweb_rollout\":false,\"status\":\"fail\"}";

#[test]
fn version_without_prefix_gains_one() {
    assert_eq!(normalize_version("19.0"), "v19.0");
}

#[test]
fn version_with_prefix_is_unchanged() {
    assert_eq!(normalize_version("v19.0"), "v19.0");
    assert_eq!(normalize_version(&normalize_version("19.0")), "v19.0");
}

#[test]
fn empty_version_yields_bare_prefix() {
    assert_eq!(normalize_version(""), "v");
}

#[test]
fn marked_profile_body_classifies_as_success() {
    let r = classify_instagram_response(200, PROFILE_BODY).unwrap();
    assert!(r.is_success());
    let p = r.page_info().unwrap();
    assert_eq!(p.status, "ok");
    assert_eq!(p.data.user.eimu_id, "e-1");
    assert_eq!(p.data.user.biography, "bio");
    assert_eq!(p.data.user.edge_followed_by.count, 42);
    assert_eq!(p.data.user.full_name, "Acme Inc");
    assert_eq!(p.data.user.highlight_reel_count, 3);
    assert_eq!(p.data.user.category_name.as_deref(), Some("Business"));
    assert!(r.error_info().is_none());
}

#[test]
fn profile_omitted_fields_default_and_category_stays_unset() {
    let body = "{\"data\":{\"user\":{}},\"status\":\"ok\"}";
    let r = classify_instagram_response(200, body).unwrap();
    let p = r.page_info().unwrap();
    assert_eq!(p.data.user.eimu_id, "");
    assert_eq!(p.data.user.edge_followed_by.count, 0);
    assert!(p.data.user.category_name.is_none());
}

#[test]
fn unmarked_error_body_classifies_as_failure() {
    let r = classify_instagram_response(200, PROFILE_ERROR_BODY).unwrap();
    assert!(r.is_error());
    let e = r.error_info().unwrap();
    assert_eq!(e.message, "login_required");
    assert!(e.require_login);
    assert!(!e.igweb_rollout);
    assert_eq!(e.status, "fail");
}

#[test]
fn marker_is_a_literal_substring_not_a_parsed_field() {
    // With a space after the colon the marker is absent, so the body is
    // routed to the error shape, which it does not match.
    let body = "{\"data\":{\"user\":{}},\"status\": \"ok\"}";
    let err = classify_instagram_response(200, body).unwrap_err();
    assert_eq!(err.fault, ParseFault::ShapeMismatch);
}

#[test]
fn marked_body_that_fails_the_success_shape_is_unparseable() {
    let body = "{\"data\":17,\"status\":\"ok\"}";
    let err = classify_instagram_response(200, body).unwrap_err();
    assert_eq!(err.fault, ParseFault::ShapeMismatch);
}

#[test]
fn unmarked_body_matching_neither_shape_is_unparseable() {
    let err = classify_instagram_response(404, "{\"message\":\"nope\"}").unwrap_err();
    assert_eq!(err.status, Some(404));
    assert_eq!(err.fault, ParseFault::ShapeMismatch);
}

#[test]
fn profile_non_json_is_unparseable() {
    let err = classify_instagram_response(429, "please wait").unwrap_err();
    assert_eq!(err.fault, ParseFault::InvalidJson);
    assert_eq!(err.body_preview, "please wait");
}

#[test]
fn profile_classification_is_idempotent() {
    assert_eq!(
        classify_instagram_response(200, PROFILE_BODY),
        classify_instagram_response(200, PROFILE_BODY)
    );
    assert_eq!(
        classify_instagram_response(200, PROFILE_ERROR_BODY),
        classify_instagram_response(200, PROFILE_ERROR_BODY)
    );
}

#[test]
fn profile_repr_reflects_the_tag() {
    let ok = classify_instagram_response(200, PROFILE_BODY).unwrap();
    assert_eq!(ok.repr(), "InstagramPageInfoResult(Success)");
    let failed = classify_instagram_response(200, PROFILE_ERROR_BODY).unwrap();
    assert_eq!(failed.repr(), "InstagramPageInfoResult(Error)");
}

#[test]
fn chosen_user_agent_comes_from_the_pool() {
    let pool = user_agents();
    assert_eq!(pool.len(), 11);
    for _ in 0..32 {
        let ua = choose_user_agent();
        assert!(pool.contains(&ua));
    }
}

#[test]
fn chosen_app_id_comes_from_the_pool() {
    let pool = app_ids();
    assert_eq!(pool.len(), 5);
    for _ in 0..32 {
        let id = choose_app_id();
        assert!(pool.contains(&id));
    }
}

#[test]
fn access_token_body_parses() {
    let t = parse_access_token_response("{\"access_token\":\"tok-1\",\"token_type\":\"bearer\"}")
        .unwrap();
    assert_eq!(t.access_token, "tok-1");
}

#[test]
fn access_token_missing_or_bad_body_yields_none() {
    assert!(parse_access_token_response("{\"token_type\":\"bearer\"}").is_none());
    assert!(parse_access_token_response("not json").is_none());
    assert!(parse_access_token_response("{\"access_token\":17}").is_none());
}
