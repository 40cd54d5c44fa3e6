use meta_stats::facebook::{
    basic_posts_info_to_json, page_engagement_to_json, parse_basic_posts_info,
    parse_page_engagement, BasicCommentsInfo, BasicLikesInfo, BasicPostsInfo, CommentInfo,
    CommentSummary, LikeInfo, LikeSummary, PageCategory, PageEngagement, PostInfo,
};
use meta_stats::instagram::{
    instagram_page_info_to_json, parse_instagram_page_info, FollowedBy, InstagramPageData,
    InstagramPageInfo, UserInfo,
};
use meta_stats::meta::{Cursor, Paging};

#[test]
fn engagement_builder_round_trips_through_the_parser() {
    let p = PageEngagement {
        category: "Software".to_string(),
        category_list: vec![
            PageCategory { id: "c1".to_string(), name: "Software".to_string() },
            PageCategory { id: "c2".to_string(), name: "Tech".to_string() },
        ],
        followers_count: -17,
        fan_count: 2147483647,
        overall_star_rating: "4.5".to_string(),
        rating_count: 0,
        talking_about_count: 3,
        id: "123".to_string(),
    };
    let j = page_engagement_to_json(&p);
    assert_eq!(parse_page_engagement(&j), Some(p));
}

#[test]
fn posts_builder_round_trips_through_the_parser() {
    let p = BasicPostsInfo {
        data: vec![
            PostInfo {
                id: "p1".to_string(),
                message: Some("hello".to_string()),
                created_time: "t1".to_string(),
                story: None,
                likes: Some(BasicLikesInfo {
                    data: vec![LikeInfo { id: Some("u1".to_string()) }, LikeInfo { id: None }],
                    paging: Some(Paging {
                        next: Some("https://example.invalid/likes2".to_string()),
                        cursors: Cursor { before: "lb".to_string(), after: "la".to_string() },
                    }),
                    summary: LikeSummary { total_count: 2, can_like: true, has_liked: false },
                }),
                comments: Some(BasicCommentsInfo {
                    data: vec![CommentInfo {
                        message: Some("nice".to_string()),
                        created_time: None,
                    }],
                    paging: None,
                    summary: CommentSummary {
                        order: "ranked".to_string(),
                        total_count: -1,
                        can_comment: true,
                    },
                }),
            },
            PostInfo {
                id: "p2".to_string(),
                message: None,
                created_time: "t2".to_string(),
                story: Some("shared a post".to_string()),
                likes: None,
                comments: None,
            },
        ],
        paging: Paging {
            next: None,
            cursors: Cursor { before: "b".to_string(), after: "a".to_string() },
        },
    };
    let j = basic_posts_info_to_json(&p);
    assert_eq!(parse_basic_posts_info(&j), Some(p));
}

#[test]
fn profile_builder_round_trips_through_the_parser() {
    let with_category = InstagramPageInfo {
        data: InstagramPageData {
            user: UserInfo {
                eimu_id: "e-1".to_string(),
                biography: "bio".to_string(),
                edge_followed_by: FollowedBy { count: 42 },
                full_name: "Acme Inc".to_string(),
                highlight_reel_count: 3,
                category_name: Some("Business".to_string()),
            },
        },
        status: "ok".to_string(),
    };
    let j = instagram_page_info_to_json(&with_category);
    assert_eq!(parse_instagram_page_info(&j), Some(with_category));

    let without_category = InstagramPageInfo {
        data: InstagramPageData {
            user: UserInfo {
                eimu_id: String::new(),
                biography: String::new(),
                edge_followed_by: FollowedBy { count: -1 },
                full_name: String::new(),
                highlight_reel_count: 0,
                category_name: None,
            },
        },
        status: "fail".to_string(),
    };
    let j = instagram_page_info_to_json(&without_category);
    assert_eq!(parse_instagram_page_info(&j), Some(without_category));
}
