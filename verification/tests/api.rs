use strava::api::{request_url, Pagination};
use strava::auth::{
    deauthorize_request_body, login_request_body, refresh_request_body, AccessToken,
    RefreshToken,
};
use strava::config::Config;
use strava::numeric::to_decimal;

#[test]
fn pagination_default_is_thirty_per_page() {
    let p = Pagination::default();
    assert_eq!(p.before, 0);
    assert_eq!(p.after, 0);
    assert_eq!(p.page, 0);
    assert_eq!(p.per_page, 30);
}

#[test]
fn default_pagination_query_sends_per_page() {
    let p = Pagination {
        before: 0,
        after: 0,
        page: 0,
        per_page: 30,
    };
    assert_eq!(p.as_query(), vec![("per_page", 30u64)]);
}

#[test]
fn pagination_query_keeps_field_order() {
    let p = Pagination {
        before: 1000,
        after: 0,
        page: 2,
        per_page: 0,
    };
    assert_eq!(p.as_query(), vec![("before", 1000u64), ("page", 2u64)]);
}

#[test]
fn full_pagination_query_has_all_fields() {
    let p = Pagination {
        before: 7,
        after: 3,
        page: 1,
        per_page: 50,
    };
    assert_eq!(
        p.as_query(),
        vec![("before", 7u64), ("after", 3u64), ("page", 1u64), ("per_page", 50u64)]
    );
}

#[test]
fn all_sentinel_pagination_query_is_empty() {
    let p = Pagination {
        before: 0,
        after: 0,
        page: 0,
        per_page: 0,
    };
    assert_eq!(p.as_query(), vec![]);
}

#[test]
fn request_url_appends_path() {
    let url = request_url("https://www.strava.com/api/v3", "/athlete");
    assert_eq!(url, "https://www.strava.com/api/v3/athlete");
}

#[test]
fn decimal_rendering_is_exact() {
    assert_eq!(to_decimal(0), "0");
    assert_eq!(to_decimal(30), "30");
    assert_eq!(to_decimal(1234567890), "1234567890");
    assert_eq!(to_decimal(u64::MAX), "18446744073709551615");
}

fn test_config() -> Config {
    Config {
        client_id: 1234,
        client_secret: "topsecret".to_string(),
    }
}

#[test]
fn login_body_pairs_in_order() {
    let body = login_request_body("authcode", &test_config());
    assert_eq!(body.len(), 4);
    assert_eq!(body[0], ("client_id".to_string(), "1234".to_string()));
    assert_eq!(body[1].0, "client_secret");
    assert_eq!(body[1].1, "topsecret");
    assert_eq!(body[2], ("code".to_string(), "authcode".to_string()));
    assert_eq!(
        body[3],
        ("grant_type".to_string(), "authorization_code".to_string())
    );
}

#[test]
fn refresh_body_pairs_in_order() {
    let token = RefreshToken("eggspam".to_string());
    let body = refresh_request_body(&token, &test_config());
    assert_eq!(body.len(), 4);
    assert_eq!(body[0], ("client_id".to_string(), "1234".to_string()));
    assert_eq!(body[1].0, "client_secret");
    assert_eq!(body[2], ("refresh_token".to_string(), "eggspam".to_string()));
    assert_eq!(
        body[3],
        ("grant_type".to_string(), "refresh_token".to_string())
    );
}

#[test]
fn deauthorize_body_names_the_token() {
    let token = AccessToken("foobar".to_string());
    let body = deauthorize_request_body(&token);
    assert_eq!(body, vec![("access_token".to_string(), "foobar".to_string())]);
}
