//! The error taxonomy's outward mapping, the validation-error grouping,
//! the cookie header, and the rendered pages.

use div176::error::{DbError, Error};
use div176::guard::{auth_cookie_header, AUTH_COOKIE};
use div176::pages::{fallback_404, login_page, BottomNav, Layout, TopNav, BOTTOM_NAV, LAYOUT_HEAD,
    LAYOUT_TAIL, LOGIN_BODY, MAIN_OPEN, NOT_FOUND_BODY, PAGE_CLOSE, TOP_NAV};

#[test]
fn status_codes_match_taxonomy() {
    assert_eq!(Error::Unauthorized.status_code(), 401);
    assert_eq!(Error::Forbidden.status_code(), 403);
    assert_eq!(Error::NotFound.status_code(), 404);
    assert_eq!(Error::UnprocessableEntity { errors: Vec::new() }.status_code(), 422);
    assert_eq!(Error::Database(DbError::Unreachable).status_code(), 500);
    assert_eq!(Error::Database(DbError::UniqueViolation).status_code(), 500);
    assert_eq!(Error::Internal.status_code(), 500);
}

#[test]
fn unprocessable_entity_groups_by_field() {
    let input = vec![
        (String::from("username"), String::from("must not be empty")),
        (String::from("password"), String::from("too short")),
        (String::from("username"), String::from("contains spaces")),
    ];
    match Error::unprocessable_entity(input) {
        Error::UnprocessableEntity { errors } => {
            assert_eq!(errors.len(), 2);
            assert_eq!(errors[0].0, "username");
            assert_eq!(errors[0].1, vec!["must not be empty", "contains spaces"]);
            assert_eq!(errors[1].0, "password");
            assert_eq!(errors[1].1, vec!["too short"]);
        }
        other => panic!("expected field errors, got {:?}", other),
    }
}

#[test]
fn unprocessable_entity_empty_input() {
    match Error::unprocessable_entity(Vec::new()) {
        Error::UnprocessableEntity { errors } => assert!(errors.is_empty()),
        other => panic!("expected field errors, got {:?}", other),
    }
}

#[test]
fn cookie_header_carries_the_token() {
    assert_eq!(AUTH_COOKIE, "authorization");
    assert_eq!(auth_cookie_header("abc123"), "authorization=abc123");
    assert_eq!(auth_cookie_header(""), "authorization=");
}

#[test]
fn layout_wraps_body_in_chrome() {
    let page = Layout("<p>hello</p>");
    let expected = format!(
        "{}{}{}{}{}{}{}",
        LAYOUT_HEAD, TOP_NAV, MAIN_OPEN, "<p>hello</p>", LAYOUT_TAIL, BOTTOM_NAV, PAGE_CLOSE
    );
    assert_eq!(page, expected);
}

#[test]
fn nav_components_render_their_markup() {
    assert_eq!(TopNav(), TOP_NAV);
    assert_eq!(BottomNav(), BOTTOM_NAV);
    assert!(TopNav().contains("St. John Ambulance"));
    assert!(BottomNav().contains("Account"));
}

#[test]
fn login_page_is_layout_around_form() {
    let page = login_page();
    assert_eq!(
        page,
        format!(
            "{}{}{}{}{}{}{}",
            LAYOUT_HEAD, TOP_NAV, MAIN_OPEN, LOGIN_BODY, LAYOUT_TAIL, BOTTOM_NAV, PAGE_CLOSE
        )
    );
    assert!(page.contains("Volunteer Login"));
    assert!(page.contains("hx-post=\"/login\""));
}

#[test]
fn fallback_is_404_page() {
    let (status, page) = fallback_404();
    assert_eq!(status, 404);
    assert!(page.contains("Page Not Found"));
    assert!(page.contains(NOT_FOUND_BODY));
}
