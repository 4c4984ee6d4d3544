use koro_api::error::AppError;
use koro_api::auth::{token_claims, user_id_from_headers, TokenType};
use koro_api::uploads::content_type_for_filename;
use koro_api::issue_key::{display_key, parse_issue_key};
use koro_api::numbers::parse_i32_str;
use koro_api::paging::{limit_or_default, more_after, offset_or_default};
use koro_api::slug::{candidate_slug, slugify_workflow_name};
use koro_api::text::{blank, byte_len, has_suffix, str_eq, trim_str};
use koro_api::health::health_response;

#[test]
fn parse_issue_key_splits_at_first_hyphen() {
    assert_eq!(parse_issue_key("PROJ-123"), Some(("PROJ", 123)));
    assert_eq!(parse_issue_key("AB-1"), Some(("AB", 1)));
    assert_eq!(parse_issue_key("P--5"), Some(("P", -5)));
    assert_eq!(parse_issue_key("-7"), Some(("", 7)));
}

#[test]
fn parse_issue_key_rejects_non_keys() {
    assert_eq!(parse_issue_key("PROJ"), None);
    assert_eq!(parse_issue_key("PROJ-"), None);
    assert_eq!(parse_issue_key("PROJ-abc"), None);
    assert_eq!(parse_issue_key("A-B-1"), None);
    assert_eq!(parse_issue_key("X-99999999999"), None);
}

#[test]
fn display_key_joins_with_hyphen() {
    assert_eq!(display_key("PROJ", 7), "PROJ-7");
    assert_eq!(display_key("X", -3), "X--3");
    assert_eq!(display_key("KORO", 2147483647), "KORO-2147483647");
}

#[test]
fn display_key_reads_back() {
    for (k, n) in [("PROJ", 1), ("AB", 42), ("Z", -8), ("Q", i32::MIN)] {
        let key = display_key(k, n);
        assert_eq!(parse_issue_key(&key), Some((k, n)));
    }
}

#[test]
fn parse_i32_follows_rust() {
    assert_eq!(parse_i32_str("42"), Some(42));
    assert_eq!(parse_i32_str("+42"), Some(42));
    assert_eq!(parse_i32_str("-2147483648"), Some(i32::MIN));
    assert_eq!(parse_i32_str("2147483648"), None);
    assert_eq!(parse_i32_str(""), None);
    assert_eq!(parse_i32_str("-"), None);
    assert_eq!(parse_i32_str("1 "), None);
}

#[test]
fn candidate_slugs_count_in_u32() {
    assert_eq!(candidate_slug("todo", 2147483648), "todo_2147483648");
    assert_eq!(candidate_slug("todo", u32::MAX), "todo_4294967295");
}

#[test]
fn slugs_hold_no_ascii_capitals() {
    for name in ["AÄ", "ÀBC Def", "ΣΑΣ X", "MiXeD_Case-42"] {
        let s = slugify_workflow_name(name);
        assert!(!s.chars().any(|c| c.is_ascii_uppercase()), "{s}");
    }
    assert_eq!(slugify_workflow_name("AÄ"), "aä");
}

#[test]
fn clean_slugs_are_kept() {
    for slug in ["backlog", "todo", "in_progress", "done", "canceled", "qa2", "a_b_c"] {
        assert_eq!(slugify_workflow_name(slug), slug);
    }
}

#[test]
fn slugify_examples() {
    assert_eq!(slugify_workflow_name("In Progress"), "in_progress");
    assert_eq!(slugify_workflow_name("  Done!! "), "done");
    assert_eq!(slugify_workflow_name(""), "status");
    assert_eq!(slugify_workflow_name("!!!"), "status");
    assert_eq!(slugify_workflow_name("A  B"), "a_b");
    assert_eq!(slugify_workflow_name("a   b"), "a__b");
    assert_eq!(slugify_workflow_name("Über Straße"), "über_straße");
}

#[test]
fn slug_never_starts_or_ends_with_underscore() {
    for name in ["_x_", " hello ", "--", "Q&A", "a_", "_"] {
        let s = slugify_workflow_name(name);
        assert!(!s.is_empty());
        assert!(!s.starts_with('_'));
        assert!(!s.ends_with('_'));
    }
}

#[test]
fn candidate_slugs_number_the_base() {
    assert_eq!(candidate_slug("todo", 0), "todo");
    assert_eq!(candidate_slug("todo", 1), "todo_1");
    assert_eq!(candidate_slug("todo", 12), "todo_12");
    assert_ne!(candidate_slug("todo", 1), candidate_slug("todo", 2));
}

#[test]
fn text_helpers() {
    assert_eq!(trim_str("  a b \t\n"), "a b");
    assert_eq!(trim_str("\u{3000}x\u{a0}"), "x");
    assert!(blank(" \t "));
    assert!(!blank(" x "));
    assert_eq!(byte_len("é"), 2);
    assert!(has_suffix("photo.PNG", ".PNG"));
    assert!(!has_suffix("png", ".png"));
    assert!(str_eq("abc", "abc"));
    assert!(!str_eq("abc", "abd"));
    assert_eq!(content_type_for_filename("PHOTO.PNG"), "image/png");
    assert_eq!(content_type_for_filename("Ä.JPEG"), "image/jpeg");
}

#[test]
fn paging_defaults_and_bounds() {
    assert_eq!(limit_or_default(None, 1, 100), 50);
    assert_eq!(limit_or_default(Some(0), 1, 100), 1);
    assert_eq!(limit_or_default(Some(500), 1, 100), 100);
    assert_eq!(limit_or_default(Some(7), 1, 100), 7);
    assert_eq!(offset_or_default(None), 0);
    assert_eq!(offset_or_default(Some(-3)), 0);
    assert_eq!(offset_or_default(Some(30)), 30);
    assert!(more_after(0, 10, 11));
    assert!(!more_after(10, 1, 11));
}

#[test]
fn errors_map_to_status_and_body() {
    assert_eq!(AppError::NotFound.status_code(), 404);
    assert_eq!(AppError::Conflict(Some("email already registered")).status_code(), 409);
    assert_eq!(AppError::Conflict(Some("email already registered")).body(), Some("email already registered"));
    assert_eq!(AppError::BadRequest(None).status_code(), 400);
    assert_eq!(AppError::BadRequest(None).body(), None);
    assert_eq!(AppError::Forbidden.status_code(), 403);
    assert_eq!(AppError::Internal.status_code(), 500);
    assert_eq!(AppError::InternalMessage("issues still on status").status_code(), 500);
    assert_eq!(AppError::InternalMessage("issues still on status").body(), Some("issues still on status"));
    assert_eq!(AppError::ServiceUnavailable(None).status_code(), 503);
    assert_eq!(AppError::Unauthorized.status_code(), 401);
    assert_eq!(AppError::PayloadTooLarge(Some("File too large")).status_code(), 413);
    assert_eq!(AppError::Gone.status_code(), 410);
    assert_eq!(AppError::Gone.body(), None);
}

#[test]
fn uuid_text_round_trip() {
    let id: u128 = 0xa1a2a3a4b1b2c1c2d1d2d3d4d5d6d7d8;
    let s = token_claims(id, 0, TokenType::Access).sub;
    assert_eq!(s, "a1a2a3a4-b1b2-c1c2-d1d2-d3d4d5d6d7d8");
    assert_eq!(user_id_from_headers(Some(&s)), Ok(id));
    assert!(user_id_from_headers(Some("not-a-uuid")).is_err());
    assert_eq!(user_id_from_headers(Some("A1A2A3A4B1B2C1C2D1D2D3D4D5D6D7D8")), Ok(id));
}

#[test]
fn health_reports_database_state() {
    let (code, body) = health_response(true);
    assert_eq!(code, 200);
    assert_eq!(body.status, "ok");
    let (code, body) = health_response(false);
    assert_eq!(code, 503);
    assert_eq!(body.status, "db_down");
}
