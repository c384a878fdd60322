use clipstash::ask;
use clipstash::clip::ClipError;
use clipstash::field::{Content, Hits, Password, Posted, Shortcode, Title};
use clipstash::service;
use clipstash::store::ClipStore;
use clipstash::time::Time;
use clipstash::ServiceError;

#[test]
fn content_of_only_whitespace_is_rejected() {
    assert_eq!(Content::new("").unwrap_err(), ClipError::EmptyContent);
    assert_eq!(Content::new("   \t\n  ").unwrap_err(), ClipError::EmptyContent);
}

#[test]
fn content_is_stored_verbatim() {
    let c = Content::new("  padded  ").expect("non-blank");
    assert_eq!(c.as_str(), "  padded  ");
    assert_eq!(c.into_inner(), "  padded  ".to_string());
}

#[test]
fn empty_password_means_no_password() {
    assert!(!Password::new(None).has_password());
    assert!(!Password::new(Some(String::new())).has_password());
    assert!(Password::new(Some("x".to_string())).has_password());
    assert_eq!(Password::new(Some(String::new())).into_inner(), None);
    assert_eq!(
        Password::new(Some("x".to_string())).into_inner(),
        Some("x".to_string())
    );
}

#[test]
fn title_accepts_anything_as_is() {
    assert_eq!(Title::new(None).into_inner(), None);
    assert_eq!(
        Title::new(Some(String::new())).into_inner(),
        Some(String::new())
    );
    assert_eq!(
        Title::new(Some("t".to_string())).into_inner(),
        Some("t".to_string())
    );
}

#[test]
fn shortcode_keeps_external_text_unvalidated() {
    let sc = Shortcode::from_str("not-a-code-at-all");
    assert_eq!(sc.as_str(), "not-a-code-at-all");
    assert_eq!(sc.into_inner(), "not-a-code-at-all".to_string());
}

#[test]
fn hits_and_posted_hand_back_their_values() {
    assert_eq!(Hits::new(42).into_inner(), 42);
    assert_eq!(Posted::new(Time::new(977)).into_inner().seconds(), 977);
}

#[test]
fn rfc3339_expiration_parses_to_the_exact_instant() {
    let mut store = ClipStore::new();
    let req = ask::NewClip {
        content: "dated".to_string(),
        title: None,
        expires: Some("2000-01-01T00:00:00Z".to_string()),
        password: None,
    };
    let clip = service::new_clip(&req, &mut store, Time::new(0)).expect("creation");
    assert_eq!(clip.expires.into_inner().unwrap().seconds(), 946_684_800);
}

#[test]
fn malformed_expiration_is_an_invalid_date() {
    let mut store = ClipStore::new();
    let req = ask::NewClip {
        content: "dated".to_string(),
        title: None,
        expires: Some("tomorrow-ish".to_string()),
        password: None,
    };
    assert_eq!(
        service::new_clip(&req, &mut store, Time::new(0)).unwrap_err(),
        ServiceError::Validation(ClipError::InvalidDate)
    );
}

#[test]
fn get_clip_request_from_raw_offers_no_password() {
    let req = ask::GetClip::from_raw("abcd1234ab");
    assert_eq!(req.shortcode.as_str(), "abcd1234ab");
    assert!(!req.password.has_password());
}
