use clipstash::ask;
use clipstash::clip::ClipError;
use clipstash::counter::HitCounter;
use clipstash::service;
use clipstash::store::ClipStore;
use clipstash::time::Time;
use clipstash::ServiceError;

fn rfc3339_of(seconds: i64) -> String {
    chrono::DateTime::<chrono::Utc>::from_timestamp(seconds, 0)
        .expect("timestamp in range")
        .to_rfc3339()
}

fn new_request(content: &str) -> ask::NewClip {
    ask::NewClip {
        content: content.to_string(),
        title: None,
        expires: None,
        password: None,
    }
}

#[test]
fn s1_new_clip_then_get_clip_round_trip() {
    let mut store = ClipStore::new();
    let mut counter = HitCounter::new();
    let now = Time::now();

    let clip = service::new_clip(&new_request("hello"), &mut store, now).expect("creation");
    assert_eq!(clip.content.as_str(), "hello");
    assert_eq!(clip.hits.into_inner(), 0);
    assert_eq!(clip.posted.into_inner().seconds(), now.seconds());
    assert_eq!(clip.shortcode.as_str().len(), 10);
    assert!(clip.title.clone().into_inner().is_none());
    assert!(clip.expires.into_inner().is_none());
    assert!(clip.password.clone().into_inner().is_none());

    let req = ask::GetClip::from_raw(clip.shortcode.as_str());
    let got = service::get_clip(&req, &store, &mut counter, now).expect("lookup");
    assert_eq!(got.shortcode.as_str(), clip.shortcode.as_str());
    assert_eq!(got.content.as_str(), "hello");
    assert_eq!(got.posted.into_inner().seconds(), now.seconds());
    assert_eq!(got.hits.into_inner(), 0);
    assert_eq!(
        got.clip_id.into_inner().value(),
        clip.clip_id.into_inner().value()
    );
}

#[test]
fn s2_password_protected_clip_gating() {
    let mut store = ClipStore::new();
    let mut counter = HitCounter::new();
    let now = Time::now();

    let req = ask::NewClip {
        content: "secret".to_string(),
        title: None,
        expires: None,
        password: Some("swordfish".to_string()),
    };
    let clip = service::new_clip(&req, &mut store, now).expect("creation");

    let bare = ask::GetClip::from_raw(clip.shortcode.as_str());
    assert_eq!(
        service::get_clip(&bare, &store, &mut counter, now).unwrap_err(),
        ServiceError::PermissionDenied
    );

    let opened = ask::GetClip {
        shortcode: clip.shortcode.clone(),
        password: clipstash::field::Password::new(Some("swordfish".to_string())),
    };
    let got = service::get_clip(&opened, &store, &mut counter, now).expect("lookup");
    assert_eq!(got.content.as_str(), "secret");
}

#[test]
fn s3_expired_clip_is_not_found_and_gets_swept() {
    let mut store = ClipStore::new();
    let mut counter = HitCounter::new();
    let now = Time::now();

    let req = ask::NewClip {
        content: "c".to_string(),
        title: None,
        expires: Some(rfc3339_of(now.seconds() - 1)),
        password: None,
    };
    let clip = service::new_clip(&req, &mut store, now).expect("creation");
    assert_eq!(clip.expires.into_inner().unwrap().seconds(), now.seconds() - 1);

    let get = ask::GetClip::from_raw(clip.shortcode.as_str());
    assert_eq!(
        service::get_clip(&get, &store, &mut counter, now).unwrap_err(),
        ServiceError::NotFound
    );

    assert_eq!(service::delete_expired(&mut store, now), 1);
    assert_eq!(store.len(), 0);
}

#[test]
fn s4_one_hundred_hits_commit_to_the_store() {
    let mut store = ClipStore::new();
    let mut counter = HitCounter::new();
    let now = Time::now();

    let clip = service::new_clip(&new_request("x"), &mut store, now).expect("creation");
    for _ in 0..100 {
        counter.hit(&clip.shortcode, 1);
    }
    counter.commit(&mut store);

    let req = ask::GetClip::from_raw(clip.shortcode.as_str());
    let got = service::get_clip(&req, &store, &mut counter, now).expect("lookup");
    assert_eq!(got.hits.into_inner(), 100);
}

#[test]
fn s5_empty_content_is_rejected() {
    let mut store = ClipStore::new();
    let now = Time::now();
    assert_eq!(
        service::new_clip(&new_request(""), &mut store, now).unwrap_err(),
        ServiceError::Validation(ClipError::EmptyContent)
    );
}

#[test]
fn s6_update_gated_by_password_and_preserves_hits_and_posted() {
    let mut store = ClipStore::new();
    let mut counter = HitCounter::new();
    let now = Time::now();

    let req = ask::NewClip {
        content: "first text".to_string(),
        title: None,
        expires: None,
        password: Some("letmein".to_string()),
    };
    let clip = service::new_clip(&req, &mut store, now).expect("creation");
    counter.hit(&clip.shortcode, 7);
    counter.commit(&mut store);

    let wrong = ask::UpdateClip {
        shortcode: clip.shortcode.as_str().to_string(),
        content: "x2".to_string(),
        title: None,
        expires: None,
        password: Some("wrong".to_string()),
    };
    assert_eq!(
        service::update_clip(&wrong, &mut store, now).unwrap_err(),
        ServiceError::PermissionDenied
    );

    let right = ask::UpdateClip {
        shortcode: clip.shortcode.as_str().to_string(),
        content: "x2".to_string(),
        title: None,
        expires: None,
        password: Some("letmein".to_string()),
    };
    let updated = service::update_clip(&right, &mut store, now).expect("update");
    assert_eq!(updated.content.as_str(), "x2");
    assert_eq!(updated.hits.into_inner(), 7);
    assert_eq!(updated.posted.into_inner().seconds(), now.seconds());

    let opened = ask::GetClip {
        shortcode: clip.shortcode.clone(),
        password: clipstash::field::Password::new(Some("letmein".to_string())),
    };
    let got = service::get_clip(&opened, &store, &mut counter, now).expect("lookup");
    assert_eq!(got.content.as_str(), "x2");
    assert_eq!(got.hits.into_inner(), 7);
    assert_eq!(got.posted.into_inner().seconds(), now.seconds());
}
