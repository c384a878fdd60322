use clipstash::ask;
use clipstash::counter::{HitCounter, HitCounterMsg};
use clipstash::field::Shortcode;
use clipstash::service;
use clipstash::store::ClipStore;
use clipstash::time::Time;
use clipstash::ServiceError;

fn rfc3339_of(seconds: i64) -> String {
    chrono::DateTime::<chrono::Utc>::from_timestamp(seconds, 0)
        .expect("timestamp in range")
        .to_rfc3339()
}

fn create(store: &mut ClipStore, content: &str, now: Time) -> clipstash::Clip {
    let req = ask::NewClip {
        content: content.to_string(),
        title: None,
        expires: None,
        password: None,
    };
    service::new_clip(&req, store, now).expect("creation")
}

#[test]
fn generated_shortcodes_use_the_fixed_alphabet() {
    for _ in 0..50 {
        let code = Shortcode::new();
        let text = code.as_str();
        assert_eq!(text.len(), 10);
        assert!(text
            .chars()
            .all(|c| matches!(c, 'a' | 'b' | 'c' | 'd' | '1' | '2' | '3' | '4')));
    }
}

#[test]
fn round_trip_preserves_every_field_but_hits() {
    let mut store = ClipStore::new();
    let mut counter = HitCounter::new();
    let now = Time::new(1_000_000);
    let req = ask::NewClip {
        content: "body".to_string(),
        title: Some("a title".to_string()),
        expires: Some(rfc3339_of(2_000_000)),
        password: Some("pw".to_string()),
    };
    let clip = service::new_clip(&req, &mut store, now).expect("creation");

    counter.hit(&clip.shortcode, 3);
    counter.commit(&mut store);

    let get = ask::GetClip {
        shortcode: clip.shortcode.clone(),
        password: clipstash::field::Password::new(Some("pw".to_string())),
    };
    let got = service::get_clip(&get, &store, &mut counter, now).expect("lookup");
    assert_eq!(
        got.clip_id.into_inner().value(),
        clip.clip_id.into_inner().value()
    );
    assert_eq!(got.shortcode.as_str(), clip.shortcode.as_str());
    assert_eq!(got.content.as_str(), "body");
    assert_eq!(got.title.clone().into_inner(), Some("a title".to_string()));
    assert_eq!(got.posted.into_inner().seconds(), 1_000_000);
    assert_eq!(got.expires.into_inner().unwrap().seconds(), 2_000_000);
    assert_eq!(got.password.clone().into_inner(), Some("pw".to_string()));
    assert_eq!(got.hits.into_inner(), 3);
}

#[test]
fn hits_for_one_code_coalesce_into_one_commit() {
    let mut store = ClipStore::new();
    let counter = &mut HitCounter::new();
    let now = Time::new(0);
    let clip = create(&mut store, "coalesce", now);

    counter.hit(&clip.shortcode, 2);
    counter.hit(&clip.shortcode, 3);
    counter.hit(&clip.shortcode, 0);
    counter.commit(&mut store);

    let req = ask::GetClip::from_raw(clip.shortcode.as_str());
    let got = service::get_clip(&req, &store, counter, now).expect("lookup");
    assert_eq!(got.hits.into_inner(), 5);
}

#[test]
fn interleaved_producers_lose_no_hits() {
    let mut store = ClipStore::new();
    let mut counter = HitCounter::new();
    let now = Time::new(0);
    let first = create(&mut store, "first", now);
    let second = create(&mut store, "second", now);

    // Four producers, twenty-five unit hits each for the first code,
    // interleaved with traffic for the second.
    for round in 0..25 {
        for _producer in 0..4 {
            counter.hit(&first.shortcode, 1);
        }
        if round % 2 == 0 {
            counter.hit(&second.shortcode, 1);
        }
    }
    counter.commit(&mut store);

    let got_first = service::get_clip(
        &ask::GetClip::from_raw(first.shortcode.as_str()),
        &store,
        &mut counter,
        now,
    )
    .expect("lookup");
    assert_eq!(got_first.hits.into_inner(), 100);

    let got_second = service::get_clip(
        &ask::GetClip::from_raw(second.shortcode.as_str()),
        &store,
        &mut counter,
        now,
    )
    .expect("lookup");
    assert_eq!(got_second.hits.into_inner(), 13);
}

#[test]
fn commit_leaves_the_pending_map_empty() {
    let mut store = ClipStore::new();
    let mut counter = HitCounter::new();
    let now = Time::new(0);
    let clip = create(&mut store, "emptied", now);

    counter.hit(&clip.shortcode, 4);
    counter.commit(&mut store);
    // A second commit with nothing pending must not move the count.
    counter.commit(&mut store);

    let req = ask::GetClip::from_raw(clip.shortcode.as_str());
    let got = service::get_clip(&req, &store, &mut counter, now).expect("lookup");
    assert_eq!(got.hits.into_inner(), 4);
}

#[test]
fn hits_for_a_deleted_code_are_dropped_silently() {
    let mut store = ClipStore::new();
    let mut counter = HitCounter::new();
    let now = Time::new(100);
    let survivor = create(&mut store, "kept", now);
    counter.hit(&survivor.shortcode, 2);
    counter.hit(&Shortcode::from_str("absent9999"), 6);
    counter.commit(&mut store);

    let got = service::get_clip(
        &ask::GetClip::from_raw(survivor.shortcode.as_str()),
        &store,
        &mut counter,
        now,
    )
    .expect("lookup");
    assert_eq!(got.hits.into_inner(), 2);
}

#[test]
fn the_worker_protocol_records_and_commits_messages() {
    let mut store = ClipStore::new();
    let mut counter = HitCounter::new();
    let now = Time::new(0);
    let clip = create(&mut store, "messaged", now);

    counter.process_msg(HitCounterMsg::Hit(clip.shortcode.clone(), 5), &mut store);
    counter.process_msg(HitCounterMsg::Hit(clip.shortcode.clone(), 2), &mut store);
    counter.process_msg(HitCounterMsg::Commit, &mut store);

    let req = ask::GetClip::from_shortcode(clip.shortcode.clone());
    let got = service::get_clip(&req, &store, &mut counter, now).expect("lookup");
    assert_eq!(got.hits.into_inner(), 7);
}

#[test]
fn delete_expired_counts_exactly_the_expired_clips() {
    let mut store = ClipStore::new();
    let now = Time::new(10_000);

    let mk = |store: &mut ClipStore, expires: Option<i64>| {
        let req = ask::NewClip {
            content: "clip".to_string(),
            title: None,
            expires: expires.map(rfc3339_of),
            password: None,
        };
        service::new_clip(&req, store, now).expect("creation")
    };
    let _gone_a = mk(&mut store, Some(9_000));
    let _gone_b = mk(&mut store, Some(9_999));
    let fresh = mk(&mut store, Some(10_000));
    let eternal = mk(&mut store, None);

    assert_eq!(store.len(), 4);
    assert_eq!(service::delete_expired(&mut store, now), 2);
    assert_eq!(store.len(), 2);
    // Deleting again removes nothing.
    assert_eq!(service::delete_expired(&mut store, now), 0);

    let mut counter = HitCounter::new();
    assert!(service::get_clip(
        &ask::GetClip::from_raw(fresh.shortcode.as_str()),
        &store,
        &mut counter,
        now
    )
    .is_ok());
    assert!(service::get_clip(
        &ask::GetClip::from_raw(eternal.shortcode.as_str()),
        &store,
        &mut counter,
        now
    )
    .is_ok());
}

#[test]
fn update_with_unknown_shortcode_is_not_found() {
    let mut store = ClipStore::new();
    let now = Time::new(0);
    let req = ask::UpdateClip {
        shortcode: "aaaaaaaaaa".to_string(),
        content: "text".to_string(),
        title: None,
        expires: None,
        password: None,
    };
    assert_eq!(
        service::update_clip(&req, &mut store, now).unwrap_err(),
        ServiceError::NotFound
    );
}

#[test]
fn update_can_set_a_password_on_an_open_clip() {
    let mut store = ClipStore::new();
    let mut counter = HitCounter::new();
    let now = Time::new(0);
    let clip = create(&mut store, "open", now);

    let req = ask::UpdateClip {
        shortcode: clip.shortcode.as_str().to_string(),
        content: "locked now".to_string(),
        title: None,
        expires: None,
        password: Some("new-pass".to_string()),
    };
    let updated = service::update_clip(&req, &mut store, now).expect("update");
    assert_eq!(updated.password.clone().into_inner(), Some("new-pass".to_string()));

    assert_eq!(
        service::get_clip(
            &ask::GetClip::from_raw(clip.shortcode.as_str()),
            &store,
            &mut counter,
            now
        )
        .unwrap_err(),
        ServiceError::PermissionDenied
    );
}

#[test]
fn maintenance_tick_sweeps_expired_clips() {
    let mut store = ClipStore::new();
    let now = Time::new(500);
    let req = ask::NewClip {
        content: "short-lived".to_string(),
        title: None,
        expires: Some(rfc3339_of(400)),
        password: None,
    };
    service::new_clip(&req, &mut store, now).expect("creation");

    let sweeper = clipstash::maintenance::Maintenance::new();
    assert_eq!(sweeper.tick(&mut store, now), 1);
    assert_eq!(store.len(), 0);
}
