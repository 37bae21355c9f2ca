use magnesium::admin::{add_key, key_added_reply, key_removed_reply, remove_key};
use magnesium::keys::{
    check_key, format_key, generate_key, key_candidate, key_taken, new_key, time_component, Key,
    KeyGenStep, LookupOutcome, KEY_EPOCH,
};
use magnesium::reply::{Reply, ReplyBody};

fn error_of(r: &Reply) -> (u16, String) {
    match &r.body {
        ReplyBody::Error(e) => (r.status, e.clone()),
        _ => panic!("not an error reply"),
    }
}

fn message_of(r: &Reply) -> (u16, String) {
    match &r.body {
        ReplyBody::Message(m) => (r.status, m.clone()),
        _ => panic!("not a message reply"),
    }
}

#[test]
fn api_keys_need_a_found_record() {
    assert!(check_key(LookupOutcome::Found));
    assert!(!check_key(LookupOutcome::NotFound));
    assert!(!check_key(LookupOutcome::Failed));
}

#[test]
fn new_keys_avoid_found_and_unknown() {
    assert!(key_taken(LookupOutcome::Found));
    assert!(!key_taken(LookupOutcome::NotFound));
    assert!(key_taken(LookupOutcome::Failed));
    for outcome in [LookupOutcome::Found, LookupOutcome::NotFound, LookupOutcome::Failed] {
        assert!(!check_key(outcome) || key_taken(outcome));
    }
}

#[test]
fn generation_steps() {
    match generate_key("key_1_a".to_string(), LookupOutcome::NotFound) {
        KeyGenStep::Accept(k) => assert_eq!(k, "key_1_a"),
        KeyGenStep::Retry => panic!("free key refused"),
    }
    assert!(matches!(generate_key("k".to_string(), LookupOutcome::Found), KeyGenStep::Retry));
    assert!(matches!(generate_key("k".to_string(), LookupOutcome::Failed), KeyGenStep::Retry));
}

#[test]
fn key_time_parts() {
    assert_eq!(KEY_EPOCH, 1609459200);
    assert_eq!(time_component(1609459200), 0);
    assert_eq!(time_component(1609459300), 100);
    assert_eq!(time_component(1700000000), 90540800);
    assert_eq!(time_component(0), -1609459200);
    // the clock's seconds are cut to 32 bits first
    assert_eq!(time_component((1u64 << 32) + 1609459205), 5);
}

#[test]
fn key_text_layout() {
    assert_eq!(format_key(90540800, "AbC123"), "key_90540800_AbC123");
    assert_eq!(format_key(-7, "x"), "key_-7_x");
}

#[test]
fn candidates_have_time_and_random_part() {
    let a = key_candidate(1609459300);
    assert!(a.starts_with("key_100_"));
    let random = &a["key_100_".len()..];
    assert_eq!(random.len(), 20);
    assert!(random.chars().all(|c| c.is_ascii_alphanumeric()));
    let b = key_candidate(1609459300);
    assert_ne!(a, b);
}

#[test]
fn records_are_stamped_in_utc() {
    let k = new_key("key_1_x".to_string(), "alice".to_string());
    assert_eq!(k.key, "key_1_x");
    assert_eq!(k.username, "alice");
    assert!(k.added_at.ends_with(" UTC"));
    let stamp = &k.added_at[..k.added_at.len() - 4];
    let (date, time) = stamp.split_once(' ').unwrap();
    let d = date.as_bytes();
    assert_eq!(d.len(), 10);
    assert!(d[4] == b'-' && d[7] == b'-');
    assert!([0, 1, 2, 3, 5, 6, 8, 9].iter().all(|&i| d[i].is_ascii_digit()));
    let t = time.as_bytes();
    assert!([8, 12, 15, 18].contains(&t.len()));
    assert!(t[2] == b':' && t[5] == b':');
    assert!([0, 1, 3, 4, 6, 7].iter().all(|&i| t[i].is_ascii_digit()));
    if t.len() > 8 {
        assert_eq!(t[8], b'.');
        assert!(t[9..].iter().all(|c| c.is_ascii_digit()));
    }
    assert!(k.added_at.len() >= 23);
    let copy = k.clone();
    assert!(copy == k);
    let other = Key { key: "key_1_x".to_string(), username: "bob".to_string(), added_at: k.added_at.clone() };
    assert!(other != k);
}

#[test]
fn adding_refused_when_admin_off() {
    let r = add_key(false, "s3cret", Some(b"s3cret"), Some(b"alice")).unwrap_err();
    assert_eq!(error_of(&r), (423, "Admin endpoints are disabled.".to_string()));
}

#[test]
fn adding_needs_admin_header() {
    let r = add_key(true, "s3cret", None, Some(b"alice")).unwrap_err();
    assert_eq!(error_of(&r), (400, "The header 'ADMIN_KEY' is missing.".to_string()));
    let r = add_key(true, "s3cret", Some(&[0x80]), Some(b"alice")).unwrap_err();
    assert_eq!(error_of(&r), (400, "Invalid admin key format.".to_string()));
    let r = add_key(true, "s3cret", Some(b"wrong"), Some(b"alice")).unwrap_err();
    assert_eq!(error_of(&r), (401, "Invalid admin key.".to_string()));
}

#[test]
fn adding_needs_name_header() {
    let r = add_key(true, "s3cret", Some(b"s3cret"), None).unwrap_err();
    assert_eq!(error_of(&r), (400, "The header 'NAME' is missing.".to_string()));
    let r = add_key(true, "s3cret", Some(b"s3cret"), Some(&[0x01])).unwrap_err();
    assert_eq!(error_of(&r), (400, "Invalid name format.".to_string()));
    assert_eq!(add_key(true, "s3cret", Some(b"s3cret"), Some(b"alice")).unwrap(), "alice");
}

#[test]
fn added_key_replies() {
    let r = key_added_reply(Ok(()), "key_1_x", "alice");
    assert_eq!(r.status, 200);
    match r.body {
        ReplyBody::KeyAdded { message, key, username } => {
            assert_eq!(message, "Key added");
            assert_eq!(key, "key_1_x");
            assert_eq!(username, "alice");
        },
        _ => panic!("wrong body"),
    }
    let r = key_added_reply(Err("connection refused".to_string()), "k", "u");
    assert_eq!(error_of(&r), (500, "connection refused".to_string()));
}

#[test]
fn removing_refused_when_admin_off() {
    let r = remove_key(false, "s3cret", Some(b"s3cret"), Some(b"key_1")).unwrap_err();
    assert_eq!(error_of(&r), (423, "Admin endpoints are disabled.".to_string()));
}

#[test]
fn removing_checks_admin_key_and_target() {
    let r = remove_key(true, "s3cret", None, Some(b"key_1")).unwrap_err();
    assert_eq!(error_of(&r), (401, "Invalid admin key.".to_string()));
    let r = remove_key(true, "s3cret", Some(b"nope"), Some(b"key_1")).unwrap_err();
    assert_eq!(error_of(&r), (401, "Invalid admin key.".to_string()));
    let r = remove_key(true, "s3cret", Some(b"s3cret"), None).unwrap_err();
    assert_eq!(error_of(&r), (400, "The header 'KEY_TO_REMOVE' is missing or invalid.".to_string()));
    let r = remove_key(true, "s3cret", Some(b"s3cret"), Some(&[0xff])).unwrap_err();
    assert_eq!(error_of(&r), (400, "The header 'KEY_TO_REMOVE' is missing or invalid.".to_string()));
    assert_eq!(remove_key(true, "s3cret", Some(b"s3cret"), Some(b"key_1")).unwrap(), "key_1");
    // the ADMIN_KEY header is needed, even when the configured key is empty
    let r = remove_key(true, "", None, Some(b"key_1")).unwrap_err();
    assert_eq!(error_of(&r), (401, "Invalid admin key.".to_string()));
    let r = remove_key(true, "", Some(&[0x80]), Some(b"key_1")).unwrap_err();
    assert_eq!(error_of(&r), (401, "Invalid admin key.".to_string()));
    assert_eq!(remove_key(true, "", Some(b""), Some(b"key_1")).unwrap(), "key_1");
    let r = remove_key(true, "s3cret", Some(&[0x80]), Some(b"key_1")).unwrap_err();
    assert_eq!(error_of(&r), (401, "Invalid admin key.".to_string()));
}

#[test]
fn removal_replies() {
    assert_eq!(message_of(&key_removed_reply(Ok(1))), (200, "Key removed successfully.".to_string()));
    assert_eq!(message_of(&key_removed_reply(Ok(3))), (200, "Key removed successfully.".to_string()));
    assert_eq!(error_of(&key_removed_reply(Ok(0))), (404, "Key not found.".to_string()));
    assert_eq!(error_of(&key_removed_reply(Err("boom".to_string()))), (500, "boom".to_string()));
}
