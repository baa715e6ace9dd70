use lansend::user::{get_default_user_name_from_ua, join_display_name, User};

const CHROME_WINDOWS: &str = "Mozilla/5.0 (Windows NT 10.0; Win64; x64) AppleWebKit/537.36 (KHTML, like Gecko) Chrome/120.0.0.0 Safari/537.36";

#[test]
fn new_user_named_after_id_prefix() {
    let u = User::new();
    assert_eq!(u.id.chars().count(), 16);
    assert_eq!(u.user_name, u.id[0..3].to_string());
}

#[test]
fn user_with_id() {
    let u = User::with_id("abcdef".to_string());
    assert_eq!(u.user_name, "abc");
}

#[test]
fn update_keeps_id() {
    let mut u = User { id: "id1".to_string(), user_name: "old".to_string() };
    u.update(User { id: "other".to_string(), user_name: "new".to_string() });
    assert_eq!(u.id, "id1");
    assert_eq!(u.user_name, "new");
}

#[test]
fn join_display_name_adds_space() {
    assert_eq!(join_display_name("Linux", "Firefox"), "Linux Firefox");
}

#[test]
fn windows_is_shortened() {
    assert_eq!(get_default_user_name_from_ua(CHROME_WINDOWS), Some("Win 10 Chrome".to_string()));
}

#[test]
fn session_user_kept_or_created() {
    let stored = User { id: "id1".to_string(), user_name: "Me".to_string() };
    let (u, created) = User::from_session(Some(stored), CHROME_WINDOWS);
    assert_eq!(u.id, "id1");
    assert!(!created);
    let (u, created) = User::from_session(None, CHROME_WINDOWS);
    assert!(created);
    assert_eq!(u.id.chars().count(), 16);
    assert_eq!(u.user_name, "Win 10 Chrome");
}
