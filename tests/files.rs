use lansend::controllers::UploadQuery;
use lansend::file::{has_prefix, is_usable_key, DataDir, UserFile};
use lansend::ip::{IpFamily, NetInterface};
use lansend::response::ResponseErrorCode;
use lansend::utils::{get_now_mils, truncate_millis};

#[test]
fn data_dir_layout() {
    let d = DataDir::new("/tmp/lansend".to_string());
    assert_eq!(d.key_path(), "/tmp/lansend/KEY");
    assert_eq!(d.db_path(), "/tmp/lansend/db-path");
    assert_eq!(d.files_dir(), "/tmp/lansend/files");
    assert_eq!(d.path(), "/tmp/lansend");
}

#[test]
fn user_file_path_and_type() {
    let mut f = UserFile::new("u1".to_string());
    assert_eq!(f.id.chars().count(), 21);
    assert_eq!(f.size, 0);
    assert_eq!(f.file_path_in("/data/files"), format!("/data/files/{}", f.id));
    f.name = "photo.png".to_string();
    assert_eq!(f.mime(), "image/png");
    assert_eq!(f.content_type(), Some("image/png".to_string()));
    f.name = "page.html".to_string();
    assert_eq!(f.content_type(), None);
    f.name = "blob".to_string();
    assert_eq!(f.content_type(), Some("application/octet-stream".to_string()));
}

#[test]
fn prefix_check() {
    assert!(has_prefix("text/html; charset=utf-8", "text/html"));
    assert!(!has_prefix("text/plain", "text/html"));
    assert!(!has_prefix("text", "text/html"));
    assert!(has_prefix("abc", ""));
}

#[test]
fn key_length_rule() {
    assert!(is_usable_key(&vec![0u8; 64]));
    assert!(!is_usable_key(&vec![0u8; 63]));
}

#[test]
fn millis_are_cut_to_32_bits() {
    assert_eq!(truncate_millis((1u128 << 32) + 5), 5);
    assert_eq!(truncate_millis(123), 123);
    let _ = get_now_mils();
}

#[test]
fn small_types() {
    let n = NetInterface::new("eth0".to_string(), true, "10.0.0.2".to_string());
    assert_eq!(n.family, IpFamily::IPV4);
    assert_eq!(NetInterface::new("eth0".to_string(), false, "::1".to_string()).family, IpFamily::IPV6);
    assert_eq!(ResponseErrorCode::default(), ResponseErrorCode::Internal);
    let q = UploadQuery { filename: "a.txt".to_string() };
    assert_eq!(q.filename, "a.txt");
}
