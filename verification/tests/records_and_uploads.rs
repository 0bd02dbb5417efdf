use krfx::extractors::{UserId, UserRecord, UserType};
use krfx::records::{
    delete_access, delete_status, deletion_key, link_response, new_link_record, owner_access,
    record_lookup_key, short_link, DeleteAccess, LinkResponse, StoredRecord,
};
use krfx::uploads::{file_extension, upload_failure, upload_plan, uploaded_file_record, UploadError};
use krfx::errors::RecordRequestErrorType;

fn user(id: i64, is_admin: bool) -> UserRecord {
    UserRecord {
        id,
        username: "u".to_string(),
        display_name: "U".to_string(),
        password: "h".to_string(),
        is_admin,
    }
}

fn stored(url: &str, is_file: bool, owner_id: Option<i64>, mime: Option<&str>) -> StoredRecord {
    StoredRecord {
        id: 1,
        owner_id,
        name: "abc".to_string(),
        visible_name: "Abc".to_string(),
        url: url.to_string(),
        is_file,
        hash: None,
        mime_type: mime.map(|m| m.to_string()),
        is_temp: false,
    }
}

#[test]
fn user_type_from_request_user() {
    assert!(matches!(UserType::from_request_user(Some(Some(user(1, true)))), Ok(UserType::Admin(u)) if u.id == 1));
    assert!(matches!(UserType::from_request_user(Some(Some(user(2, false)))), Ok(UserType::User(u)) if u.id == 2));
    assert!(matches!(UserType::from_request_user(Some(None)), Ok(UserType::Anonymous)));
    let e = UserType::from_request_user(None).unwrap_err();
    assert_eq!(e.status, 500);
    assert_eq!(e.message, "Cannot parse user");
}

#[test]
fn user_id_from_request_user() {
    assert_eq!(UserId::from_request_user(Some(&Some(user(5, false)))).unwrap().0, Some(5));
    assert_eq!(UserId::from_request_user(Some(&None)).unwrap().0, None);
    assert_eq!(UserId::from_request_user(None).unwrap_err().message, "Cannot parse user");
}

#[test]
fn lookup_key_is_lowercase() {
    assert_eq!(record_lookup_key("MyLink"), "mylink");
}

#[test]
fn new_link_record_normalizes_url() {
    let r = new_link_record(Some(3), "MyLink".to_string(), "HTTP://Example.COM").unwrap();
    assert_eq!(r.owner_id, Some(3));
    assert_eq!(r.name, "mylink");
    assert_eq!(r.visible_name, "MyLink");
    assert_eq!(r.url, "http://example.com/");
    assert!(!r.is_file);
    assert_eq!(r.hash, None);
    assert_eq!(r.mime_type, None);
    // the record is found under the name it was created with
    assert_eq!(record_lookup_key("MyLink"), r.name);
}

#[test]
fn new_link_record_rejects_bad_url() {
    let e = new_link_record(None, "abc".to_string(), "not a url").unwrap_err();
    assert_eq!(e.error_type(), RecordRequestErrorType::Url);
    assert_eq!(e.to_string(), "Invalid URL");
}

#[test]
fn link_response_cases() {
    let e = link_response(None).unwrap_err();
    assert_eq!(e.status, 404);
    assert_eq!(e.message, "No record with this name was found");
    match link_response(Some(stored("https://example.com/", false, None, None))).unwrap() {
        LinkResponse::Redirect { location } => assert_eq!(location, "https://example.com/"),
        other => panic!("{:?}", other),
    }
    match link_response(Some(stored("https://cdn/x.png", true, None, Some("image/png")))).unwrap() {
        LinkResponse::Proxy { url, content_type } => {
            assert_eq!(url, "https://cdn/x.png");
            assert_eq!(content_type.as_deref(), Some("image/png"));
        }
        other => panic!("{:?}", other),
    }
}

#[test]
fn delete_access_by_user_type() {
    match delete_access(&UserType::Anonymous) {
        DeleteAccess::Denied(e) => {
            assert_eq!(e.status, 401);
            assert_eq!(e.message, "Unauthorized");
        }
        other => panic!("{:?}", other),
    }
    assert!(matches!(delete_access(&UserType::Admin(user(1, true))), DeleteAccess::Granted));
    assert!(matches!(delete_access(&UserType::User(user(9, false))), DeleteAccess::CheckOwner(9)));
}

#[test]
fn owner_access_cases() {
    assert!(owner_access(9, Some(Some(9))).is_ok());
    let e = owner_access(9, Some(Some(8))).unwrap_err();
    assert_eq!((e.status, e.message.as_str()), (403, "This is not your record"));
    let e = owner_access(9, Some(None)).unwrap_err();
    assert_eq!((e.status, e.message.as_str()), (403, "Record is anonymous"));
    let e = owner_access(9, None).unwrap_err();
    assert_eq!((e.status, e.message.as_str()), (404, "Record not found"));
}

#[test]
fn deletion_key_cases() {
    let e = deletion_key(None).unwrap_err();
    assert_eq!((e.status, e.message.as_str()), (404, "Record not found"));
    assert_eq!(deletion_key(Some(stored("https://example.com/a", false, None, None))).unwrap(), None);
    assert_eq!(
        deletion_key(Some(stored("https://cdn.example/files/abc.png", true, None, None))).unwrap(),
        Some("abc.png".to_string())
    );
    assert_eq!(
        deletion_key(Some(stored("https://cdn.example", true, None, None))).unwrap(),
        Some(String::new())
    );
    let e = deletion_key(Some(stored("mailto:someone@example.com", true, None, None))).unwrap_err();
    assert_eq!((e.status, e.message.as_str()), (500, "Wrong file URL"));
    let e = deletion_key(Some(stored("no scheme", true, None, None))).unwrap_err();
    assert_eq!(e.status, 500);
    assert_eq!(e.message, url::Url::parse("no scheme").unwrap_err().to_string());
}

#[test]
fn delete_status_cases() {
    assert_eq!(delete_status(0), 304);
    assert_eq!(delete_status(1), 200);
    assert_eq!(delete_status(7), 200);
}

#[test]
fn file_extension_cases() {
    assert_eq!(file_extension(Some("photo.PNG".to_string())), "PNG");
    assert_eq!(file_extension(Some("a.tar.gz".to_string())), "gz");
    assert_eq!(file_extension(Some("README".to_string())), "README");
    assert_eq!(file_extension(Some("trailing.".to_string())), "");
    assert_eq!(file_extension(Some(String::new())), "");
    assert_eq!(file_extension(None), "txt");
    for name in ["x.y.z", ".hidden", "no_dot", "ü.ñ", "a..b"] {
        let expected = name.split(".").last().unwrap();
        assert_eq!(file_extension(Some(name.to_string())), expected);
    }
}

#[test]
fn upload_plan_of_empty_file() {
    let p = upload_plan("Foo", Some("pic.PNG".to_string()), None, b"");
    assert_eq!(p.key, "foo.PNG");
    assert_eq!(p.extension, "PNG");
    assert_eq!(p.content_type, "application/octet-stream");
    assert_eq!(p.hash, "d41d8cd98f00b204e9800998ecf8427e");
    assert_eq!(p.content_md5, "1B2M2Y8AsgTpgAmY7PhCfg==");
}

#[test]
fn upload_plan_of_some_file() {
    let p = upload_plan("abc", None, Some("text/plain".to_string()), b"hello world");
    assert_eq!(p.key, "abc.txt");
    assert_eq!(p.content_type, "text/plain");
    assert_eq!(p.hash, "5eb63bbbe01eeed093cb22bb8f5acdc3");
    assert_eq!(p.hash.len(), 32);
    assert_eq!(p.content_md5, "XrY7u+Ae7tCTyyK7j1rNww==");
}

#[test]
fn uploaded_file_record_joins_cdn_address() {
    let p = upload_plan("Foo", Some("pic.PNG".to_string()), Some("image/png".to_string()), b"x");
    let hash = p.hash.clone();
    let rec = uploaded_file_record("https://cdn.example/files/", "Foo", Some(4), p).unwrap();
    assert_eq!(rec.url, "https://cdn.example/files/Foo.png");
    assert_eq!(rec.name, "foo");
    assert_eq!(rec.visible_name, "Foo");
    assert_eq!(rec.owner_id, Some(4));
    assert!(rec.is_file);
    assert_eq!(rec.hash, Some(hash));
    assert_eq!(rec.mime_type.as_deref(), Some("image/png"));
}

#[test]
fn uploaded_file_record_with_bad_cdn() {
    let p = upload_plan("abc", None, None, b"x");
    assert!(matches!(uploaded_file_record("not a url", "abc", None, p), Err(UploadError::InvalidCdnUrl)));
}

#[test]
fn upload_failure_message() {
    let e = upload_failure("timeout");
    assert_eq!(e.status, 500);
    assert_eq!(e.message, "Unable to upload file\ntimeout");
}

#[test]
fn short_link_replaces_path_of_request_url() {
    assert_eq!(
        short_link("https://krfx.ru/api/record/create_link", "MyName").as_deref(),
        Some("https://krfx.ru/MyName")
    );
    let mut expected = url::Url::parse("http://localhost:4000/api/record/upload?x=1").unwrap();
    expected.set_path("a.b");
    assert_eq!(
        short_link("http://localhost:4000/api/record/upload?x=1", "a.b"),
        Some(expected.to_string())
    );
    assert_eq!(short_link("not a url", "abc"), None);
}

#[test]
fn object_key_and_address_agree_only_in_lowercase() {
    let p = upload_plan("foo", Some("pic.png".to_string()), None, b"x");
    let key = p.key.clone();
    let rec = uploaded_file_record("https://cdn.example/", "foo", None, p).unwrap();
    assert_eq!(key, "foo.png");
    assert!(rec.url.ends_with(&key));
    // with capitals the two part ways: the key lowercases the name, the address the extension
    let p = upload_plan("Foo", Some("pic.PNG".to_string()), None, b"x");
    let key = p.key.clone();
    let rec = uploaded_file_record("https://cdn.example/", "Foo", None, p).unwrap();
    assert_eq!(key, "foo.PNG");
    assert_eq!(rec.url, "https://cdn.example/Foo.png");
    assert!(!rec.url.ends_with(&key));
}
