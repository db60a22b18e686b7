use anything_engine::files::{
    access_type_of, build_file_metadata, download_url_decision, public_url_for,
    stored_object_key, upload_storage_key, DownloadUrl, FileAccessType, FileMetadata,
};

fn s(x: &str) -> String {
    x.to_string()
}

#[test]
fn filing_access_levels() {
    assert_eq!(access_type_of(&s("private")), FileAccessType::Private);
    assert_eq!(access_type_of(&s("public")), FileAccessType::Public);
    assert_eq!(access_type_of(&s("anything else")), FileAccessType::Public);
}

#[test]
fn filing_storage_keys() {
    assert_eq!(upload_storage_key(&s("acct-1"), &s("photo.png")), "acct-1/photo.png");
    assert_eq!(stored_object_key(&s("file-9"), &s("photo.png")), "file-9_photo.png");
    assert_eq!(public_url_for(&s("https://cdn.example.test"), &s("k")), "https://cdn.example.test/k");
}

#[test]
fn filing_public_upload_gets_cdn_url() {
    let m = build_file_metadata(
        &s("file-9"),
        &s("photo.png"),
        1234,
        &s("image/png"),
        &s("acct-1"),
        false,
        &s("https://cdn.example.test"),
    );
    assert_eq!(m.file_id, "file-9");
    assert_eq!(m.file_name, "photo.png");
    assert_eq!(m.file_size, 1234);
    assert_eq!(m.content_type, "image/png");
    assert_eq!(m.account_id, "acct-1");
    assert_eq!(m.path, None);
    assert_eq!(m.public_url, Some(s("https://cdn.example.test/acct-1/photo.png")));
    assert_eq!(m.access_type, FileAccessType::Public);
}

#[test]
fn filing_private_upload_has_no_public_url() {
    let m = build_file_metadata(
        &s("file-9"),
        &s("doc.pdf"),
        10,
        &s("application/pdf"),
        &s("acct-1"),
        true,
        &s("https://cdn.example.test"),
    );
    assert_eq!(m.public_url, None);
    assert_eq!(m.access_type, FileAccessType::Private);
}

#[test]
fn filing_download_uses_stored_public_url() {
    let m = FileMetadata {
        file_id: s("file-9"),
        file_name: s("photo.png"),
        file_size: 1,
        content_type: s("image/png"),
        account_id: s("acct-1"),
        path: None,
        public_url: Some(s("https://cdn.example.test/acct-1/photo.png")),
        access_type: FileAccessType::Public,
    };
    match download_url_decision(&m) {
        DownloadUrl::Public(u) => assert_eq!(u, "https://cdn.example.test/acct-1/photo.png"),
        DownloadUrl::Presign(_) => panic!("public files are served from the CDN"),
    }
}

#[test]
fn filing_download_presigns_private_files() {
    let m = FileMetadata {
        file_id: s("file-9"),
        file_name: s("doc.pdf"),
        file_size: 1,
        content_type: s("application/pdf"),
        account_id: s("acct-1"),
        path: None,
        public_url: None,
        access_type: FileAccessType::Private,
    };
    match download_url_decision(&m) {
        DownloadUrl::Presign(k) => assert_eq!(k, "file-9_doc.pdf"),
        DownloadUrl::Public(_) => panic!("private files need a signed URL"),
    }
}
