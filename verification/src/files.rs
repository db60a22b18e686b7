//! File attachment records and the decisions behind the file
//! endpoints: storage keys, public URLs, access levels, and how a
//! download URL is served. The object store and the database live with
//! the host.

use vstd::prelude::*;
use vstd::string::StringExecFns;

verus! {

/// How a stored file may be accessed.
#[derive(Clone, Copy, PartialEq, Eq, Structural, Debug)]
pub enum FileAccessType {
    /// Requires a signed URL.
    Private,
    /// Always accessible through the CDN.
    Public,
}

/// The metadata row stored beside an uploaded file.
pub struct FileMetadata {
    pub file_id: String,
    pub file_name: String,
    pub file_size: i64,
    pub content_type: String,
    pub account_id: String,
    pub path: Option<String>,
    pub public_url: Option<String>,
    pub access_type: FileAccessType,
}

/// What a file query answers with.
pub struct FileResponse {
    pub file_id: String,
    pub file_name: String,
    pub content_type: String,
    pub size: i64,
    pub url: String,
    pub base64: Option<String>,
}

/// The access level named in an upload request path: `private` means
/// private, anything else public.
pub fn access_type_of(access: &String) -> (r: FileAccessType)
    ensures
        r == (if access@ == "private"@ {
            FileAccessType::Private
        } else {
            FileAccessType::Public
        }),
{
    if *access == "private".to_owned() {
        FileAccessType::Private
    } else {
        FileAccessType::Public
    }
}

/// The object key under which an upload is stored:
/// `{account_id}/{file_name}`.
pub fn upload_storage_key(account_id: &String, file_name: &String) -> (r: String)
    ensures
        r@ == account_id@ + "/"@ + file_name@,
{
    account_id.clone().concat("/").concat(file_name.as_str())
}

/// The object key under which a stored file is addressed later:
/// `{file_id}_{file_name}`.
pub fn stored_object_key(file_id: &String, file_name: &String) -> (r: String)
    ensures
        r@ == file_id@ + "_"@ + file_name@,
{
    file_id.clone().concat("_").concat(file_name.as_str())
}

/// The CDN URL of a public object: `{cdn_domain}/{key}`.
pub fn public_url_for(cdn_domain: &String, key: &String) -> (r: String)
    ensures
        r@ == cdn_domain@ + "/"@ + key@,
{
    cdn_domain.clone().concat("/").concat(key.as_str())
}

/// The metadata row for a fresh upload: a public file carries its CDN
/// URL; a private one carries none and is served by signed URLs.
pub fn build_file_metadata(
    file_id: &String,
    file_name: &String,
    file_size: i64,
    content_type: &String,
    account_id: &String,
    is_private: bool,
    cdn_domain: &String,
) -> (r: FileMetadata)
    ensures
        r.file_id@ == file_id@,
        r.file_name@ == file_name@,
        r.file_size == file_size,
        r.content_type@ == content_type@,
        r.account_id@ == account_id@,
        r.path is None,
        (match r.public_url {
            Some(u) => !is_private && u@ == cdn_domain@ + "/"@ + (account_id@ + "/"@ + file_name@),
            None => is_private,
        }),
        r.access_type == (if is_private {
            FileAccessType::Private
        } else {
            FileAccessType::Public
        }),
{
    let key = upload_storage_key(account_id, file_name);
    FileMetadata {
        file_id: file_id.clone(),
        file_name: file_name.clone(),
        file_size,
        content_type: content_type.clone(),
        account_id: account_id.clone(),
        path: None,
        public_url: if !is_private {
            Some(public_url_for(cdn_domain, &key))
        } else {
            None
        },
        access_type: if is_private {
            FileAccessType::Private
        } else {
            FileAccessType::Public
        },
    }
}

/// How a download URL is served.
pub enum DownloadUrl {
    /// A public file: answer with its CDN URL as stored.
    Public(String),
    /// A private file: the host signs a URL for this object key.
    Presign(String),
}

/// Decide how to serve a file's download URL: its stored public URL
/// when it has one, else a signed URL for its object key.
pub fn download_url_decision(meta: &FileMetadata) -> (r: DownloadUrl)
    ensures
        (match r {
            DownloadUrl::Public(u) => (match meta.public_url {
                Some(stored) => u@ == stored@,
                None => false,
            }),
            DownloadUrl::Presign(k) => meta.public_url is None && k@ == meta.file_id@ + "_"@
                + meta.file_name@,
        }),
{
    match &meta.public_url {
        Some(u) => DownloadUrl::Public(u.clone()),
        None => DownloadUrl::Presign(stored_object_key(&meta.file_id, &meta.file_name)),
    }
}

} // verus!
