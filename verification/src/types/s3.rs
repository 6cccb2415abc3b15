//! Object-storage settings and upload descriptions.

use vstd::prelude::*;
use vstd::string::*;

use crate::text::clone_optional_text;

verus! {

/// A file that a caller is about to upload.
#[derive(Debug, PartialEq, Eq)]
pub struct UploadFileData {
    pub filename: String,
    pub content_type: String,
    pub file_size: u64,
}

/// Where uploads go.
#[derive(Debug, PartialEq, Eq)]
pub struct S3Config {
    pub bucket_name: String,
    pub region: String,
    pub access_key_id: String,
    pub secret_access_key: String,
    pub endpoint: Option<String>,
}

/// Model of [`S3Config`].
pub struct S3ConfigView {
    pub bucket_name: Seq<char>,
    pub region: Seq<char>,
    pub access_key_id: Seq<char>,
    pub secret_access_key: Seq<char>,
    pub endpoint: Option<Seq<char>>,
}

impl View for S3Config {
    type V = S3ConfigView;

    open spec fn view(&self) -> S3ConfigView {
        S3ConfigView {
            bucket_name: self.bucket_name@,
            region: self.region@,
            access_key_id: self.access_key_id@,
            secret_access_key: self.secret_access_key@,
            endpoint: self.endpoint.deep_view(),
        }
    }
}

impl Clone for S3Config {
    fn clone(&self) -> (r: S3Config)
        ensures
            r@ == self@,
    {
        S3Config {
            bucket_name: self.bucket_name.clone(),
            region: self.region.clone(),
            access_key_id: self.access_key_id.clone(),
            secret_access_key: self.secret_access_key.clone(),
            endpoint: clone_optional_text(&self.endpoint),
        }
    }
}

} // verus!
