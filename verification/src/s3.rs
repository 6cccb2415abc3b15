//! Object-storage settings and the addresses that uploads go to.

use vstd::prelude::*;
use vstd::string::*;

use crate::types::s3::{S3Config, S3ConfigView, UploadFileData};

verus! {

/// No object-storage settings were made yet.
#[derive(Clone, Copy, Debug, PartialEq, Eq, Structural)]
pub struct NotConfigured;

/// Model of the settings slot.
pub open spec fn slot_view(slot: Option<S3Config>) -> Option<S3ConfigView> {
    match slot {
        Some(c) => Some(c@),
        None => None,
    }
}

/// `s` without the slashes at its end.
pub open spec fn without_trailing_slashes(s: Seq<char>) -> Seq<char>
    decreases s.len(),
{
    if s.len() > 0 && s.last() == '/' {
        without_trailing_slashes(s.drop_last())
    } else {
        s
    }
}

/// The address of the bucket: under the configured endpoint where there is
/// one, else the bucket's own host in its region.
pub open spec fn bucket_url(config: S3ConfigView) -> Seq<char> {
    match config.endpoint {
        Some(endpoint) => without_trailing_slashes(endpoint) + "/"@ + config.bucket_name,
        None => "https://"@ + config.bucket_name + ".s3."@ + config.region + ".amazonaws.com"@,
    }
}

/// The address of the object `filename` in the bucket.
pub open spec fn object_url(config: S3ConfigView, filename: Seq<char>) -> Seq<char> {
    bucket_url(config) + "/"@ + filename
}

/// Stores the settings, in place of earlier ones.
pub fn configure_s3(slot: &mut Option<S3Config>, config: S3Config) -> (r: bool)
    ensures
        r,
        slot_view(*final(slot)) == Some(config@),
{
    *slot = Some(config);
    true
}

/// Stores the settings, in place of earlier ones.
pub fn set_s3_config(slot: &mut Option<S3Config>, config: S3Config) -> (r: bool)
    ensures
        r,
        slot_view(*final(slot)) == Some(config@),
{
    configure_s3(slot, config)
}

/// The settings, if any were made.
pub fn get_s3_config(slot: &Option<S3Config>) -> (r: Option<S3Config>)
    ensures
        slot_view(r) == slot_view(*slot),
{
    match slot {
        Some(c) => Some(c.clone()),
        None => None,
    }
}

/// Whether settings were made.
pub fn get_s3_config_status(slot: &Option<S3Config>) -> (r: bool)
    ensures
        r == slot is Some,
{
    slot.is_some()
}

/// `s` without the slashes at its end.
pub fn trim_trailing_slashes(s: &str) -> (r: &str)
    ensures
        r@ == without_trailing_slashes(s@),
{
    let mut end: usize = s.unicode_len();
    assert(s@.subrange(0, end as int) =~= s@);
    while end > 0 && s.get_char(end - 1) == '/'
        invariant
            end <= s@.len(),
            without_trailing_slashes(s@) == without_trailing_slashes(s@.subrange(0, end as int)),
        decreases end,
    {
        proof {
            let cut = s@.subrange(0, end as int);
            assert(cut.last() == s@[end - 1]);
            assert(cut.drop_last() =~= s@.subrange(0, end - 1));
        }
        end = end - 1;
    }
    proof {
        let cut = s@.subrange(0, end as int);
        if end > 0 {
            assert(cut.last() == s@[end - 1]);
        }
    }
    s.substring_char(0, end)
}

/// The address that the file `file_data` is uploaded to. The session does
/// not enter into it.
pub fn generate_upload_url(
    slot: &Option<S3Config>,
    _session_id: &String,
    file_data: &UploadFileData,
) -> (r: Result<String, NotConfigured>)
    ensures
        match slot_view(*slot) {
            Some(config) => r is Ok && r->Ok_0@ == object_url(config, file_data.filename@),
            None => r is Err,
        },
{
    let config = match slot {
        None => {
            return Err(NotConfigured);
        },
        Some(c) => c,
    };
    let mut url = match &config.endpoint {
        Some(endpoint) => {
            let mut base = String::from_str(trim_trailing_slashes(endpoint.as_str()));
            base.append("/");
            base.append(config.bucket_name.as_str());
            base
        },
        None => {
            let mut base = String::from_str("https://");
            base.append(config.bucket_name.as_str());
            base.append(".s3.");
            base.append(config.region.as_str());
            base.append(".amazonaws.com");
            base
        },
    };
    url.append("/");
    url.append(file_data.filename.as_str());
    Ok(url)
}

} // verus!
