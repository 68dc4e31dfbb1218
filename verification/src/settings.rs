//! Service settings read from the environment, and which browser origins may call the API.
use vstd::prelude::*;
use vstd::string::*;
use crate::constants::DEFAULT_MAX_FILE_SIZE;
use crate::numeric::{parse_u64, spec_parse_u64};
use crate::text::{is_prefix, starts_with, str_eq};

verus! {

/// The upload directory used when none is configured.
pub const DEFAULT_UPLOAD_DIR: &'static str = "./uploads";

/// The settings of the running service.
#[derive(Debug, Clone)]
pub struct AppState {
    /// Path to the upload directory.
    pub upload_dir: String,
    /// Max upload file size (bytes).
    pub max_file_size: u64,
}

/// The configured maximum file size, where it parses; the default otherwise.
pub open spec fn spec_max_file_size(configured: Option<&str>) -> u64 {
    match configured {
        Some(s) => match spec_parse_u64(s@) {
            Some(v) => v,
            None => DEFAULT_MAX_FILE_SIZE,
        },
        None => DEFAULT_MAX_FILE_SIZE,
    }
}

impl AppState {
    /// Settings from their configured values: the upload directory (`./uploads` by default)
    /// and the maximum file size in bytes (6 MiB where none is configured or it does not
    /// parse).
    pub fn from_settings(upload_dir: Option<String>, max_file_size: Option<&str>) -> (r: AppState)
        ensures
            r.upload_dir@ == match upload_dir {
                Some(d) => d@,
                None => DEFAULT_UPLOAD_DIR@,
            },
            r.max_file_size == spec_max_file_size(max_file_size),
    {
        let dir = match upload_dir {
            Some(d) => d,
            None => String::from_str(DEFAULT_UPLOAD_DIR),
        };
        let size = match max_file_size {
            Some(s) => match parse_u64(s) {
                Some(v) => v,
                None => DEFAULT_MAX_FILE_SIZE,
            },
            None => DEFAULT_MAX_FILE_SIZE,
        };
        AppState { upload_dir: dir, max_file_size: size }
    }
}

/// Which origins may call the API: local development origins (`http://localhost`,
/// `http://127.0.0.1`, `http://[::1]`, with any port or path), the production site, or any
/// origin when `PHOTOBOMBER_CORS_ALLOW_ALL` is `true`.
pub open spec fn spec_origin_allowed(origin: Seq<char>, allow_all: Option<&str>) -> bool {
    ||| is_prefix("http://localhost"@, origin)
    ||| is_prefix("http://127.0.0.1"@, origin)
    ||| is_prefix("http://[::1]"@, origin)
    ||| origin == "https://photobomber.servebeer.com"@
    ||| (allow_all is Some && allow_all->0@ == "true"@)
}

/// Decides whether a browser origin may call the API.
pub fn cors_origin_allowed(origin: &str, allow_all: Option<&str>) -> (r: bool)
    ensures
        r == spec_origin_allowed(origin@, allow_all),
{
    let allow_everything = match allow_all {
        Some(v) => str_eq(v, "true"),
        None => false,
    };
    starts_with(origin, "http://localhost") || starts_with(origin, "http://127.0.0.1") || starts_with(
        origin,
        "http://[::1]",
    ) || str_eq(origin, "https://photobomber.servebeer.com") || allow_everything
}

} // verus!
