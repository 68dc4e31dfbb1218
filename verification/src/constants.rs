//! Fixed values of the service.
use vstd::prelude::*;
use crate::text::str_eq;

verus! {

/// The issuer written into, and demanded of, every token.
pub const APP_NAME: &'static str = "photobomber-api";

/// Default upper bound on the size of one uploaded file, in bytes (6 MiB).
pub const DEFAULT_MAX_FILE_SIZE: u64 = 6291456;

/// The user id of the administrator.
pub const ADMIN_ID: i64 = 1;

/// The user id given to every public (non-admin) user.
pub const PUBLIC_ID: i64 = 0;

/// Number of images that can be upvoted for each uploaded image.
pub const UPVOTES_PER_UPLOAD: i8 = 3;

/// The whitelist of image extensions: `jpg`, `jpeg`, `png`, `gif`, `webp`.
pub open spec fn allowed_extension(ext: Seq<char>) -> bool {
    ||| ext == "jpg"@
    ||| ext == "jpeg"@
    ||| ext == "png"@
    ||| ext == "gif"@
    ||| ext == "webp"@
}

/// Whether an extension is on the whitelist of image extensions.
pub fn is_allowed_extension(ext: &str) -> (r: bool)
    ensures
        r == allowed_extension(ext@),
{
    str_eq(ext, "jpg") || str_eq(ext, "jpeg") || str_eq(ext, "png") || str_eq(ext, "gif")
        || str_eq(ext, "webp")
}

} // verus!
