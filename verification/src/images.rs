//! Images: which uploads are accepted and under what name they are stored, what an upload
//! batch answers, how a requested image is looked up, how stored images are counted and how
//! the leaderboard is queried.
use vstd::prelude::*;
use vstd::string::*;
use std::hash::Hasher;
use crate::constants::{allowed_extension, is_allowed_extension, UPVOTES_PER_UPLOAD};
use crate::numeric::{spec_u64_to_lower_hex, u64_to_lower_hex};
use crate::paths::{get_extension_from_filename, spec_path_extension};
use crate::text::{concat3, contains_char, contains_double_dot, has_char, has_infix, is_prefix, starts_with, str_eq};
use crate::upvote::upvote_cache_key;

verus! {

/// An image row of the database.
#[derive(Debug, Clone)]
pub struct DbImage {
    pub id: i32,
    pub filename: String,
    pub is_public: bool,
    pub karma: i32,
    pub created_at: String,
}

/// What the upload of one image answers.
#[derive(Debug, Clone)]
pub struct ImageUploadResponse {
    pub file_id: String,
    pub file_name: String,
    pub is_public: bool,
    /// Whether the image was not yet stored (kept out of the serialized answer).
    pub _is_new: bool,
}

/// The answer to the count endpoint.
#[derive(Debug, Clone, Copy)]
pub struct ImageCountResponse {
    pub count: u64,
}

/// The order of the leaderboard.
#[derive(Debug, Clone, Copy, PartialEq, Eq)]
pub enum LeaderboardOrder {
    Karma,
    Time,
}

/// The query parameters of the leaderboard endpoint.
#[derive(Debug, Clone, Copy)]
pub struct GetLeaderboardQueryParams {
    pub order_by: Option<LeaderboardOrder>,
    pub ascending: Option<bool>,
}

/// The file extension used for an image of the given MIME subtype.
pub open spec fn spec_extension_from_mime(subtype: Seq<char>) -> Seq<char> {
    if subtype == "jpeg"@ {
        "jpg"@
    } else if subtype == "png"@ {
        "png"@
    } else if subtype == "gif"@ {
        "gif"@
    } else if subtype == "bmp"@ {
        "bmp"@
    } else if subtype == "webp"@ {
        "webp"@
    } else {
        "jpg"@
    }
}

/// Map MIME subtype to file extension (`jpg` for unknown image types).
pub fn get_extension_from_mime(subtype: &str) -> (r: &'static str)
    ensures
        r@ == spec_extension_from_mime(subtype@),
{
    if str_eq(subtype, "jpeg") {
        "jpg"
    } else if str_eq(subtype, "png") {
        "png"
    } else if str_eq(subtype, "gif") {
        "gif"
    } else if str_eq(subtype, "bmp") {
        "bmp"
    } else if str_eq(subtype, "webp") {
        "webp"
    } else {
        "jpg"
    }
}

/// Every extension an image is stored under is one of `jpg`, `png`, `gif`, `bmp`, `webp`: a
/// subtype other than `jpeg`, `png`, `gif`, `bmp` and `webp` is stored as `jpg`, and `jpeg`
/// as `jpg` too.
pub proof fn law_stored_extension_is_known(subtype: Seq<char>)
    ensures
        ({
            let e = spec_extension_from_mime(subtype);
            e == "jpg"@ || e == "png"@ || e == "gif"@ || e == "bmp"@ || e == "webp"@
        }),
        (subtype != "jpeg"@ && subtype != "png"@ && subtype != "gif"@ && subtype != "bmp"@ && subtype != "webp"@)
            ==> spec_extension_from_mime(subtype) == "jpg"@,
        subtype == "jpeg"@ ==> spec_extension_from_mime(subtype) == "jpg"@,
{
}

/// Why an uploaded file is refused.
#[derive(Debug, Clone, Copy, PartialEq, Eq)]
pub enum UploadRejection {
    /// Answered with "Only image files are allowed".
    NotAnImage,
    /// Answered with "File size exceeds the allowed limit".
    TooLarge,
}

/// Checks one uploaded file: its MIME type must be `image`, and its size at most the limit.
pub fn check_upload_file(mime_type: &str, size: usize, max_file_size: u64) -> (r: Result<(), UploadRejection>)
    ensures
        mime_type@ != "image"@ ==> r == Err::<(), UploadRejection>(UploadRejection::NotAnImage),
        mime_type@ == "image"@ && size > max_file_size as usize ==> r == Err::<(), UploadRejection>(UploadRejection::TooLarge),
        mime_type@ == "image"@ && size <= max_file_size as usize ==> r is Ok,
{
    if !str_eq(mime_type, "image") {
        return Err(UploadRejection::NotAnImage);
    }
    if size > max_file_size as usize {
        return Err(UploadRejection::TooLarge);
    }
    Ok(())
}

/// The 64-bit xxHash (seed 0) of the bytes, as `twox_hash::XxHash64::default()` computes it.
pub uninterp spec fn xxhash64_seed0(data: Seq<u8>) -> u64;

/// Hashes the bytes with `twox_hash::XxHash64` (seed 0, `write` then `finish`).
/// The contract claims that the result is the named function of the bytes.
#[verifier::external_body]
pub(crate) fn xxhash64(data: &[u8]) -> (h: u64)
    ensures
        h == xxhash64_seed0(data@),
{
    let mut hasher = twox_hash::XxHash64::default();
    hasher.write(data);
    hasher.finish()
}

/// Where and under which name an uploaded image is stored.
#[derive(Debug, Clone)]
pub struct PlannedUpload {
    pub file_id: String,
    pub file_name: String,
    pub file_path: String,
}

/// The stored name of an image with the given content hash: the hash in lower-case hex, a
/// dot and the extension, inside the upload directory.
pub open spec fn is_planned_upload(p: PlannedUpload, hash: u64, subtype: Seq<char>, upload_dir: Seq<char>) -> bool {
    &&& p.file_id@ == spec_u64_to_lower_hex(hash)
    &&& p.file_name@ == p.file_id@ + "."@ + spec_extension_from_mime(subtype)
    &&& p.file_path@ == upload_dir + "/"@ + p.file_name@
}

/// Names an image by its content hash (see `is_planned_upload`).
pub fn upload_names(hash: u64, subtype: &str, upload_dir: &str) -> (r: PlannedUpload)
    ensures
        is_planned_upload(r, hash, subtype@, upload_dir@),
{
    let extension = get_extension_from_mime(subtype);
    let file_id = u64_to_lower_hex(hash);
    let file_name = concat3(file_id.as_str(), ".", extension);
    let file_path = concat3(upload_dir, "/", file_name.as_str());
    PlannedUpload { file_id, file_name, file_path }
}

/// Names an uploaded image by the hash of its content.
pub fn plan_upload(content: &[u8], subtype: &str, upload_dir: &str) -> (r: PlannedUpload)
    ensures
        is_planned_upload(r, xxhash64_seed0(content@), subtype@, upload_dir@),
{
    let hash = xxhash64(content);
    upload_names(hash, subtype, upload_dir)
}

/// The upvote cookie handed out after an upload of new images only.
#[derive(Debug, Clone)]
pub struct UpvoteGrant {
    /// The random token, also the value of the `upvote_token` cookie (path `/api/public`,
    /// secure, HTTP-only).
    pub token: String,
    /// The cache entry that holds the token's remaining upvotes.
    pub cache_key: String,
    /// The number of upvotes the token starts with.
    pub upvotes: i8,
}

/// How an upload batch is answered.
#[derive(Debug)]
pub enum UploadConclusion {
    /// Nothing was stored: "No valid images uploaded".
    NoValidImages,
    /// Some images were already stored: the answers, and no upvote token.
    Responses(Vec<ImageUploadResponse>),
    /// Every image was new: the answers and an upvote token.
    ResponsesWithUpvotes(Vec<ImageUploadResponse>, UpvoteGrant),
}

/// A fresh random token (`uuid::Uuid::new_v4()` in its hyphenated text form). The contract
/// claims only the length of that form, 36 characters: the value is random.
#[verifier::external_body]
pub(crate) fn new_upvote_token() -> (t: String)
    ensures
        t@.len() == 36,
{
    uuid::Uuid::new_v4().to_string()
}

/// The answers collected while an upload is processed.
pub struct UploadBatch {
    pub is_public: bool,
    pub responses: Vec<ImageUploadResponse>,
    pub duplicates: usize,
}

/// The answer for one stored image.
pub open spec fn answers(r: ImageUploadResponse, p: PlannedUpload, is_public: bool, is_new: bool) -> bool {
    &&& r.file_id@ == p.file_id@
    &&& r.file_name@ == p.file_name@
    &&& r.is_public == is_public
    &&& r._is_new == is_new
}

/// The grant for a token: the cache entry `upvote.<token>` starting at the upvotes per upload.
pub open spec fn is_grant(g: UpvoteGrant, token: Seq<char>) -> bool {
    &&& g.token@ == token
    &&& g.cache_key@ == "upvote."@ + token
    &&& g.upvotes == UPVOTES_PER_UPLOAD
}

/// The number of answers for images that were already stored.
pub open spec fn count_duplicates(s: Seq<ImageUploadResponse>) -> nat
    decreases s.len(),
{
    if s.len() == 0 {
        0
    } else {
        count_duplicates(s.drop_last()) + if s.last()._is_new { 0nat } else { 1nat }
    }
}

/// Every answer is for a newly stored image.
pub open spec fn all_new(s: Seq<ImageUploadResponse>) -> bool {
    forall|i: int| 0 <= i < s.len() ==> (#[trigger] s[i])._is_new
}

proof fn lemma_no_duplicates_all_new(s: Seq<ImageUploadResponse>)
    ensures
        count_duplicates(s) <= s.len(),
        (count_duplicates(s) == 0) <==> all_new(s),
    decreases s.len(),
{
    if s.len() > 0 {
        lemma_no_duplicates_all_new(s.drop_last());
        if count_duplicates(s) == 0 {
            assert forall|i: int| 0 <= i < s.len() implies (#[trigger] s[i])._is_new by {
                if i < s.len() - 1 {
                    assert(s[i] == s.drop_last()[i]);
                }
            }
        }
        if all_new(s) {
            assert forall|i: int| 0 <= i < s.drop_last().len() implies (#[trigger] s.drop_last()[i])._is_new by {
                assert(s.drop_last()[i] == s[i]);
            }
            assert(s[s.len() - 1]._is_new);
        }
    }
}

impl UploadBatch {
    /// The batch is consistent: `duplicates` counts the answers for images already stored.
    pub open spec fn wf(&self) -> bool {
        self.duplicates == count_duplicates(self.responses@)
    }

    /// An empty batch for images of the given visibility.
    pub fn new(is_public: bool) -> (r: UploadBatch)
        ensures
            r.wf(),
            r.is_public == is_public,
            r.responses@.len() == 0,
            r.duplicates == 0,
    {
        UploadBatch { is_public, responses: Vec::new(), duplicates: 0 }
    }

    /// Records an image that was already stored.
    pub fn record_duplicate(&mut self, planned: &PlannedUpload)
        requires
            old(self).wf(),
        ensures
            final(self).wf(),
            final(self).is_public == old(self).is_public,
            final(self).duplicates == old(self).duplicates + 1,
            final(self).responses@.len() == old(self).responses@.len() + 1,
            final(self).responses@.subrange(0, old(self).responses@.len() as int) == old(self).responses@,
            answers(final(self).responses@.last(), *planned, old(self).is_public, false),
    {
        let r = ImageUploadResponse {
            file_id: planned.file_id.clone(),
            file_name: planned.file_name.clone(),
            is_public: self.is_public,
            _is_new: false,
        };
        proof {
            lemma_no_duplicates_all_new(self.responses@);
        }
        self.responses.push(r);
        let total = self.responses.len();
        assert(self.duplicates < total);
        self.duplicates = self.duplicates + 1;
        assert(self.responses@.subrange(0, self.responses@.len() - 1) =~= old(self).responses@);
        assert(self.responses@.drop_last() =~= old(self).responses@);
    }

    /// Records an image that was newly stored.
    pub fn record_new(&mut self, planned: &PlannedUpload)
        requires
            old(self).wf(),
        ensures
            final(self).wf(),
            final(self).is_public == old(self).is_public,
            final(self).duplicates == old(self).duplicates,
            final(self).responses@.len() == old(self).responses@.len() + 1,
            final(self).responses@.subrange(0, old(self).responses@.len() as int) == old(self).responses@,
            answers(final(self).responses@.last(), *planned, old(self).is_public, true),
    {
        let r = ImageUploadResponse {
            file_id: planned.file_id.clone(),
            file_name: planned.file_name.clone(),
            is_public: self.is_public,
            _is_new: true,
        };
        self.responses.push(r);
        assert(self.responses@.subrange(0, self.responses@.len() - 1) =~= old(self).responses@);
        assert(self.responses@.drop_last() =~= old(self).responses@);
    }

    /// How the batch is answered once every file is processed, with the token to hand out
    /// where one is due.
    pub fn conclude_with_token(self, token: String) -> (r: UploadConclusion)
        requires
            self.wf(),
        ensures
            self.responses@.len() == 0 ==> r is NoValidImages,
            self.responses@.len() > 0 && self.duplicates != 0 ==> (r matches UploadConclusion::Responses(v) && v@
                == self.responses@),
            self.responses@.len() > 0 && self.duplicates == 0 ==> (r matches UploadConclusion::ResponsesWithUpvotes(v, g)
                && v@ == self.responses@ && is_grant(g, token@)),
            (r is ResponsesWithUpvotes) <==> (self.responses@.len() > 0 && all_new(self.responses@)),
    {
        proof {
            lemma_no_duplicates_all_new(self.responses@);
        }
        if self.responses.len() == 0 {
            return UploadConclusion::NoValidImages;
        }
        if self.duplicates != 0 {
            return UploadConclusion::Responses(self.responses);
        }
        let cache_key = upvote_cache_key(token.as_str());
        UploadConclusion::ResponsesWithUpvotes(self.responses, UpvoteGrant { token, cache_key, upvotes: UPVOTES_PER_UPLOAD })
    }

    /// How the batch is answered once every file is processed; a fresh random upvote token is
    /// made only where every image was new.
    pub fn conclude(self) -> (r: UploadConclusion)
        requires
            self.wf(),
        ensures
            self.responses@.len() == 0 ==> r is NoValidImages,
            self.responses@.len() > 0 && self.duplicates != 0 ==> (r matches UploadConclusion::Responses(v) && v@
                == self.responses@),
            self.responses@.len() > 0 && self.duplicates == 0 ==> (r matches UploadConclusion::ResponsesWithUpvotes(v, g)
                && v@ == self.responses@ && g.token@.len() == 36 && is_grant(g, g.token@)),
            (r is ResponsesWithUpvotes) <==> (self.responses@.len() > 0 && all_new(self.responses@)),
    {
        if self.responses.len() == 0 || self.duplicates != 0 {
            return self.conclude_with_token(String::new());
        }
        let token = new_upvote_token();
        self.conclude_with_token(token)
    }
}


/// Characters `sanitize_filename::sanitize` removes as illegal in file names:
/// `/ ? < > \ : * | "`.
pub open spec fn is_illegal_name_char(c: char) -> bool {
    c == '/' || c == '?' || c == '<' || c == '>' || c == '\\' || c == ':' || c == '*' || c == '|' || c == '"'
}

/// Characters `sanitize_filename::sanitize` removes as control characters: U+0000 to U+001F
/// and U+0080 to U+009F.
pub open spec fn is_control_name_char(c: char) -> bool {
    (c as int) <= 0x1f || (0x80 <= (c as int) && (c as int) <= 0x9f)
}

/// The text without its illegal and control characters.
pub open spec fn strip_name_chars(s: Seq<char>) -> Seq<char>
    decreases s.len(),
{
    if s.len() == 0 {
        seq![]
    } else {
        strip_name_chars(s.drop_last()) + if is_illegal_name_char(s.last()) || is_control_name_char(s.last()) {
            Seq::<char>::empty()
        } else {
            seq![s.last()]
        }
    }
}

/// The number of bytes of the UTF-8 encoding of a character.
pub open spec fn utf8_len(c: char) -> nat {
    if (c as int) < 0x80 {
        1
    } else if (c as int) < 0x800 {
        2
    } else if (c as int) < 0x10000 {
        3
    } else {
        4
    }
}

/// The longest prefix of the text whose UTF-8 encoding takes at most `budget` bytes.
pub open spec fn truncate_utf8(s: Seq<char>, budget: int) -> Seq<char>
    decreases s.len(),
{
    if s.len() == 0 {
        s
    } else if utf8_len(s[0]) <= budget {
        seq![s[0]] + truncate_utf8(s.drop_first(), budget - utf8_len(s[0]))
    } else {
        Seq::<char>::empty()
    }
}

/// Whether the text is one or more dots and nothing else.
pub open spec fn all_dots(s: Seq<char>) -> bool {
    s.len() > 0 && forall|i: int| 0 <= i < s.len() ==> s[i] == '.'
}

/// `sanitize_filename::sanitize` with its default options on a non-Windows target: the
/// illegal and control characters are removed, a name made only of dots becomes empty, and
/// the result is cut to at most 255 bytes at a character boundary.
pub open spec fn spec_sanitize(name: Seq<char>) -> Seq<char> {
    let stripped = strip_name_chars(name);
    truncate_utf8(if all_dots(stripped) { Seq::<char>::empty() } else { stripped }, 255)
}

/// Makes a file name safe (`sanitize_filename::sanitize`). The contract claims the
/// documented behaviour of the crate's source on a non-Windows target (see `spec_sanitize`).
#[verifier::external_body]
pub(crate) fn sanitize_file_name(name: &str) -> (r: String)
    ensures
        r@ == spec_sanitize(name@),
{
    sanitize_filename::sanitize(name)
}

proof fn lemma_strip_removes(s: Seq<char>)
    ensures
        forall|i: int| 0 <= i < strip_name_chars(s).len() ==> !is_illegal_name_char(#[trigger] strip_name_chars(s)[i]),
    decreases s.len(),
{
    if s.len() > 0 {
        lemma_strip_removes(s.drop_last());
        let prev = strip_name_chars(s.drop_last());
        let t = strip_name_chars(s);
        assert forall|i: int| 0 <= i < t.len() implies !is_illegal_name_char(#[trigger] t[i]) by {
            if i < prev.len() {
                assert(t[i] == prev[i]);
            }
        }
    }
}

proof fn lemma_truncate_prefix(s: Seq<char>, budget: int)
    ensures
        truncate_utf8(s, budget).len() <= s.len(),
        forall|i: int| 0 <= i < truncate_utf8(s, budget).len() ==> #[trigger] truncate_utf8(s, budget)[i] == s[i],
    decreases s.len(),
{
    if s.len() > 0 && utf8_len(s[0]) <= budget {
        lemma_truncate_prefix(s.drop_first(), budget - utf8_len(s[0]));
        let t = truncate_utf8(s, budget);
        let rest = truncate_utf8(s.drop_first(), budget - utf8_len(s[0]));
        assert forall|i: int| 0 <= i < t.len() implies #[trigger] t[i] == s[i] by {
            if i > 0 {
                assert(t[i] == rest[i - 1]);
                assert(s.drop_first()[i - 1] == s[i]);
            }
        }
    }
}

/// A sanitized name never holds a slash or a backslash.
pub proof fn law_sanitized_has_no_separators(name: Seq<char>)
    ensures
        !has_char(spec_sanitize(name), '/'),
        !has_char(spec_sanitize(name), '\\'),
{
    let stripped = strip_name_chars(name);
    lemma_strip_removes(name);
    let base = if all_dots(stripped) { Seq::<char>::empty() } else { stripped };
    lemma_truncate_prefix(base, 255);
    let r = spec_sanitize(name);
    assert forall|i: int| 0 <= i < r.len() implies r[i] != '/' && r[i] != '\\' by {
        assert(r[i] == base[i]);
        assert(!is_illegal_name_char(stripped[i]));
    }
}

/// Why a requested image is refused (answered with 400).
#[derive(Debug, Clone, Copy, PartialEq, Eq)]
pub enum ImageRequestError {
    /// "Invalid filename"
    InvalidFilename,
    /// "Invalid file extension"
    InvalidExtension,
    /// "Invalid file path"
    InvalidPath,
}

/// The content type an image is served with.
#[derive(Debug, Clone, Copy, PartialEq, Eq)]
pub enum ImageContentType {
    Jpeg,
    Png,
    Gif,
    OctetStream,
}

/// The content type for an allowed extension.
pub open spec fn spec_content_type(ext: Seq<char>) -> ImageContentType {
    if ext == "jpg"@ || ext == "jpeg"@ {
        ImageContentType::Jpeg
    } else if ext == "png"@ {
        ImageContentType::Png
    } else if ext == "gif"@ {
        ImageContentType::Gif
    } else {
        ImageContentType::OctetStream
    }
}

/// The stored file to read for a requested image.
#[derive(Debug, Clone)]
pub struct ImagePlan {
    /// The sanitized name, also sent as the inline file name.
    pub file_name: String,
    pub file_path: String,
    pub content_type: ImageContentType,
}

/// How a request for `filename` is served from `upload_dir`.
pub open spec fn spec_image_request(filename: Seq<char>, upload_dir: Seq<char>) -> Result<(Seq<char>, Seq<char>, ImageContentType), ImageRequestError> {
    let s = spec_sanitize(filename);
    if has_infix(s, seq!['.', '.']) || has_char(s, '/') || has_char(s, '\\') {
        Err(ImageRequestError::InvalidFilename)
    } else {
        match spec_path_extension(s) {
            Some(ext) => if allowed_extension(ext) {
                Ok((s, upload_dir + "/"@ + s, spec_content_type(ext)))
            } else {
                Err(ImageRequestError::InvalidExtension)
            },
            None => Err(ImageRequestError::InvalidExtension),
        }
    }
}

/// What a plan comes to, as plain values.
pub open spec fn plan_view(r: Result<ImagePlan, ImageRequestError>) -> Result<(Seq<char>, Seq<char>, ImageContentType), ImageRequestError> {
    match r {
        Ok(p) => Ok((p.file_name@, p.file_path@, p.content_type)),
        Err(e) => Err(e),
    }
}

fn content_type_for(ext: &str) -> (r: ImageContentType)
    ensures
        r == spec_content_type(ext@),
{
    if str_eq(ext, "jpg") || str_eq(ext, "jpeg") {
        ImageContentType::Jpeg
    } else if str_eq(ext, "png") {
        ImageContentType::Png
    } else if str_eq(ext, "gif") {
        ImageContentType::Gif
    } else {
        ImageContentType::OctetStream
    }
}

/// Decides how a request for an already sanitized name is served.
pub fn plan_sanitized_image_request(sanitized: String, upload_dir: &str) -> (r: Result<ImagePlan, ImageRequestError>)
    ensures
        !has_infix(sanitized@, seq!['.', '.']) && !has_char(sanitized@, '/') && !has_char(sanitized@, '\\') ==> (
        plan_view(r) == match spec_path_extension(sanitized@) {
            Some(ext) => if allowed_extension(ext) {
                Ok((sanitized@, upload_dir@ + "/"@ + sanitized@, spec_content_type(ext)))
            } else {
                Err(ImageRequestError::InvalidExtension)
            },
            None => Err(ImageRequestError::InvalidExtension),
        }),
        has_infix(sanitized@, seq!['.', '.']) || has_char(sanitized@, '/') || has_char(sanitized@, '\\') ==> r
            == Err::<ImagePlan, ImageRequestError>(ImageRequestError::InvalidFilename),
{
    if contains_double_dot(sanitized.as_str()) || contains_char(sanitized.as_str(), '/') || contains_char(
        sanitized.as_str(),
        '\\',
    ) {
        return Err(ImageRequestError::InvalidFilename);
    }
    let content_type = match get_extension_from_filename(sanitized.as_str()) {
        Some(ext) => if is_allowed_extension(ext) {
            content_type_for(ext)
        } else {
            return Err(ImageRequestError::InvalidExtension);
        },
        None => {
            return Err(ImageRequestError::InvalidExtension);
        },
    };
    let file_path = concat3(upload_dir, "/", sanitized.as_str());
    assert(file_path@.subrange(0, upload_dir@.len() as int) =~= upload_dir@);
    if !starts_with(file_path.as_str(), upload_dir) {
        return Err(ImageRequestError::InvalidPath);
    }
    Ok(ImagePlan { file_name: sanitized, file_path, content_type })
}

/// Decides how a request for the image `filename` is served from `upload_dir`: the name is
/// sanitized, must not hold `..`, `/` or `\`, and must end in an allowed extension.
pub fn plan_image_request(filename: &str, upload_dir: &str) -> (r: Result<ImagePlan, ImageRequestError>)
    ensures
        plan_view(r) == spec_image_request(filename@, upload_dir@),
{
    let sanitized = sanitize_file_name(filename);
    plan_sanitized_image_request(sanitized, upload_dir)
}

/// A served image always lies inside the upload directory, and the path check never refuses.
pub proof fn law_served_images_stay_in_upload_dir(filename: Seq<char>, upload_dir: Seq<char>)
    ensures
        spec_image_request(filename, upload_dir) matches Ok((name, path, _)) ==> is_prefix(upload_dir, path)
            && path == upload_dir + "/"@ + name,
        !(spec_image_request(filename, upload_dir) matches Err(ImageRequestError::InvalidPath)),
{
    let r = spec_image_request(filename, upload_dir);
    if let Ok((name, path, _)) = r {
        assert(path.subrange(0, upload_dir.len() as int) =~= upload_dir);
    }
}

/// The number of names whose extension is on the whitelist.
pub open spec fn count_allowed(names: Seq<String>) -> nat
    decreases names.len(),
{
    if names.len() == 0 {
        0
    } else {
        count_allowed(names.drop_last()) + match spec_path_extension(names.last()@) {
            Some(ext) => if allowed_extension(ext) { 1nat } else { 0nat },
            None => 0nat,
        }
    }
}

/// Counts the entries of the upload directory whose extension is on the whitelist.
pub fn count_allowed_images(names: &Vec<String>) -> (r: u64)
    ensures
        r == count_allowed(names@),
{
    let mut count: u64 = 0;
    let mut i: usize = 0;
    while i < names.len()
        invariant
            i <= names.len(),
            count == count_allowed(names@.subrange(0, i as int)),
            count <= i,
        decreases names.len() - i,
    {
        assert(names@.subrange(0, i + 1).drop_last() =~= names@.subrange(0, i as int));
        assert(names@.subrange(0, i + 1).last() == names@[i as int]);
        match get_extension_from_filename(names[i].as_str()) {
            Some(ext) => {
                if is_allowed_extension(ext) {
                    count = count + 1;
                }
            },
            None => {},
        }
        i = i + 1;
    }
    assert(names@.subrange(0, names.len() as int) =~= names@);
    count
}

/// The column the leaderboard is ordered by: `karma`, or `created_at` (the default).
pub open spec fn spec_order_column(order_by: Option<LeaderboardOrder>) -> Seq<char> {
    match order_by {
        Some(LeaderboardOrder::Karma) => "karma"@,
        _ => "created_at"@,
    }
}

/// The direction of the leaderboard: `ASC`, or `DESC` (the default).
pub open spec fn spec_order_direction(ascending: Option<bool>) -> Seq<char> {
    match ascending {
        Some(true) => "ASC"@,
        _ => "DESC"@,
    }
}

/// The leaderboard query: the first hundred public images in the requested order.
pub open spec fn spec_leaderboard_query(params: GetLeaderboardQueryParams) -> Seq<char> {
    "SELECT * FROM images WHERE is_public is TRUE\n             ORDER BY "@ + spec_order_column(params.order_by) + " "@
        + spec_order_direction(params.ascending) + "\n             LIMIT 100"@
}

/// Whether `s` ends with `suffix`.
pub open spec fn ends_with(s: Seq<char>, suffix: Seq<char>) -> bool {
    suffix.len() <= s.len() && s.subrange(s.len() - suffix.len(), s.len() as int) == suffix
}

/// The direction of the leaderboard depends on `ascending` alone, whatever the column: the
/// query orders descending (highest karma, newest first) unless `ascending` is `Some(true)`,
/// and ascending then.
pub proof fn law_leaderboard_direction(params: GetLeaderboardQueryParams)
    ensures
        params.ascending != Some(true) ==> ends_with(
            spec_leaderboard_query(params),
            " DESC\n             LIMIT 100"@,
        ),
        params.ascending == Some(true) ==> ends_with(spec_leaderboard_query(params), " ASC\n             LIMIT 100"@),
{
    let q = spec_leaderboard_query(params);
    let head = "SELECT * FROM images WHERE is_public is TRUE\n             ORDER BY "@ + spec_order_column(params.order_by);
    let tail = "\n             LIMIT 100"@;
    reveal_strlit(" ");
    reveal_strlit("ASC");
    reveal_strlit("DESC");
    reveal_strlit(" DESC\n             LIMIT 100");
    reveal_strlit(" ASC\n             LIMIT 100");
    reveal_strlit("\n             LIMIT 100");
    if params.ascending == Some(true) {
        let suffix = " ASC\n             LIMIT 100"@;
        assert(suffix =~= " "@ + "ASC"@ + tail);
        assert(q =~= head + suffix);
        assert(q.subrange(q.len() - suffix.len(), q.len() as int) =~= suffix);
    } else {
        let suffix = " DESC\n             LIMIT 100"@;
        assert(suffix =~= " "@ + "DESC"@ + tail);
        assert(q =~= head + suffix);
        assert(q.subrange(q.len() - suffix.len(), q.len() as int) =~= suffix);
    }
}

/// The column the leaderboard is ordered by.
pub fn leaderboard_order_column(order_by: Option<LeaderboardOrder>) -> (r: &'static str)
    ensures
        r@ == spec_order_column(order_by),
{
    match order_by {
        Some(LeaderboardOrder::Karma) => "karma",
        _ => "created_at",
    }
}

/// The direction of the leaderboard.
pub fn leaderboard_order_direction(ascending: Option<bool>) -> (r: &'static str)
    ensures
        r@ == spec_order_direction(ascending),
{
    match ascending {
        Some(true) => "ASC",
        _ => "DESC",
    }
}

/// Builds the leaderboard query.
pub fn leaderboard_query(params: &GetLeaderboardQueryParams) -> (r: String)
    ensures
        r@ == spec_leaderboard_query(*params),
{
    let column = leaderboard_order_column(params.order_by);
    let direction = leaderboard_order_direction(params.ascending);
    let mut q = String::from_str("SELECT * FROM images WHERE is_public is TRUE\n             ORDER BY ");
    q.append(column);
    q.append(" ");
    q.append(direction);
    q.append("\n             LIMIT 100");
    q
}

} // verus!
