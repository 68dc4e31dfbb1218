use photobomber::constants::{is_allowed_extension, DEFAULT_MAX_FILE_SIZE};
use photobomber::images::{
    check_upload_file, count_allowed_images, get_extension_from_mime, leaderboard_query,
    plan_image_request, plan_upload, upload_names,
    GetLeaderboardQueryParams, ImageContentType, ImageRequestError, LeaderboardOrder,
    UploadBatch, UploadConclusion, UploadRejection,
};
use photobomber::paths::get_extension_from_filename;
use std::hash::Hasher;
use std::path::Path;

#[test]
fn extension_from_filename_matches_std() {
    let cases = [
        "a.jpg", ".bashrc", "a.", "a.b.c", "noext", "dir/x.png", "x.png/", "..", ".", "",
        "/", "a/..", ".a.b", "dir.d/file", "ü.gif",
    ];
    for c in cases.iter() {
        let expected = Path::new(c).extension().and_then(|e| e.to_str());
        assert_eq!(get_extension_from_filename(c), expected, "input {:?}", c);
    }
    assert_eq!(get_extension_from_filename("photo.jpeg"), Some("jpeg"));
}

#[test]
fn allowed_extensions() {
    for e in ["jpg", "jpeg", "png", "gif", "webp"].iter() {
        assert!(is_allowed_extension(e));
    }
    for e in ["bmp", "JPG", "", "txt"].iter() {
        assert!(!is_allowed_extension(e));
    }
}

#[test]
fn mime_extensions() {
    assert_eq!(get_extension_from_mime("jpeg"), "jpg");
    assert_eq!(get_extension_from_mime("png"), "png");
    assert_eq!(get_extension_from_mime("gif"), "gif");
    assert_eq!(get_extension_from_mime("bmp"), "bmp");
    assert_eq!(get_extension_from_mime("webp"), "webp");
    assert_eq!(get_extension_from_mime("tiff"), "jpg");
}

#[test]
fn upload_file_checks() {
    assert_eq!(check_upload_file("text", 1, 10), Err(UploadRejection::NotAnImage));
    assert_eq!(check_upload_file("image", 11, 10), Err(UploadRejection::TooLarge));
    assert_eq!(check_upload_file("image", 10, 10), Ok(()));
    assert_eq!(check_upload_file("image", 0, 0), Ok(()));
}

#[test]
fn hash_names() {
    let p = plan_upload(b"", "jpeg", "/up");
    assert_eq!(p.file_id, "ef46db3751d8e999");
    assert_eq!(p.file_name, "ef46db3751d8e999.jpg");
    assert_eq!(p.file_path, "/up/ef46db3751d8e999.jpg");
    let q = upload_names(255, "png", "d");
    assert_eq!(q.file_name, "ff.png");
    assert_eq!(q.file_path, "d/ff.png");
    let r = plan_upload(b"hello", "webp", "x");
    let mut h = twox_hash::XxHash64::default();
    h.write(b"hello");
    assert_eq!(r.file_id, format!("{:x}", h.finish()));
}

#[test]
fn upload_batch_conclusions() {
    let p1 = upload_names(1, "png", "d");
    let p2 = upload_names(2, "gif", "d");
    let empty = UploadBatch::new(true);
    assert!(matches!(empty.conclude(), UploadConclusion::NoValidImages));

    let mut all_new = UploadBatch::new(true);
    all_new.record_new(&p1);
    all_new.record_new(&p2);
    match all_new.conclude() {
        UploadConclusion::ResponsesWithUpvotes(v, g) => {
            assert_eq!(v.len(), 2);
            assert_eq!(v[0].file_name, "1.png");
            assert!(v[1]._is_new && v[1].is_public);
            assert_eq!(g.token.len(), 36);
            assert_eq!(g.cache_key, format!("upvote.{}", g.token));
            assert_eq!(g.upvotes, 3);
        }
        _ => panic!("expected an upvote grant"),
    }

    let mut with_dup = UploadBatch::new(false);
    with_dup.record_new(&p1);
    with_dup.record_duplicate(&p2);
    assert_eq!(with_dup.duplicates, 1);
    match with_dup.conclude() {
        UploadConclusion::Responses(v) => {
            assert_eq!(v.len(), 2);
            assert!(!v[1]._is_new);
            assert!(!v[0].is_public);
        }
        _ => panic!("expected answers without a grant"),
    }
}

#[test]
fn sanitized_names_are_served() {
    assert_eq!(plan_image_request("a/b\\c?.png", "/up").ok().unwrap().file_name, "abc.png");
    assert_eq!(plan_image_request("x\u{1}\u{85}y.gif", "/up").ok().unwrap().file_name, "xy.gif");
    let long = format!("{}.png", "é".repeat(200));
    let expected = sanitize_filename::sanitize(&long);
    assert_eq!(expected.len(), 254);
    // cut to 255 bytes: the extension is lost, so the name is refused
    assert_eq!(plan_image_request(&long, "/up").err(), Some(ImageRequestError::InvalidExtension));
    let fits = format!("{}.png", "é".repeat(100));
    assert_eq!(plan_image_request(&fits, "/up").ok().unwrap().file_name, fits);
}

#[test]
fn image_requests() {
    let ok = plan_image_request("a.jpg", "/up").ok().unwrap();
    assert_eq!(ok.file_name, "a.jpg");
    assert_eq!(ok.file_path, "/up/a.jpg");
    assert_eq!(ok.content_type, ImageContentType::Jpeg);
    assert_eq!(plan_image_request("b.jpeg", "/up").ok().unwrap().content_type, ImageContentType::Jpeg);
    assert_eq!(plan_image_request("b.png", "/up").ok().unwrap().content_type, ImageContentType::Png);
    assert_eq!(plan_image_request("b.gif", "/up").ok().unwrap().content_type, ImageContentType::Gif);
    assert_eq!(plan_image_request("b.webp", "/up").ok().unwrap().content_type, ImageContentType::OctetStream);
    assert_eq!(plan_image_request("../etc/passwd", "/up").err(), Some(ImageRequestError::InvalidFilename));
    assert_eq!(plan_image_request("a..b.png", "/up").err(), Some(ImageRequestError::InvalidFilename));
    assert_eq!(plan_image_request("a.txt", "/up").err(), Some(ImageRequestError::InvalidExtension));
    assert_eq!(plan_image_request("...", "/up").err(), Some(ImageRequestError::InvalidExtension));
    let slashed = plan_image_request("x/y.png", "/up").ok().unwrap();
    assert_eq!(slashed.file_name, "xy.png");
    assert!(slashed.file_path.starts_with("/up"));
}

#[test]
fn counting_images() {
    let names: Vec<String> = ["a.jpg", "b.txt", ".png", "c.webp", "d", "e.GIF", "f.gif"]
        .iter()
        .map(|s| s.to_string())
        .collect();
    assert_eq!(count_allowed_images(&names), 3);
    assert_eq!(count_allowed_images(&Vec::new()), 0);
}

#[test]
fn leaderboard_queries() {
    let default = GetLeaderboardQueryParams { order_by: None, ascending: None };
    assert_eq!(
        leaderboard_query(&default),
        "SELECT * FROM images WHERE is_public is TRUE\n             ORDER BY created_at DESC\n             LIMIT 100"
    );
    let karma_asc = GetLeaderboardQueryParams { order_by: Some(LeaderboardOrder::Karma), ascending: Some(true) };
    assert_eq!(
        leaderboard_query(&karma_asc),
        "SELECT * FROM images WHERE is_public is TRUE\n             ORDER BY karma ASC\n             LIMIT 100"
    );
    let time_desc = GetLeaderboardQueryParams { order_by: Some(LeaderboardOrder::Time), ascending: Some(false) };
    assert!(leaderboard_query(&time_desc).contains("ORDER BY created_at DESC"));
}

#[test]
fn default_size_cap_admits_a_five_megabyte_image() {
    assert_eq!(DEFAULT_MAX_FILE_SIZE, 6 * 1024 * 1024);
    assert_eq!(check_upload_file("image", 5_000_000, DEFAULT_MAX_FILE_SIZE), Ok(()));
    assert_eq!(check_upload_file("image", 6 * 1024 * 1024 + 1, DEFAULT_MAX_FILE_SIZE), Err(UploadRejection::TooLarge));
}
