use photobomber::auth::{AuthenticatedUser, TokenClaims};
use photobomber::db::{
    db_init_advance, db_init_probe, upload_allowed_from_param, DbInitStep, ADD_CONTENT_HASH_COLUMN,
    CREATE_IMAGES_TABLE, CREATE_PARAMS_TABLE, IMAGES_TABLE_EXISTS,
};
use photobomber::location::{
    post_location, post_location_at, GetLocationResponse, LocationState, LocationVariant,
    PostLocationOutcome, PostLocationRequest, Stage,
};
use photobomber::stages::TomorrowlandStage;
use photobomber::settings::{cors_origin_allowed, AppState};
use photobomber::upvote::{admit_upvote, after_upvote, upvote_cache_key, UpvoteAdmission, UpvoteOutcome};

fn user(id: i64) -> AuthenticatedUser {
    AuthenticatedUser {
        user_id: id,
        claims: TokenClaims {
            exp: 0,
            iat: 0,
            iss: "photobomber-api".to_string(),
            token_type: "AccessToken".to_string(),
            sub: id.to_string(),
        },
    }
}

#[test]
fn upvote_decisions() {
    assert_eq!(upvote_cache_key("abc"), "upvote.abc");
    assert_eq!(admit_upvote(None), UpvoteAdmission::Refuse);
    assert_eq!(admit_upvote(Some(0)), UpvoteAdmission::Refuse);
    assert_eq!(admit_upvote(Some(2)), UpvoteAdmission::Proceed(2));
    assert_eq!(after_upvote(2, 0), UpvoteOutcome::NotCounted(0));
    assert_eq!(after_upvote(1, 1), UpvoteOutcome::Spent(1));
    assert_eq!(after_upvote(3, 1), UpvoteOutcome::Counted(1, 2));
}

#[test]
fn upvote_budget_on_a_run() {
    let mut cached: Option<i8> = Some(3);
    let mut counted = 0;
    for rows in [1u64, 0, 1, 1, 1, 1, 1].iter() {
        match admit_upvote(cached) {
            UpvoteAdmission::Refuse => cached = None,
            UpvoteAdmission::Proceed(x) => match after_upvote(x, *rows) {
                UpvoteOutcome::NotCounted(_) => {}
                UpvoteOutcome::Spent(_) => {
                    cached = None;
                    counted += 1;
                }
                UpvoteOutcome::Counted(_, left) => {
                    cached = Some(left);
                    counted += 1;
                }
            },
        }
    }
    assert_eq!(counted, 3);
    assert_eq!(cached, None);
}

#[test]
fn location_read_after_write() {
    let mut state = LocationState::default();
    assert!(state.location.is_none() && state.updated_at.is_none());
    let empty = GetLocationResponse::from_state_at(&state, 5);
    assert_eq!(empty.updated_ago, None);
    let cage = LocationVariant::Stage(Stage::Cage);
    let out = post_location_at(&mut state, &user(1), PostLocationRequest { location: Some(cage.clone()) }, &listing(), 1000, 1500);
    match out {
        PostLocationOutcome::Updated(r) => {
            assert_eq!(r.location, Some(cage.clone()));
            assert_eq!(r.updated_at, Some(1000));
            assert_eq!(r.updated_ago, Some(500));
        }
        _ => panic!("expected an update"),
    }
    let later = GetLocationResponse::from_state_at(&state, 4000);
    assert_eq!(later.location, Some(cage.clone()));
    assert_eq!(later.updated_ago, Some(3000));
    let now_read = GetLocationResponse::from(&state);
    assert_eq!(now_read.location, Some(cage));
}

#[test]
fn location_only_admin_may_post() {
    let mut state = LocationState::default();
    let out = post_location(&mut state, &user(0), PostLocationRequest { location: Some(LocationVariant::Stage(Stage::Elixir)) }, &listing());
    assert!(matches!(out, PostLocationOutcome::Forbidden));
    assert!(state.location.is_none());
    let out = post_location(&mut state, &user(1), PostLocationRequest { location: None }, &listing());
    assert!(matches!(out, PostLocationOutcome::Updated(_)));
    assert!(state.updated_at.is_some());
}

fn tl(id: &str, name: &str) -> TomorrowlandStage {
    TomorrowlandStage { id: id.to_string(), name: name.to_string() }
}

fn listing() -> Vec<TomorrowlandStage> {
    vec![tl("s1", "Mainstage"), tl("s2", "Freedom")]
}

#[test]
fn location_unknown_listed_stage_is_refused() {
    let mut state = LocationState::default();
    let before = post_location_at(&mut state, &user(1), PostLocationRequest { location: Some(LocationVariant::Stage(Stage::Cage)) }, &listing(), 10, 10);
    assert!(matches!(before, PostLocationOutcome::Updated(_)));
    for wrong in [tl("s1", "Freedom"), tl("s3", "Mainstage"), tl("s2", "freedom")] {
        let out = post_location_at(&mut state, &user(1), PostLocationRequest { location: Some(LocationVariant::Tomorrowland(wrong)) }, &listing(), 20, 20);
        assert!(matches!(out, PostLocationOutcome::StageNotFound));
        assert_eq!(state.location, Some(LocationVariant::Stage(Stage::Cage)));
        assert_eq!(state.updated_at, Some(10));
    }
    let out = post_location_at(&mut state, &user(1), PostLocationRequest { location: Some(LocationVariant::Tomorrowland(tl("s2", "Freedom"))) }, &vec![], 30, 30);
    assert!(matches!(out, PostLocationOutcome::StageNotFound));
    let out = post_location_at(&mut state, &user(0), PostLocationRequest { location: Some(LocationVariant::Tomorrowland(tl("s9", "Nowhere"))) }, &listing(), 30, 30);
    assert!(matches!(out, PostLocationOutcome::Forbidden));
}

#[test]
fn location_listed_and_custom_locations_are_set() {
    let mut state = LocationState::default();
    let out = post_location_at(&mut state, &user(1), PostLocationRequest { location: Some(LocationVariant::Tomorrowland(tl("s2", "Freedom"))) }, &listing(), 40, 45);
    match out {
        PostLocationOutcome::Updated(r) => {
            assert_eq!(r.location, Some(LocationVariant::Tomorrowland(tl("s2", "Freedom"))));
            assert_eq!(r.updated_at, Some(40));
            assert_eq!(r.updated_ago, Some(5));
        }
        _ => panic!("expected an update"),
    }
    let custom = LocationVariant::Custom { name: "Food court".to_string() };
    let out = post_location_at(&mut state, &user(1), PostLocationRequest { location: Some(custom.clone()) }, &vec![], 50, 50);
    assert!(matches!(out, PostLocationOutcome::Updated(_)));
    assert_eq!(state.location, Some(custom));
    assert_eq!(state.updated_at, Some(50));
}

#[test]
fn location_wraps_like_compiled_arithmetic() {
    let state = LocationState { location: None, updated_at: Some(i64::MIN) };
    assert_eq!(GetLocationResponse::from_state_at(&state, 1).updated_ago, Some(1i64.wrapping_sub(i64::MIN)));
}

#[test]
fn db_setup_sequence() {
    assert_eq!(db_init_probe(DbInitStep::ImagesTable), Some(IMAGES_TABLE_EXISTS));
    assert_eq!(db_init_probe(DbInitStep::Done), None);
    let mut step = DbInitStep::ImagesTable;
    let mut run = Vec::new();
    for present in [false, true, false].iter() {
        assert!(db_init_probe(step).is_some());
        let (next, statement) = db_init_advance(step, *present);
        if let Some(s) = statement {
            run.push(s);
        }
        step = next;
    }
    assert_eq!(step, DbInitStep::Done);
    assert_eq!(run, vec![CREATE_IMAGES_TABLE, CREATE_PARAMS_TABLE]);
    assert_eq!(db_init_advance(DbInitStep::ContentHashColumn, false).1, Some(ADD_CONTENT_HASH_COLUMN));
    assert!(CREATE_PARAMS_TABLE.contains("('upload_allowed', '0', 'whether image upload is allowed')"));
}

#[test]
fn upload_switch() {
    assert!(upload_allowed_from_param(Some("1")));
    assert!(!upload_allowed_from_param(Some("0")));
    assert!(!upload_allowed_from_param(Some("true")));
    assert!(!upload_allowed_from_param(None));
}

#[test]
fn settings_defaults() {
    let s = AppState::from_settings(None, None);
    assert_eq!(s.upload_dir, "./uploads");
    assert_eq!(s.max_file_size, 6291456);
    let t = AppState::from_settings(Some("/data".to_string()), Some("2048"));
    assert_eq!(t.upload_dir, "/data");
    assert_eq!(t.max_file_size, 2048);
    assert_eq!(AppState::from_settings(None, Some("-1")).max_file_size, 6291456);
}

#[test]
fn cors_origins() {
    assert!(cors_origin_allowed("http://localhost:5173", None));
    assert!(cors_origin_allowed("http://127.0.0.1:8080", None));
    assert!(cors_origin_allowed("http://[::1]", None));
    assert!(cors_origin_allowed("https://photobomber.servebeer.com", None));
    assert!(!cors_origin_allowed("https://photobomber.servebeer.com.evil", None));
    assert!(!cors_origin_allowed("https://example.com", Some("false")));
    assert!(cors_origin_allowed("https://example.com", Some("true")));
}
