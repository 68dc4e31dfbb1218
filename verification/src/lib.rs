//! Verified core of the photo-bombing back-end: tokens and their claims, cookies,
//! authentication decisions, upload and image-serving rules, upvote budgets, the
//! location board and the database set-up sequence.
pub mod text;
pub mod numeric;
pub mod constants;
pub mod jwt;
pub mod auth;
pub mod claims;
pub mod cookies;
pub mod middleware;
pub mod paths;
pub mod upvote;
pub mod images;
pub mod location;
pub mod db;
pub mod settings;
pub mod stages;
