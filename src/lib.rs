//! Verified core of a campus-portal client: scraping of login tokens, the
//! password transform, the password and QR-code login flows as state
//! machines, the session slot, and the download task queue with its
//! dispatch, failure and retry rules.

pub mod logging;
pub mod login;
pub mod tokens;
pub mod cipher;
pub mod qrcode;
pub mod flow;
pub mod download;
pub mod courses;
