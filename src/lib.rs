//! Authentication and authorization for the Hermod form-collection service.
//!
//! Login requests carry Basic credentials, checked against salted Argon2
//! password hashes. A successful login earns a signed bearer token, and every
//! protected request is resolved, through its token, to one account.

pub mod auth;
pub mod base64_text;
pub mod errors;
pub mod jwt;
pub mod text;
pub mod password;
pub mod postmark;
pub mod requests;
pub mod user;
