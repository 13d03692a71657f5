//! Stateless human-verification challenges and short-lived bearer credentials.
//!
//! A challenge's pending answer travels to the client inside an opaque sealed
//! token (authenticated encryption, base64-rendered); a solved challenge is
//! rewarded with a signed bearer credential. Both round trips are verified
//! here: sealing, unsealing, answer and expiry checks, credential issuance
//! and authorization.

use vstd::prelude::*;

pub mod auth;
pub mod error;
pub mod payload;
pub mod request_id;
pub mod seal;
pub mod service;

verus! {

/// Number of seconds a freshly issued credential stays valid.
pub const JWT_TTL_SECONDS: u64 = 1800;

} // verus!
