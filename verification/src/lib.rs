//! Verified core of the Guild Wars 2 companion: search requests against the
//! public GW2 API, the item cache flow, and the OAuth / keyring bookkeeping of
//! the authentication layer.
use vstd::prelude::*;

pub mod api_key;
pub mod base64_text;
pub mod batches;
pub mod cache;
pub mod encoding;
pub mod oauth;
pub mod security;
pub mod scopes;
pub mod search;
pub mod text;

verus! {

} // verus!
