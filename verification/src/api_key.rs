//! API keys handed to developers who need access to private account data.
use vstd::prelude::*;
use crate::scopes::ApiKeyScope;

verus! {

/// A key for private data, how long it lasts, what it may reach, and what
/// the token information endpoint says about it.
pub struct ApiKey {
    key: String,
    duration: i32,
    scope: Vec<ApiKeyScope>,
    token_info: String,
}

impl ApiKey {
    /// The key's text.
    pub closed spec fn key_text(&self) -> Seq<char> {
        self.key@
    }

    /// How long the key lasts.
    pub closed spec fn duration_value(&self) -> i32 {
        self.duration
    }

    /// What the key may reach.
    pub closed spec fn scope_list(&self) -> Seq<ApiKeyScope> {
        self.scope@
    }

    /// The token information.
    pub closed spec fn token_info_text(&self) -> Seq<char> {
        self.token_info@
    }

    /// The key.
    #[allow(non_snake_case)]
    pub fn Key(&self) -> (r: &str)
        ensures
            r@ == self.key_text(),
    {
        self.key.as_str()
    }

    /// How long the key lasts.
    #[allow(non_snake_case)]
    pub fn Duration(&self) -> (r: &i32)
        ensures
            *r == self.duration_value(),
    {
        &self.duration
    }

    /// What the key may reach.
    #[allow(non_snake_case)]
    pub fn Scope(&self) -> (r: &Vec<ApiKeyScope>)
        ensures
            r@ == self.scope_list(),
    {
        &self.scope
    }

    /// What the token information endpoint says about the key.
    #[allow(non_snake_case)]
    pub fn TokenInfo(&self) -> (r: &str)
        ensures
            r@ == self.token_info_text(),
    {
        self.token_info.as_str()
    }
}

/// Issues a key for private user data with the scopes a developer asks
/// for. The key is a fixed placeholder lasting 60, and its token
/// information says where the real information will come from.
pub fn request_private_data_api_key(desired_scope: Vec<ApiKeyScope>) -> (r: ApiKey)
    ensures
        r.key_text() == "some_key"@,
        r.duration_value() == 60,
        r.scope_list() == desired_scope@,
        r.token_info_text() == "get the token info from the api endpoint"@,
{
    ApiKey {
        key: "some_key".to_owned(),
        duration: 60,
        scope: desired_scope,
        token_info: "get the token info from the api endpoint".to_owned(),
    }
}

} // verus!
