//! The OAuth2 side of signing in: the PKCE authorization request that sends
//! the user to the consent page, and the access token request that trades
//! the code from that page for a token.
use vstd::prelude::*;
use crate::encoding::{law_hex_shape, ascii_bytes, ascii_to_bytes, hex_lower, is_ascii_text, sha256, sha256_digest, to_hex_lower};
use crate::text::{all_digits, decimal, digits_value, lemma_decimal_digits, render_u128};
use rand::RngExt;

verus! {

/// `url::ParseError`, what `url` reports for text that is no URL.
#[verifier::external_type_specification]
#[verifier::external_body]
pub struct ExUrlParseError(url::ParseError);

/// Why an OAuth request could not be prepared.
#[derive(Clone, Copy, Debug, PartialEq, Eq)]
pub enum OAuthError {
    /// The configured endpoint is no URL.
    InvalidUrl,
}

/// A list of (name, value) pairs, as text.
pub open spec fn pairs_view(pairs: Seq<(String, String)>) -> Seq<(Seq<char>, Seq<char>)> {
    pairs.map_values(|p: (String, String)| (p.0@, p.1@))
}

/// What `url::Url::parse` returns for a text: the serialized URL, or `None`
/// when the text is no absolute URL.
pub uninterp spec fn url_parse(input: Seq<char>) -> Option<Seq<char>>;

/// What `url::Url::parse_with_params` returns for a text and query pairs:
/// the serialized URL with the pairs form-encoded onto its query, or `None`
/// when the text is no absolute URL.
pub uninterp spec fn url_with_params(
    input: Seq<char>,
    params: Seq<(Seq<char>, Seq<char>)>,
) -> Option<Seq<char>>;

/// Parses a URL with `url::Url::parse`; the serialization is named by
/// `url_parse`.
#[verifier::external_body]
pub(crate) fn parse_url(input: &str) -> (r: Result<String, url::ParseError>)
    ensures
        match url_parse(input@) {
            Some(u) => r is Ok && r->Ok_0@ == u,
            None => r is Err,
        },
{
    match url::Url::parse(input) {
        Ok(u) => Ok(String::from(u)),
        Err(e) => Err(e),
    }
}

/// How many characters the pairs hold, with one `=` and one `&` each.
pub open spec fn pairs_text_len(pairs: Seq<(Seq<char>, Seq<char>)>) -> nat
    decreases pairs.len(),
{
    if pairs.len() == 0 {
        0
    } else {
        pairs_text_len(pairs.drop_last()) + pairs.last().0.len() + pairs.last().1.len() + 2
    }
}

/// The most characters that a link and its query pairs may hold together.
/// `url` keeps its offsets in `u32` and panics (`to_u32(..).unwrap()` in
/// `query_pairs_mut`) once a serialization passes 4 GiB; a character is at
/// most four UTF-8 bytes and each byte at most three once percent-encoded,
/// so twelve bytes per character stay under that with room to spare.
pub open spec fn url_text_limit() -> nat {
    300_000_000
}

/// Builds a URL with query pairs by `url::Url::parse_with_params`; the
/// result is named by `url_with_params`. Its source parses the text first and
/// fails only where that parse fails, so it succeeds exactly when
/// `url_parse` does. The bound on the text keeps the result under the 4 GiB
/// where `url` panics.
#[verifier::external_body]
pub(crate) fn parse_url_with_params(input: &str, params: &Vec<(String, String)>) -> (r: Result<
    String,
    url::ParseError,
>)
    requires
        input@.len() + pairs_text_len(pairs_view(params@)) <= url_text_limit(),
    ensures
        match url_with_params(input@, pairs_view(params@)) {
            Some(u) => r is Ok && r->Ok_0@ == u,
            None => r is Err,
        },
        r is Ok <==> url_parse(input@) is Some,
{
    match url::Url::parse_with_params(input, params.iter()) {
        Ok(u) => Ok(String::from(u)),
        Err(e) => Err(e),
    }
}

/// Draws a random `u128` from the thread's generator (`rand::rng()` and
/// `RngExt::random`). Nothing is promised of the number.
#[verifier::external_body]
pub(crate) fn random_u128() -> (r: u128) {
    rand::rng().random::<u128>()
}

/// How the app authorizes a user at the OAuth2 provider.
#[derive(Clone, Debug)]
pub struct AuthoizationTokenConfiguration {
    pub oauth2_link: String,
    pub redirect_routing_endpoint: String,
    pub redirect_uri: String,
    pub client_id: String,
    pub response_type: String,
    pub scope: String,
    pub prompt: String,
    pub include_granted_scopes: bool,
}

/// How the app trades an authorization code for an access token.
#[derive(Clone, Debug)]
pub struct AccessTokenConfiguration {
    pub endpoint_url: String,
    pub grant_type: String,
    pub client_id: String,
    pub redirect_uri: String,
}

/// `true` or `false`, as `bool::to_string` writes it.
pub open spec fn bool_text(b: bool) -> Seq<char> {
    if b {
        "true"@
    } else {
        "false"@
    }
}

fn bool_to_string(b: bool) -> (r: String)
    ensures
        r@ == bool_text(b),
{
    if b {
        "true".to_owned()
    } else {
        "false".to_owned()
    }
}

/// The PKCE challenge sent for a code verifier: the lowercase hex of the
/// SHA-256 hash of the verifier's bytes.
pub open spec fn code_challenge(verifier: Seq<char>) -> Seq<char> {
    hex_lower(sha256(ascii_bytes(verifier)))
}

/// The query pairs of the authorization request, in order.
pub open spec fn authorization_params(
    c: AuthoizationTokenConfiguration,
    challenge: Seq<char>,
) -> Seq<(Seq<char>, Seq<char>)> {
    seq![
        ("client_id"@, c.client_id@),
        ("response_type"@, c.response_type@),
        ("redirect_uri"@, c.redirect_uri@),
        ("scope"@, c.scope@),
        ("prompt"@, c.prompt@),
        ("include_granted_scopes"@, bool_text(c.include_granted_scopes)),
        ("code_verifier"@, challenge),
        ("code_challenge_method"@, "S256"@),
    ]
}

/// How many characters of the configuration go into the authorization URL.
pub open spec fn authorization_text_len(c: AuthoizationTokenConfiguration) -> nat {
    c.oauth2_link@.len() + c.client_id@.len() + c.response_type@.len() + c.redirect_uri@.len()
        + c.scope@.len() + c.prompt@.len()
}

/// The most characters of the configuration that an authorization URL can
/// carry: the URL limit less what the request adds (parameter names,
/// separators, the 64-character challenge and the scopes flag).
pub open spec fn authorization_text_limit() -> nat {
    299_999_000
}

/// A prepared authorization request: the secret verifier to keep, the
/// challenge derived from it, and the consent page URL to open.
#[derive(Clone, Debug)]
pub struct AuthorizationRequest {
    pub code_verifier: String,
    pub code_challenge: String,
    pub url: String,
}

/// The ASCII digits are ASCII text.
proof fn lemma_digits_are_ascii(s: Seq<char>)
    requires
        all_digits(s),
    ensures
        is_ascii_text(s),
{
    assert forall|i: int| 0 <= i < s.len() implies (#[trigger] s[i] as u32) < 128 by {
        assert(crate::text::is_digit(s[i]));
    }
}

impl AuthoizationTokenConfiguration {
    /// Prepares the authorization request for a random number: the verifier
    /// is the number in decimal, the challenge is derived from it, and the URL
    /// is the OAuth2 link with the request's query pairs. A link that is no
    /// URL gives `InvalidUrl`.
    pub fn authorization_request(&self, random: u128) -> (r: Result<AuthorizationRequest, OAuthError>)
        requires
            authorization_text_len(*self) <= authorization_text_limit(),
        ensures
            match url_with_params(
                self.oauth2_link@,
                authorization_params(*self, code_challenge(decimal(random as nat))),
            ) {
                Some(u) => r is Ok && r->Ok_0.code_verifier@ == decimal(random as nat)
                    && r->Ok_0.code_challenge@ == code_challenge(decimal(random as nat))
                    && r->Ok_0.url@ == u,
                None => r == Err::<AuthorizationRequest, OAuthError>(OAuthError::InvalidUrl),
            },
            r is Ok <==> url_parse(self.oauth2_link@) is Some,
            r is Ok ==> all_digits(r->Ok_0.code_verifier@) && digits_value(r->Ok_0.code_verifier@)
                == random,
            r is Ok ==> r->Ok_0.code_challenge@ == hex_lower(
                sha256(ascii_bytes(r->Ok_0.code_verifier@)),
            ),
    {
        let code_verifier = render_u128(random);
        proof {
            lemma_decimal_digits(random as nat);
            lemma_digits_are_ascii(code_verifier@);
        }
        let verifier_bytes = ascii_to_bytes(code_verifier.as_str());
        let hash = sha256_digest(verifier_bytes.as_slice());
        let code_challenge = to_hex_lower(hash.as_slice());
        let mut params: Vec<(String, String)> = Vec::new();
        params.push(("client_id".to_owned(), self.client_id.clone()));
        params.push(("response_type".to_owned(), self.response_type.clone()));
        params.push(("redirect_uri".to_owned(), self.redirect_uri.clone()));
        params.push(("scope".to_owned(), self.scope.clone()));
        params.push(("prompt".to_owned(), self.prompt.clone()));
        params.push(("include_granted_scopes".to_owned(), bool_to_string(self.include_granted_scopes)));
        params.push(("code_verifier".to_owned(), code_challenge.clone()));
        params.push(("code_challenge_method".to_owned(), "S256".to_owned()));
        assert(pairs_view(params@) =~= authorization_params(*self, code_challenge@));
        proof {
            law_hex_shape(hash@);
            reveal_strlit("client_id");
            reveal_strlit("response_type");
            reveal_strlit("redirect_uri");
            reveal_strlit("scope");
            reveal_strlit("prompt");
            reveal_strlit("include_granted_scopes");
            reveal_strlit("code_verifier");
            reveal_strlit("code_challenge_method");
            reveal_strlit("S256");
            reveal_strlit("true");
            reveal_strlit("false");
            reveal_with_fuel(pairs_text_len, 9);
            assert(pairs_text_len(authorization_params(*self, code_challenge@))
                <= authorization_text_len(*self) - self.oauth2_link@.len() + 200);
        }
        match parse_url_with_params(self.oauth2_link.as_str(), &params) {
            Ok(url) => Ok(AuthorizationRequest { code_verifier, code_challenge, url }),
            Err(_) => Err(OAuthError::InvalidUrl),
        }
    }
}

impl AuthoizationTokenConfiguration {
    /// Starts a PKCE authorization: draws a random number and prepares the
    /// request for it (see `authorization_request`). Whatever number is drawn,
    /// the verifier is a decimal number, the challenge is derived from it, and
    /// the URL carries the request's query pairs; it fails exactly when the
    /// OAuth2 link is no URL.
    pub fn get_authoization_token(&self) -> (r: Result<AuthorizationRequest, OAuthError>)
        requires
            authorization_text_len(*self) <= authorization_text_limit(),
        ensures
            r is Ok <==> url_parse(self.oauth2_link@) is Some,
            r is Ok ==> exists|n: u128| r->Ok_0.code_verifier@ == decimal(n as nat),
            r is Ok ==> r->Ok_0.code_challenge@ == code_challenge(r->Ok_0.code_verifier@),
            r is Ok ==> r->Ok_0.code_challenge@ == hex_lower(
                sha256(ascii_bytes(r->Ok_0.code_verifier@)),
            ),
            r is Ok ==> url_with_params(
                self.oauth2_link@,
                authorization_params(*self, r->Ok_0.code_challenge@),
            ) == Some(r->Ok_0.url@),
    {
        let random = random_u128();
        self.authorization_request(random)
    }

    /// The refresh token; for now a fixed placeholder.
    pub fn get_refresh_token() -> (r: String)
        ensures
            r@ == "cheese"@,
    {
        "cheese".to_owned()
    }
}

/// The form pairs of the access token request, in order.
pub open spec fn access_token_params(c: AccessTokenConfiguration, code: Seq<char>) -> Seq<
    (Seq<char>, Seq<char>),
> {
    seq![
        ("grant_type"@, c.grant_type@),
        ("code"@, code),
        ("client_id"@, c.client_id@),
        ("redirect_uri"@, c.redirect_uri@),
    ]
}

/// A prepared access token request: a form POST of `params` to `endpoint_url`.
#[derive(Clone, Debug)]
pub struct AccessTokenRequest {
    pub endpoint_url: String,
    pub content_type: String,
    pub params: Vec<(String, String)>,
}

impl AccessTokenConfiguration {
    /// Prepares the request that trades an authorization code for an access
    /// token: a form-encoded POST to the endpoint with the grant type, the
    /// code, the client id and the redirect URI. An endpoint that is no URL
    /// gives `InvalidUrl`; the library reports it rather than panicking, and
    /// the caller that must stop there panics with its own message.
    pub fn access_token_request(&self, permission_code: &str) -> (r: Result<AccessTokenRequest, OAuthError>)
        ensures
            match url_parse(self.endpoint_url@) {
                Some(_) => r is Ok && r->Ok_0.endpoint_url@ == self.endpoint_url@
                    && r->Ok_0.content_type@ == "application/x-www-form-urlencoded"@
                    && pairs_view(r->Ok_0.params@) == access_token_params(*self, permission_code@),
                None => r == Err::<AccessTokenRequest, OAuthError>(OAuthError::InvalidUrl),
            },
            r is Ok ==> r->Ok_0.params@.len() == 4
                && r->Ok_0.params@[0].0@ == "grant_type"@ && r->Ok_0.params@[0].1@ == self.grant_type@
                && r->Ok_0.params@[1].0@ == "code"@ && r->Ok_0.params@[1].1@ == permission_code@
                && r->Ok_0.params@[2].0@ == "client_id"@ && r->Ok_0.params@[2].1@ == self.client_id@
                && r->Ok_0.params@[3].0@ == "redirect_uri"@ && r->Ok_0.params@[3].1@
                == self.redirect_uri@,
    {
        match parse_url(self.endpoint_url.as_str()) {
            Err(_) => Err(OAuthError::InvalidUrl),
            Ok(_) => {
                let mut params: Vec<(String, String)> = Vec::new();
                params.push(("grant_type".to_owned(), self.grant_type.clone()));
                params.push(("code".to_owned(), permission_code.to_owned()));
                params.push(("client_id".to_owned(), self.client_id.clone()));
                params.push(("redirect_uri".to_owned(), self.redirect_uri.clone()));
                assert(pairs_view(params@) =~= access_token_params(*self, permission_code@));
                Ok(
                    AccessTokenRequest {
                        endpoint_url: self.endpoint_url.clone(),
                        content_type: "application/x-www-form-urlencoded".to_owned(),
                        params,
                    },
                )
            },
        }
    }
}

/// The challenge hashes the whole verifier: it is the lowercase hex of the
/// SHA-256 of all the verifier's bytes, one byte per character.
pub proof fn law_challenge_hashes_whole_verifier(verifier: Seq<char>)
    ensures
        code_challenge(verifier) == hex_lower(sha256(ascii_bytes(verifier))),
        ascii_bytes(verifier).len() == verifier.len(),
        forall|i: int| 0 <= i < verifier.len() ==> #[trigger] ascii_bytes(verifier)[i] == verifier[i] as u8,
{
}

/// Each query pair of the authorization request carries the configuration's
/// own field; the challenge goes under `code_verifier`, announced as S256.
pub proof fn law_authorization_pairs_carry_fields(c: AuthoizationTokenConfiguration, challenge: Seq<char>)
    ensures
        authorization_params(c, challenge).len() == 8,
        authorization_params(c, challenge)[0] == ("client_id"@, c.client_id@),
        authorization_params(c, challenge)[1] == ("response_type"@, c.response_type@),
        authorization_params(c, challenge)[2] == ("redirect_uri"@, c.redirect_uri@),
        authorization_params(c, challenge)[3] == ("scope"@, c.scope@),
        authorization_params(c, challenge)[4] == ("prompt"@, c.prompt@),
        authorization_params(c, challenge)[5].0 == "include_granted_scopes"@,
        authorization_params(c, challenge)[5].1 == (if c.include_granted_scopes { "true"@ } else { "false"@ }),
        authorization_params(c, challenge)[6] == ("code_verifier"@, challenge),
        authorization_params(c, challenge)[7] == ("code_challenge_method"@, "S256"@),
{
}

/// Each form pair of the access token request carries the configuration's
/// own field, and the code is the one handed in.
pub proof fn law_access_token_pairs_carry_fields(c: AccessTokenConfiguration, code: Seq<char>)
    ensures
        access_token_params(c, code).len() == 4,
        access_token_params(c, code)[0] == ("grant_type"@, c.grant_type@),
        access_token_params(c, code)[1] == ("code"@, code),
        access_token_params(c, code)[2] == ("client_id"@, c.client_id@),
        access_token_params(c, code)[3] == ("redirect_uri"@, c.redirect_uri@),
{
}

} // verus!
