use base64::Engine;
use dotnettauritest::api_key::request_private_data_api_key;
use dotnettauritest::encoding::{ascii_to_bytes, to_hex_lower};
use dotnettauritest::oauth::{AccessTokenConfiguration, AuthoizationTokenConfiguration, OAuthError};
use dotnettauritest::scopes::{AccountScopes, ApiKeyScope, MountScopes, PvpScopes};
use dotnettauritest::security::QuagginKeyringSecurity;

fn auth_config(link: &str) -> AuthoizationTokenConfiguration {
    AuthoizationTokenConfiguration {
        oauth2_link: link.to_string(),
        redirect_routing_endpoint: "/callback".to_string(),
        redirect_uri: "http://127.0.0.1:3000/callback".to_string(),
        client_id: "b185490f".to_string(),
        response_type: "code".to_string(),
        scope: "identify email".to_string(),
        prompt: "consent".to_string(),
        include_granted_scopes: true,
    }
}

fn token_config(endpoint: &str) -> AccessTokenConfiguration {
    AccessTokenConfiguration {
        endpoint_url: endpoint.to_string(),
        grant_type: "authorization_code".to_string(),
        client_id: "b185490f".to_string(),
        redirect_uri: "http://127.0.0.1:3000/callback".to_string(),
    }
}

fn security() -> QuagginKeyringSecurity {
    QuagginKeyringSecurity {
        keyring_entry_name: "QUAGGIN_STRONGHOLD_PASSWORD".to_string(),
        keyring_username: "quaggin".to_string(),
        authorization_token_configuration: auth_config("https://gw2.me/oauth2/authorize"),
        access_token_configuration: token_config("https://gw2.me/api/token"),
    }
}

const SHA256_OF_123: &str = "a665a45920422f9d417e4867efdc4fb8a04a1f3fff1fa07e998e86f7f7a27ae3";

#[test]
fn api_key_for_private_data() {
    let scope = vec![
        ApiKeyScope::Account(vec![AccountScopes::Bank, AccountScopes::Mounts(vec![MountScopes::Skins])]),
        ApiKeyScope::Pvp(vec![PvpScopes::Stats]),
    ];
    let key = request_private_data_api_key(scope.clone());
    assert_eq!(key.Key(), "some_key");
    assert_eq!(*key.Duration(), 60);
    assert_eq!(*key.Scope(), scope);
    assert_eq!(key.TokenInfo(), "get the token info from the api endpoint");
}

#[test]
fn hex_and_ascii_bytes() {
    assert_eq!(to_hex_lower(&[0x00, 0x0f, 0xa5, 0xff]), "000fa5ff");
    assert_eq!(to_hex_lower(&[]), "");
    assert_eq!(ascii_to_bytes("123"), vec![b'1', b'2', b'3']);
}

#[test]
fn authorization_request_for_a_number() {
    let req = auth_config("https://gw2.me/oauth2/authorize").authorization_request(123).unwrap();
    assert_eq!(req.code_verifier, "123");
    assert_eq!(req.code_challenge, SHA256_OF_123);
    assert_eq!(
        req.url,
        format!(
            "https://gw2.me/oauth2/authorize?client_id=b185490f&response_type=code\
             &redirect_uri=http%3A%2F%2F127.0.0.1%3A3000%2Fcallback&scope=identify+email\
             &prompt=consent&include_granted_scopes=true&code_verifier={}\
             &code_challenge_method=S256",
            SHA256_OF_123
        )
    );
}

#[test]
fn authorization_request_reports_false_scopes_flag() {
    let mut config = auth_config("https://gw2.me/oauth2/authorize");
    config.include_granted_scopes = false;
    let req = config.authorization_request(0).unwrap();
    assert_eq!(req.code_verifier, "0");
    assert!(req.url.contains("&include_granted_scopes=false&"));
}

#[test]
fn authorization_request_needs_a_url() {
    let config = auth_config("not a url");
    assert_eq!(config.authorization_request(5).unwrap_err(), OAuthError::InvalidUrl);
    assert_eq!(config.get_authoization_token().unwrap_err(), OAuthError::InvalidUrl);
}

#[test]
fn random_authorization_is_consistent() {
    let config = auth_config("https://gw2.me/oauth2/authorize");
    let a = config.get_authoization_token().unwrap();
    let n: u128 = a.code_verifier.parse().unwrap();
    assert_eq!(n.to_string(), a.code_verifier);
    let again = config.authorization_request(n).unwrap();
    assert_eq!(again.code_challenge, a.code_challenge);
    assert_eq!(again.url, a.url);
    assert_eq!(a.code_challenge.len(), 64);
}

#[test]
fn refresh_token_placeholder() {
    assert_eq!(AuthoizationTokenConfiguration::get_refresh_token(), "cheese");
}

#[test]
fn access_token_request_form() {
    let req = token_config("https://gw2.me/api/token").access_token_request("the-code").unwrap();
    assert_eq!(req.endpoint_url, "https://gw2.me/api/token");
    assert_eq!(req.content_type, "application/x-www-form-urlencoded");
    let expected: Vec<(String, String)> = [
        ("grant_type", "authorization_code"),
        ("code", "the-code"),
        ("client_id", "b185490f"),
        ("redirect_uri", "http://127.0.0.1:3000/callback"),
    ]
    .iter()
    .map(|(a, b)| (a.to_string(), b.to_string()))
    .collect();
    assert_eq!(req.params, expected);
}

#[test]
fn access_token_request_needs_a_url() {
    assert_eq!(
        token_config("gw2.me/api/token").access_token_request("c").unwrap_err(),
        OAuthError::InvalidUrl
    );
}

#[test]
fn keyring_names() {
    let s = security();
    assert_eq!(s.keyring_entry_name(), "QUAGGIN_STRONGHOLD_PASSWORD");
    assert_eq!(s.keyring_username(), "quaggin");
}

#[test]
fn keyring_password_is_base64() {
    let zeros = QuagginKeyringSecurity::keyring_password_from(&[0u8; 32]);
    assert_eq!(zeros, format!("{}=", "A".repeat(43)));
    let mut bytes = [0u8; 32];
    for (i, b) in bytes.iter_mut().enumerate() {
        *b = i as u8;
    }
    assert_eq!(
        QuagginKeyringSecurity::keyring_password_from(&bytes),
        "AAECAwQFBgcICQoLDA0ODxAREhMUFRYXGBkaGxwdHh8="
    );
}

#[test]
fn fresh_passwords_are_44_characters() {
    let a = QuagginKeyringSecurity::new_keyring_password();
    assert_eq!(a.len(), 44);
    assert!(a.ends_with('='));
    assert!(!a.ends_with("=="));
    let decoded = base64::engine::general_purpose::STANDARD.decode(&a).unwrap();
    assert_eq!(decoded.len(), 32);
    let mut bytes = [0u8; 32];
    bytes.copy_from_slice(&decoded);
    assert_eq!(QuagginKeyringSecurity::keyring_password_from(&bytes), a);
}

#[test]
fn stored_secret_counts_when_not_empty() {
    assert!(QuagginKeyringSecurity::secret_is_set(&Some("pw".to_string())));
    assert!(!QuagginKeyringSecurity::secret_is_set(&Some(String::new())));
    assert!(!QuagginKeyringSecurity::secret_is_set(&None));
}

#[test]
fn status_messages() {
    assert_eq!(QuagginKeyringSecurity::password_change_status(true), "password changed");
    assert_eq!(QuagginKeyringSecurity::password_change_status(false), "failed to change password");
    assert_eq!(QuagginKeyringSecurity::secret_status_message(true), "the secret has been set, quaggin!");
    assert_eq!(
        QuagginKeyringSecurity::secret_status_message(false),
        "Oh no quaggin! The secret hasn't been set!"
    );
}

#[test]
fn different_numbers_give_different_verifiers() {
    let config = auth_config("https://gw2.me/oauth2/authorize");
    let a = config.authorization_request(10).unwrap();
    let b = config.authorization_request(100).unwrap();
    assert_ne!(a.code_verifier, b.code_verifier);
    assert_ne!(a.code_challenge, b.code_challenge);
}

#[test]
fn hex_is_twice_as_long_and_lowercase() {
    let h = to_hex_lower(&[0xde, 0xad, 0xbe, 0xef, 0x01]);
    assert_eq!(h.len(), 10);
    assert!(h.chars().all(|c| c.is_ascii_digit() || ('a'..='f').contains(&c)));
    assert_ne!(to_hex_lower(&[0x01, 0x00]), to_hex_lower(&[0x10, 0x00]));
}
