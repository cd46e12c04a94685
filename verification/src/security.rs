//! The app's security configuration and the secret it keeps in the
//! operating system's credential store. Reading and writing the store is
//! done by the caller; this module decides what is written and what a
//! lookup means.
use vstd::prelude::*;
use crate::base64_text::{base64_decode, base64_standard, lemma_base64_len, lemma_base64_one_pad, law_base64_roundtrip};
use crate::encoding::base64_encode;
use crate::oauth::{AccessTokenConfiguration, AuthoizationTokenConfiguration};
use rand::RngExt;

verus! {

/// Where the app's secret lives in the credential store, and how it signs
/// users in.
#[derive(Clone, Debug)]
pub struct QuagginKeyringSecurity {
    pub keyring_entry_name: String,
    pub keyring_username: String,
    pub authorization_token_configuration: AuthoizationTokenConfiguration,
    pub access_token_configuration: AccessTokenConfiguration,
}

/// Fills 32 bytes from the thread's generator (`rand::rng()` and
/// `RngExt::fill`). Nothing is promised of the bytes.
#[verifier::external_body]
pub(crate) fn random_key_bytes() -> (r: [u8; 32]) {
    let mut bytes = [0u8; 32];
    rand::rng().fill(&mut bytes);
    bytes
}

impl QuagginKeyringSecurity {
    /// The credential store entry's name.
    pub fn keyring_entry_name(&self) -> (r: &str)
        ensures
            r@ == self.keyring_entry_name@,
    {
        self.keyring_entry_name.as_str()
    }

    /// The credential store entry's user.
    pub fn keyring_username(&self) -> (r: &str)
        ensures
            r@ == self.keyring_username@,
    {
        self.keyring_username.as_str()
    }

    /// The password stored for 32 key bytes: their standard base64, 44
    /// characters ending in exactly one `=`, which decodes back to the bytes.
    pub fn keyring_password_from(bytes: &[u8; 32]) -> (r: String)
        ensures
            r@ == base64_standard(bytes@),
            r@.len() == 44,
            r@[43] == '=',
            r@[42] != '=',
            base64_decode(r@) == Some(bytes@),
    {
        proof {
            lemma_base64_len(bytes@);
            lemma_base64_one_pad(bytes@);
            law_base64_roundtrip(bytes@);
        }
        base64_encode(bytes)
    }

    /// A fresh password for the credential store entry: 32 random bytes in
    /// standard base64. Whatever bytes are drawn, it is the base64 of 32
    /// bytes: 44 characters ending in exactly one `=`, decoding to 32 bytes.
    pub fn new_keyring_password() -> (r: String)
        ensures
            exists|b: Seq<u8>| b.len() == 32 && r@ == base64_standard(b),
            r@.len() == 44,
            r@[43] == '=',
            r@[42] != '=',
            base64_decode(r@) is Some && base64_decode(r@)->0.len() == 32,
    {
        let bytes = random_key_bytes();
        Self::keyring_password_from(&bytes)
    }

    /// Whether a lookup of the entry found a secret: a stored password
    /// counts when it is not empty; a failed lookup counts as no secret.
    pub fn secret_is_set(stored: &Option<String>) -> (r: bool)
        ensures
            r == (stored is Some && stored->Some_0@.len() > 0),
    {
        match stored {
            Some(password) => password.unicode_len() != 0,
            None => false,
        }
    }

    /// What loading the configuration reports about the stored secret.
    pub fn secret_status_message(secret_set: bool) -> (r: String)
        ensures
            r@ == (if secret_set {
                "the secret has been set, quaggin!"@
            } else {
                "Oh no quaggin! The secret hasn't been set!"@
            }),
    {
        if secret_set {
            "the secret has been set, quaggin!".to_owned()
        } else {
            "Oh no quaggin! The secret hasn't been set!".to_owned()
        }
    }

    /// What changing the entry's password reports.
    pub fn password_change_status(changed: bool) -> (r: String)
        ensures
            r@ == (if changed {
                "password changed"@
            } else {
                "failed to change password"@
            }),
    {
        if changed {
            "password changed".to_owned()
        } else {
            "failed to change password".to_owned()
        }
    }
}

} // verus!
