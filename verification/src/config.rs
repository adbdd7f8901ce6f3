//! The configuration, read once at startup and checked as a whole before
//! anything is asked of the node.

use vstd::prelude::*;
use std::str::FromStr;
use secp256k1::SecretKey;
use crate::address::{h160_from_str, hex_address, Address};
use crate::error::{ConfigField, SwapError};

verus! {

/// `secp256k1::Error`: why a key was refused. Nothing is read from it.
#[verifier::external_type_specification]
#[verifier::external_body]
pub struct ExKeyError(secp256k1::Error);

/// The thirty-two bytes of the private key that a text in hexadecimal
/// notation stands for, as `SecretKey::from_str` reads it, or nothing where
/// the text is no private key.
pub uninterp spec fn hex_secret_key(text: Seq<char>) -> Option<Seq<u8>>;

/// `SecretKey::from_str`: reads a private key from sixty-four hexadecimal
/// digits and checks it against the curve. The outcome depends on the text
/// alone.
#[verifier::external_body]
fn secret_key_from_str(text: &str) -> (r: Result<[u8; 32], secp256k1::Error>)
    ensures
        match r {
            Ok(key) => hex_secret_key(text@) == Some(key@),
            Err(_) => hex_secret_key(text@) is None,
        },
{
    match SecretKey::from_str(text) {
        Ok(key) => Ok(key.secret_bytes()),
        Err(e) => Err(e),
    }
}

/// The configuration as plain values.
pub ghost struct ConfigView {
    pub endpoint: Seq<char>,
    pub account: Seq<u8>,
    pub private_key: Seq<u8>,
}

/// The configuration of a run: the URL of the node's WebSocket endpoint, the
/// address of the sending account and its private key.
pub struct Config {
    pub endpoint: String,
    pub account: Address,
    pub private_key: [u8; 32],
}

impl View for Config {
    type V = ConfigView;

    open spec fn view(&self) -> ConfigView {
        ConfigView {
            endpoint: self.endpoint@,
            account: self.account@,
            private_key: self.private_key@,
        }
    }
}

/// What `Config::load` returns. Presence is checked first, in the order
/// endpoint, account address, private key; then the form of the account
/// address and of the private key. The first check that fails names its
/// field.
pub open spec fn load_spec(
    endpoint: Option<String>,
    account: Option<String>,
    private_key: Option<String>,
) -> Result<ConfigView, SwapError> {
    if endpoint is None {
        Err(SwapError::ConfigMissing(ConfigField::Endpoint))
    } else if account is None {
        Err(SwapError::ConfigMissing(ConfigField::AccountAddress))
    } else if private_key is None {
        Err(SwapError::ConfigMissing(ConfigField::PrivateKey))
    } else if hex_address(account->Some_0@) is None {
        Err(SwapError::ConfigMalformed(ConfigField::AccountAddress))
    } else if hex_secret_key(private_key->Some_0@) is None {
        Err(SwapError::ConfigMalformed(ConfigField::PrivateKey))
    } else {
        Ok(
            ConfigView {
                endpoint: endpoint->Some_0@,
                account: hex_address(account->Some_0@)->Some_0,
                private_key: hex_secret_key(private_key->Some_0@)->Some_0,
            },
        )
    }
}

impl Config {
    /// Checks the three values of the configuration, each `None` where it is
    /// absent, and returns them in their parsed form.
    pub fn load(endpoint: Option<String>, account: Option<String>, private_key: Option<String>) -> (r:
        Result<Config, SwapError>)
        ensures
            match r {
                Ok(config) => load_spec(endpoint, account, private_key) == Ok::<
                    ConfigView,
                    SwapError,
                >(config@),
                Err(e) => load_spec(endpoint, account, private_key) == Err::<ConfigView, SwapError>(
                    e,
                ),
            },
    {
        let endpoint_text = match endpoint {
            Some(text) => text,
            None => {
                return Err(SwapError::ConfigMissing(ConfigField::Endpoint));
            },
        };
        let account_text = match account {
            Some(text) => text,
            None => {
                return Err(SwapError::ConfigMissing(ConfigField::AccountAddress));
            },
        };
        let key_text = match private_key {
            Some(text) => text,
            None => {
                return Err(SwapError::ConfigMissing(ConfigField::PrivateKey));
            },
        };
        let account = match h160_from_str(account_text.as_str()) {
            Some(address) => address,
            None => {
                return Err(SwapError::ConfigMalformed(ConfigField::AccountAddress));
            },
        };
        let private_key = match secret_key_from_str(key_text.as_str()) {
            Ok(key) => key,
            Err(_) => {
                return Err(SwapError::ConfigMalformed(ConfigField::PrivateKey));
            },
        };
        Ok(Config { endpoint: endpoint_text, account, private_key })
    }
}

} // verus!
