//! Process configuration and the credential provider: deriving a
//! service-account key from the configured secret.
//!
//! The secret is canonically a URL-safe, unpadded base64 encoding of a JSON
//! service-account credential document. A secret that does not decode or
//! does not parse yields `ServiceAccountNotFound`; the raw secret value
//! never appears in any error or message.

use vstd::prelude::*;
use vstd::string::StringExecFns;

use crate::api_error::ApiError;
use crate::decimal::spec_decimal;
use crate::decimal::u64_to_decimal;

verus! {

/// The service-account credential key type of the outside OAuth library,
/// carried through this crate as an opaque value.
#[verifier::external_type_specification]
#[verifier::external_body]
pub struct ExServiceAccountKey(yup_oauth2::ServiceAccountKey);

/// What base64's URL-safe, unpadded engine decodes a string to, if anything.
pub uninterp spec fn b64_url_decode(s: Seq<char>) -> Option<Seq<u8>>;

/// Relies on base64's `URL_SAFE_NO_PAD` engine: decoding is a pure function
/// of the input string, returning bytes exactly when the input is valid
/// URL-safe unpadded base64.
#[verifier::external_body]
fn decode_secret(s: &str) -> (r: Option<Vec<u8>>)
    ensures
        match r {
            Some(v) => b64_url_decode(s@) == Some(v@),
            None => b64_url_decode(s@) is None,
        },
{
    base64::Engine::decode(&base64::engine::general_purpose::URL_SAFE_NO_PAD, s).ok()
}

/// Whether a byte sequence parses as a JSON service-account credential
/// document.
pub uninterp spec fn sa_key_parses(bytes: Seq<u8>) -> bool;

/// Relies on serde_json::from_slice for yup_oauth2::ServiceAccountKey:
/// whether the bytes parse into the credential shape is a pure function of
/// the bytes.
#[verifier::external_body]
fn parse_service_account_key(bytes: &Vec<u8>) -> (r: Option<yup_oauth2::ServiceAccountKey>)
    ensures
        r is Some <==> sa_key_parses(bytes@),
{
    serde_json::from_slice(bytes.as_slice()).ok()
}

/// Whether the configured secret is a well-formed encoding of a
/// service-account credential document.
pub open spec fn spec_secret_parses(secret: Seq<char>) -> bool {
    match b64_url_decode(secret) {
        Some(bytes) => sa_key_parses(bytes),
        None => false,
    }
}

/// The configuration the gateway is started with.
pub struct Config {
    pub host: String,
    pub port: u32,
    pub service_account: String,
}

impl Config {
    /// Derives the service-account key from the configured secret.
    /// Succeeds exactly when the secret decodes as URL-safe unpadded base64
    /// and the decoded bytes parse as a credential document; every failure
    /// is `ServiceAccountNotFound`, so the secret itself is never surfaced.
    pub fn sa_to_json(&self) -> (r: Result<yup_oauth2::ServiceAccountKey, ApiError>)
        ensures
            r is Ok <==> spec_secret_parses(self.service_account@),
            r matches Err(e) ==> e == ApiError::ServiceAccountNotFound,
    {
        match decode_secret(self.service_account.as_str()) {
            Some(bytes) => match parse_service_account_key(&bytes) {
                Some(key) => Ok(key),
                None => Err(ApiError::ServiceAccountNotFound),
            },
            None => Err(ApiError::ServiceAccountNotFound),
        }
    }
}

/// The bind address the process serves on.
pub struct Env {
    pub host: String,
    pub port: u32,
}

impl Env {
    /// The `host:port` form of the bind address.
    pub fn to_address(&self) -> (r: String)
        ensures
            r@ == self.host@ + ":"@ + spec_decimal(self.port as nat),
    {
        self.host.clone().concat(":").concat(u64_to_decimal(self.port as u64).as_str())
    }
}

} // verus!
