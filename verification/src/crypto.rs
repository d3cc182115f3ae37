//! Whether this build can sign and encrypt, and what a certificate is made from.
//!
//! Monitoring does not depend on security. The library carries the names of the security
//! layer so that a server can say what it offers; it holds none of the algorithms.

use vstd::prelude::*;
use std::path::PathBuf;

verus! {

/// `std::path::PathBuf`, a path that owns its text. Nothing is said of what it holds.
#[verifier::external_type_specification]
#[verifier::external_body]
pub struct ExPathBuf(PathBuf);

/// What is needed to create an X509 certificate and its private key.
#[derive(Debug)]
pub struct X509CreateCertArgs {
    pub key_size: u32,
    pub pki_path: PathBuf,
    pub overwrite: bool,
    pub common_name: String,
    pub organization: String,
    pub organizational_unit: String,
    pub country: String,
    pub state: String,
    pub alt_host_names: Vec<String>,
    pub certificate_duration_days: u32,
}

/// The security profile that wraps keys with RSA 1.5 and encrypts with 128-bit keys.
#[derive(Debug)]
pub struct Crypto128Rsa15 {}

/// Whether signing and encryption are built in: they are not.
pub fn is_crypto_enabled() -> (enabled: bool)
    ensures
        !enabled,
{
    false
}

} // verus!
