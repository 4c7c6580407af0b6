//! The TLS material provisioner: an externally supplied certificate/key
//! pair passes through unchanged; otherwise a throwaway self-signed pair
//! is generated for the bind host.

use vstd::prelude::*;

verus! {

/// Relies on rcgen: `CertificateParams::new` parses each subject
/// alternative name, producing an IP SAN for a literal IP address and a
/// DNS SAN otherwise; `KeyPair::generate` makes a fresh random key;
/// `CertificateParams::self_signed` signs the certificate with it;
/// `Certificate::pem` and `KeyPair::serialize_pem` render the two PEM
/// texts.  The pair is random, so nothing is claimed of its content.
#[verifier::external_body]
fn generate_self_signed(host: &str) -> (r: Option<(String, String)>) {
    let params = match rcgen::CertificateParams::new(vec![host.to_string()]) {
        Ok(p) => p,
        Err(_) => return None,
    };
    let key_pair = match rcgen::KeyPair::generate() {
        Ok(k) => k,
        Err(_) => return None,
    };
    let cert = match params.self_signed(&key_pair) {
        Ok(c) => c,
        Err(_) => return None,
    };
    Some((cert.pem(), key_pair.serialize_pem()))
}

/// Produce the `(certificate PEM, key PEM)` pair for the instance.  A
/// supplied pair is used verbatim — no validation, no regeneration; only
/// when none was supplied is a fresh self-signed pair generated, and only
/// that generation can fail.
pub fn provision_tls(supplied: Option<(String, String)>, host: &str) -> (r: Option<
    (String, String),
>)
    ensures
        (supplied matches Some(pair) ==> r == Some(pair)),
        r is None ==> supplied is None,
{
    match supplied {
        Some(pair) => Some(pair),
        None => generate_self_signed(host),
    }
}

} // verus!
