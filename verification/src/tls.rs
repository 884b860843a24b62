//! Certificates and private keys from the text of PEM files.
//!
//! Reading the files is left to the caller; what is decided here is what
//! their contents yield. The PEM sections themselves are taken apart by the
//! `rustls-pemfile` crate, whose results are named but not proved.

use crate::error::IoError;
use vstd::prelude::*;

verus! {

#[verifier::external_type_specification]
#[verifier::external_body]
pub struct ExIoError(std::io::Error);

/// What `rustls_pemfile::certs` makes of the bytes of a PEM file: the DER
/// contents of its certificate sections in file order, or nothing where a
/// section is malformed.
pub uninterp spec fn pem_certificates(pem: Seq<u8>) -> Option<Seq<Seq<u8>>>;

/// What `rustls_pemfile::rsa_private_keys` makes of the bytes of a PEM file:
/// the DER contents of its RSA private key sections in file order, or nothing
/// where a section is malformed.
pub uninterp spec fn pem_rsa_private_keys(pem: Seq<u8>) -> Option<Seq<Seq<u8>>>;

/// `rustls_pemfile::certs` on an in-memory file. The result depends on the
/// bytes alone: it succeeds exactly where the name above is defined, and then
/// returns what the name says.
#[verifier::external_body]
fn read_certs(pem: &[u8]) -> (res: Result<Vec<Vec<u8>>, std::io::Error>)
    ensures
        match res {
            Ok(sections) => pem_certificates(pem@) == Some(sections.deep_view()),
            Err(_) => pem_certificates(pem@) is None,
        },
{
    let mut reader = pem;
    rustls_pemfile::certs(&mut reader)
}

/// `rustls_pemfile::rsa_private_keys` on an in-memory file. The result
/// depends on the bytes alone: it succeeds exactly where the name above is
/// defined, and then returns what the name says.
#[verifier::external_body]
fn read_rsa_private_keys(pem: &[u8]) -> (res: Result<Vec<Vec<u8>>, std::io::Error>)
    ensures
        match res {
            Ok(sections) => pem_rsa_private_keys(pem@) == Some(sections.deep_view()),
            Err(_) => pem_rsa_private_keys(pem@) is None,
        },
{
    let mut reader = pem;
    rustls_pemfile::rsa_private_keys(&mut reader)
}

/// What loading certificates from a PEM file yields.
pub open spec fn loaded_certs(pem: Seq<u8>) -> Result<Seq<Seq<u8>>, IoError> {
    match pem_certificates(pem) {
        Some(certs) => Ok(certs),
        None => Err(IoError::InvalidCertificate),
    }
}

/// What loading private keys from a PEM file yields.
pub open spec fn loaded_keys(pem: Seq<u8>) -> Result<Seq<Seq<u8>>, IoError> {
    match pem_rsa_private_keys(pem) {
        Some(keys) => Ok(keys),
        None => Err(IoError::InvalidKey),
    }
}

/// A loading result with the DER contents taken by their views.
pub open spec fn loaded_view(res: Result<Vec<Vec<u8>>, IoError>) -> Result<
    Seq<Seq<u8>>,
    IoError,
> {
    match res {
        Ok(sections) => Ok(sections.deep_view()),
        Err(fault) => Err(fault),
    }
}

/// The key a server is set up with: the last of those loaded.
pub open spec fn chosen_key(keys: Seq<Seq<u8>>) -> Option<Seq<u8>> {
    if keys.len() == 0 {
        None
    } else {
        Some(keys.last())
    }
}

/// The certificates in the bytes of a PEM file, each as DER, in file order.
/// A file without certificates yields none; a malformed one is refused.
pub fn load_certs(pem: &[u8]) -> (res: Result<Vec<Vec<u8>>, IoError>)
    ensures
        loaded_view(res) == loaded_certs(pem@),
{
    match read_certs(pem) {
        Ok(certs) => Ok(certs),
        Err(_) => Err(IoError::InvalidCertificate),
    }
}

/// The RSA private keys in the bytes of a PEM file, each as DER, in file
/// order. A file without such keys yields none; a malformed one is refused.
pub fn load_keys(pem: &[u8]) -> (res: Result<Vec<Vec<u8>>, IoError>)
    ensures
        loaded_view(res) == loaded_keys(pem@),
{
    match read_rsa_private_keys(pem) {
        Ok(keys) => Ok(keys),
        Err(_) => Err(IoError::InvalidKey),
    }
}

/// Picks the key to set the server up with, if any was loaded.
pub fn choose_key(keys: Vec<Vec<u8>>) -> (key: Option<Vec<u8>>)
    ensures
        match chosen_key(keys.deep_view()) {
            Some(der) => key matches Some(found) && found@ == der,
            None => key is None,
        },
{
    let mut keys = keys;
    let ghost before = keys;
    let key = keys.pop();
    proof {
        if before@.len() > 0 {
            assert(before.deep_view().last() == before@.last()@);
        }
        assert(before.deep_view().len() == before@.len());
    }
    key
}

} // verus!
