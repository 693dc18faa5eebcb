//! Credential loading and the CSR-generation steps.
//!
//! The caller performs the file reads and the collaborator performs the
//! cryptographic signing; each outcome is handed back here as a plain value.
//! These functions decide what each outcome means: which error it maps to,
//! with the offending path named, and on which outcomes the next step may
//! run. Decoding a secret key delegates to the `p256` crate behind a trusted
//! wrapper; under the hardware-isolated build the secret key cannot be read
//! from disk at all, and resolving its source fails fast instead.

use vstd::prelude::*;
use crate::config::CredentialSource;

verus! {

/// A decoded P-256 signing key, carried opaquely to the signing
/// collaborator. It holds a `p256::SecretKey`, a generic type whose
/// declaration Verus does not accept; nothing in the library reads the key,
/// it only passes through to the signer.
#[derive(Debug)]
#[verifier::external_body]
pub struct SigningKey {
    /// The key itself, for the signing collaborator to consume.
    pub key: p256::SecretKey,
}

/// Whether a string parses as a PEM-encoded SEC1 P-256 private key. Named,
/// not stated: the PEM and SEC1 grammars belong to the `p256` crate.
pub uninterp spec fn sec1_pem_ok(pem: Seq<char>) -> bool;

/// Relies on `p256::SecretKey::from_sec1_pem`: whether a string decodes as a
/// PEM-encoded SEC1 private key on the P-256 curve is a function of the
/// string alone.
#[verifier::external_body]
fn parse_sec1_pem(pem: &str) -> (r: Option<SigningKey>)
    ensures
        r is Some <==> sec1_pem_ok(pem@),
{
    p256::SecretKey::from_sec1_pem(pem).ok().map(|key| SigningKey { key })
}

/// Why a credential could not be produced.
#[derive(Clone, Debug, PartialEq, Eq)]
pub enum CredentialError {
    /// Attested provisioning of the secret key is not implemented yet; this
    /// is a deliberate fail-fast placeholder, never a silent fallback.
    ProvisioningNotImplemented,
    /// The file at the named path could not be read.
    FileUnreadable { path: String },
}

/// Why CSR generation failed, each step with its own cause.
#[derive(Clone, Debug, PartialEq, Eq)]
pub enum GenCsrError {
    /// The secret-key file at the named path could not be read.
    KeyFileUnreadable { path: String },
    /// The secret-key file was read but does not hold a PEM-encoded SEC1
    /// P-256 private key.
    InvalidPrivateKey,
    /// The signing collaborator failed to produce a CSR.
    SigningFailed,
    /// The finished CSR could not be written to the named path.
    CsrFileUnwritable { path: String },
}

/// Turn a key source into the path to read it from.
///
/// A file-based source yields its path; the attested-provisioning source of
/// the hardware-isolated build is not implemented and fails immediately,
/// never falling back to file I/O.
pub fn resolve_key_source(source: &CredentialSource) -> (r: Result<&String, CredentialError>)
    ensures
        source matches CredentialSource::KeyFile(p) ==> (r matches Ok(q) && q@ == p@),
        source is AttestedProvisioning ==> (r matches Err(e)
            && e is ProvisioningNotImplemented),
{
    match source {
        CredentialSource::KeyFile(p) => Ok(p),
        CredentialSource::AttestedProvisioning => Err(CredentialError::ProvisioningNotImplemented),
    }
}

/// Interpret the outcome of reading a credential file: the bytes pass
/// through unchanged, and a failed read becomes an error naming the path.
pub fn file_read_outcome(path: &str, contents: Option<Vec<u8>>) -> (r: Result<
    Vec<u8>,
    CredentialError,
>)
    ensures
        contents matches Some(b) ==> r == Ok::<Vec<u8>, CredentialError>(b),
        contents is None ==> (r matches Err(e) && e matches CredentialError::FileUnreadable {
            path: p,
        } && p@ == path@),
{
    match contents {
        Some(b) => Ok(b),
        None => Err(CredentialError::FileUnreadable { path: path.to_owned() }),
    }
}

/// Turn the outcome of reading the secret-key file into a signing key.
///
/// A failed read is an I/O error naming the path; text that was read but
/// does not decode as a PEM-encoded SEC1 P-256 private key is an
/// invalid-private-key error, distinct from the I/O one; and the key is
/// produced exactly when the text decodes.
pub fn prepare_signing_key(path: &str, contents: Option<String>) -> (r: Result<
    SigningKey,
    GenCsrError,
>)
    ensures
        contents is None ==> (r matches Err(e) && e matches GenCsrError::KeyFileUnreadable {
            path: p,
        } && p@ == path@),
        contents matches Some(pem) ==> (r is Ok <==> sec1_pem_ok(pem@)),
        contents matches Some(pem) && !sec1_pem_ok(pem@) ==> (r matches Err(e)
            && e is InvalidPrivateKey),
    {
    match contents {
        None => Err(GenCsrError::KeyFileUnreadable { path: path.to_owned() }),
        Some(pem) => {
            match parse_sec1_pem(pem.as_str()) {
                Some(key) => Ok(key),
                None => Err(GenCsrError::InvalidPrivateKey),
            }
        },
    }
}

/// Interpret the signing collaborator's outcome: the PEM bytes of the CSR
/// pass through unchanged, and a failed signing becomes `SigningFailed`.
pub fn csr_sign_outcome(csr_pem: Option<Vec<u8>>) -> (r: Result<Vec<u8>, GenCsrError>)
    ensures
        csr_pem matches Some(b) ==> r == Ok::<Vec<u8>, GenCsrError>(b),
        csr_pem is None ==> (r matches Err(e) && e is SigningFailed),
{
    match csr_pem {
        Some(b) => Ok(b),
        None => Err(GenCsrError::SigningFailed),
    }
}

/// Interpret the outcome of writing the CSR file: failure becomes an error
/// naming the output path.
pub fn csr_write_outcome(path: &str, wrote: bool) -> (r: Result<(), GenCsrError>)
    ensures
        wrote <==> r is Ok,
        !wrote ==> (r matches Err(e) && e matches GenCsrError::CsrFileUnwritable { path: p }
            && p@ == path@),
{
    if wrote {
        Ok(())
    } else {
        Err(GenCsrError::CsrFileUnwritable { path: path.to_owned() })
    }
}

} // verus!
