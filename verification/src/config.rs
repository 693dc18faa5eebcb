//! Configuration validation for the two launcher commands.
//!
//! Raw command-line values arrive here as plain data, together with the one
//! fact about the filesystem that validation needs: whether each supplied
//! path exists (a `stat`, performed by the caller before validation; no file
//! is opened). Validation applies every rule before any I/O with side
//! effects occurs and reports the first failing rule; on success it builds
//! the configuration the server is constructed from, with documented
//! defaults filled in.

use vstd::prelude::*;
use crate::hexkey::KeyDecodeError;
use crate::hexkey::RuntimePublicKey;
use crate::hexkey::all_hex_digits;
use crate::hexkey::decode_runtime_public_key;
use crate::hexkey::hex_byte_at;
use crate::hexkey::strip_hex_prefix;

verus! {

/// Default address the proxy listens on when none is given.
pub open spec fn default_listen_addr() -> Seq<char> {
    "127.0.0.1:23294"@
}

/// Default upstream gateway URL when none is given.
pub open spec fn default_upstream_url() -> Seq<char> {
    "http://localhost:8545"@
}

/// Default cap on the size of a request, in bytes (1 MiB).
pub const DEFAULT_MAX_REQUEST_SIZE_BYTES: usize = 1048576;

/// Which build of the proxy is running. The hardware-isolated build targets
/// a trusted-execution environment in which TLS secret keys may not be read
/// from disk and must come from attested provisioning instead.
#[derive(Clone, Copy, Debug, PartialEq, Eq, Structural)]
pub enum BuildVariant {
    Standard,
    HardwareIsolated,
}

/// A path given on the command line, together with whether a file exists at
/// it at validation time.
#[derive(Clone, Debug, PartialEq, Eq)]
pub struct PathArg {
    pub path: String,
    pub exists: bool,
}

/// Where a TLS or signing secret key comes from.
///
/// Under the hardware-isolated build the key is never read from a path; the
/// attested-provisioning route is not implemented yet and fails fast when
/// resolved, rather than falling back to file I/O.
#[derive(Clone, Debug, PartialEq, Eq)]
pub enum CredentialSource {
    KeyFile(String),
    AttestedProvisioning,
}

/// TLS material locations for the server: a certificate file and the source
/// of the matching secret key.
#[derive(Clone, Debug, PartialEq, Eq)]
pub struct TlsPaths {
    pub certificate_path: String,
    pub secret_key: CredentialSource,
}

/// Raw arguments of the `serve` command. `None` means the flag was omitted
/// and its documented default applies.
pub struct ServeArgs {
    pub listen_addr: Option<String>,
    pub upstream_url: Option<String>,
    pub max_request_size_bytes: Option<usize>,
    /// The runtime public key exactly as given: the bytes of its hex string.
    pub runtime_public_key_hex: Vec<u8>,
    pub tls_secret_key_path: Option<PathArg>,
    pub tls_cert_path: Option<PathArg>,
}

/// Raw arguments of the CSR-generation command.
pub struct GenCsrArgs {
    pub tls_secret_key_path: Option<PathArg>,
    pub subject: String,
    pub csr_path: String,
}

/// The first rule a command's arguments break, if any.
#[derive(Clone, Debug, PartialEq, Eq)]
pub enum ValidationError {
    /// A TLS-secret-key path was given to a hardware-isolated build, which
    /// never reads that key from disk.
    TlsSecretKeyPathUnsupported,
    /// A certificate path was supplied without a secret-key path.
    TlsCertWithoutSecretKey,
    /// A secret-key path was supplied without a certificate path.
    TlsSecretKeyWithoutCert,
    /// No file exists at the supplied TLS-secret-key path.
    TlsSecretKeyFileMissing { path: String },
    /// No file exists at the supplied TLS-certificate path.
    TlsCertFileMissing { path: String },
    /// The CSR command needs a secret-key path under the standard build.
    SecretKeyPathRequired,
    /// The runtime public key did not decode to exactly 32 bytes.
    InvalidRuntimePublicKey { cause: KeyDecodeError },
    /// The upstream gateway URL does not parse as a URL.
    InvalidUpstreamUrl,
    /// The maximum request size must be positive.
    MaxRequestSizeZero,
}

/// The validated configuration a server is constructed from. Built once,
/// consumed once; immutable afterwards.
#[derive(Debug)]
pub struct ServerConfig {
    pub listen_addr: String,
    pub upstream_url: String,
    pub max_request_size_bytes: usize,
    pub runtime_public_key: RuntimePublicKey,
    pub tls: Option<TlsPaths>,
}

/// The validated configuration of the CSR-generation command.
#[derive(Debug)]
pub struct GenCsrConfig {
    pub key_source: CredentialSource,
    pub subject: String,
    pub csr_path: String,
}

/// Whether a string parses as a URL. Named, not stated: the URL grammar
/// belongs to the `url` crate.
pub uninterp spec fn url_ok(s: Seq<char>) -> bool;

/// Relies on `url::Url::parse`: whether a string parses as a valid URL is a
/// function of the string alone.
#[verifier::external_body]
fn url_parses(s: &str) -> (r: bool)
    ensures
        r == url_ok(s@),
{
    url::Url::parse(s).is_ok()
}

/// The listen address `serve` will use: the given one, or the default.
pub open spec fn spec_effective_listen_addr(args: ServeArgs) -> Seq<char> {
    match args.listen_addr {
        Some(s) => s@,
        None => default_listen_addr(),
    }
}

/// The upstream URL `serve` will use: the given one, or the default.
pub open spec fn spec_effective_upstream_url(args: ServeArgs) -> Seq<char> {
    match args.upstream_url {
        Some(s) => s@,
        None => default_upstream_url(),
    }
}

/// The request-size cap `serve` will use: the given one, or the default.
pub open spec fn spec_effective_max_request_size(args: ServeArgs) -> usize {
    match args.max_request_size_bytes {
        Some(n) => n,
        None => DEFAULT_MAX_REQUEST_SIZE_BYTES,
    }
}

/// The first rule the `serve` arguments break, or `None` when they validate.
/// Rules are checked in this order: the hardware-isolated build takes no
/// secret-key path; a certificate path and a secret-key path require each
/// other (standard build); supplied paths must exist; the runtime public key
/// must decode to 32 bytes; the upstream URL must parse; the request-size
/// cap must be positive.
pub open spec fn spec_serve_error(args: ServeArgs, variant: BuildVariant) -> Option<
    ValidationError,
> {
    if variant is HardwareIsolated && args.tls_secret_key_path is Some {
        Some(ValidationError::TlsSecretKeyPathUnsupported)
    } else if variant is Standard && args.tls_cert_path is Some
        && args.tls_secret_key_path is None {
        Some(ValidationError::TlsCertWithoutSecretKey)
    } else if variant is Standard && args.tls_secret_key_path is Some
        && args.tls_cert_path is None {
        Some(ValidationError::TlsSecretKeyWithoutCert)
    } else if args.tls_secret_key_path is Some && !args.tls_secret_key_path->0.exists {
        Some(ValidationError::TlsSecretKeyFileMissing { path: args.tls_secret_key_path->0.path })
    } else if args.tls_cert_path is Some && !args.tls_cert_path->0.exists {
        Some(ValidationError::TlsCertFileMissing { path: args.tls_cert_path->0.path })
    } else if strip_hex_prefix(args.runtime_public_key_hex@).len() != 64 {
        Some(ValidationError::InvalidRuntimePublicKey { cause: KeyDecodeError::WrongLength })
    } else if !all_hex_digits(strip_hex_prefix(args.runtime_public_key_hex@)) {
        Some(ValidationError::InvalidRuntimePublicKey { cause: KeyDecodeError::InvalidDigit })
    } else if !url_ok(spec_effective_upstream_url(args)) {
        Some(ValidationError::InvalidUpstreamUrl)
    } else if spec_effective_max_request_size(args) == 0 {
        Some(ValidationError::MaxRequestSizeZero)
    } else {
        None
    }
}

impl ServerConfig {
    /// Invariant of every validated configuration.
    pub open spec fn wf(&self) -> bool {
        &&& self.max_request_size_bytes > 0
        &&& self.runtime_public_key.wf()
        &&& url_ok(self.upstream_url@)
    }
}

/// Validate the `serve` arguments, before any file is opened or socket
/// created, and build the server configuration.
///
/// Fails with the first broken rule of `spec_serve_error`. On success the
/// configuration carries the given or default listen address, upstream URL
/// and request-size cap, the decoded 32-byte runtime public key, and the TLS
/// paths exactly when a certificate path was supplied — with the secret key
/// read from the supplied path under the standard build, and from (not yet
/// implemented) attested provisioning under the hardware-isolated build.
pub fn validate_serve(args: ServeArgs, variant: BuildVariant) -> (r: Result<
    ServerConfig,
    ValidationError,
>)
    ensures
        r is Ok <==> spec_serve_error(args, variant) is None,
        r matches Err(e) ==> Some(e) == spec_serve_error(args, variant),
        r matches Ok(c) ==> {
            &&& c.wf()
            &&& c.listen_addr@ == spec_effective_listen_addr(args)
            &&& c.upstream_url@ == spec_effective_upstream_url(args)
            &&& c.max_request_size_bytes == spec_effective_max_request_size(args)
            &&& forall|i: int|
                0 <= i < 32 ==> c.runtime_public_key@[i] == hex_byte_at(
                    strip_hex_prefix(args.runtime_public_key_hex@),
                    i,
                )
            &&& (c.tls is Some <==> args.tls_cert_path is Some)
            &&& args.tls_cert_path matches Some(cp) ==> {
                &&& c.tls matches Some(t)
                &&& t.certificate_path@ == cp.path@
                &&& variant is Standard ==> (args.tls_secret_key_path matches Some(kp)
                    && t.secret_key == CredentialSource::KeyFile(kp.path))
                &&& variant is HardwareIsolated ==> t.secret_key is AttestedProvisioning
            }
        },
{
    let ServeArgs {
        listen_addr,
        upstream_url,
        max_request_size_bytes,
        runtime_public_key_hex,
        tls_secret_key_path,
        tls_cert_path,
    } = args;
    match variant {
        BuildVariant::HardwareIsolated => {
            if tls_secret_key_path.is_some() {
                return Err(ValidationError::TlsSecretKeyPathUnsupported);
            }
        },
        BuildVariant::Standard => {
            if tls_cert_path.is_some() && tls_secret_key_path.is_none() {
                return Err(ValidationError::TlsCertWithoutSecretKey);
            }
            if tls_secret_key_path.is_some() && tls_cert_path.is_none() {
                return Err(ValidationError::TlsSecretKeyWithoutCert);
            }
        },
    }
    if let Some(k) = &tls_secret_key_path {
        if !k.exists {
            return Err(ValidationError::TlsSecretKeyFileMissing { path: k.path.clone() });
        }
    }
    if let Some(c) = &tls_cert_path {
        if !c.exists {
            return Err(ValidationError::TlsCertFileMissing { path: c.path.clone() });
        }
    }
    let runtime_public_key = match decode_runtime_public_key(runtime_public_key_hex.as_slice()) {
        Ok(key) => key,
        Err(cause) => {
            return Err(ValidationError::InvalidRuntimePublicKey { cause });
        },
    };
    let upstream_url: String = match upstream_url {
        Some(s) => s,
        None => "http://localhost:8545".to_owned(),
    };
    if !url_parses(upstream_url.as_str()) {
        return Err(ValidationError::InvalidUpstreamUrl);
    }
    let max_request_size_bytes: usize = match max_request_size_bytes {
        Some(n) => n,
        None => DEFAULT_MAX_REQUEST_SIZE_BYTES,
    };
    if max_request_size_bytes == 0 {
        return Err(ValidationError::MaxRequestSizeZero);
    }
    let listen_addr: String = match listen_addr {
        Some(s) => s,
        None => "127.0.0.1:23294".to_owned(),
    };
    let tls: Option<TlsPaths> = match (tls_cert_path, tls_secret_key_path) {
        (Some(c), Some(k)) => Some(
            TlsPaths {
                certificate_path: c.path,
                secret_key: CredentialSource::KeyFile(k.path),
            },
        ),
        (Some(c), None) => Some(
            TlsPaths {
                certificate_path: c.path,
                secret_key: CredentialSource::AttestedProvisioning,
            },
        ),
        _ => None,
    };
    Ok(
        ServerConfig {
            listen_addr,
            upstream_url,
            max_request_size_bytes,
            runtime_public_key,
            tls,
        },
    )
}

/// The first rule the CSR-generation arguments break, or `None`. Under the
/// standard build a secret-key path is required and must exist; the
/// hardware-isolated build takes no such path at all.
pub open spec fn spec_gen_csr_error(args: GenCsrArgs, variant: BuildVariant) -> Option<
    ValidationError,
> {
    match variant {
        BuildVariant::Standard => {
            if args.tls_secret_key_path is None {
                Some(ValidationError::SecretKeyPathRequired)
            } else if !args.tls_secret_key_path->0.exists {
                Some(ValidationError::TlsSecretKeyFileMissing { path: args.tls_secret_key_path->0.path })
            } else {
                None
            }
        },
        BuildVariant::HardwareIsolated => {
            if args.tls_secret_key_path is Some {
                Some(ValidationError::TlsSecretKeyPathUnsupported)
            } else {
                None
            }
        },
    }
}

/// Validate the CSR-generation arguments.
///
/// On success the configuration carries the subject and output path as
/// given, and the signing key's source: the supplied file under the standard
/// build, attested provisioning (not yet implemented) under the
/// hardware-isolated build.
pub fn validate_gen_csr(args: GenCsrArgs, variant: BuildVariant) -> (r: Result<
    GenCsrConfig,
    ValidationError,
>)
    ensures
        r is Ok <==> spec_gen_csr_error(args, variant) is None,
        r matches Err(e) ==> Some(e) == spec_gen_csr_error(args, variant),
        r matches Ok(c) ==> {
            &&& c.subject@ == args.subject@
            &&& c.csr_path@ == args.csr_path@
            &&& variant is Standard ==> (args.tls_secret_key_path matches Some(k)
                && c.key_source == CredentialSource::KeyFile(k.path))
            &&& variant is HardwareIsolated ==> c.key_source is AttestedProvisioning
        },
{
    let GenCsrArgs { tls_secret_key_path, subject, csr_path } = args;
    let key_source: CredentialSource = match variant {
        BuildVariant::Standard => {
            match tls_secret_key_path {
                None => {
                    return Err(ValidationError::SecretKeyPathRequired);
                },
                Some(k) => {
                    if !k.exists {
                        return Err(ValidationError::TlsSecretKeyFileMissing { path: k.path });
                    }
                    CredentialSource::KeyFile(k.path)
                },
            }
        },
        BuildVariant::HardwareIsolated => {
            if tls_secret_key_path.is_some() {
                return Err(ValidationError::TlsSecretKeyPathUnsupported);
            }
            CredentialSource::AttestedProvisioning
        },
    };
    Ok(GenCsrConfig { key_source, subject, csr_path })
}

/// Cross-field TLS law, rejecting half: under the standard build, supplying
/// exactly one of the certificate path and the secret-key path makes `serve`
/// validation fail, whatever the rest of the arguments hold.
pub proof fn lemma_tls_one_sided_rejected(args: ServeArgs)
    requires
        (args.tls_cert_path is Some) != (args.tls_secret_key_path is Some),
    ensures
        spec_serve_error(args, BuildVariant::Standard) is Some,
{
}

/// Cross-field TLS law, accepting half: under the standard build, supplying
/// both TLS paths or neither never trips the cross-field rule — validation
/// succeeds whenever the supplied files exist and the remaining arguments
/// are themselves valid.
pub proof fn lemma_tls_matched_accepted(args: ServeArgs)
    requires
        (args.tls_cert_path is Some) <==> (args.tls_secret_key_path is Some),
        args.tls_secret_key_path matches Some(k) ==> k.exists,
        args.tls_cert_path matches Some(c) ==> c.exists,
        strip_hex_prefix(args.runtime_public_key_hex@).len() == 64,
        all_hex_digits(strip_hex_prefix(args.runtime_public_key_hex@)),
        url_ok(spec_effective_upstream_url(args)),
        spec_effective_max_request_size(args) != 0,
    ensures
        spec_serve_error(args, BuildVariant::Standard) is None,
{
}

} // verus!
