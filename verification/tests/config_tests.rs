use proxy_launcher::config::{
    validate_gen_csr, validate_serve, BuildVariant, CredentialSource, GenCsrArgs, PathArg,
    ServeArgs, ValidationError, DEFAULT_MAX_REQUEST_SIZE_BYTES,
};
use proxy_launcher::hexkey::KeyDecodeError;

const VALID_KEY_HEX: &str = "000102030405060708090a0b0c0d0e0f101112131415161718191a1b1c1d1e1f";

fn serve_args() -> ServeArgs {
    ServeArgs {
        listen_addr: None,
        upstream_url: None,
        max_request_size_bytes: None,
        runtime_public_key_hex: VALID_KEY_HEX.as_bytes().to_vec(),
        tls_secret_key_path: None,
        tls_cert_path: None,
    }
}

fn existing(path: &str) -> Option<PathArg> {
    Some(PathArg { path: path.to_string(), exists: true })
}

fn missing(path: &str) -> Option<PathArg> {
    Some(PathArg { path: path.to_string(), exists: false })
}

#[test]
fn serve_accepts_neither_tls_path() {
    let cfg = validate_serve(serve_args(), BuildVariant::Standard).unwrap();
    assert!(cfg.tls.is_none());
}

#[test]
fn serve_accepts_both_tls_paths() {
    let mut args = serve_args();
    args.tls_cert_path = existing("cert.pem");
    args.tls_secret_key_path = existing("key.pem");
    let cfg = validate_serve(args, BuildVariant::Standard).unwrap();
    let tls = cfg.tls.unwrap();
    assert_eq!(tls.certificate_path, "cert.pem");
    assert_eq!(tls.secret_key, CredentialSource::KeyFile("key.pem".to_string()));
}

#[test]
fn serve_rejects_cert_without_key() {
    let mut args = serve_args();
    args.tls_cert_path = existing("cert.pem");
    let r = validate_serve(args, BuildVariant::Standard);
    assert_eq!(r.unwrap_err(), ValidationError::TlsCertWithoutSecretKey);
}

#[test]
fn serve_rejects_key_without_cert() {
    let mut args = serve_args();
    args.tls_secret_key_path = existing("key.pem");
    let r = validate_serve(args, BuildVariant::Standard);
    assert_eq!(r.unwrap_err(), ValidationError::TlsSecretKeyWithoutCert);
}

#[test]
fn serve_rejects_missing_key_file() {
    let mut args = serve_args();
    args.tls_cert_path = existing("cert.pem");
    args.tls_secret_key_path = missing("gone.pem");
    let r = validate_serve(args, BuildVariant::Standard);
    assert_eq!(
        r.unwrap_err(),
        ValidationError::TlsSecretKeyFileMissing { path: "gone.pem".to_string() }
    );
}

#[test]
fn serve_rejects_missing_cert_file() {
    let mut args = serve_args();
    args.tls_cert_path = missing("gone.pem");
    args.tls_secret_key_path = existing("key.pem");
    let r = validate_serve(args, BuildVariant::Standard);
    assert_eq!(
        r.unwrap_err(),
        ValidationError::TlsCertFileMissing { path: "gone.pem".to_string() }
    );
}

#[test]
fn serve_fills_documented_defaults() {
    let cfg = validate_serve(serve_args(), BuildVariant::Standard).unwrap();
    assert_eq!(cfg.listen_addr, "127.0.0.1:23294");
    assert_eq!(cfg.upstream_url, "http://localhost:8545");
    assert_eq!(cfg.max_request_size_bytes, DEFAULT_MAX_REQUEST_SIZE_BYTES);
    assert_eq!(cfg.max_request_size_bytes, 1024 * 1024);
}

#[test]
fn serve_keeps_given_values() {
    let mut args = serve_args();
    args.listen_addr = Some("0.0.0.0:8443".to_string());
    args.upstream_url = Some("https://gateway.example.com:8545".to_string());
    args.max_request_size_bytes = Some(4096);
    let cfg = validate_serve(args, BuildVariant::Standard).unwrap();
    assert_eq!(cfg.listen_addr, "0.0.0.0:8443");
    assert_eq!(cfg.upstream_url, "https://gateway.example.com:8545");
    assert_eq!(cfg.max_request_size_bytes, 4096);
}

#[test]
fn serve_decodes_runtime_public_key() {
    let mut args = serve_args();
    args.runtime_public_key_hex = format!("0x{VALID_KEY_HEX}").into_bytes();
    let cfg = validate_serve(args, BuildVariant::Standard).unwrap();
    let expected: Vec<u8> = (0u8..32).collect();
    assert_eq!(cfg.runtime_public_key.as_bytes(), expected.as_slice());
}

#[test]
fn serve_rejects_63_digit_key_with_length_error() {
    let mut args = serve_args();
    args.runtime_public_key_hex = VALID_KEY_HEX.as_bytes()[..63].to_vec();
    let r = validate_serve(args, BuildVariant::Standard);
    assert_eq!(
        r.unwrap_err(),
        ValidationError::InvalidRuntimePublicKey { cause: KeyDecodeError::WrongLength }
    );
}

#[test]
fn serve_rejects_non_hex_key_with_digit_error() {
    let mut args = serve_args();
    let mut bad = VALID_KEY_HEX.to_string().into_bytes();
    bad[10] = b'q';
    args.runtime_public_key_hex = bad;
    let r = validate_serve(args, BuildVariant::Standard);
    assert_eq!(
        r.unwrap_err(),
        ValidationError::InvalidRuntimePublicKey { cause: KeyDecodeError::InvalidDigit }
    );
}

#[test]
fn serve_rejects_unparseable_upstream_url() {
    let mut args = serve_args();
    args.upstream_url = Some("not a url".to_string());
    let r = validate_serve(args, BuildVariant::Standard);
    assert_eq!(r.unwrap_err(), ValidationError::InvalidUpstreamUrl);
}

#[test]
fn serve_rejects_zero_max_request_size() {
    let mut args = serve_args();
    args.max_request_size_bytes = Some(0);
    let r = validate_serve(args, BuildVariant::Standard);
    assert_eq!(r.unwrap_err(), ValidationError::MaxRequestSizeZero);
}

#[test]
fn hardware_isolated_serve_rejects_key_path() {
    let mut args = serve_args();
    args.tls_cert_path = existing("cert.pem");
    args.tls_secret_key_path = existing("key.pem");
    let r = validate_serve(args, BuildVariant::HardwareIsolated);
    assert_eq!(r.unwrap_err(), ValidationError::TlsSecretKeyPathUnsupported);
}

#[test]
fn hardware_isolated_serve_provisions_key_for_cert() {
    let mut args = serve_args();
    args.tls_cert_path = existing("cert.pem");
    let cfg = validate_serve(args, BuildVariant::HardwareIsolated).unwrap();
    let tls = cfg.tls.unwrap();
    assert_eq!(tls.secret_key, CredentialSource::AttestedProvisioning);
}

fn gen_csr_args(key: Option<PathArg>) -> GenCsrArgs {
    GenCsrArgs {
        tls_secret_key_path: key,
        subject: "C=US,O=Test,CN=proxy".to_string(),
        csr_path: "out.csr".to_string(),
    }
}

#[test]
fn gen_csr_requires_key_path_under_standard_build() {
    let r = validate_gen_csr(gen_csr_args(None), BuildVariant::Standard);
    assert_eq!(r.unwrap_err(), ValidationError::SecretKeyPathRequired);
}

#[test]
fn gen_csr_rejects_missing_key_file() {
    let r = validate_gen_csr(gen_csr_args(missing("gone.pem")), BuildVariant::Standard);
    assert_eq!(
        r.unwrap_err(),
        ValidationError::TlsSecretKeyFileMissing { path: "gone.pem".to_string() }
    );
}

#[test]
fn gen_csr_accepts_existing_key_file() {
    let cfg = validate_gen_csr(gen_csr_args(existing("key.pem")), BuildVariant::Standard).unwrap();
    assert_eq!(cfg.key_source, CredentialSource::KeyFile("key.pem".to_string()));
    assert_eq!(cfg.subject, "C=US,O=Test,CN=proxy");
    assert_eq!(cfg.csr_path, "out.csr");
}

#[test]
fn hardware_isolated_gen_csr_takes_no_key_path() {
    let r = validate_gen_csr(gen_csr_args(existing("key.pem")), BuildVariant::HardwareIsolated);
    assert_eq!(r.unwrap_err(), ValidationError::TlsSecretKeyPathUnsupported);
    let cfg = validate_gen_csr(gen_csr_args(None), BuildVariant::HardwareIsolated).unwrap();
    assert_eq!(cfg.key_source, CredentialSource::AttestedProvisioning);
}
