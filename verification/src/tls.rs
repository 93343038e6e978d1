//! Certificates and private keys: the web server's own, read from PEM text, and
//! the public key of an RDP server's certificate.
use vstd::prelude::*;
use x509_cert::der::Decode;

verus! {

/// `std::io::Error`, as PEM parsing reports it.
#[verifier::external_type_specification]
#[verifier::external_body]
pub struct ExIoError(std::io::Error);

/// `der::Error`, as DER decoding reports it.
#[verifier::external_type_specification]
#[verifier::external_body]
pub struct ExDerError(x509_cert::der::Error);

/// The form of a private key.
#[derive(Debug, Clone, Copy, PartialEq, Eq, Structural)]
pub enum PrivateKeyKind {
    Pkcs1,
    Sec1,
    Pkcs8,
    Unknown,
}

/// A DER-encoded private key.
#[derive(Clone, PartialEq, Eq)]
pub struct PrivateKey {
    pub kind: PrivateKeyKind,
    pub der: Vec<u8>,
}

/// Why a PEM file gave no certificate or no key.
#[derive(Debug)]
pub enum PemError {
    /// The text could not be parsed; the parser's error says why.
    BadCertificate(std::io::Error),
    NoCertificate,
    /// The text could not be parsed; the parser's error says why.
    BadPrivateKey(std::io::Error),
    NoPrivateKey,
}

impl PemError {
    /// The text that describes the error of the file at `path`.
    pub open spec fn text(self, path: Seq<char>) -> Seq<char> {
        match self {
            PemError::BadCertificate(_) => "parse TLS certificate "@ + path,
            PemError::NoCertificate => "TLS certificate "@ + path + " contains no certificates"@,
            PemError::BadPrivateKey(_) => "parse TLS private key "@ + path,
            PemError::NoPrivateKey => "TLS private key "@ + path
                + " contains no supported private key"@,
        }
    }

    /// The message shown for the error of the file at `path`.
    pub fn message(&self, path: &str) -> (message: String)
        ensures
            message@ == self.text(path@),
    {
        match self {
            PemError::BadCertificate(_) => "parse TLS certificate ".to_owned().concat(path),
            PemError::NoCertificate => "TLS certificate ".to_owned().concat(path).concat(
                " contains no certificates",
            ),
            PemError::BadPrivateKey(_) => "parse TLS private key ".to_owned().concat(path),
            PemError::NoPrivateKey => "TLS private key ".to_owned().concat(path).concat(
                " contains no supported private key",
            ),
        }
    }
}

/// The DER bytes of the certificates that `rustls_pemfile::certs` yields of a
/// PEM text, in order; nothing if it yields an error.
pub uninterp spec fn pem_certificates(pem: Seq<u8>) -> Option<Seq<Seq<u8>>>;

/// The private key that `rustls_pemfile::private_key` finds in a PEM text, or
/// that it finds none; nothing if it fails.
pub uninterp spec fn pem_private_key(pem: Seq<u8>) -> Option<Option<(PrivateKeyKind, Seq<u8>)>>;

/// The bit string of the subject public key that `Certificate::from_der` decodes
/// of a certificate: how many bits of its last byte are unused, and its bytes;
/// nothing if decoding fails.
pub uninterp spec fn der_public_key(der: Seq<u8>) -> Option<(u8, Seq<u8>)>;

/// What a parse of certificates gave.
pub open spec fn parsed_certs(
    parsed: Result<Vec<Vec<u8>>, std::io::Error>,
) -> Option<Seq<Seq<u8>>> {
    match parsed {
        Ok(certs) => Some(certs.deep_view()),
        Err(_) => None,
    }
}

/// What a search for a private key gave.
pub open spec fn parsed_key(
    parsed: Result<Option<PrivateKey>, std::io::Error>,
) -> Option<Option<(PrivateKeyKind, Seq<u8>)>> {
    match parsed {
        Ok(Some(key)) => Some(Some((key.kind, key.der@))),
        Ok(None) => Some(None),
        Err(_) => None,
    }
}

/// What decoding a certificate gave.
pub open spec fn decoded_key(
    decoded: Result<(u8, Vec<u8>), x509_cert::der::Error>,
) -> Option<(u8, Seq<u8>)> {
    match decoded {
        Ok((unused_bits, bytes)) => Some((unused_bits, bytes@)),
        Err(_) => None,
    }
}

/// Calls `rustls_pemfile::certs` on the text and collects what it yields. The
/// result is named: it is a function of the text's bytes.
#[verifier::external_body]
fn parse_certs(pem: &[u8]) -> (parsed: Result<Vec<Vec<u8>>, std::io::Error>)
    ensures
        parsed_certs(parsed) == pem_certificates(pem@),
{
    let mut reader: &[u8] = pem;
    rustls_pemfile::certs(&mut reader).map(|cert| cert.map(|der| der.as_ref().to_vec())).collect()
}

/// Calls `rustls_pemfile::private_key` on the text. The result is named: it is a
/// function of the text's bytes.
#[verifier::external_body]
fn parse_private_key(pem: &[u8]) -> (parsed: Result<Option<PrivateKey>, std::io::Error>)
    ensures
        parsed_key(parsed) == pem_private_key(pem@),
{
    let mut reader: &[u8] = pem;
    let found = rustls_pemfile::private_key(&mut reader)?;
    Ok(found.map(|key| PrivateKey {
        kind: match &key {
            tokio_rustls::rustls::pki_types::PrivateKeyDer::Pkcs1(_) => PrivateKeyKind::Pkcs1,
            tokio_rustls::rustls::pki_types::PrivateKeyDer::Sec1(_) => PrivateKeyKind::Sec1,
            tokio_rustls::rustls::pki_types::PrivateKeyDer::Pkcs8(_) => PrivateKeyKind::Pkcs8,
            _ => PrivateKeyKind::Unknown,
        },
        der: key.secret_der().to_vec(),
    }))
}

/// Calls `x509_cert::Certificate::from_der`, and takes the bit string of the
/// subject public key apart with `unused_bits` and `raw_bytes`. The result is
/// named: it is a function of the bytes.
#[verifier::external_body]
fn decode_public_key(der: &[u8]) -> (decoded: Result<(u8, Vec<u8>), x509_cert::der::Error>)
    ensures
        decoded_key(decoded) == der_public_key(der@),
{
    let cert = x509_cert::Certificate::from_der(der)?;
    let key = &cert.tbs_certificate.subject_public_key_info.subject_public_key;
    Ok((key.unused_bits(), key.raw_bytes().to_owned()))
}

/// Whether `result` is what the certificates of a file call for: at least one,
/// or an error.
pub open spec fn are_certs_of(
    parsed: Option<Seq<Seq<u8>>>,
    result: Result<Vec<Vec<u8>>, PemError>,
) -> bool {
    match parsed {
        Some(certs) if certs.len() > 0 => result matches Ok(found) && found.deep_view() == certs,
        Some(_) => result matches Err(PemError::NoCertificate),
        None => result matches Err(PemError::BadCertificate(_)),
    }
}

/// Whether `result` is what the private key of a file calls for.
pub open spec fn is_key_of(
    parsed: Option<Option<(PrivateKeyKind, Seq<u8>)>>,
    result: Result<PrivateKey, PemError>,
) -> bool {
    match parsed {
        Some(Some((kind, der))) => result matches Ok(key) && key.kind == kind && key.der@ == der,
        Some(None) => result matches Err(PemError::NoPrivateKey),
        None => result matches Err(PemError::BadPrivateKey(_)),
    }
}

/// The certificates of a parsed file.
pub fn certs_from_parsed(parsed: Result<Vec<Vec<u8>>, std::io::Error>) -> (result: Result<
    Vec<Vec<u8>>,
    PemError,
>)
    ensures
        result == match parsed {
            Ok(certs) => if certs@.len() == 0 {
                Err(PemError::NoCertificate)
            } else {
                Ok(certs)
            },
            Err(error) => Err(PemError::BadCertificate(error)),
        },
{
    match parsed {
        Ok(certs) => if certs.is_empty() {
            Err(PemError::NoCertificate)
        } else {
            Ok(certs)
        },
        Err(error) => Err(PemError::BadCertificate(error)),
    }
}

/// The private key of a parsed file.
pub fn key_from_parsed(parsed: Result<Option<PrivateKey>, std::io::Error>) -> (result: Result<
    PrivateKey,
    PemError,
>)
    ensures
        result == match parsed {
            Ok(Some(key)) => Ok(key),
            Ok(None) => Err(PemError::NoPrivateKey),
            Err(error) => Err(PemError::BadPrivateKey(error)),
        },
{
    match parsed {
        Ok(Some(key)) => Ok(key),
        Ok(None) => Err(PemError::NoPrivateKey),
        Err(error) => Err(PemError::BadPrivateKey(error)),
    }
}

/// The certificates in a PEM text.
pub fn load_certs(pem: &[u8]) -> (result: Result<Vec<Vec<u8>>, PemError>)
    ensures
        are_certs_of(pem_certificates(pem@), result),
{
    let parsed = parse_certs(pem);
    assert(parsed is Ok ==> parsed->Ok_0.deep_view().len() == parsed->Ok_0@.len());
    certs_from_parsed(parsed)
}

/// The first private key in a PEM text.
pub fn load_private_key(pem: &[u8]) -> (result: Result<PrivateKey, PemError>)
    ensures
        is_key_of(pem_private_key(pem@), result),
{
    key_from_parsed(parse_private_key(pem))
}

/// Why an RDP server's certificate gave no public key.
#[derive(Debug)]
pub enum PublicKeyError {
    /// The server showed no certificate.
    NoCertificate,
    /// The certificate could not be decoded.
    BadCertificate(x509_cert::der::Error),
    /// The key's bit string does not end at a byte.
    NotAligned,
}

impl PublicKeyError {
    /// The text that describes the error, but for a certificate that could not
    /// be decoded: the decoder's own error describes that.
    pub fn text(&self) -> (text: Option<&'static str>)
        ensures
            match *self {
                PublicKeyError::NoCertificate => {
                    text matches Some(t) && t@ == "RDP server TLS certificate is missing"@
                },
                PublicKeyError::BadCertificate(_) => text is None,
                PublicKeyError::NotAligned => {
                    text matches Some(t) && t@ == "subject public key BIT STRING is not aligned"@
                },
            },
    {
        match self {
            PublicKeyError::NoCertificate => Some("RDP server TLS certificate is missing"),
            PublicKeyError::BadCertificate(_) => None,
            PublicKeyError::NotAligned => Some("subject public key BIT STRING is not aligned"),
        }
    }
}

/// The public key of a decoded certificate: the bytes of its bit string, which
/// must end at a byte.
pub fn public_key_from_decoded(
    decoded: Result<(u8, Vec<u8>), x509_cert::der::Error>,
) -> (result: Result<Vec<u8>, PublicKeyError>)
    ensures
        result == match decoded {
            Ok((unused_bits, bytes)) => if unused_bits == 0 {
                Ok(bytes)
            } else {
                Err(PublicKeyError::NotAligned)
            },
            Err(error) => Err(PublicKeyError::BadCertificate(error)),
        },
{
    match decoded {
        Ok((unused_bits, bytes)) => if unused_bits == 0 {
            Ok(bytes)
        } else {
            Err(PublicKeyError::NotAligned)
        },
        Err(error) => Err(PublicKeyError::BadCertificate(error)),
    }
}

/// Whether `result` is what decoding the certificate calls for.
pub open spec fn is_public_key_of(
    decoded: Option<(u8, Seq<u8>)>,
    result: Result<Vec<u8>, PublicKeyError>,
) -> bool {
    match decoded {
        Some((0, bytes)) => result matches Ok(found) && found@ == bytes,
        Some(_) => result matches Err(PublicKeyError::NotAligned),
        None => result matches Err(PublicKeyError::BadCertificate(_)),
    }
}

/// The public key of a DER-encoded certificate.
pub fn extract_tls_server_public_key(cert: &[u8]) -> (result: Result<Vec<u8>, PublicKeyError>)
    ensures
        is_public_key_of(der_public_key(cert@), result),
{
    public_key_from_decoded(decode_public_key(cert))
}

/// The public key of the first certificate that a server showed.
pub fn server_public_key(first: Option<&[u8]>) -> (result: Result<Vec<u8>, PublicKeyError>)
    ensures
        match first {
            Some(cert) => is_public_key_of(der_public_key(cert@), result),
            None => result matches Err(PublicKeyError::NoCertificate),
        },
{
    match first {
        Some(cert) => extract_tls_server_public_key(cert),
        None => Err(PublicKeyError::NoCertificate),
    }
}

/// The code points of the signature schemes that an RDP server may use.
pub fn supported_verify_schemes() -> (schemes: Vec<u16>)
    ensures
        schemes@ == seq![
            0x0201u16,
            0x0203u16,
            0x0401u16,
            0x0403u16,
            0x0501u16,
            0x0503u16,
            0x0601u16,
            0x0603u16,
            0x0804u16,
            0x0805u16,
            0x0806u16,
            0x0807u16,
            0x0808u16,
        ],
{
    vec![
        0x0201,
        0x0203,
        0x0401,
        0x0403,
        0x0501,
        0x0503,
        0x0601,
        0x0603,
        0x0804,
        0x0805,
        0x0806,
        0x0807,
        0x0808,
    ]
}

/// Certificates are loaded as they were parsed, all of them and in order, as long
/// as there is one.
pub proof fn law_certificates_are_the_parsed_ones(
    parsed: Option<Seq<Seq<u8>>>,
    result: Result<Vec<Vec<u8>>, PemError>,
)
    requires
        are_certs_of(parsed, result),
    ensures
        result is Ok <==> (parsed is Some && parsed->Some_0.len() > 0),
        result matches Ok(certs) ==> {
            &&& certs@.len() == parsed->Some_0.len()
            &&& forall|i: int|
                0 <= i < certs@.len() ==> (#[trigger] certs@[i])@ == parsed->Some_0[i]
        },
        result matches Err(error) ==> {
            &&& error is NoCertificate <==> parsed is Some
            &&& error is BadCertificate <==> parsed is None
        },
{
    if let Ok(certs) = result {
        let found = certs.deep_view();
        assert(found.len() == certs@.len());
        assert forall|i: int| 0 <= i < certs@.len() implies (#[trigger] certs@[i])@
            == parsed->Some_0[i] by {
            assert(found[i] == certs@[i].deep_view());
            assert(certs@[i].deep_view() =~= certs@[i]@);
        }
    }
}

/// A private key is loaded as it was parsed.
pub proof fn law_private_key_is_the_parsed_one(
    parsed: Option<Option<(PrivateKeyKind, Seq<u8>)>>,
    result: Result<PrivateKey, PemError>,
)
    requires
        is_key_of(parsed, result),
    ensures
        result is Ok <==> (parsed is Some && parsed->Some_0 is Some),
        result matches Ok(key) ==> (key.kind, key.der@) == parsed->Some_0->Some_0,
        result matches Err(error) ==> {
            &&& error is NoPrivateKey <==> parsed is Some
            &&& error is BadPrivateKey <==> parsed is None
        },
{
}

/// A public key is the bytes of its bit string, exactly if that ends at a byte.
pub proof fn law_public_key_is_the_bit_string(
    decoded: Option<(u8, Seq<u8>)>,
    result: Result<Vec<u8>, PublicKeyError>,
)
    requires
        is_public_key_of(decoded, result),
    ensures
        result is Ok <==> (decoded is Some && decoded->Some_0.0 == 0),
        result matches Ok(key) ==> key@ == decoded->Some_0.1,
        result matches Err(error) ==> {
            &&& error is NotAligned <==> decoded is Some
            &&& error is BadCertificate <==> decoded is None
        },
{
}

/// The message of each error names the file.
pub proof fn law_pem_error_messages(error: PemError, path: Seq<char>)
    ensures
        error is BadCertificate ==> error.text(path) == "parse TLS certificate "@ + path,
        error is NoCertificate ==> error.text(path) == "TLS certificate "@ + path
            + " contains no certificates"@,
        error is BadPrivateKey ==> error.text(path) == "parse TLS private key "@ + path,
        error is NoPrivateKey ==> error.text(path) == "TLS private key "@ + path
            + " contains no supported private key"@,
{
}

}
