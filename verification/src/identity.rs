//! Certificate-mode identity material: a client TLS certificate and its
//! private key, parsed once from a PKCS#12 container.

use vstd::prelude::*;
use crate::error::Error;

verus! {

/// Whether a character sequence holds an interior NUL. The outside
/// PKCS#12 parser takes the password as a C string and cannot accept one.
pub open spec fn has_nul(s: Seq<char>) -> bool {
    exists|i: int| 0 <= i < s.len() && s[i] == '\0'
}

/// Scan a string for a NUL character.
pub fn contains_nul(s: &str) -> (r: bool)
    ensures
        r == has_nul(s@),
{
    let len = s.unicode_len();
    let mut i: usize = 0;
    while i < len
        invariant
            0 <= i <= len,
            len == s@.len(),
            forall|j: int| 0 <= j < i ==> s@[j] != '\0',
        decreases len - i,
    {
        if s.get_char(i) == '\0' {
            return true;
        }
        i += 1;
    }
    false
}

/// Whether the container is a PKCS#12 archive that this password opens,
/// with both a private key and a certificate inside. A function of the
/// container bytes and the password alone.
pub uninterp spec fn pkcs12_opens(der: Seq<u8>, pw: Seq<char>) -> bool;

/// What the parse pipeline yields for a container and password: the
/// certificate's DER and the private key's PKCS#8 DER when the container
/// opens and both parts re-encode, nothing otherwise. A function of the
/// container bytes and the password alone.
pub uninterp spec fn pkcs12_contents(der: Seq<u8>, pw: Seq<char>) -> Option<(Seq<u8>, Seq<u8>)>;

/// What one run of the outside parse pipeline reported.
enum RawIdentity {
    /// The certificate's DER and the private key's PKCS#8 DER.
    Parsed(Vec<u8>, Vec<u8>),
    /// The container did not open: not PKCS#12, wrong password, or a part
    /// missing.
    BadContainer,
    /// The container opened but a part could not be re-encoded.
    EncodeFailed,
}

/// Relies on `openssl::pkcs12::Pkcs12::from_der` (deserializes a
/// DER-encoded archive), `Pkcs12Ref::parse2` (decrypts it with the
/// password, failing on a wrong password or damaged archive; it builds a
/// C string from the password, hence the NUL precondition),
/// `X509Ref::to_der` and `PKeyRef::private_key_to_pkcs8` (re-encode the
/// two parts). All four are deterministic in the container and password.
#[verifier::external_body]
fn parse_pkcs12(der: &Vec<u8>, password: &str) -> (r: RawIdentity)
    requires
        !has_nul(password@),
    ensures
        match r {
            RawIdentity::Parsed(c, k) => pkcs12_opens(der@, password@) && pkcs12_contents(
                der@,
                password@,
            ) == Some((c@, k@)),
            RawIdentity::BadContainer => !pkcs12_opens(der@, password@) && pkcs12_contents(
                der@,
                password@,
            ) is None,
            RawIdentity::EncodeFailed => pkcs12_opens(der@, password@) && pkcs12_contents(
                der@,
                password@,
            ) is None,
        },
{
    let p12 = match openssl::pkcs12::Pkcs12::from_der(der.as_slice()) {
        Ok(p) => p, Err(_) => return RawIdentity::BadContainer,
    };
    let parsed = match p12.parse2(password) {
        Ok(p) => p, Err(_) => return RawIdentity::BadContainer,
    };
    let (pkey, cert) = match (parsed.pkey, parsed.cert) {
        (Some(pkey), Some(cert)) => (pkey, cert), _ => return RawIdentity::BadContainer,
    };
    match (cert.to_der(), pkey.private_key_to_pkcs8()) {
        (Ok(cert_der), Ok(key_der)) => RawIdentity::Parsed(cert_der, key_der),
        _ => RawIdentity::EncodeFailed,
    }
}

/// A parsed certificate-mode identity, held as the DER encodings a TLS
/// configuration takes.
pub struct CertificateIdentity {
    /// The certificate, DER-encoded.
    pub cert_der: Vec<u8>,
    /// The private key, DER-encoded PKCS#8.
    pub key_der: Vec<u8>,
}

impl CertificateIdentity {
    /// Parse a PKCS#12 container with its password. Succeeds exactly when
    /// the password holds no NUL and the pipeline yields the two DER
    /// parts; a NUL password, a wrong password, a damaged container or
    /// missing parts fail with the invalid certificate error; a part that
    /// cannot be re-encoded fails with the TLS error. Nothing here
    /// panics, and failure surfaces at construction time, not at send
    /// time.
    pub fn from_pkcs12(der: &Vec<u8>, password: &str) -> (r: Result<CertificateIdentity, Error>)
        ensures
            r is Ok <==> !has_nul(password@) && pkcs12_contents(der@, password@) is Some,
            r matches Ok(id) ==> Some((id.cert_der@, id.key_der@)) == pkcs12_contents(
                der@,
                password@,
            ),
            r matches Err(e) ==> if has_nul(password@) || !pkcs12_opens(der@, password@) {
                e == Error::InvalidCertificate
            } else {
                e == Error::Tls
            },
    {
        if contains_nul(password) {
            return Err(Error::InvalidCertificate);
        }
        match parse_pkcs12(der, password) {
            RawIdentity::Parsed(cert_der, key_der) => Ok(
                CertificateIdentity { cert_der, key_der },
            ),
            RawIdentity::BadContainer => Err(Error::InvalidCertificate),
            RawIdentity::EncodeFailed => Err(Error::Tls),
        }
    }
}

} // verus!
