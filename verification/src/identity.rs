//! A serializable client TLS identity: the raw credential bytes, validated
//! through the native library at construction and convertible back into the
//! native identity type on demand.

use vstd::prelude::*;
use vstd::pervasive::unreached;
use vstd::slice::slice_to_vec;
use vstd::std_specs::cmp::{PartialEqSpec, PartialEqSpecImpl};
use vstd::string::StrSliceExecFns;
use crate::bytes::bytes_eq;

verus! {

/// Whether `reqwest::Identity::from_pem` accepts `b` as PEM-encoded identity
/// material (a private key plus at least one certificate). Its verdict is a
/// function of the bytes alone.
pub uninterp spec fn pem_identity_ok(b: Seq<u8>) -> bool;

/// Whether `reqwest::Identity::from_pkcs12_der` decodes the archive `der`
/// under the password `password`. Its verdict is a function of those two
/// alone.
pub uninterp spec fn pkcs12_identity_ok(der: Seq<u8>, password: Seq<char>) -> bool;

/// The password holds no NUL character. The native decoder hands the
/// password across a C-string boundary, which cannot carry an interior NUL,
/// so only NUL-free passwords reach it.
pub open spec fn no_interior_nul(p: Seq<char>) -> bool {
    forall|i: int| 0 <= i < p.len() ==> p[i] != '\0'
}

/// Scans a password for an interior NUL character.
fn has_interior_nul(s: &str) -> (r: bool)
    ensures
        r == !no_interior_nul(s@),
{
    let n: usize = s.unicode_len();
    let mut i: usize = 0;
    while i < n
        invariant
            0 <= i <= n,
            n as nat == s@.len(),
            forall|j: int| 0 <= j < i ==> s@[j] != '\0',
        decreases n - i,
    {
        if s.get_char(i) == '\0' {
            proof {
                assert(s@[i as int] == '\0');
            }
            return true;
        }
        i = i + 1;
    }
    false
}

/// Relies on `reqwest::Identity::from_pem`: it parses the PEM sections of
/// its input and succeeds exactly when they hold a private key and at least
/// one certificate, a deterministic function of the bytes.
#[verifier::external_body]
fn parse_pem_identity(pem: &[u8]) -> (r: Result<reqwest::Identity, reqwest::Error>)
    ensures
        r is Ok <==> pem_identity_ok(pem@),
{
    reqwest::Identity::from_pem(pem)
}

/// Relies on `reqwest::Identity::from_pkcs12_der`: it decodes the PKCS#12
/// archive with the password, a deterministic function of those two inputs.
/// The password crosses a C-string boundary in the native decoder, so the
/// caller keeps interior NUL characters out of it.
#[verifier::external_body]
fn parse_pkcs12_identity(der: &[u8], password: &str) -> (r: Result<
    reqwest::Identity,
    reqwest::Error,
>)
    requires
        no_interior_nul(password@),
    ensures
        r is Ok <==> pkcs12_identity_ok(der@, password@),
{
    reqwest::Identity::from_pkcs12_der(der, password)
}

/// The stored form of an identity: the raw bytes as supplied, tagged by
/// encoding, together with the decryption password for the PKCS#12 form.
#[derive(Clone, Debug)]
pub enum CertDetails {
    PEM(Vec<u8>),
    DER(Vec<u8>, String),
}

/// The mathematical value of stored identity material: the byte sequence
/// and, for the PKCS#12 form, the password characters.
#[verifier::ext_equal]
pub ghost enum CertData {
    Pem { bytes: Seq<u8> },
    Pkcs12 { bytes: Seq<u8>, password: Seq<char> },
}

impl View for CertDetails {
    type V = CertData;

    open spec fn view(&self) -> CertData {
        match self {
            CertDetails::PEM(bytes) => CertData::Pem { bytes: bytes@ },
            CertDetails::DER(bytes, password) => CertData::Pkcs12 {
                bytes: bytes@,
                password: password@,
            },
        }
    }
}

/// Stored identity material is valid when the native parser for its encoding
/// accepts it; a PKCS#12 password must also be free of interior NUL
/// characters, which the native decoder cannot carry.
pub open spec fn cert_data_valid(d: CertData) -> bool {
    match d {
        CertData::Pem { bytes } => pem_identity_ok(bytes),
        CertData::Pkcs12 { bytes, password } => no_interior_nul(password)
            && pkcs12_identity_ok(bytes, password),
    }
}

impl PartialEq for CertDetails {
    fn eq(&self, other: &CertDetails) -> (r: bool) {
        match (self, other) {
            (CertDetails::PEM(a), CertDetails::PEM(b)) => bytes_eq(a.as_slice(), b.as_slice()),
            (CertDetails::DER(a, p), CertDetails::DER(b, q)) => {
                bytes_eq(a.as_slice(), b.as_slice()) && p.eq(q)
            },
            _ => false,
        }
    }
}

impl Eq for CertDetails {}

impl PartialEqSpecImpl for CertDetails {
    open spec fn obeys_eq_spec() -> bool {
        true
    }

    open spec fn eq_spec(&self, other: &CertDetails) -> bool {
        self@ == other@
    }
}

/// The native library's rejection of identity bytes, as it reported it.
#[derive(Debug)]
pub struct IdentityError {
    pub source: reqwest::Error,
}

/// A serializable client TLS identity: the raw bytes (and password, for the
/// PKCS#12 form) that the native library accepted at construction.
#[derive(Clone, Debug)]
pub struct Identity {
    pub cert: CertDetails,
}

impl View for Identity {
    type V = CertData;

    open spec fn view(&self) -> CertData {
        self.cert@
    }
}

impl PartialEq for Identity {
    fn eq(&self, other: &Identity) -> (r: bool) {
        self.cert == other.cert
    }
}

impl Eq for Identity {}

impl PartialEqSpecImpl for Identity {
    open spec fn obeys_eq_spec() -> bool {
        true
    }

    open spec fn eq_spec(&self, other: &Identity) -> bool {
        self@ == other@
    }
}

impl Identity {
    /// The identity is well formed: the native parser for its encoding
    /// accepts its stored bytes, so conversion to the native type succeeds.
    pub open spec fn wf(&self) -> bool {
        cert_data_valid(self@)
    }

    /// Validates `pem` through the native library; on success the returned
    /// identity stores exactly those bytes.
    pub fn from_pem(pem: &[u8]) -> (r: Result<Identity, IdentityError>)
        ensures
            r is Ok <==> pem_identity_ok(pem@),
            r matches Ok(id) ==> id@ == (CertData::Pem { bytes: pem@ }) && id.wf(),
    {
        match parse_pem_identity(pem) {
            Ok(_) => Ok(Identity { cert: CertDetails::PEM(slice_to_vec(pem)) }),
            Err(e) => Err(IdentityError { source: e }),
        }
    }

    /// Validates the PKCS#12 archive `der` under `password`; on success the
    /// returned identity stores exactly those bytes and that password. The
    /// password must hold no interior NUL character: the native decoder
    /// takes it as a C string, which cannot carry one.
    pub fn from_pkcs12_der(der: &[u8], password: &str) -> (r: Result<Identity, IdentityError>)
        requires
            no_interior_nul(password@),
        ensures
            r is Ok <==> pkcs12_identity_ok(der@, password@),
            r matches Ok(id) ==> id@ == (CertData::Pkcs12 {
                bytes: der@,
                password: password@,
            }) && id.wf(),
    {
        match parse_pkcs12_identity(der, password) {
            Ok(_) => Ok(
                Identity { cert: CertDetails::DER(slice_to_vec(der), password.to_owned()) },
            ),
            Err(e) => Err(IdentityError { source: e }),
        }
    }

    /// Re-runs the native validation on the stored bytes.
    pub fn is_valid(&self) -> (r: bool)
        ensures
            r == self.wf(),
    {
        match &self.cert {
            CertDetails::PEM(pem) => match parse_pem_identity(pem.as_slice()) {
                Ok(_) => true,
                Err(_) => false,
            },
            CertDetails::DER(der, password) => {
                if has_interior_nul(password.as_str()) {
                    false
                } else {
                    match parse_pkcs12_identity(der.as_slice(), password.as_str()) {
                        Ok(_) => true,
                        Err(_) => false,
                    }
                }
            },
        }
    }

    /// Converts into the native identity by re-parsing the stored bytes.
    /// Well-formedness — which both constructors establish — guarantees that
    /// the parse succeeds, so the conversion has no failure path.
    pub fn into_native(self) -> reqwest::Identity
        requires
            self.wf(),
    {
        match self.cert {
            CertDetails::PEM(pem) => match parse_pem_identity(pem.as_slice()) {
                Ok(id) => id,
                Err(_) => unreached(),
            },
            CertDetails::DER(der, password) => match parse_pkcs12_identity(
                der.as_slice(),
                password.as_str(),
            ) {
                Ok(id) => id,
                Err(_) => unreached(),
            },
        }
    }

    /// Converts into the native identity where the stored bytes are valid,
    /// and reports an invalid store — which no constructor produces — as
    /// `None`.
    pub fn try_into_native(self) -> (r: Option<reqwest::Identity>)
        ensures
            r is Some <==> self.wf(),
    {
        if self.is_valid() {
            Some(self.into_native())
        } else {
            None
        }
    }
}

/// Two identities are equal exactly when their stored data agree: the same
/// encoding, the same bytes, and — for the PKCS#12 form — the same password.
pub proof fn lemma_identity_eq_is_same_input(i1: Identity, i2: Identity)
    ensures
        PartialEqSpec::eq_spec(&i1, &i2) <==> (match (i1@, i2@) {
            (CertData::Pem { bytes: b1 }, CertData::Pem { bytes: b2 }) => b1 == b2,
            (
                CertData::Pkcs12 { bytes: b1, password: p1 },
                CertData::Pkcs12 { bytes: b2, password: p2 },
            ) => b1 == b2 && p1 == p2,
            _ => false,
        }),
{
}

/// An identity whose stored PEM bytes the native parser accepted — the shape
/// every successful `from_pem` call returns — is well formed, so converting
/// it to the native form succeeds.
pub proof fn lemma_pem_identity_converts(i: Identity, b: Seq<u8>)
    requires
        pem_identity_ok(b),
        i@ == (CertData::Pem { bytes: b }),
    ensures
        i.wf(),
{
}

/// An identity whose stored PKCS#12 bytes the native parser accepted under
/// its stored NUL-free password — the shape every successful
/// `from_pkcs12_der` call returns — is well formed, so converting it to the
/// native form succeeds.
pub proof fn lemma_pkcs12_identity_converts(i: Identity, b: Seq<u8>, p: Seq<char>)
    requires
        no_interior_nul(p),
        pkcs12_identity_ok(b, p),
        i@ == (CertData::Pkcs12 { bytes: b, password: p }),
    ensures
        i.wf(),
{
}

} // verus!
