//! A serializable trusted certificate, normalized to DER bytes: PEM input is
//! parsed and re-encoded through the native library, DER input is validated
//! and stored verbatim.

use vstd::prelude::*;
use vstd::pervasive::unreached;
use vstd::slice::slice_to_vec;
use vstd::std_specs::cmp::{PartialEqSpec, PartialEqSpecImpl};
use crate::bytes::bytes_eq;

verus! {

/// Whether parsing `b` as a PEM certificate and re-encoding the result to
/// DER succeeds in the native library. A function of the bytes alone.
pub uninterp spec fn pem_cert_ok(b: Seq<u8>) -> bool;

/// The DER re-encoding that the native library produces for the PEM
/// certificate `b`, where `pem_cert_ok(b)` holds.
pub uninterp spec fn pem_cert_der(b: Seq<u8>) -> Seq<u8>;

/// Whether `b` parses as a DER-encoded certificate in the native library. A
/// function of the bytes alone.
pub uninterp spec fn der_cert_ok(b: Seq<u8>) -> bool;

/// Relies on `native_tls::Certificate::from_pem` followed by
/// `native_tls::Certificate::to_der`: parsing a PEM certificate and
/// re-encoding it is a deterministic function of the input bytes, and the
/// DER encoding it returns is what `native_tls::Certificate::from_der`
/// parses back. The PEM parse reads the input through an in-memory buffer
/// of the native library that holds at most `0x7fff_ffff` bytes, so the
/// caller keeps the input within that bound.
#[verifier::external_body]
fn parse_pem_cert_to_der(pem: &[u8]) -> (r: Result<Vec<u8>, native_tls::Error>)
    requires
        pem@.len() <= 0x7fff_ffff,
    ensures
        r is Ok <==> pem_cert_ok(pem@),
        r matches Ok(der) ==> der@ == pem_cert_der(pem@) && der_cert_ok(der@),
{
    match native_tls::Certificate::from_pem(pem) {
        Ok(cert) => cert.to_der(),
        Err(e) => Err(e),
    }
}

/// Relies on `native_tls::Certificate::from_der`: whether the bytes parse as
/// a DER certificate is a deterministic function of the bytes.
#[verifier::external_body]
fn check_der_cert(der: &[u8]) -> (r: Result<(), native_tls::Error>)
    ensures
        r is Ok <==> der_cert_ok(der@),
{
    match native_tls::Certificate::from_der(der) {
        Ok(_) => Ok(()),
        Err(e) => Err(e),
    }
}

/// Relies on `reqwest::Certificate::from_der`, which validates its input
/// through `native_tls::Certificate::from_der`: it succeeds on exactly the
/// bytes that the native DER parser accepts.
#[verifier::external_body]
fn parse_native_cert(der: &[u8]) -> (r: Result<reqwest::Certificate, reqwest::Error>)
    ensures
        r is Ok <==> der_cert_ok(der@),
{
    reqwest::Certificate::from_der(der)
}

/// The native library's rejection of certificate bytes, as it reported it.
#[derive(Debug)]
pub struct CertificateError {
    pub source: native_tls::Error,
}

/// A serializable trusted certificate, held as the DER bytes that the native
/// library accepted at construction.
#[derive(Clone, Debug)]
pub struct Certificate {
    pub der: Vec<u8>,
}

impl View for Certificate {
    type V = Seq<u8>;

    open spec fn view(&self) -> Seq<u8> {
        self.der@
    }
}

impl PartialEq for Certificate {
    fn eq(&self, other: &Certificate) -> (r: bool) {
        bytes_eq(self.der.as_slice(), other.der.as_slice())
    }
}

impl Eq for Certificate {}

impl PartialEqSpecImpl for Certificate {
    open spec fn obeys_eq_spec() -> bool {
        true
    }

    open spec fn eq_spec(&self, other: &Certificate) -> bool {
        self@ == other@
    }
}

impl Certificate {
    /// The certificate is well formed: the native DER parser accepts its
    /// stored bytes, so conversion to the native type succeeds.
    pub open spec fn wf(&self) -> bool {
        der_cert_ok(self@)
    }

    /// Parses `pem` through the native library and stores the DER
    /// re-encoding of the parsed certificate; the PEM bytes themselves are
    /// not retained. The input must fit the native library's in-memory
    /// buffer, which holds at most `0x7fff_ffff` bytes.
    pub fn from_pem(pem: &[u8]) -> (r: Result<Certificate, CertificateError>)
        requires
            pem@.len() <= 0x7fff_ffff,
        ensures
            r is Ok <==> pem_cert_ok(pem@),
            r matches Ok(c) ==> c@ == pem_cert_der(pem@) && c.wf(),
    {
        match parse_pem_cert_to_der(pem) {
            Ok(der) => Ok(Certificate { der }),
            Err(e) => Err(CertificateError { source: e }),
        }
    }

    /// Validates `der` through the native library and stores exactly those
    /// bytes.
    pub fn from_der(der: &[u8]) -> (r: Result<Certificate, CertificateError>)
        ensures
            r is Ok <==> der_cert_ok(der@),
            r matches Ok(c) ==> c@ == der@ && c.wf(),
    {
        match check_der_cert(der) {
            Ok(_) => Ok(Certificate { der: slice_to_vec(der) }),
            Err(e) => Err(CertificateError { source: e }),
        }
    }

    /// Re-runs the native validation on the stored bytes.
    pub fn is_valid(&self) -> (r: bool)
        ensures
            r == self.wf(),
    {
        match check_der_cert(self.der.as_slice()) {
            Ok(_) => true,
            Err(_) => false,
        }
    }

    /// Converts into the native certificate by re-parsing the stored DER
    /// bytes. Well-formedness — which both constructors establish —
    /// guarantees that the parse succeeds, so the conversion has no failure
    /// path.
    pub fn into_native(self) -> reqwest::Certificate
        requires
            self.wf(),
    {
        match parse_native_cert(self.der.as_slice()) {
            Ok(c) => c,
            Err(_) => unreached(),
        }
    }

    /// Converts into the native certificate where the stored bytes are
    /// valid, and reports an invalid store — which no constructor produces —
    /// as `None`.
    pub fn try_into_native(self) -> (r: Option<reqwest::Certificate>)
        ensures
            r is Some <==> self.wf(),
    {
        if self.is_valid() {
            Some(self.into_native())
        } else {
            None
        }
    }
}

/// Two certificates are equal exactly when their stored DER bytes agree.
pub proof fn lemma_certificate_eq_is_same_der(c1: Certificate, c2: Certificate)
    ensures
        PartialEqSpec::eq_spec(&c1, &c2) <==> c1@ == c2@,
{
}

/// A certificate whose stored bytes the native DER parser accepted — the
/// shape every successful constructor call returns — is well formed, so
/// converting it to the native form succeeds.
pub proof fn lemma_der_certificate_converts(c: Certificate, b: Seq<u8>)
    requires
        der_cert_ok(b),
        c@ == b,
    ensures
        c.wf(),
{
}

} // verus!
