//! Serializable wrappers around the TLS client credentials of an HTTP client
//! library: an identity (private key plus certificate chain) and a trusted
//! certificate. Construction validates the raw bytes through the native TLS
//! library and retains them in plain fields fit for persistence; conversion
//! back to the native types re-runs the same parse, which the construction
//! contract guarantees to succeed.

mod bytes;
mod certificate;
mod identity;
mod native;

pub use bytes::bytes_eq;
pub use certificate::{
    Certificate, CertificateError, der_cert_ok, lemma_certificate_eq_is_same_der,
    lemma_der_certificate_converts, pem_cert_der, pem_cert_ok,
};
pub use identity::{
    CertData, CertDetails, Identity, IdentityError, cert_data_valid,
    lemma_identity_eq_is_same_input, lemma_pem_identity_converts,
    lemma_pkcs12_identity_converts, no_interior_nul, pem_identity_ok, pkcs12_identity_ok,
};
