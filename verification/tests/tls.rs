use openssl::asn1::Asn1Time;
use openssl::bn::BigNum;
use openssl::hash::MessageDigest;
use openssl::pkey::{PKey, Private};
use openssl::pkcs12::Pkcs12;
use openssl::rsa::Rsa;
use openssl::x509::{X509, X509NameBuilder};

use tls_creds::{bytes_eq, CertDetails, Certificate, Identity};

fn make_key_and_cert() -> (PKey<Private>, X509) {
    let rsa = Rsa::generate(2048).unwrap();
    let pkey = PKey::from_rsa(rsa).unwrap();
    let mut name = X509NameBuilder::new().unwrap();
    name.append_entry_by_text("CN", "credential wrapper test").unwrap();
    let name = name.build();
    let mut builder = X509::builder().unwrap();
    builder.set_version(2).unwrap();
    let serial = BigNum::from_u32(1).unwrap().to_asn1_integer().unwrap();
    builder.set_serial_number(&serial).unwrap();
    builder.set_subject_name(&name).unwrap();
    builder.set_issuer_name(&name).unwrap();
    builder.set_pubkey(&pkey).unwrap();
    builder.set_not_before(&Asn1Time::days_from_now(0).unwrap()).unwrap();
    builder.set_not_after(&Asn1Time::days_from_now(365).unwrap()).unwrap();
    builder.sign(&pkey, MessageDigest::sha256()).unwrap();
    (pkey, builder.build())
}

fn identity_pem(pkey: &PKey<Private>, cert: &X509) -> Vec<u8> {
    let mut pem = pkey.private_key_to_pem_pkcs8().unwrap();
    pem.extend_from_slice(&cert.to_pem().unwrap());
    pem
}

fn pkcs12_der(pkey: &PKey<Private>, cert: &X509, password: &str) -> Vec<u8> {
    let p12 = Pkcs12::builder()
        .name("credential wrapper test")
        .pkey(pkey)
        .cert(cert)
        .build2(password)
        .unwrap();
    p12.to_der().unwrap()
}

#[test]
fn identity_from_pem_stores_input_bytes() {
    let (pkey, cert) = make_key_and_cert();
    let pem = identity_pem(&pkey, &cert);
    let id = Identity::from_pem(&pem).unwrap();
    match &id.cert {
        CertDetails::PEM(stored) => assert_eq!(stored, &pem),
        CertDetails::DER(_, _) => panic!("PEM input stored in the DER variant"),
    }
}

#[test]
fn identity_from_pem_rejects_invalid_bytes() {
    assert!(Identity::from_pem(b"not a pem identity").is_err());
    assert!(Identity::from_pem(&[]).is_err());
    // A certificate without a private key is not identity material.
    let (_, cert) = make_key_and_cert();
    assert!(Identity::from_pem(&cert.to_pem().unwrap()).is_err());
}

#[test]
fn identity_from_pkcs12_der_stores_bytes_and_password() {
    let (pkey, cert) = make_key_and_cert();
    let der = pkcs12_der(&pkey, &cert, "hunter2");
    let id = Identity::from_pkcs12_der(&der, "hunter2").unwrap();
    match &id.cert {
        CertDetails::DER(stored, password) => {
            assert_eq!(stored, &der);
            assert_eq!(password.as_str(), "hunter2");
        }
        CertDetails::PEM(_) => panic!("DER input stored in the PEM variant"),
    }
}

#[test]
fn identity_from_pkcs12_der_rejects_wrong_password() {
    let (pkey, cert) = make_key_and_cert();
    let der = pkcs12_der(&pkey, &cert, "hunter2");
    assert!(Identity::from_pkcs12_der(&der, "wrong").is_err());
    assert!(Identity::from_pkcs12_der(b"not pkcs12 data", "hunter2").is_err());
}

#[test]
fn constructed_identities_convert_to_native() {
    let (pkey, cert) = make_key_and_cert();
    let pem_id = Identity::from_pem(&identity_pem(&pkey, &cert)).unwrap();
    assert!(pem_id.try_into_native().is_some());
    let der = pkcs12_der(&pkey, &cert, "hunter2");
    let der_id = Identity::from_pkcs12_der(&der, "hunter2").unwrap();
    assert!(der_id.try_into_native().is_some());
}

#[test]
fn unvalidated_identity_does_not_convert() {
    let id = Identity { cert: CertDetails::PEM(b"garbage".to_vec()) };
    assert!(!id.is_valid());
    assert!(id.try_into_native().is_none());
}

#[test]
fn nul_bearing_password_is_invalid() {
    // A password with an interior NUL cannot reach the native decoder's
    // C-string boundary; a store holding one never validates and never
    // converts.
    let (pkey, cert) = make_key_and_cert();
    let der = pkcs12_der(&pkey, &cert, "hunter2");
    let id = Identity { cert: CertDetails::DER(der, "hun\0ter2".to_string()) };
    assert!(!id.is_valid());
    assert!(id.try_into_native().is_none());
}

#[test]
fn identities_from_same_input_compare_equal() {
    let (pkey, cert) = make_key_and_cert();
    let pem = identity_pem(&pkey, &cert);
    let a = Identity::from_pem(&pem).unwrap();
    let b = Identity::from_pem(&pem).unwrap();
    assert_eq!(a, b);
    assert_eq!(a.clone(), b);

    let der = pkcs12_der(&pkey, &cert, "hunter2");
    let c = Identity::from_pkcs12_der(&der, "hunter2").unwrap();
    let d = Identity::from_pkcs12_der(&der, "hunter2").unwrap();
    assert_eq!(c, d);
}

#[test]
fn identities_from_different_input_compare_unequal() {
    let (pkey1, cert1) = make_key_and_cert();
    let (pkey2, cert2) = make_key_and_cert();
    let a = Identity::from_pem(&identity_pem(&pkey1, &cert1)).unwrap();
    let b = Identity::from_pem(&identity_pem(&pkey2, &cert2)).unwrap();
    assert_ne!(a, b);

    // Same archive bytes under differing passwords are unequal, as are the
    // two stored encodings of one credential.
    let der = pkcs12_der(&pkey1, &cert1, "hunter2");
    let c = Identity { cert: CertDetails::DER(der.clone(), "hunter2".to_string()) };
    let d = Identity { cert: CertDetails::DER(der.clone(), "other".to_string()) };
    assert_ne!(c, d);
    let e = Identity { cert: CertDetails::PEM(der.clone()) };
    assert_ne!(c, e);
}

#[test]
fn certificate_from_pem_stores_der_reencoding() {
    let (_, cert) = make_key_and_cert();
    let pem = cert.to_pem().unwrap();
    let wrapped = Certificate::from_pem(&pem).unwrap();
    // The stored bytes are the DER re-encoding of the parsed certificate,
    // not the PEM input itself.
    assert_eq!(wrapped.der, cert.to_der().unwrap());
    assert_ne!(wrapped.der, pem);
    assert!(wrapped.try_into_native().is_some());
}

#[test]
fn certificate_from_der_stores_input_verbatim() {
    let (_, cert) = make_key_and_cert();
    let der = cert.to_der().unwrap();
    let wrapped = Certificate::from_der(&der).unwrap();
    assert_eq!(wrapped.der, der);
    assert!(wrapped.try_into_native().is_some());
}

#[test]
fn certificate_rejects_invalid_bytes() {
    assert!(Certificate::from_pem(b"not a certificate").is_err());
    assert!(Certificate::from_der(b"not a certificate").is_err());
    assert!(Certificate::from_pem(&[]).is_err());
    assert!(Certificate::from_der(&[]).is_err());
}

#[test]
fn unvalidated_certificate_does_not_convert() {
    let wrapped = Certificate { der: b"garbage".to_vec() };
    assert!(!wrapped.is_valid());
    assert!(wrapped.try_into_native().is_none());
}

#[test]
fn certificates_compare_by_stored_bytes() {
    let (_, cert) = make_key_and_cert();
    let der = cert.to_der().unwrap();
    let a = Certificate::from_der(&der).unwrap();
    let b = Certificate::from_der(&der).unwrap();
    assert_eq!(a, b);
    assert_eq!(a.clone(), b);
    let (_, other) = make_key_and_cert();
    let c = Certificate::from_der(&other.to_der().unwrap()).unwrap();
    assert_ne!(a, c);
}

#[test]
fn bytes_eq_compares_contents() {
    assert!(bytes_eq(b"", b""));
    assert!(bytes_eq(b"abc", b"abc"));
    assert!(!bytes_eq(b"abc", b"abd"));
    assert!(!bytes_eq(b"abc", b"ab"));
    assert!(!bytes_eq(b"", b"a"));
}
