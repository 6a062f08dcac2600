//! Declarations of the native TLS library types that the wrappers carry
//! through: the parsed identity and certificate values and the two error
//! types. All of them are opaque here; the library stores only raw bytes and
//! hands these values straight back to the caller.

use vstd::prelude::*;
use reqwest::Identity as ReqwestIdentity;
use reqwest::Certificate as ReqwestCertificate;

verus! {

#[verifier::external_type_specification]
#[verifier::external_body]
pub struct ExReqwestIdentity(ReqwestIdentity);

#[verifier::external_type_specification]
#[verifier::external_body]
pub struct ExReqwestCertificate(ReqwestCertificate);

#[verifier::external_type_specification]
#[verifier::external_body]
pub struct ExReqwestError(reqwest::Error);

#[verifier::external_type_specification]
#[verifier::external_body]
pub struct ExNativeTlsError(native_tls::Error);

} // verus!
