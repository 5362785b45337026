//! The constants of the Windows certificate API that the verifier uses.
use vstd::prelude::*;

verus! {

/// The only `BOOL` value that counts as success.
pub const TRUE: i32 = 1;

/// The null handle.
pub const NULL: usize = 0;

/// Store provider: a store held in memory.
pub const CERT_STORE_PROV_MEMORY: usize = 2;

/// A store stays open until the last certificate context from it is freed.
pub const CERT_STORE_DEFER_CLOSE_UNTIL_LAST_FREE_FLAG: u32 = 0x0000_0004;

/// Certificates are encoded as X.509 in ASN.1 DER.
pub const X509_ASN_ENCODING: u32 = 0x0000_0001;

/// A certificate is added whether or not the store holds it already.
pub const CERT_STORE_ADD_ALWAYS: u32 = 4;

/// Property of a certificate context: the OCSP response stapled to it.
pub const CERT_OCSP_RESPONSE_PROP_ID: u32 = 70;

/// A failure to persist a property is no failure.
pub const CERT_SET_PROPERTY_IGNORE_PERSIST_ERROR_FLAG: u32 = 0x8000_0000;

/// A chain engine only uses what is cached, never the network.
pub const CERT_CHAIN_CACHE_ONLY_URL_RETRIEVAL: u32 = 0x0000_0004;

/// A chain engine keeps its cache up to date.
pub const CERT_CHAIN_ENABLE_CACHE_AUTO_UPDATE: u32 = 0x0000_0010;

/// Every requested usage has to be present.
pub const USAGE_MATCH_TYPE_AND: u32 = 0x0000_0000;

/// Usage identifier: authentication of a TLS server.
pub const OID_PKIX_KP_SERVER_AUTH: &'static str = "1.3.6.1.5.5.7.3.1";

/// The end certificate is cached.
pub const CERT_CHAIN_CACHE_END_CERT: u32 = 0x0000_0001;

/// Revocation is looked up in the cache only.
pub const CERT_CHAIN_REVOCATION_CHECK_CACHE_ONLY: u32 = 0x8000_0000;

/// Revocation is looked up for the whole chain but its root.
pub const CERT_CHAIN_REVOCATION_CHECK_CHAIN_EXCLUDE_ROOT: u32 = 0x4000_0000;

/// Chain policy: that of TLS.
pub const CERT_CHAIN_POLICY_SSL: usize = 4;

/// The chain is that of a server.
pub const AUTHTYPE_SERVER: u32 = 2;

/// The chain policy ignores an unknown revocation status of the end certificate.
pub const CERT_CHAIN_POLICY_IGNORE_END_REV_UNKNOWN_FLAG: u32 = 0x0000_0100;

/// The chain policy ignores an unknown revocation status of a trust list signer.
pub const CERT_CHAIN_POLICY_IGNORE_CTL_SIGNER_REV_UNKNOWN_FLAG: u32 = 0x0000_0200;

/// The chain policy ignores an unknown revocation status of an authority.
pub const CERT_CHAIN_POLICY_IGNORE_CA_REV_UNKNOWN_FLAG: u32 = 0x0000_0400;

/// The chain policy ignores an unknown revocation status of the root.
pub const CERT_CHAIN_POLICY_IGNORE_ROOT_REV_UNKNOWN_FLAG: u32 = 0x0000_0800;

/// The chain policy ignores every unknown revocation status.
pub const CERT_CHAIN_POLICY_IGNORE_ALL_REV_UNKNOWN_FLAGS: u32 =
    CERT_CHAIN_POLICY_IGNORE_END_REV_UNKNOWN_FLAG
    | CERT_CHAIN_POLICY_IGNORE_CTL_SIGNER_REV_UNKNOWN_FLAG
    | CERT_CHAIN_POLICY_IGNORE_CA_REV_UNKNOWN_FLAG
    | CERT_CHAIN_POLICY_IGNORE_ROOT_REV_UNKNOWN_FLAG;

/// Trust status: nothing is wrong.
pub const CERT_TRUST_NO_ERROR: u32 = 0x0000_0000;

/// Trust status: a certificate is outside its validity period.
pub const CERT_TRUST_IS_NOT_TIME_VALID: u32 = 0x0000_0001;

/// Trust status: a certificate is revoked.
pub const CERT_TRUST_IS_REVOKED: u32 = 0x0000_0004;

/// Trust status: a certificate is not valid for the requested usage.
pub const CERT_TRUST_IS_NOT_VALID_FOR_USAGE: u32 = 0x0000_0010;

/// Trust status: the chain ends in a root that is not trusted.
pub const CERT_TRUST_IS_UNTRUSTED_ROOT: u32 = 0x0000_0020;

/// Trust status: the revocation status of a certificate is unknown.
pub const CERT_TRUST_REVOCATION_STATUS_UNKNOWN: u32 = 0x0000_0040;

/// Trust status: the chain is not complete.
pub const CERT_TRUST_IS_PARTIAL_CHAIN: u32 = 0x0001_0000;

/// Trust status: a trust list is outside its validity period.
pub const CERT_TRUST_CTL_IS_NOT_TIME_VALID: u32 = 0x0002_0000;

/// Trust status: a trust list is not valid for the requested usage.
pub const CERT_TRUST_CTL_IS_NOT_VALID_FOR_USAGE: u32 = 0x0008_0000;

/// Trust status: the revocation information is offline.
pub const CERT_TRUST_IS_OFFLINE_REVOCATION: u32 = 0x0100_0000;

/// Trust status: a certificate is explicitly distrusted.
pub const CERT_TRUST_IS_EXPLICIT_DISTRUST: u32 = 0x0400_0000;

/// Policy error: the name in the certificate is not that of the server.
pub const CERT_E_CN_NO_MATCH: u32 = 0x800B_010F;

/// Policy error: the name in the certificate is not a valid name.
pub const CERT_E_INVALID_NAME: u32 = 0x800B_0114;

/// Policy error: the certificate is revoked.
pub const CRYPT_E_REVOKED: u32 = 0x8009_2010;

} // verus!
