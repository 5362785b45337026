//! What the status of a chain policy means.
use crate::error::{
    invalid_certificate, invalid_certificate_view, outcome, refused, CertificateError,
    CertificateErrorView, OtherError, OtherErrorView, TlsError, TlsErrorView,
};
use crate::os::TextSource;
use crate::wincrypt::{CERT_E_CN_NO_MATCH, CERT_E_INVALID_NAME, CRYPT_E_REVOKED};
use vstd::prelude::*;

verus! {

/// An error status read as a signed error code of the system.
pub open spec fn error_code(status: u32) -> int {
    if status < 0x8000_0000 {
        status as int
    } else {
        status - 0x1_0000_0000
    }
}

/// Reads an error status as a signed error code of the system.
pub fn win_error(status: u32) -> (code: i32)
    ensures
        code == error_code(status),
        (code - status) % 0x1_0000_0000 == 0,
{
    let code: i32 = #[verifier::truncate] (status as i32);
    assert(code == (if status < 0x8000_0000 { status as int } else { status - 0x1_0000_0000 }))
        by (bit_vector)
        requires
            code == status as i32,
    ;
    code
}

/// Whether a policy status is reported in the system's own words.
pub open spec fn is_unmapped(status: u32) -> bool {
    &&& status != 0
    &&& status != CERT_E_CN_NO_MATCH
    &&& status != CERT_E_INVALID_NAME
    &&& status != CRYPT_E_REVOKED
}

/// The verdict on a chain with the given policy status, where `description` is
/// how the system describes that status.
pub open spec fn policy_verdict(status: u32, description: Seq<char>) -> Result<(), TlsErrorView> {
    if status == 0 {
        Ok(())
    } else if status == CERT_E_CN_NO_MATCH || status == CERT_E_INVALID_NAME {
        Err(refused(CertificateErrorView::NotValidForName))
    } else if status == CRYPT_E_REVOKED {
        Err(refused(CertificateErrorView::Revoked))
    } else {
        Err(invalid_certificate_view(description))
    }
}

/// The text that the verdict on a policy status quotes.
pub open spec fn policy_text_source(status: u32) -> TextSource {
    if is_unmapped(status) {
        TextSource::Code(error_code(status) as i32)
    } else {
        TextSource::Nothing
    }
}

/// Tells which text the verdict on a policy status quotes.
pub fn text_source_of_policy(status: u32) -> (source: TextSource)
    ensures
        source == policy_text_source(status),
        match source {
            TextSource::Code(code) => (code - status) % 0x1_0000_0000 == 0 && status != 0 && status
                != 0x800B_010F && status != 0x800B_0114 && status != 0x8009_2010,
            TextSource::Nothing => status == 0 || status == 0x800B_010F || status == 0x800B_0114
                || status == 0x8009_2010,
            TextSource::LastError => false,
        },
{
    if status == 0 || status == CERT_E_CN_NO_MATCH || status == CERT_E_INVALID_NAME || status
        == CRYPT_E_REVOKED {
        TextSource::Nothing
    } else {
        TextSource::Code(win_error(status))
    }
}

/// Maps a policy status to the verdict on the chain.
pub fn map_policy_status(status: u32, description: String) -> (result: Result<(), TlsError>)
    ensures
        outcome(result) == policy_verdict(status, description@),
        result is Ok <==> status == 0,
        result == Err::<(), TlsError>(
            TlsError::InvalidCertificate(CertificateError::NotValidForName),
        ) <==> status == 0x800B_010F || status == 0x800B_0114,
        result == Err::<(), TlsError>(TlsError::InvalidCertificate(CertificateError::Revoked))
            <==> status == 0x8009_2010,
        status != 0 && status != 0x800B_010F && status != 0x800B_0114 && status != 0x8009_2010
            ==> result == Err::<(), TlsError>(
            TlsError::InvalidCertificate(
                CertificateError::Other(OtherError::Message(description)),
            ),
        ),
{
    if status == 0 {
        return Ok(());
    }
    if status == CERT_E_CN_NO_MATCH || status == CERT_E_INVALID_NAME {
        Err(TlsError::InvalidCertificate(CertificateError::NotValidForName))
    } else if status == CRYPT_E_REVOKED {
        Err(TlsError::InvalidCertificate(CertificateError::Revoked))
    } else {
        Err(invalid_certificate(description))
    }
}

/// The policy accepts a chain exactly when its status is zero.
pub proof fn law_accepted_iff_status_is_zero(status: u32, description: Seq<char>)
    ensures
        policy_verdict(status, description) is Ok <==> status == 0,
{
}

/// The description of a status is quoted only where the status has no error of
/// its own.
pub proof fn law_description_is_quoted_only_if_unmapped(
    status: u32,
    left: Seq<char>,
    right: Seq<char>,
)
    ensures
        policy_text_source(status) is Nothing ==> policy_verdict(status, left) == policy_verdict(
            status,
            right,
        ),
{
}

/// What each status leads to. Zero is accepted, an error about the name is one of the
/// name, a revoked certificate is revoked, and the rest is told in the words of the system.
pub proof fn law_verdict_by_status(status: u32, description: Seq<char>)
    ensures
        policy_verdict(status, description) is Ok <==> status == 0,
        policy_verdict(status, description) == Err::<(), TlsErrorView>(
            TlsErrorView::InvalidCertificate(CertificateErrorView::NotValidForName),
        ) <==> status == 0x800B_010F || status == 0x800B_0114,
        policy_verdict(status, description) == Err::<(), TlsErrorView>(
            TlsErrorView::InvalidCertificate(CertificateErrorView::Revoked),
        ) <==> status == 0x8009_2010,
        policy_verdict(status, description) == Err::<(), TlsErrorView>(
            TlsErrorView::InvalidCertificate(
                CertificateErrorView::Other(OtherErrorView::Message(description)),
            ),
        ) <==> status != 0 && status != 0x800B_010F && status != 0x800B_0114 && status
            != 0x8009_2010,
{
}

/// The words are those of the system for the very status, read as a signed number, and are
/// asked for exactly where they are used.
pub proof fn law_description_is_of_the_status(status: u32)
    ensures
        match policy_text_source(status) {
            TextSource::Code(code) => (code - status) % 0x1_0000_0000 == 0 && status != 0 && status
                != 0x800B_010F && status != 0x800B_0114 && status != 0x8009_2010,
            TextSource::Nothing => status == 0 || status == 0x800B_010F || status == 0x800B_0114
                || status == 0x8009_2010,
            TextSource::LastError => false,
        },
{
}

} // verus!
