//! What the trust status of a certificate chain means.
use crate::decimal::{
    append_decimal, decimal, law_decimal_reads_back, lemma_decimal_injective, reads_as,
};
use crate::error::{
    invalid_certificate, invalid_certificate_view, outcome, refused, CertificateError,
    CertificateErrorView, OtherError, OtherErrorView, TlsError, TlsErrorView,
};
use crate::wincrypt::{
    CERT_TRUST_CTL_IS_NOT_TIME_VALID, CERT_TRUST_CTL_IS_NOT_VALID_FOR_USAGE,
    CERT_TRUST_IS_EXPLICIT_DISTRUST, CERT_TRUST_IS_NOT_TIME_VALID,
    CERT_TRUST_IS_NOT_VALID_FOR_USAGE, CERT_TRUST_IS_OFFLINE_REVOCATION,
    CERT_TRUST_IS_PARTIAL_CHAIN, CERT_TRUST_IS_REVOKED, CERT_TRUST_IS_UNTRUSTED_ROOT,
    CERT_TRUST_NO_ERROR, CERT_TRUST_REVOCATION_STATUS_UNKNOWN,
};
use vstd::prelude::*;
use vstd::string::StringExecFns;

verus! {

/// Missing revocation information, whatever the reason. It is ignored, so that
/// a network partition between the client and the servers of the certificate
/// authority does not make the connection fail.
pub const UNABLE_TO_CHECK_REVOCATION: u32 = CERT_TRUST_REVOCATION_STATUS_UNKNOWN
    | CERT_TRUST_IS_OFFLINE_REVOCATION;

/// The class of errors about what a certificate may be used for.
pub const NOT_VALID_FOR_USAGE: u32 = CERT_TRUST_IS_NOT_VALID_FOR_USAGE
    | CERT_TRUST_CTL_IS_NOT_VALID_FOR_USAGE;

/// The class of errors about when a certificate is valid.
pub const NOT_TIME_VALID: u32 = CERT_TRUST_IS_NOT_TIME_VALID | CERT_TRUST_CTL_IS_NOT_TIME_VALID;

/// The class of errors about who issued a certificate.
pub const NOT_TRUSTED: u32 = CERT_TRUST_IS_UNTRUSTED_ROOT | CERT_TRUST_IS_EXPLICIT_DISTRUST
    | CERT_TRUST_IS_PARTIAL_CHAIN;

/// What is wrong with a chain once missing revocation information is ignored.
pub open spec fn relevant(unfiltered_status: u32) -> u32 {
    unfiltered_status & !UNABLE_TO_CHECK_REVOCATION
}

/// Something is set in `status`, and nothing outside `flags`.
pub open spec fn within(status: u32, flags: u32) -> bool {
    status != 0 && status & !flags == 0
}

/// The message of an error that fits no class: it names the status as the
/// system gave it.
pub open spec fn status_message(unfiltered_status: u32) -> Seq<char> {
    "Bad certificate chain with Windows error status "@ + decimal(unfiltered_status as nat)
}

/// The verdict on a chain with the given trust status.
///
/// The system may report several errors, the verdict is one. A revoked
/// certificate outweighs everything else; otherwise an error is named by its
/// class where all the errors are of one class, and by the whole status where
/// they are not.
pub open spec fn trust_verdict(unfiltered_status: u32) -> Result<(), TlsErrorView> {
    let status = relevant(unfiltered_status);
    if status == CERT_TRUST_NO_ERROR {
        Ok(())
    } else if status & CERT_TRUST_IS_REVOKED != 0 {
        Err(refused(CertificateErrorView::Revoked))
    } else if within(status, NOT_VALID_FOR_USAGE) {
        Err(refused(CertificateErrorView::Other(OtherErrorView::Eku)))
    } else if within(status, NOT_TIME_VALID) {
        Err(refused(CertificateErrorView::Expired))
    } else if within(status, NOT_TRUSTED) {
        Err(refused(CertificateErrorView::UnknownIssuer))
    } else {
        Err(invalid_certificate_view(status_message(unfiltered_status)))
    }
}

/// The message tells of a chain that is bad, and of its whole status.
pub open spec fn tells(message: Seq<char>, unfiltered_status: u32) -> bool {
    let opening = "Bad certificate chain with Windows error status "@;
    &&& opening.is_prefix_of(message)
    &&& reads_as(message.skip(opening.len() as int), unfiltered_status as int)
}

/// The flags of each class, by their values.
proof fn lemma_flag_values()
    ensures
        UNABLE_TO_CHECK_REVOCATION == 0x0100_0040,
        NOT_VALID_FOR_USAGE == 0x0008_0010,
        NOT_TIME_VALID == 0x0002_0001,
        NOT_TRUSTED == 0x0401_0020,
        CERT_TRUST_IS_REVOKED == 0x4,
{
    assert(UNABLE_TO_CHECK_REVOCATION == 0x0100_0040 && NOT_VALID_FOR_USAGE == 0x0008_0010
        && NOT_TIME_VALID == 0x0002_0001 && NOT_TRUSTED == 0x0401_0020) by (bit_vector);
}

/// The verdict by the flags that are left when those of missing revocation information are
/// taken out: none, and the chain is trusted; the one of revocation among them, and it is
/// revoked; only those of one class, and the error is that of the class. Flags of two
/// classes, or of none, give the message with the whole status.
pub proof fn law_verdict_by_flags(unfiltered_status: u32)
    ensures
        ({
            let status = unfiltered_status & !0x0100_0040;
            let verdict = trust_verdict(unfiltered_status);
            &&& verdict is Ok <==> status == 0
            &&& verdict == Err::<(), TlsErrorView>(
                TlsErrorView::InvalidCertificate(CertificateErrorView::Revoked),
            ) <==> status & 0x4 != 0
            &&& verdict == Err::<(), TlsErrorView>(
                TlsErrorView::InvalidCertificate(CertificateErrorView::Other(OtherErrorView::Eku)),
            ) <==> status != 0 && status & !0x0008_0010 == 0
            &&& verdict == Err::<(), TlsErrorView>(
                TlsErrorView::InvalidCertificate(CertificateErrorView::Expired),
            ) <==> status != 0 && status & !0x0002_0001 == 0
            &&& verdict == Err::<(), TlsErrorView>(
                TlsErrorView::InvalidCertificate(CertificateErrorView::UnknownIssuer),
            ) <==> status != 0 && status & !0x0401_0020 == 0
            &&& status & 0x4 == 0 && status & !0x0008_0010 != 0 && status & !0x0002_0001 != 0
                && status & !0x0401_0020 != 0 ==> (verdict matches Err(
                TlsErrorView::InvalidCertificate(
                    CertificateErrorView::Other(OtherErrorView::Message(message)),
                ),
            ) && tells(message, unfiltered_status))
        }),
{
    lemma_flag_values();
    let status = unfiltered_status & !0x0100_0040;
    law_classes_are_disjoint(status);
    assert(status == 0 ==> status & 0x4 == 0 && status & !0x0008_0010 == 0) by (bit_vector);
    let opening = "Bad certificate chain with Windows error status "@;
    let message = status_message(unfiltered_status);
    law_decimal_reads_back(unfiltered_status as nat);
    assert(message.skip(opening.len() as int) =~= decimal(unfiltered_status as nat));
    assert(opening.is_prefix_of(message));
}

/// Whether the only flags set in `status` are in `flags`, and at least one of
/// them is set.
#[must_use]
pub fn only_flags_set(status: u32, flags: u32) -> (only: bool)
    ensures
        only == within(status, flags),
        only <==> (status & !flags) == 0 && (status & flags) != 0,
{
    assert(((status & !flags) == 0 && (status & flags) != 0) == (status != 0 && status & !flags
        == 0)) by (bit_vector);
    ((status & !flags) == 0) && ((status & flags) != 0)
}

/// Maps the trust status of a chain to the verdict on it.
pub fn map_trust_error_status(unfiltered_status: u32) -> (result: Result<(), TlsError>)
    ensures
        outcome(result) == trust_verdict(unfiltered_status),
        ({
            let status = unfiltered_status & !0x0100_0040;
            &&& result is Ok <==> status == 0
            &&& result == Err::<(), TlsError>(
                TlsError::InvalidCertificate(CertificateError::Revoked),
            ) <==> status & 0x4 != 0
            &&& result == Err::<(), TlsError>(
                TlsError::InvalidCertificate(CertificateError::Other(OtherError::Eku)),
            ) <==> status != 0 && status & !0x0008_0010 == 0
            &&& result == Err::<(), TlsError>(
                TlsError::InvalidCertificate(CertificateError::Expired),
            ) <==> status != 0 && status & !0x0002_0001 == 0
            &&& result == Err::<(), TlsError>(
                TlsError::InvalidCertificate(CertificateError::UnknownIssuer),
            ) <==> status != 0 && status & !0x0401_0020 == 0
            &&& status & 0x4 == 0 && status & !0x0008_0010 != 0 && status & !0x0002_0001 != 0
                && status & !0x0401_0020 != 0 ==> (result matches Err(
                TlsError::InvalidCertificate(
                    CertificateError::Other(OtherError::Message(message)),
                ),
            ) && tells(message@, unfiltered_status))
        }),
{
    proof {
        law_verdict_by_flags(unfiltered_status);
        lemma_flag_values();
    }
    let status: u32 = unfiltered_status & !UNABLE_TO_CHECK_REVOCATION;
    if status == CERT_TRUST_NO_ERROR {
        return Ok(());
    }
    if (status & CERT_TRUST_IS_REVOKED) != 0 {
        return Err(TlsError::InvalidCertificate(CertificateError::Revoked));
    }
    if only_flags_set(status, NOT_VALID_FOR_USAGE) {
        return Err(TlsError::InvalidCertificate(CertificateError::Other(OtherError::Eku)));
    }
    if only_flags_set(status, NOT_TIME_VALID) {
        return Err(TlsError::InvalidCertificate(CertificateError::Expired));
    }
    if only_flags_set(status, NOT_TRUSTED) {
        return Err(TlsError::InvalidCertificate(CertificateError::UnknownIssuer));
    }
    let mut message = String::from_str("Bad certificate chain with Windows error status ");
    append_decimal(&mut message, unfiltered_status);
    Err(invalid_certificate(message))
}

/// The same verdict, but for the status that an error outside the classes names.
pub open spec fn same_but_for_message(
    left: Result<(), TlsErrorView>,
    right: Result<(), TlsErrorView>,
) -> bool {
    left == right || exists|l: Seq<char>, r: Seq<char>|
        left == Err::<(), TlsErrorView>(#[trigger] invalid_certificate_view(l)) && right == Err::<
            (),
            TlsErrorView,
        >(#[trigger] invalid_certificate_view(r))
}

/// A chain passes exactly when nothing but missing revocation information is
/// reported of it.
pub proof fn law_trusted_iff_only_revocation_unknown(status: u32)
    ensures
        trust_verdict(status) is Ok <==> status & !UNABLE_TO_CHECK_REVOCATION == 0,
{
}

/// Missing revocation information never changes the verdict.
pub proof fn law_missing_revocation_information_is_ignored(status: u32, missing: u32)
    requires
        missing & !UNABLE_TO_CHECK_REVOCATION == 0,
    ensures
        same_but_for_message(trust_verdict(status), trust_verdict(status | missing)),
{
    assert((status | missing) & !UNABLE_TO_CHECK_REVOCATION == status
        & !UNABLE_TO_CHECK_REVOCATION) by (bit_vector)
        requires
            missing & !UNABLE_TO_CHECK_REVOCATION == 0,
    ;
    let l = status_message(status);
    let r = status_message(status | missing);
    if trust_verdict(status) == Err::<(), TlsErrorView>(invalid_certificate_view(l)) {
        assert(trust_verdict(status | missing) == Err::<(), TlsErrorView>(
            invalid_certificate_view(r),
        ) || trust_verdict(status) == trust_verdict(status | missing));
    }
}

/// A revoked certificate is reported as revoked, whatever else is wrong.
pub proof fn law_revoked_outweighs_everything(status: u32)
    requires
        status & CERT_TRUST_IS_REVOKED != 0,
    ensures
        trust_verdict(status) == Err::<(), TlsErrorView>(refused(CertificateErrorView::Revoked)),
{
    assert((status & !UNABLE_TO_CHECK_REVOCATION) & CERT_TRUST_IS_REVOKED != 0) by (bit_vector)
        requires
            status & CERT_TRUST_IS_REVOKED != 0,
    ;
    let kept = status & !UNABLE_TO_CHECK_REVOCATION;
    assert(kept != 0) by (bit_vector)
        requires
            kept & CERT_TRUST_IS_REVOKED != 0,
    ;
}

/// Only a revoked certificate is reported as revoked.
pub proof fn law_revoked_only_if_reported(status: u32)
    requires
        trust_verdict(status) == Err::<(), TlsErrorView>(refused(CertificateErrorView::Revoked)),
    ensures
        status & CERT_TRUST_IS_REVOKED != 0,
{
    let kept = status & !UNABLE_TO_CHECK_REVOCATION;
    assert(kept & CERT_TRUST_IS_REVOKED != 0);
    assert(status & CERT_TRUST_IS_REVOKED != 0) by (bit_vector)
        requires
            (status & !UNABLE_TO_CHECK_REVOCATION) & CERT_TRUST_IS_REVOKED != 0,
    ;
}

/// The classes exclude each other and revocation, so that a status is of at
/// most one class.
pub proof fn law_classes_are_disjoint(status: u32)
    ensures
        !(within(status, NOT_VALID_FOR_USAGE) && within(status, NOT_TIME_VALID)),
        !(within(status, NOT_VALID_FOR_USAGE) && within(status, NOT_TRUSTED)),
        !(within(status, NOT_TIME_VALID) && within(status, NOT_TRUSTED)),
        status & CERT_TRUST_IS_REVOKED != 0 ==> !within(status, NOT_VALID_FOR_USAGE) && !within(
            status,
            NOT_TIME_VALID,
        ) && !within(status, NOT_TRUSTED),
{
    assert(!(status != 0 && status & !NOT_VALID_FOR_USAGE == 0 && status & !NOT_TIME_VALID == 0))
        by (bit_vector);
    assert(!(status != 0 && status & !NOT_VALID_FOR_USAGE == 0 && status & !NOT_TRUSTED == 0))
        by (bit_vector);
    assert(!(status != 0 && status & !NOT_TIME_VALID == 0 && status & !NOT_TRUSTED == 0))
        by (bit_vector);
    assert(status & CERT_TRUST_IS_REVOKED != 0 ==> status & !NOT_VALID_FOR_USAGE != 0 && status
        & !NOT_TIME_VALID != 0 && status & !NOT_TRUSTED != 0) by (bit_vector);
}

/// An error outside the classes tells exactly what the system reported: from
/// the message the whole status can be read back.
pub proof fn law_message_determines_status(left: u32, right: u32)
    requires
        status_message(left) == status_message(right),
    ensures
        left == right,
{
    let prefix = "Bad certificate chain with Windows error status "@;
    assert(status_message(left).skip(prefix.len() as int) =~= decimal(left as nat));
    assert(status_message(right).skip(prefix.len() as int) =~= decimal(right as nat));
    lemma_decimal_injective(left as nat, right as nat);
}

} // verus!
