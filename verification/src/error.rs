//! The errors that a verification ends with.
use vstd::prelude::*;

verus! {

/// An error of a certificate that none of the named classes describes.
#[derive(Debug, Clone, PartialEq, Eq)]
pub enum OtherError {
    /// The certificate is not valid for authenticating a TLS server.
    Eku,
    /// The error in words.
    Message(String),
}

/// Why a certificate is refused.
#[derive(Debug, Clone, PartialEq, Eq)]
pub enum CertificateError {
    /// A certificate is not correctly encoded.
    BadEncoding,
    /// A certificate is outside its validity period.
    Expired,
    /// The certificate is not for the server's name.
    NotValidForName,
    /// A certificate is revoked.
    Revoked,
    /// The chain does not lead to a trusted root.
    UnknownIssuer,
    /// Anything else.
    Other(OtherError),
}

/// Why a verification fails.
#[derive(Debug, Clone, PartialEq, Eq)]
pub enum TlsError {
    /// The system could not do its part; the text says why.
    General(String),
    /// The current time lies before the Unix epoch.
    FailedToGetCurrentTime,
    /// The server is named in a way that cannot be verified.
    UnsupportedNameType,
    /// The certificate is refused.
    InvalidCertificate(CertificateError),
}

/// What an [`OtherError`] says, with its text as a sequence of characters.
pub enum OtherErrorView {
    Eku,
    Message(Seq<char>),
}

/// What a [`CertificateError`] says.
pub enum CertificateErrorView {
    BadEncoding,
    Expired,
    NotValidForName,
    Revoked,
    UnknownIssuer,
    Other(OtherErrorView),
}

/// What a [`TlsError`] says.
pub enum TlsErrorView {
    General(Seq<char>),
    FailedToGetCurrentTime,
    UnsupportedNameType,
    InvalidCertificate(CertificateErrorView),
}

impl View for OtherError {
    type V = OtherErrorView;

    open spec fn view(&self) -> OtherErrorView {
        match *self {
            OtherError::Eku => OtherErrorView::Eku,
            OtherError::Message(text) => OtherErrorView::Message(text@),
        }
    }
}

impl View for CertificateError {
    type V = CertificateErrorView;

    open spec fn view(&self) -> CertificateErrorView {
        match *self {
            CertificateError::BadEncoding => CertificateErrorView::BadEncoding,
            CertificateError::Expired => CertificateErrorView::Expired,
            CertificateError::NotValidForName => CertificateErrorView::NotValidForName,
            CertificateError::Revoked => CertificateErrorView::Revoked,
            CertificateError::UnknownIssuer => CertificateErrorView::UnknownIssuer,
            CertificateError::Other(other) => CertificateErrorView::Other(other@),
        }
    }
}

impl View for TlsError {
    type V = TlsErrorView;

    open spec fn view(&self) -> TlsErrorView {
        match *self {
            TlsError::General(text) => TlsErrorView::General(text@),
            TlsError::FailedToGetCurrentTime => TlsErrorView::FailedToGetCurrentTime,
            TlsError::UnsupportedNameType => TlsErrorView::UnsupportedNameType,
            TlsError::InvalidCertificate(error) => TlsErrorView::InvalidCertificate(error@),
        }
    }
}

/// What a result says, its error taken by its view.
pub open spec fn outcome<T>(result: Result<T, TlsError>) -> Result<T, TlsErrorView> {
    match result {
        Ok(value) => Ok(value),
        Err(error) => Err(error@),
    }
}

/// A refused certificate, described in words.
pub open spec fn invalid_certificate_view(reason: Seq<char>) -> TlsErrorView {
    TlsErrorView::InvalidCertificate(
        CertificateErrorView::Other(OtherErrorView::Message(reason)),
    )
}

/// A refused certificate of one of the named classes.
pub open spec fn refused(error: CertificateErrorView) -> TlsErrorView {
    TlsErrorView::InvalidCertificate(error)
}

/// Refuses the certificate for a reason given in words.
pub fn invalid_certificate(reason: String) -> (error: TlsError)
    ensures
        error@ == invalid_certificate_view(reason@),
        error == TlsError::InvalidCertificate(
            CertificateError::Other(OtherError::Message(reason)),
        ),
{
    TlsError::InvalidCertificate(CertificateError::Other(OtherError::Message(reason)))
}

/// A view tells an error apart from all others: it is of the same variant, and its text
/// is the error's text.
pub proof fn law_views_tell_errors_apart(error: TlsError)
    ensures
        match error {
            TlsError::General(text) => error@ == TlsErrorView::General(text@),
            TlsError::FailedToGetCurrentTime => error@ is FailedToGetCurrentTime,
            TlsError::UnsupportedNameType => error@ is UnsupportedNameType,
            TlsError::InvalidCertificate(inner) => error@ == TlsErrorView::InvalidCertificate(
                inner@,
            ) && match inner {
                CertificateError::BadEncoding => inner@ is BadEncoding,
                CertificateError::Expired => inner@ is Expired,
                CertificateError::NotValidForName => inner@ is NotValidForName,
                CertificateError::Revoked => inner@ is Revoked,
                CertificateError::UnknownIssuer => inner@ is UnknownIssuer,
                CertificateError::Other(OtherError::Eku) => inner@ == CertificateErrorView::Other(
                    OtherErrorView::Eku,
                ),
                CertificateError::Other(OtherError::Message(text)) => inner@
                    == CertificateErrorView::Other(OtherErrorView::Message(text@)),
            },
        },
        outcome(Err::<(), TlsError>(error)) == Err::<(), TlsErrorView>(error@),
        outcome(Ok::<(), TlsError>(())) == Ok::<(), TlsErrorView>(()),
{
}

} // verus!
