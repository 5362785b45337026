use platform_verifier::decimal::append_decimal;
use platform_verifier::error::{invalid_certificate, CertificateError, OtherError, TlsError};
use platform_verifier::os::{call_with_last_error, system_text, TextSource};
use platform_verifier::policy::{map_policy_status, text_source_of_policy, win_error};
use platform_verifier::trust::{map_trust_error_status, only_flags_set};

fn refused(error: CertificateError) -> Result<(), TlsError> {
    Err(TlsError::InvalidCertificate(error))
}

fn in_words(text: &str) -> Result<(), TlsError> {
    refused(CertificateError::Other(OtherError::Message(String::from(text))))
}

#[test]
fn flags_are_compared_as_sets() {
    assert!(only_flags_set(0x10, 0x11));
    assert!(only_flags_set(0x11, 0x11));
    assert!(!only_flags_set(0x12, 0x11));
    assert!(!only_flags_set(0, 0x11));
    assert!(!only_flags_set(0, 0));
}

#[test]
fn clean_chain_is_trusted() {
    assert_eq!(map_trust_error_status(0), Ok(()));
}

#[test]
fn missing_revocation_information_is_ignored() {
    assert_eq!(map_trust_error_status(0x0000_0040), Ok(()));
    assert_eq!(map_trust_error_status(0x0100_0000), Ok(()));
    assert_eq!(map_trust_error_status(0x0100_0040), Ok(()));
    assert_eq!(map_trust_error_status(0x0100_0041), refused(CertificateError::Expired));
    assert_eq!(map_trust_error_status(0x0000_0001), refused(CertificateError::Expired));
}

#[test]
fn revoked_outweighs_everything() {
    assert_eq!(map_trust_error_status(0x4), refused(CertificateError::Revoked));
    assert_eq!(map_trust_error_status(0x5), refused(CertificateError::Revoked));
    assert_eq!(map_trust_error_status(u32::MAX), refused(CertificateError::Revoked));
}

#[test]
fn errors_of_one_class_are_named_by_it() {
    let eku = refused(CertificateError::Other(OtherError::Eku));
    for status in [0x10, 0x8_0000, 0x8_0010] {
        assert_eq!(map_trust_error_status(status), eku);
    }
    for status in [0x1, 0x2_0000, 0x2_0001] {
        assert_eq!(map_trust_error_status(status), refused(CertificateError::Expired));
    }
    for status in [0x20, 0x400_0000, 0x1_0000, 0x401_0020] {
        assert_eq!(map_trust_error_status(status), refused(CertificateError::UnknownIssuer));
    }
}

#[test]
fn other_errors_are_named_by_the_whole_status() {
    assert_eq!(
        map_trust_error_status(0x8),
        in_words("Bad certificate chain with Windows error status 8")
    );
    assert_eq!(
        map_trust_error_status(0x21),
        in_words("Bad certificate chain with Windows error status 33")
    );
    // The status is named as the system gave it, missing revocation information
    // and all.
    assert_eq!(
        map_trust_error_status(0x0100_0048),
        in_words("Bad certificate chain with Windows error status 16777288")
    );
    assert_eq!(
        map_trust_error_status(0xFFFF_FFFB),
        in_words("Bad certificate chain with Windows error status 4294967291")
    );
}

#[test]
fn decimal_notation() {
    for n in [0u32, 7, 9, 10, 100, 1234567890, u32::MAX] {
        let mut text = String::from("n = ");
        append_decimal(&mut text, n);
        assert_eq!(text, format!("n = {}", n));
    }
}

#[test]
fn policy_statuses() {
    let words = || String::from("words");
    assert_eq!(map_policy_status(0, words()), Ok(()));
    assert_eq!(map_policy_status(0x800B010F, words()), refused(CertificateError::NotValidForName));
    assert_eq!(map_policy_status(0x800B0114, words()), refused(CertificateError::NotValidForName));
    assert_eq!(map_policy_status(0x80092010, words()), refused(CertificateError::Revoked));
    assert_eq!(map_policy_status(0x800B0109, words()), in_words("words"));
    assert_eq!(map_policy_status(1, words()), in_words("words"));
}

#[test]
fn only_unmapped_statuses_are_described() {
    for status in [0, 0x800B010F, 0x800B0114, 0x80092010] {
        assert_eq!(text_source_of_policy(status), TextSource::Nothing);
    }
    assert_eq!(text_source_of_policy(0x800B0109), TextSource::Code(-2146762487));
    assert_eq!(text_source_of_policy(2), TextSource::Code(2));
}

#[test]
fn error_codes_are_signed() {
    assert_eq!(win_error(0), 0);
    assert_eq!(win_error(0x7FFF_FFFF), i32::MAX);
    assert_eq!(win_error(0x8000_0000), i32::MIN);
    assert_eq!(win_error(0xFFFF_FFFF), -1);
}

#[test]
fn system_describes_an_error_code() {
    let expected = std::io::Error::from_raw_os_error(2).to_string();
    assert_eq!(system_text(TextSource::Code(2)), expected);
    assert!(expected.ends_with("(os error 2)"));
    assert_ne!(system_text(TextSource::Code(13)), expected);
    assert_eq!(system_text(TextSource::Nothing), "");
}

#[test]
fn system_describes_the_last_error() {
    let text = system_text(TextSource::LastError);
    assert!(text.contains("(os error "));
}

#[test]
fn calls_without_a_value_become_errors() {
    assert_eq!(call_with_last_error(Some(7), String::from("unused")), Ok(7));
    assert_eq!(
        call_with_last_error::<u8>(None, String::from("no luck")),
        Err(TlsError::General(String::from("no luck")))
    );
}

#[test]
fn reasons_in_words() {
    assert_eq!(Err(invalid_certificate(String::from("why"))), in_words("why"));
}
