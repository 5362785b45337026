use platform_verifier::call::{Call, Reply};
use platform_verifier::error::{CertificateError, OtherError, TlsError};
use platform_verifier::name::ServerName;
use platform_verifier::session::Verification;
use platform_verifier::store::{
    encoded_len, CertChain, Certificate, CertificateStore,
};
use platform_verifier::time::FileTime;
use platform_verifier::windows::Verifier;

const NOW: i128 = 1_700_000_000_000_000_000;

fn gives(handle: usize) -> Reply {
    Reply { res: 1, handle, status: 0 }
}

fn fails() -> Reply {
    Reply { res: 0, handle: 0, status: 0 }
}

/// A short note of a call.
fn note(call: &Call) -> String {
    match call {
        Call::OpenStore { .. } => String::from("open"),
        Call::AddCertificate { store, cert, .. } => format!("add {} {:?}", store, cert),
        Call::CreateEngine { exclusive_root, .. } => format!("engine {}", exclusive_root),
        Call::SetProperty { certificate, data, .. } => format!("staple {} {:?}", certificate, data),
        Call::GetChain { engine, certificate, store, .. } => {
            format!("chain {} {} {}", engine, certificate, store)
        }
        Call::VerifyPolicy { chain, .. } => format!("policy {}", chain),
        Call::FreeChain { chain } => format!("free chain {}", chain),
        Call::FreeCertificate { certificate } => format!("free cert {}", certificate),
        Call::FreeEngine { engine } => format!("free engine {}", engine),
        Call::CloseStore { store, flags } => format!("close {} {}", store, flags),
        Call::Done(_) => String::from("done"),
    }
}

/// Runs a verification to its end. Objects get the handles 1, 2, and so on; the
/// reply to the call of index `odd` is `reply`.
fn run(mut verification: Verification, odd: usize, reply: Reply) -> (Vec<String>, Result<(), TlsError>) {
    let mut notes = Vec::new();
    let mut handle = 0;
    loop {
        let call = verification.call();
        if let Call::Done(result) = &call {
            return (notes, (*result).clone());
        }
        let answer = match &call {
            Call::OpenStore { .. }
            | Call::AddCertificate { .. }
            | Call::CreateEngine { .. }
            | Call::GetChain { .. } => {
                handle += 1;
                gives(handle)
            }
            _ => gives(0),
        };
        notes.push(note(&call));
        let index = notes.len() - 1;
        verification.step(if index == odd { reply } else { answer });
        assert!(notes.len() <= 30);
    }
}

fn message(text: &str) -> TlsError {
    TlsError::InvalidCertificate(CertificateError::Other(OtherError::Message(String::from(text))))
}

#[test]
fn good_certificate_is_accepted() {
    let verifier = Verifier::new();
    let intermediates: [&[u8]; 2] = [&[2], &[3]];
    let verification =
        verifier.verify_certificate(&[1], &intermediates, b"host", Some(&[9, 9]), NOW);
    let (notes, result) = run(verification, usize::MAX, fails());
    assert_eq!(result, Ok(()));
    assert_eq!(
        notes,
        [
            "open",
            "add 1 [1]",
            "add 1 [2]",
            "free cert 3",
            "add 1 [3]",
            "free cert 4",
            "staple 2 [9, 9]",
            "chain 0 2 1",
            "policy 5",
            "free chain 5",
            "free cert 2",
            "close 1 0",
        ]
    );
}

#[test]
fn only_root_gets_an_engine_of_its_own() {
    let verifier = Verifier::new_with_fake_root(&[7, 7]);
    let verification = verifier.verify_certificate(&[1], &[], b"host", None, NOW);
    let (notes, result) = run(verification, usize::MAX, fails());
    assert_eq!(result, Ok(()));
    assert_eq!(
        notes,
        [
            "open",
            "open",
            "add 2 [7, 7]",
            "free cert 3",
            "engine 2",
            "close 2 0",
            "add 1 [1]",
            "chain 4 5 1",
            "policy 6",
            "free chain 6",
            "free cert 5",
            "free engine 4",
            "close 1 0",
        ]
    );
}

#[test]
fn default_verifier_trusts_the_system() {
    let verifier = Verifier::default();
    let (notes, _) =
        run(verifier.verify_certificate(&[1], &[], b"host", None, NOW), usize::MAX, fails());
    assert_eq!(notes, run(Verifier::new().verify_certificate(&[1], &[], b"host", None, NOW), usize::MAX, fails()).0);
    assert_eq!(notes[2], "chain 0 2 1");
}

#[test]
fn store_that_does_not_open() {
    let verifier = Verifier::new();
    let (notes, result) =
        run(verifier.verify_certificate(&[1], &[], b"host", None, NOW), 0, fails());
    assert_eq!(notes, ["open"]);
    assert!(matches!(result, Err(TlsError::General(_))));
}

#[test]
fn store_is_open_if_its_handle_is_not_null() {
    // Only the handle counts: this call returns nothing else.
    let verifier = Verifier::new();
    let reply = Reply { res: 0, handle: 1, status: 0 };
    let (_, result) = run(verifier.verify_certificate(&[1], &[], b"host", None, NOW), 0, reply);
    assert_eq!(result, Ok(()));
}

#[test]
fn failures_with_an_only_root_give_everything_back() {
    let verifier = Verifier::new_with_fake_root(&[7]);
    let start = || verifier.verify_certificate(&[1], &[], b"host", None, NOW);

    let (notes, result) = run(start(), 1, fails());
    assert_eq!(notes, ["open", "open", "close 1 0"]);
    assert!(matches!(result, Err(TlsError::General(_))));

    let (notes, result) = run(start(), 2, fails());
    assert_eq!(notes, ["open", "open", "add 2 [7]", "close 2 0", "close 1 0"]);
    assert_eq!(result, Err(TlsError::InvalidCertificate(CertificateError::BadEncoding)));

    let (notes, result) = run(start(), 4, Reply { res: 0, handle: 4, status: 0 });
    assert_eq!(
        notes,
        ["open", "open", "add 2 [7]", "free cert 3", "engine 2", "close 2 0", "close 1 0"]
    );
    assert!(matches!(result, Err(TlsError::General(_))));

    let (notes, result) = run(start(), 6, fails());
    assert_eq!(
        notes[4..],
        ["engine 2", "close 2 0", "add 1 [1]", "free engine 4", "close 1 0"]
    );
    assert_eq!(result, Err(TlsError::InvalidCertificate(CertificateError::BadEncoding)));
}

#[test]
fn malformed_certificates() {
    let verifier = Verifier::new();
    let intermediates: [&[u8]; 1] = [&[2]];
    let start = || verifier.verify_certificate(&[1], &intermediates, b"host", None, NOW);
    let bad = Err(TlsError::InvalidCertificate(CertificateError::BadEncoding));

    let (notes, result) = run(start(), 1, fails());
    assert_eq!(notes, ["open", "add 1 [1]", "close 1 0"]);
    assert_eq!(result, bad);

    let (notes, result) = run(start(), 2, Reply { res: 1, handle: 0, status: 0 });
    assert_eq!(notes, ["open", "add 1 [1]", "add 1 [2]", "free cert 2", "close 1 0"]);
    assert_eq!(result, bad);

    // Any value but `TRUE` is a failure.
    let (_, result) = run(start(), 2, Reply { res: 2, handle: 3, status: 0 });
    assert_eq!(result, bad);
}

#[test]
fn response_that_cannot_be_attached() {
    let verifier = Verifier::new();
    let verification = verifier.verify_certificate(&[1], &[], b"host", Some(&[5]), NOW);
    let (notes, result) = run(verification, 2, fails());
    assert_eq!(notes, ["open", "add 1 [1]", "staple 2 [5]", "free cert 2", "close 1 0"]);
    assert!(matches!(result, Err(TlsError::General(_))));
}

#[test]
fn time_before_the_epoch_stops_before_the_chain() {
    let verifier = Verifier::new();
    let verification = verifier.verify_certificate(&[1], &[], b"host", None, -1);
    let (notes, result) = run(verification, usize::MAX, fails());
    assert_eq!(notes, ["open", "add 1 [1]", "free cert 2", "close 1 0"]);
    assert_eq!(result, Err(TlsError::FailedToGetCurrentTime));
}

#[test]
fn chain_that_cannot_be_built() {
    let verifier = Verifier::new();
    let start = || verifier.verify_certificate(&[1], &[], b"host", None, NOW);
    let (notes, result) = run(start(), 2, fails());
    assert_eq!(notes, ["open", "add 1 [1]", "chain 0 2 1", "free cert 2", "close 1 0"]);
    assert!(matches!(result, Err(TlsError::General(_))));
    let (_, result) = run(start(), 2, Reply { res: 1, handle: 0, status: 0 });
    assert!(matches!(result, Err(TlsError::General(_))));
}

#[test]
fn chain_that_is_not_trusted() {
    let verifier = Verifier::new();
    let start = || verifier.verify_certificate(&[1], &[], b"host", None, NOW);
    let (notes, result) = run(start(), 2, Reply { res: 1, handle: 3, status: 0x20 });
    assert_eq!(notes, ["open", "add 1 [1]", "chain 0 2 1", "free cert 2", "close 1 0"]);
    assert_eq!(result, Err(TlsError::InvalidCertificate(CertificateError::UnknownIssuer)));

    let (_, result) = run(start(), 2, Reply { res: 1, handle: 3, status: 0x0100_0040 });
    assert_eq!(result, Ok(()));
}

#[test]
fn policy_that_cannot_be_applied() {
    let verifier = Verifier::new();
    let verification = verifier.verify_certificate(&[1], &[], b"host", None, NOW);
    let (notes, result) = run(verification, 3, fails());
    assert_eq!(notes[3..], ["policy 3", "free chain 3", "free cert 2", "close 1 0"]);
    assert_eq!(
        result,
        Err(TlsError::General(String::from(
            "TLS certificate verification was unavailable on the system!"
        )))
    );
}

#[test]
fn policy_errors() {
    let verifier = Verifier::new();
    let outcome = |status: u32| {
        let verification = verifier.verify_certificate(&[1], &[], b"host", None, NOW);
        run(verification, 3, Reply { res: 1, handle: 0, status }).1
    };
    let refused = |error| Err(TlsError::InvalidCertificate(error));
    assert_eq!(outcome(0), Ok(()));
    assert_eq!(outcome(0x800B010F), refused(CertificateError::NotValidForName));
    assert_eq!(outcome(0x800B0114), refused(CertificateError::NotValidForName));
    assert_eq!(outcome(0x80092010), refused(CertificateError::Revoked));
    let described = std::io::Error::from_raw_os_error(0x800B0109u32 as i32).to_string();
    assert_eq!(outcome(0x800B0109), Err(message(&described)));
    let described = std::io::Error::from_raw_os_error(2).to_string();
    assert_eq!(outcome(2), Err(message(&described)));
}

#[test]
fn errors_quote_the_text_that_is_given() {
    let verifier = Verifier::new();
    let mut verification = verifier.verify_certificate(&[1], &[], b"host", None, NOW);
    verification.step_with(fails(), String::from("out of memory"));
    match verification.call() {
        Call::Done(result) => {
            assert_eq!(*result, Err(TlsError::General(String::from("out of memory"))))
        }
        call => panic!("{:?}", call),
    };
}

#[test]
fn done_is_final() {
    let verifier = Verifier::new();
    let mut verification = verifier.verify_certificate(&[1], &[], b"host", None, NOW);
    verification.step_with(fails(), String::from("first"));
    verification.step_with(gives(5), String::from("second"));
    assert!(matches!(verification.call(), Call::Done(Err(TlsError::General(text))) if text == "first"));
}

#[test]
fn arguments_of_the_calls() {
    let verifier = Verifier::new();
    let mut verification = verifier.verify_certificate(&[1, 2], &[], b"h", Some(&[5]), 0);
    assert!(matches!(
        verification.call(),
        Call::OpenStore { provider: 2, encoding: 0, crypt_prov: 0, flags: 4 }
    ));
    verification.step(gives(10));
    assert!(matches!(
        verification.call(),
        Call::AddCertificate { store: 10, encoding: 1, cert: [1, 2], len: 2, disposition: 4 }
    ));
    verification.step(gives(11));
    assert!(matches!(
        verification.call(),
        Call::SetProperty { certificate: 11, prop_id: 70, flags: 0x8000_0000, data: [5], len: 1 }
    ));
    verification.step(gives(0));
    match verification.call() {
        Call::GetChain { engine, certificate, time, store, usage_type, usages, flags } => {
            assert_eq!((engine, certificate, store, usage_type), (0, 11, 10, 0));
            assert_eq!(time, FileTime { low: 0xD53E_8000, high: 0x019D_B1DE });
            assert_eq!(usages, ["1.3.6.1.5.5.7.3.1"]);
            assert_eq!(flags, 0xC000_0001);
        }
        call => panic!("{:?}", call),
    };
    verification.step(gives(12));
    assert!(matches!(
        verification.call(),
        Call::VerifyPolicy { policy: 4, chain: 12, flags: 0xF00, auth_type: 2, server_name: [104, 0] }
    ));
}

#[test]
fn arguments_of_the_engine() {
    let store = CertificateStore { inner: 6, engine: None };
    assert!(matches!(store.create_engine(), Call::CreateEngine { flags: 0x14, exclusive_root: 6 }));
}

#[test]
fn server_names() {
    let verifier = Verifier::new();
    let encoded = |name: ServerName| {
        let mut verification = match verifier.verify_server_cert(&[1], &[], &name, &[], NOW) {
            Ok(verification) => verification,
            Err(error) => return Err(error),
        };
        for handle in [1, 2, 3] {
            verification.step(gives(handle));
        }
        let call = verification.call();
        match call {
            Call::VerifyPolicy { server_name, .. } => Ok(server_name.to_vec()),
            call => panic!("{:?}", call),
        }
    };
    assert_eq!(encoded(ServerName::DnsName(String::from("a.b"))), Ok(vec![97, 46, 98, 0]));
    assert_eq!(encoded(ServerName::IpAddress(String::from("::1"))), Ok(vec![58, 58, 49, 0]));
    assert_eq!(encoded(ServerName::Unsupported), Err(TlsError::UnsupportedNameType));
}

#[test]
fn empty_response_stands_for_none() {
    let verifier = Verifier::new();
    let name = ServerName::DnsName(String::from("a"));
    let none = verifier.verify_server_cert(&[1], &[], &name, &[], NOW).unwrap_or_else(|_| panic!());
    assert!(!run(none, usize::MAX, fails()).0.contains(&String::from("staple 2 []")));
    let some = verifier.verify_server_cert(&[1], &[], &name, &[0], NOW).unwrap_or_else(|_| panic!());
    assert!(run(some, usize::MAX, fails()).0.contains(&String::from("staple 2 [0]")));
}

#[test]
fn lengths_of_certificates() {
    assert_eq!(encoded_len(&[]), Ok(0));
    assert_eq!(encoded_len(&[4; 300]), Ok(300));
    let store = CertificateStore { inner: 6, engine: None };
    assert!(matches!(
        store.add_cert(&[4; 300]),
        Ok(Call::AddCertificate { store: 6, len: 300, .. })
    ));
}

#[test]
fn replies_one_by_one() {
    let text = || String::from("text");
    assert_eq!(
        CertificateStore::new(gives(3), text()),
        Ok(CertificateStore { inner: 3, engine: None })
    );
    assert_eq!(CertificateStore::new(fails(), text()), Err(TlsError::General(text())));
    let store = CertificateStore { inner: 3, engine: None };
    assert_eq!(store.engine_ptr(), 0);
    let with_engine = store.new_with_fake_root(gives(4), text()).unwrap();
    assert_eq!(with_engine, CertificateStore { inner: 3, engine: Some(4) });
    assert_eq!(with_engine.engine_ptr(), 4);
    assert_eq!(store.new_with_fake_root(fails(), text()), Err(TlsError::General(text())));
    assert_eq!(CertificateStore::added_cert(gives(5)), Ok(Certificate { inner: 5 }));
    assert_eq!(Certificate::property_set(gives(0), text()), Ok(()));
    assert_eq!(Certificate::property_set(fails(), text()), Err(TlsError::General(text())));
    assert_eq!(CertificateStore::built_chain(gives(6), text()), Ok(CertChain { inner: 6 }));
    assert_eq!(CertificateStore::built_chain(fails(), text()), Err(TlsError::General(text())));
    assert_eq!(CertChain::policy_status(Reply { res: 1, handle: 0, status: 9 }), Ok(9));
    assert!(CertChain::policy_status(fails()).is_err());
    assert_eq!(with_engine.released(), Some(store));
    assert_eq!(store.released(), None);
    assert_eq!(gives(8).created_handle(), Some(8));
    assert_eq!(gives(0).created_handle(), None);
    assert_eq!(fails().nonnull_handle(), None);
}

#[test]
fn every_object_is_given_back_whatever_fails() {
    let verifier = Verifier::new_with_fake_root(&[7]);
    let intermediates: [&[u8]; 3] = [&[2], &[3], &[4]];
    for odd in 0..22 {
        let mut verification =
            verifier.verify_certificate(&[1], &intermediates, b"host", Some(&[5]), NOW);
        let mut held: Vec<usize> = Vec::new();
        let mut count = 0;
        loop {
            let answer = match verification.call() {
                Call::Done(_) => break,
                Call::OpenStore { .. }
                | Call::AddCertificate { .. }
                | Call::CreateEngine { .. }
                | Call::GetChain { .. } => gives(100 + count),
                Call::FreeChain { chain: handle }
                | Call::FreeCertificate { certificate: handle }
                | Call::FreeEngine { engine: handle }
                | Call::CloseStore { store: handle, .. } => {
                    let at = held.iter().position(|object| *object == handle).unwrap();
                    held.remove(at);
                    gives(0)
                }
                _ => gives(0),
            };
            let reply = if count == odd { fails() } else { answer };
            if reply.handle != 0 {
                held.push(reply.handle);
            }
            verification.step(reply);
            count += 1;
        }
        assert!(held.is_empty());
        assert!(count <= 16 + 2 * intermediates.len());
    }
}
