//! The verifier of server certificates.
use crate::error::{TlsError, TlsErrorView};
use crate::name::ServerName;
use crate::session::{all_contents, contents, names, request_of, State, Verification};
use crate::time::representable;
use vstd::prelude::*;
use vstd::slice::slice_to_vec;
use vstd::utf8::encode_utf8;

verus! {

/// A verifier of TLS server certificates that leaves the decision to the
/// certificate engine of Windows.
#[derive(Debug)]
pub struct Verifier {
    /// For tests: the only root to trust, in ASN.1 DER.
    test_only_root_ca_override: Option<Vec<u8>>,
}

impl View for Verifier {
    type V = Option<Seq<u8>>;

    /// The only root that is trusted, if it is not left to the system which are.
    closed spec fn view(&self) -> Option<Seq<u8>> {
        match self.test_only_root_ca_override {
            Some(root) => Some(root@),
            None => None,
        }
    }
}

impl Default for Verifier {
    fn default() -> (verifier: Verifier)
        ensures
            verifier@ is None,
    {
        Verifier { test_only_root_ca_override: None }
    }
}

impl Verifier {
    /// Creates a verifier that trusts the roots of the system.
    pub fn new() -> (verifier: Verifier)
        ensures
            verifier@ is None,
    {
        Verifier { test_only_root_ca_override: None }
    }

    /// Creates a verifier, for tests, that trusts one root and no other.
    pub fn new_with_fake_root(root: &[u8]) -> (verifier: Verifier)
        ensures
            verifier@ == Some(root@),
    {
        Verifier { test_only_root_ca_override: Some(slice_to_vec(root)) }
    }

    /// The only root that is trusted, if it is not left to the system which are.
    fn root(&self) -> (root: Option<&[u8]>)
        ensures
            contents(root) == self@,
            root is None <==> self@ is None,
            root matches Some(only) ==> self@ == Some(only@),
    {
        match &self.test_only_root_ca_override {
            Some(root) => Some(root.as_slice()),
            None => None,
        }
    }

    /// Starts the verification of a certificate, and of its chain, for the
    /// specified `server`.
    ///
    /// `now` is the current time in nanoseconds since the Unix epoch.
    pub fn verify_certificate<'a>(
        &'a self,
        primary_cert: &'a [u8],
        intermediate_certs: &'a [&'a [u8]],
        server: &[u8],
        ocsp_data: Option<&'a [u8]>,
        now: i128,
    ) -> (verification: Verification<'a>)
        requires
            representable(now),
        ensures
            verification@.wf(),
            verification@ == State::start(
                request_of(
                    self@,
                    primary_cert@,
                    all_contents(intermediate_certs@),
                    server@,
                    contents(ocsp_data),
                    now,
                ),
            ),
            verification@.phase is OpenStore,
            verification@.request.root == self@,
            verification@.request.primary == primary_cert@,
            verification@.request.intermediates.len() == intermediate_certs@.len(),
            forall|k: int|
                0 <= k < intermediate_certs@.len() ==> (
                #[trigger] verification@.request.intermediates[k]) == intermediate_certs@[k]@,
            names(verification@.request.server_name, server@),
            ocsp_data matches Some(response) ==> verification@.request.ocsp == Some(response@),
            ocsp_data is None ==> verification@.request.ocsp is None,
            verification@.request.now == now,
    {
        Verification::start(
            self.root(),
            primary_cert,
            intermediate_certs,
            server,
            ocsp_data,
            now,
        )
    }

    /// Starts the verification of the certificate that a server presented.
    ///
    /// An empty OCSP response stands for none.
    pub fn verify_server_cert<'a>(
        &'a self,
        end_entity: &'a [u8],
        intermediates: &'a [&'a [u8]],
        server_name: &ServerName,
        ocsp_response: &'a [u8],
        now: i128,
    ) -> (result: Result<Verification<'a>, TlsError>)
        requires
            representable(now),
        ensures
            match result {
                Ok(verification) => {
                    &&& verification@.wf()
                    &&& server_name@.bytes() matches Ok(server) && verification@ == State::start(
                        request_of(
                            self@,
                            end_entity@,
                            all_contents(intermediates@),
                            server,
                            stapled(ocsp_response@),
                            now,
                        ),
                    )
                },
                Err(error) => server_name@.bytes() == Err::<Seq<u8>, TlsErrorView>(error@),
            },
            *server_name is Unsupported <==> result is Err,
            result matches Err(error) ==> error == TlsError::UnsupportedNameType,
            result matches Ok(verification) ==> {
                &&& verification@.phase is OpenStore
                &&& verification@.request.root == self@
                &&& verification@.request.primary == end_entity@
                &&& verification@.request.intermediates.len() == intermediates@.len()
                &&& forall|k: int|
                    0 <= k < intermediates@.len() ==> (
                    #[trigger] verification@.request.intermediates[k]) == intermediates@[k]@
                &&& *server_name matches ServerName::DnsName(name) ==> names(
                    verification@.request.server_name,
                    encode_utf8(name@),
                )
                &&& *server_name matches ServerName::IpAddress(address) ==> names(
                    verification@.request.server_name,
                    encode_utf8(address@),
                )
                &&& ocsp_response@.len() > 0 ==> verification@.request.ocsp == Some(ocsp_response@)
                &&& ocsp_response@.len() == 0 ==> verification@.request.ocsp is None
                &&& verification@.request.now == now
            },
    {
        let server: &[u8] = match server_name.as_bytes() {
            Ok(server) => server,
            Err(error) => return Err(error),
        };
        let ocsp_data: Option<&'a [u8]> = if ocsp_response.len() != 0 {
            Some(ocsp_response)
        } else {
            None
        };
        Ok(self.verify_certificate(end_entity, intermediates, server, ocsp_data, now))
    }
}

/// The OCSP response that a server stapled to its certificate; an empty one stands
/// for none.
pub open spec fn stapled(ocsp_response: Seq<u8>) -> Option<Seq<u8>> {
    if ocsp_response.len() == 0 {
        None
    } else {
        Some(ocsp_response)
    }
}

} // verus!
