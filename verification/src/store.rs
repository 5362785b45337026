//! The objects that the certificate engine makes: stores, certificates, chains.
//!
//! For each call there is a function that builds it, and one that says what its
//! reply means.
use crate::call::{Call, CallView, Reply};
use crate::error::{
    outcome, refused, CertificateError, CertificateErrorView, TlsError, TlsErrorView,
};
use crate::os::{call_with_last_error, or_last_error};
use crate::time::{denotes, file_time, file_time_at, representable, FileTime};
use crate::trust::{map_trust_error_status, trust_verdict};
use crate::wincrypt::{
    AUTHTYPE_SERVER, CERT_CHAIN_CACHE_END_CERT, CERT_CHAIN_CACHE_ONLY_URL_RETRIEVAL,
    CERT_CHAIN_ENABLE_CACHE_AUTO_UPDATE, CERT_CHAIN_POLICY_IGNORE_ALL_REV_UNKNOWN_FLAGS,
    CERT_CHAIN_POLICY_SSL, CERT_CHAIN_REVOCATION_CHECK_CACHE_ONLY,
    CERT_CHAIN_REVOCATION_CHECK_CHAIN_EXCLUDE_ROOT, CERT_SET_PROPERTY_IGNORE_PERSIST_ERROR_FLAG,
    CERT_STORE_ADD_ALWAYS, CERT_STORE_DEFER_CLOSE_UNTIL_LAST_FREE_FLAG, CERT_STORE_PROV_MEMORY,
    NULL, OID_PKIX_KP_SERVER_AUTH, TRUE, USAGE_MATCH_TYPE_AND, X509_ASN_ENCODING,
};
use vstd::prelude::*;
use vstd::string::StringExecFns;

verus! {

/// How a chain is built.
///
/// The end certificate is cached. Revocation is looked up for the entire chain,
/// but only in the cache: nothing is fetched.
pub const CHAIN_FLAGS: u32 = CERT_CHAIN_CACHE_END_CERT | CERT_CHAIN_REVOCATION_CHECK_CACHE_ONLY
    | CERT_CHAIN_REVOCATION_CHECK_CHAIN_EXCLUDE_ROOT;

/// How an engine with a root of its own works: without the network, and with a
/// cache that saves parsing the same data again.
pub const ENGINE_FLAGS: u32 = CERT_CHAIN_CACHE_ONLY_URL_RETRIEVAL
    | CERT_CHAIN_ENABLE_CACHE_AUTO_UPDATE;

/// The combined flags, by their values.
pub(crate) proof fn lemma_flag_values()
    ensures
        CHAIN_FLAGS == 0xC000_0001,
        ENGINE_FLAGS == 0x14,
        CERT_CHAIN_POLICY_IGNORE_ALL_REV_UNKNOWN_FLAGS == 0xF00,
{
    assert(CHAIN_FLAGS == 0xC000_0001 && ENGINE_FLAGS == 0x14
        && CERT_CHAIN_POLICY_IGNORE_ALL_REV_UNKNOWN_FLAGS == 0xF00) by (bit_vector);
}

/// A buffer whose length the system can be told in 32 bits.
pub open spec fn fits(bytes: Seq<u8>) -> bool {
    bytes.len() <= u32::MAX
}

/// The length of an encoded certificate, as the system is told it. A certificate
/// too long for that is malformed.
pub fn encoded_len(cert: &[u8]) -> (result: Result<u32, TlsError>)
    ensures
        match result {
            Ok(len) => fits(cert@) && len == cert@.len(),
            Err(error) => !fits(cert@) && error@ == refused(CertificateErrorView::BadEncoding),
        },
        cert@.len() <= 0xffff_ffff <==> result is Ok,
        cert@.len() > 0xffff_ffff <==> result == Err::<u32, TlsError>(
            TlsError::InvalidCertificate(CertificateError::BadEncoding),
        ),
{
    if cert.len() > u32::MAX as usize {
        Err(TlsError::InvalidCertificate(CertificateError::BadEncoding))
    } else {
        Ok(cert.len() as u32)
    }
}

/// A certificate in a store.
///
/// It may outlive its store, because stores are opened so that they stay open
/// until the last certificate from them is freed.
#[derive(Debug, Clone, Copy, PartialEq, Eq)]
pub struct Certificate {
    pub inner: usize,
}

/// A chain from a certificate to a root.
#[derive(Debug, Clone, Copy, PartialEq, Eq)]
pub struct CertChain {
    pub inner: usize,
}

/// A certificate store in memory.
#[derive(Debug, Clone, Copy, PartialEq, Eq)]
pub struct CertificateStore {
    pub inner: usize,
    /// The engine that builds chains from this store; `None` for the one of the
    /// system, with its roots and rules.
    pub engine: Option<usize>,
}

impl Certificate {
    /// The handle is not null.
    pub open spec fn wf(self) -> bool {
        self.inner != NULL
    }

    /// The call that sets a property of this certificate to a blob of data.
    pub open spec fn property_call(self, prop_id: u32, data: Seq<u8>) -> CallView {
        CallView::SetProperty {
            certificate: self.inner,
            prop_id,
            flags: CERT_SET_PROPERTY_IGNORE_PERSIST_ERROR_FLAG,
            data,
            len: data.len() as u32,
        }
    }

    /// Whether the property was set.
    pub open spec fn property_reply(reply: Reply, last_error: Seq<char>) -> Result<
        (),
        TlsErrorView,
    > {
        or_last_error(
            if reply.succeeded() {
                Some(())
            } else {
                None
            },
            last_error,
        )
    }

    /// Builds the call that sets a property of this certificate to a blob of data.
    pub fn set_property<'a>(&self, prop_id: u32, data: &'a [u8]) -> (call: Call<'a>)
        requires
            fits(data@),
        ensures
            call@ == self.property_call(prop_id, data@),
            call matches Call::SetProperty { certificate, prop_id: id, flags, data: blob, len }
                && certificate == self.inner && id == prop_id && flags == 0x8000_0000 && blob@
                == data@ && len == data@.len(),
    {
        Call::SetProperty {
            certificate: self.inner,
            prop_id,
            flags: CERT_SET_PROPERTY_IGNORE_PERSIST_ERROR_FLAG,
            data,
            len: data.len() as u32,
        }
    }

    /// Tells whether the property was set.
    pub fn property_set(reply: Reply, last_error: String) -> (result: Result<(), TlsError>)
        ensures
            outcome(result) == Self::property_reply(reply, last_error@),
            reply.res == 1 <==> result is Ok,
            reply.res != 1 ==> result == Err::<(), TlsError>(TlsError::General(last_error)),
    {
        let set: Option<()> = if reply.res == TRUE {
            Some(())
        } else {
            None
        };
        call_with_last_error(set, last_error)
    }
}

impl CertificateStore {
    /// The handles are not null.
    pub open spec fn wf(self) -> bool {
        self.inner != NULL && self.engine != Some(NULL)
    }

    /// The call that opens a store.
    pub open spec fn open_call() -> CallView {
        CallView::OpenStore {
            provider: CERT_STORE_PROV_MEMORY,
            encoding: 0,
            crypt_prov: 0,
            flags: CERT_STORE_DEFER_CLOSE_UNTIL_LAST_FREE_FLAG,
        }
    }

    /// The store that was opened; it builds chains with the engine of the system.
    pub open spec fn open_reply(reply: Reply, last_error: Seq<char>) -> Result<
        CertificateStore,
        TlsErrorView,
    > {
        or_last_error(
            match reply.given() {
                Some(inner) => Some(CertificateStore { inner, engine: None }),
                None => None,
            },
            last_error,
        )
    }

    /// The call that makes an engine which trusts the certificates in this store
    /// and no others.
    pub open spec fn engine_call(self) -> CallView {
        CallView::CreateEngine { flags: ENGINE_FLAGS, exclusive_root: self.inner }
    }

    /// This store, with the engine that was made.
    pub open spec fn engine_reply(self, reply: Reply, last_error: Seq<char>) -> Result<
        CertificateStore,
        TlsErrorView,
    > {
        or_last_error(
            match reply.created() {
                Some(engine) => Some(
                    CertificateStore { inner: self.inner, engine: Some(engine) },
                ),
                None => None,
            },
            last_error,
        )
    }

    /// The call that adds a certificate to this store.
    pub open spec fn add_call(self, cert: Seq<u8>) -> CallView {
        CallView::AddCertificate {
            store: self.inner,
            encoding: X509_ASN_ENCODING,
            cert,
            len: cert.len() as u32,
            disposition: CERT_STORE_ADD_ALWAYS,
        }
    }

    /// The certificate that was added.
    pub open spec fn add_reply(reply: Reply) -> Result<Certificate, TlsErrorView> {
        match reply.created() {
            Some(inner) => Ok(Certificate { inner }),
            None => Err(refused(CertificateErrorView::BadEncoding)),
        }
    }

    /// The handle of the engine that builds chains from this store, null for the
    /// one of the system.
    pub open spec fn engine_handle(self) -> usize {
        match self.engine {
            Some(engine) => engine,
            None => NULL,
        }
    }

    /// The call that builds the chain of a certificate, as of a point in time,
    /// from the certificates in this store.
    pub open spec fn chain_call(self, certificate: Certificate, time: FileTime) -> CallView {
        CallView::GetChain {
            engine: self.engine_handle(),
            certificate: certificate.inner,
            time,
            store: self.inner,
            usage_type: USAGE_MATCH_TYPE_AND,
            usages: seq![OID_PKIX_KP_SERVER_AUTH@],
            flags: CHAIN_FLAGS,
        }
    }

    /// The chain that was built, unless its trust status speaks against it.
    pub open spec fn chain_reply(reply: Reply, last_error: Seq<char>) -> Result<
        CertChain,
        TlsErrorView,
    > {
        match or_last_error(reply.created(), last_error) {
            Ok(inner) => match trust_verdict(reply.status) {
                Ok(_) => Ok(CertChain { inner }),
                Err(error) => Err(error),
            },
            Err(error) => Err(error),
        }
    }

    /// The call that gives back this store, or its engine if it has one.
    pub open spec fn release_call(self) -> CallView {
        match self.engine {
            Some(engine) => CallView::FreeEngine { engine },
            None => CallView::CloseStore { store: self.inner, flags: 0 },
        }
    }

    /// What is left of this store after [`Self::release_call`].
    pub open spec fn after_release(self) -> Option<CertificateStore> {
        match self.engine {
            Some(_) => Some(CertificateStore { inner: self.inner, engine: None }),
            None => None,
        }
    }

    /// Builds the call that opens a store.
    pub fn open<'a>() -> (call: Call<'a>)
        ensures
            call@ == Self::open_call(),
            call matches Call::OpenStore { provider, encoding, crypt_prov, flags } && provider == 2
                && encoding == 0 && crypt_prov == 0 && flags == 4,
    {
        Call::OpenStore {
            provider: CERT_STORE_PROV_MEMORY,
            encoding: 0,
            crypt_prov: 0,
            flags: CERT_STORE_DEFER_CLOSE_UNTIL_LAST_FREE_FLAG,
        }
    }

    /// Takes the store that was opened.
    pub fn new(reply: Reply, last_error: String) -> (result: Result<CertificateStore, TlsError>)
        ensures
            outcome(result) == Self::open_reply(reply, last_error@),
            reply.handle != 0 ==> result == Ok::<CertificateStore, TlsError>(
                CertificateStore { inner: reply.handle, engine: None },
            ),
            reply.handle == 0 ==> result == Err::<CertificateStore, TlsError>(
                TlsError::General(last_error),
            ),
            result matches Ok(store) ==> store.wf(),
    {
        let opened: Option<CertificateStore> = match reply.nonnull_handle() {
            Some(inner) => Some(CertificateStore { inner, engine: None }),
            None => None,
        };
        call_with_last_error(opened, last_error)
    }

    /// Builds the call that makes an engine which trusts the certificates in this
    /// store and no others.
    pub fn create_engine<'a>(&self) -> (call: Call<'a>)
        ensures
            call@ == self.engine_call(),
            call matches Call::CreateEngine { flags, exclusive_root } && flags == 0x14
                && exclusive_root == self.inner,
    {
        proof {
            lemma_flag_values();
        }
        Call::CreateEngine { flags: ENGINE_FLAGS, exclusive_root: self.inner }
    }

    /// Gives this store the engine that was made for a root of its own.
    pub fn new_with_fake_root(&self, reply: Reply, last_error: String) -> (result: Result<
        CertificateStore,
        TlsError,
    >)
        ensures
            outcome(result) == self.engine_reply(reply, last_error@),
            reply.res == 1 && reply.handle != 0 ==> result == Ok::<CertificateStore, TlsError>(
                CertificateStore { inner: self.inner, engine: Some(reply.handle) },
            ),
            reply.res != 1 || reply.handle == 0 ==> result == Err::<CertificateStore, TlsError>(
                TlsError::General(last_error),
            ),
            result matches Ok(store) ==> (self.wf() ==> store.wf()),
    {
        let made: Option<CertificateStore> = match reply.created_handle() {
            Some(engine) => Some(CertificateStore { inner: self.inner, engine: Some(engine) }),
            None => None,
        };
        call_with_last_error(made, last_error)
    }

    /// Builds the call that adds a certificate, in ASN.1 DER, to this store.
    pub fn add_cert<'a>(&self, cert: &'a [u8]) -> (result: Result<Call<'a>, TlsError>)
        ensures
            match result {
                Ok(call) => fits(cert@) && call@ == self.add_call(cert@),
                Err(error) => !fits(cert@) && error@ == refused(CertificateErrorView::BadEncoding),
            },
            cert@.len() <= 0xffff_ffff ==> (result matches Ok(
                Call::AddCertificate { store, encoding, cert: der, len, disposition },
            ) && store == self.inner && encoding == 1 && der@ == cert@ && len == cert@.len()
                && disposition == 4),
            cert@.len() > 0xffff_ffff ==> (result matches Err(
                TlsError::InvalidCertificate(CertificateError::BadEncoding),
            )),
    {
        match encoded_len(cert) {
            Ok(len) => Ok(
                Call::AddCertificate {
                    store: self.inner,
                    encoding: X509_ASN_ENCODING,
                    cert,
                    len,
                    disposition: CERT_STORE_ADD_ALWAYS,
                },
            ),
            Err(error) => Err(error),
        }
    }

    /// Takes the certificate that was added. One that could not be added is
    /// malformed.
    pub fn added_cert(reply: Reply) -> (result: Result<Certificate, TlsError>)
        ensures
            outcome(result) == Self::add_reply(reply),
            reply.res == 1 && reply.handle != 0 ==> result == Ok::<Certificate, TlsError>(
                Certificate { inner: reply.handle },
            ),
            reply.res != 1 || reply.handle == 0 ==> result == Err::<Certificate, TlsError>(
                TlsError::InvalidCertificate(CertificateError::BadEncoding),
            ),
            result matches Ok(certificate) ==> certificate.wf(),
    {
        match reply.created_handle() {
            Some(inner) => Ok(Certificate { inner }),
            None => Err(TlsError::InvalidCertificate(CertificateError::BadEncoding)),
        }
    }

    /// The handle of the engine that builds chains from this store, null for the
    /// one of the system.
    pub fn engine_ptr(&self) -> (engine: usize)
        ensures
            engine == self.engine_handle(),
            self.engine matches Some(own) ==> engine == own,
            self.engine is None ==> engine == 0,
    {
        match self.engine {
            Some(engine) => engine,
            None => NULL,
        }
    }

    /// Builds the call that builds the chain of a certificate from the certificates
    /// in this store, as of a point in time given in nanoseconds since the Unix
    /// epoch.
    pub fn new_chain_in<'a>(&self, certificate: &Certificate, now: i128) -> (result: Result<
        Call<'a>,
        TlsError,
    >)
        requires
            representable(now),
        ensures
            match result {
                Ok(call) => file_time_at(now) matches Ok(time) && call@ == self.chain_call(
                    *certificate,
                    time,
                ),
                Err(error) => file_time_at(now) == Err::<FileTime, TlsErrorView>(error@),
            },
            now < 0 ==> (result matches Err(TlsError::FailedToGetCurrentTime)),
            now >= 0 ==> (result matches Ok(
                Call::GetChain {
                    engine,
                    certificate: end,
                    time,
                    store,
                    usage_type,
                    usages,
                    flags,
                },
            ) && engine == (match self.engine {
                Some(own) => own,
                None => 0,
            }) && end == certificate.inner && denotes(time, now as int) && store == self.inner
                && usage_type == 0 && usages@.len() == 1 && usages@[0]@ == "1.3.6.1.5.5.7.3.1"@
                && flags == 0xC000_0001),
    {
        proof {
            lemma_flag_values();
        }
        let time: FileTime = match file_time(now) {
            Ok(time) => time,
            Err(error) => return Err(error),
        };
        let mut usages: Vec<&'static str> = Vec::new();
        usages.push(OID_PKIX_KP_SERVER_AUTH);
        assert(usages@.map_values(|usage: &'static str| usage@) =~= seq![OID_PKIX_KP_SERVER_AUTH@]);
        Ok(
            Call::GetChain {
                engine: self.engine_ptr(),
                certificate: certificate.inner,
                time,
                store: self.inner,
                usage_type: USAGE_MATCH_TYPE_AND,
                usages,
                flags: CHAIN_FLAGS,
            },
        )
    }

    /// Takes the chain that was built, unless its trust status speaks against it.
    pub fn built_chain(reply: Reply, last_error: String) -> (result: Result<CertChain, TlsError>)
        ensures
            outcome(result) == Self::chain_reply(reply, last_error@),
            reply.res != 1 || reply.handle == 0 ==> result == Err::<CertChain, TlsError>(
                TlsError::General(last_error),
            ),
            reply.res == 1 && reply.handle != 0 && reply.status & !0x0100_0040 == 0 ==> result
                == Ok::<CertChain, TlsError>(CertChain { inner: reply.handle }),
            reply.res == 1 && reply.handle != 0 && reply.status & !0x0100_0040 != 0 ==> (
            result matches Err(error) && trust_verdict(reply.status) == Err::<(), TlsErrorView>(
                error@,
            )),
            result matches Ok(chain) ==> chain.wf(),
    {
        match call_with_last_error(reply.created_handle(), last_error) {
            Ok(inner) => match map_trust_error_status(reply.status) {
                Ok(_) => Ok(CertChain { inner }),
                Err(error) => Err(error),
            },
            Err(error) => Err(error),
        }
    }

    /// Builds the call that gives back this store, or its engine if it has one:
    /// the engine goes before the store.
    pub fn release<'a>(&self) -> (call: Call<'a>)
        ensures
            call@ == self.release_call(),
            match self.engine {
                Some(own) => call matches Call::FreeEngine { engine } && engine == own,
                None => call matches Call::CloseStore { store, flags } && store == self.inner
                    && flags == 0,
            },
    {
        match self.engine {
            Some(engine) => Call::FreeEngine { engine },
            None => Call::CloseStore { store: self.inner, flags: 0 },
        }
    }

    /// What is left of this store after [`Self::release`].
    pub fn released(&self) -> (rest: Option<CertificateStore>)
        ensures
            rest == self.after_release(),
            self.engine is Some ==> rest == Some(
                CertificateStore { inner: self.inner, engine: None },
            ),
            self.engine is None ==> rest is None,
    {
        match self.engine {
            Some(_) => Some(CertificateStore { inner: self.inner, engine: None }),
            None => None,
        }
    }
}

impl CertChain {
    /// The handle is not null.
    pub open spec fn wf(self) -> bool {
        self.inner != NULL
    }

    /// The call that holds this chain against the policy of TLS for a server of
    /// the given name.
    ///
    /// Revocation information that cannot be obtained is ignored.
    pub open spec fn policy_call(self, server_name: Seq<u16>) -> CallView {
        CallView::VerifyPolicy {
            policy: CERT_CHAIN_POLICY_SSL,
            chain: self.inner,
            flags: CERT_CHAIN_POLICY_IGNORE_ALL_REV_UNKNOWN_FLAGS,
            auth_type: AUTHTYPE_SERVER,
            server_name,
        }
    }

    /// The status that the policy gave the chain.
    pub open spec fn policy_reply(reply: Reply) -> Result<u32, TlsErrorView> {
        if reply.succeeded() {
            Ok(reply.status)
        } else {
            Err(
                TlsErrorView::General(
                    "TLS certificate verification was unavailable on the system!"@,
                ),
            )
        }
    }

    /// Builds the call that holds this chain against the policy of TLS.
    pub fn verify_chain_policy<'a>(&self, server_null_terminated: &'a [u16]) -> (call: Call<'a>)
        ensures
            call@ == self.policy_call(server_null_terminated@),
            call matches Call::VerifyPolicy { policy, chain, flags, auth_type, server_name }
                && policy == 4 && chain == self.inner && flags == 0xF00 && auth_type == 2
                && server_name@ == server_null_terminated@,
    {
        proof {
            lemma_flag_values();
        }
        Call::VerifyPolicy {
            policy: CERT_CHAIN_POLICY_SSL,
            chain: self.inner,
            flags: CERT_CHAIN_POLICY_IGNORE_ALL_REV_UNKNOWN_FLAGS,
            auth_type: AUTHTYPE_SERVER,
            server_name: server_null_terminated,
        }
    }

    /// Takes the status that the policy gave the chain. A policy that could not be
    /// applied means that no verification is possible on the system.
    pub fn policy_status(reply: Reply) -> (result: Result<u32, TlsError>)
        ensures
            outcome(result) == Self::policy_reply(reply),
            reply.res == 1 ==> result == Ok::<u32, TlsError>(reply.status),
            reply.res != 1 ==> (result matches Err(TlsError::General(text)) && text@
                == "TLS certificate verification was unavailable on the system!"@),
    {
        if reply.res != TRUE {
            return Err(
                TlsError::General(
                    String::from_str("TLS certificate verification was unavailable on the system!"),
                ),
            );
        }
        Ok(reply.status)
    }
}

} // verus!
