//! The course of a verification: which call comes next, and what a reply leads to.
use crate::call::{Call, CallView, Reply};
use crate::error::{
    invalid_certificate, invalid_certificate_view, outcome, refused, CertificateErrorView,
    TlsError, TlsErrorView,
};
use crate::name::{encode_server_name, null_terminated};
use crate::os::{describes, describes_last_error, system_text, TextSource};
use crate::policy::{map_policy_status, policy_text_source, policy_verdict, text_source_of_policy};
use crate::store::{encoded_len, fits, CertChain, Certificate, CertificateStore};
use crate::time::{file_time, file_time_at, representable};
use crate::wincrypt::{CERT_OCSP_RESPONSE_PROP_ID, TRUE};
use vstd::pervasive::unreached;
use vstd::prelude::*;
use vstd::string::StringExecFns;

verus! {

/// What is to be verified.
struct Request<'a> {
    /// The only root to trust, in place of those of the system.
    root: Option<&'a [u8]>,
    /// The server's certificate.
    primary: &'a [u8],
    /// The certificates that may link it to a root.
    intermediates: &'a [&'a [u8]],
    /// The server's name, null-terminated.
    server_name: Vec<u16>,
    /// The OCSP response stapled to the server's certificate.
    ocsp: Option<&'a [u8]>,
    /// The current time, in nanoseconds since the Unix epoch.
    now: i128,
}

/// What a request says.
#[verifier::ext_equal]
pub struct RequestView {
    pub root: Option<Seq<u8>>,
    pub primary: Seq<u8>,
    pub intermediates: Seq<Seq<u8>>,
    pub server_name: Seq<u16>,
    pub ocsp: Option<Seq<u8>>,
    pub now: i128,
}

/// A buffer that may be missing, by its contents.
pub open spec fn contents(buffer: Option<&[u8]>) -> Option<Seq<u8>> {
    match buffer {
        Some(bytes) => Some(bytes@),
        None => None,
    }
}

/// Buffers, by their contents.
pub open spec fn all_contents(buffers: Seq<&[u8]>) -> Seq<Seq<u8>> {
    buffers.map_values(|bytes: &[u8]| bytes@)
}

impl<'a> View for Request<'a> {
    type V = RequestView;

    closed spec fn view(&self) -> RequestView {
        RequestView {
            root: contents(self.root),
            primary: self.primary@,
            intermediates: all_contents(self.intermediates@),
            server_name: self.server_name@,
            ocsp: contents(self.ocsp),
            now: self.now,
        }
    }
}

/// How far a verification has come: the call of its own that it makes next.
enum Phase {
    OpenStore,
    OpenRootStore,
    AddRoot,
    CreateEngine,
    AddPrimary,
    AddIntermediate(usize),
    SetOcsp,
    BuildChain,
    VerifyPolicy,
    Finished(Result<(), TlsError>),
}

/// What a phase says.
pub enum PhaseView {
    /// The store is about to be opened.
    OpenStore,
    /// The store for the only root is about to be opened.
    OpenRootStore,
    /// The only root is about to be added to its store.
    AddRoot,
    /// The engine that trusts the only root is about to be made.
    CreateEngine,
    /// The server's certificate is about to be added to the store.
    AddPrimary,
    /// The intermediate certificate of this index is about to be added.
    AddIntermediate(int),
    /// The stapled OCSP response is about to be attached.
    SetOcsp,
    /// The chain is about to be built.
    BuildChain,
    /// The chain is about to be held against the policy.
    VerifyPolicy,
    /// The result stands, and only handles are left to give back.
    Finished(Result<(), TlsErrorView>),
}

impl View for Phase {
    type V = PhaseView;

    closed spec fn view(&self) -> PhaseView {
        match *self {
            Phase::OpenStore => PhaseView::OpenStore,
            Phase::OpenRootStore => PhaseView::OpenRootStore,
            Phase::AddRoot => PhaseView::AddRoot,
            Phase::CreateEngine => PhaseView::CreateEngine,
            Phase::AddPrimary => PhaseView::AddPrimary,
            Phase::AddIntermediate(i) => PhaseView::AddIntermediate(i as int),
            Phase::SetOcsp => PhaseView::SetOcsp,
            Phase::BuildChain => PhaseView::BuildChain,
            Phase::VerifyPolicy => PhaseView::VerifyPolicy,
            Phase::Finished(result) => PhaseView::Finished(outcome(result)),
        }
    }
}

/// The objects that a verification holds, and has to give back.
#[derive(Clone, Copy)]
pub struct Held {
    /// The store with the server's certificate and the intermediate ones.
    pub store: Option<CertificateStore>,
    /// The store with the only root, until the engine is made.
    pub root_store: Option<CertificateStore>,
    /// A certificate that was added to a store and is of no further use.
    pub loose: Option<Certificate>,
    /// The server's certificate.
    pub primary: Option<Certificate>,
    /// The chain of the server's certificate.
    pub chain: Option<CertChain>,
}

/// Nothing is held.
pub open spec fn nothing_held() -> Held {
    Held { store: None, root_store: None, loose: None, primary: None, chain: None }
}

/// The state of a verification.
pub struct State {
    pub request: RequestView,
    pub held: Held,
    pub phase: PhaseView,
}

/// A certificate that is refused because of its encoding.
pub open spec fn bad_encoding() -> PhaseView {
    PhaseView::Finished(Err(refused(CertificateErrorView::BadEncoding)))
}

impl RequestView {
    /// What follows once the store for the only root is open.
    pub open spec fn before_root(self) -> PhaseView {
        if fits(self.root->0) {
            PhaseView::AddRoot
        } else {
            bad_encoding()
        }
    }

    /// What follows once the store is ready.
    pub open spec fn before_primary(self) -> PhaseView {
        if fits(self.primary) {
            PhaseView::AddPrimary
        } else {
            bad_encoding()
        }
    }

    /// What follows once the first `i` intermediate certificates are added.
    pub open spec fn before_intermediate(self, i: int) -> PhaseView {
        if i >= self.intermediates.len() {
            self.before_ocsp()
        } else if fits(self.intermediates[i]) {
            PhaseView::AddIntermediate(i)
        } else {
            bad_encoding()
        }
    }

    /// What follows once all the certificates are added.
    pub open spec fn before_ocsp(self) -> PhaseView {
        match self.ocsp {
            None => self.before_chain(),
            Some(response) => if fits(response) {
                PhaseView::SetOcsp
            } else {
                PhaseView::Finished(
                    Err(
                        invalid_certificate_view(
                            "Malformed OCSP response stapled to server certificate"@,
                        ),
                    ),
                )
            },
        }
    }

    /// What follows once everything is in place to build the chain.
    pub open spec fn before_chain(self) -> PhaseView {
        match file_time_at(self.now) {
            Ok(_) => PhaseView::BuildChain,
            Err(error) => PhaseView::Finished(Err(error)),
        }
    }
}

impl State {
    /// The state in which the verification of a request starts.
    pub open spec fn start(request: RequestView) -> State {
        State { request, held: nothing_held(), phase: PhaseView::OpenStore }
    }

    /// The same state, in another phase.
    pub open spec fn at(self, phase: PhaseView) -> State {
        State { phase, ..self }
    }

    /// The same state, with the result decided.
    pub open spec fn failed(self, error: TlsErrorView) -> State {
        self.at(PhaseView::Finished(Err(error)))
    }

    /// The same state, with other objects held.
    pub open spec fn holding(self, held: Held) -> State {
        State { held, ..self }
    }

    /// The store of the only root has served its purpose.
    pub open spec fn root_store_is_spent(self) -> bool {
        self.held.root_store is Some && !(self.phase is AddRoot) && !(self.phase is CreateEngine)
    }

    /// The next call.
    ///
    /// Objects that have served their purpose are given back first. Once the
    /// result is decided, all the others are: the chain, the server's certificate,
    /// the engine, the store.
    pub open spec fn call(self) -> CallView {
        let held = self.held;
        if held.loose is Some {
            CallView::FreeCertificate { certificate: held.loose->0.inner }
        } else if self.root_store_is_spent() {
            held.root_store->0.release_call()
        } else {
            match self.phase {
                PhaseView::OpenStore => CertificateStore::open_call(),
                PhaseView::OpenRootStore => CertificateStore::open_call(),
                PhaseView::AddRoot => held.root_store->0.add_call(self.request.root->0),
                PhaseView::CreateEngine => held.root_store->0.engine_call(),
                PhaseView::AddPrimary => held.store->0.add_call(self.request.primary),
                PhaseView::AddIntermediate(i) => held.store->0.add_call(
                    self.request.intermediates[i],
                ),
                PhaseView::SetOcsp => held.primary->0.property_call(
                    CERT_OCSP_RESPONSE_PROP_ID,
                    self.request.ocsp->0,
                ),
                PhaseView::BuildChain => held.store->0.chain_call(
                    held.primary->0,
                    file_time_at(self.request.now)->Ok_0,
                ),
                PhaseView::VerifyPolicy => held.chain->0.policy_call(self.request.server_name),
                PhaseView::Finished(result) => if held.chain is Some {
                    CallView::FreeChain { chain: held.chain->0.inner }
                } else if held.primary is Some {
                    CallView::FreeCertificate { certificate: held.primary->0.inner }
                } else if held.store is Some {
                    held.store->0.release_call()
                } else {
                    CallView::Done(result)
                },
            }
        }
    }

    /// The state that the reply to the next call leads to, where `text` is the text
    /// of the system that an error quotes.
    pub open spec fn next(self, reply: Reply, text: Seq<char>) -> State {
        let held = self.held;
        if held.loose is Some {
            self.holding(Held { loose: None, ..held })
        } else if self.root_store_is_spent() {
            self.holding(Held { root_store: held.root_store->0.after_release(), ..held })
        } else {
            match self.phase {
                PhaseView::OpenStore => match CertificateStore::open_reply(reply, text) {
                    Ok(store) => self.holding(Held { store: Some(store), ..held }).at(
                        if self.request.root is Some {
                            PhaseView::OpenRootStore
                        } else {
                            self.request.before_primary()
                        },
                    ),
                    Err(error) => self.failed(error),
                },
                PhaseView::OpenRootStore => match CertificateStore::open_reply(reply, text) {
                    Ok(store) => self.holding(Held { root_store: Some(store), ..held }).at(
                        self.request.before_root(),
                    ),
                    Err(error) => self.failed(error),
                },
                PhaseView::AddRoot => match CertificateStore::add_reply(reply) {
                    Ok(certificate) => self.holding(
                        Held { loose: Some(certificate), ..held },
                    ).at(PhaseView::CreateEngine),
                    Err(error) => self.failed(error),
                },
                PhaseView::CreateEngine => match held.store->0.engine_reply(reply, text) {
                    Ok(store) => self.holding(Held { store: Some(store), ..held }).at(
                        self.request.before_primary(),
                    ),
                    Err(error) => self.failed(error),
                },
                PhaseView::AddPrimary => match CertificateStore::add_reply(reply) {
                    Ok(certificate) => self.holding(
                        Held { primary: Some(certificate), ..held },
                    ).at(self.request.before_intermediate(0)),
                    Err(error) => self.failed(error),
                },
                PhaseView::AddIntermediate(i) => match CertificateStore::add_reply(reply) {
                    Ok(certificate) => self.holding(
                        Held { loose: Some(certificate), ..held },
                    ).at(self.request.before_intermediate(i + 1)),
                    Err(error) => self.failed(error),
                },
                PhaseView::SetOcsp => match Certificate::property_reply(reply, text) {
                    Ok(_) => self.at(self.request.before_chain()),
                    Err(error) => self.failed(error),
                },
                PhaseView::BuildChain => match CertificateStore::chain_reply(reply, text) {
                    Ok(chain) => self.holding(Held { chain: Some(chain), ..held }).at(
                        PhaseView::VerifyPolicy,
                    ),
                    Err(error) => self.failed(error),
                },
                PhaseView::VerifyPolicy => match CertChain::policy_reply(reply) {
                    Ok(status) => self.at(PhaseView::Finished(policy_verdict(status, text))),
                    Err(error) => self.failed(error),
                },
                PhaseView::Finished(_) => if held.chain is Some {
                    self.holding(Held { chain: None, ..held })
                } else if held.primary is Some {
                    self.holding(Held { primary: None, ..held })
                } else if held.store is Some {
                    self.holding(Held { store: held.store->0.after_release(), ..held })
                } else {
                    self
                },
            }
        }
    }

    /// The text of the system that the reply to the next call makes an error quote.
    pub open spec fn text_source(self, reply: Reply) -> TextSource {
        if self.held.loose is Some || self.root_store_is_spent() {
            TextSource::Nothing
        } else {
            match self.phase {
                PhaseView::OpenStore | PhaseView::OpenRootStore => if reply.given() is None {
                    TextSource::LastError
                } else {
                    TextSource::Nothing
                },
                PhaseView::CreateEngine | PhaseView::BuildChain => if reply.created() is None {
                    TextSource::LastError
                } else {
                    TextSource::Nothing
                },
                PhaseView::SetOcsp => if !reply.succeeded() {
                    TextSource::LastError
                } else {
                    TextSource::Nothing
                },
                PhaseView::VerifyPolicy => if reply.succeeded() {
                    policy_text_source(reply.status)
                } else {
                    TextSource::Nothing
                },
                _ => TextSource::Nothing,
            }
        }
    }

    /// What holds in every phase of what is held.
    pub open spec fn wf(self) -> bool {
        let held = self.held;
        let request = self.request;
        &&& representable(request.now)
        &&& held.store matches Some(store) ==> store.wf()
        &&& held.root_store matches Some(store) ==> store.wf() && store.engine is None
        &&& held.loose matches Some(certificate) ==> certificate.wf()
        &&& held.primary matches Some(certificate) ==> certificate.wf()
        &&& held.chain matches Some(chain) ==> chain.wf()
        &&& match self.phase {
            PhaseView::OpenStore => held == nothing_held(),
            PhaseView::OpenRootStore => {
                &&& request.root is Some
                &&& held.store is Some && held.store->0.engine is None
                &&& held == Held { store: held.store, ..nothing_held() }
            },
            PhaseView::AddRoot => {
                &&& request.root is Some && fits(request.root->0)
                &&& held.store is Some && held.store->0.engine is None
                &&& held.root_store is Some
                &&& held.loose is None && held.primary is None && held.chain is None
            },
            PhaseView::CreateEngine => {
                &&& request.root is Some
                &&& held.store is Some && held.store->0.engine is None
                &&& held.root_store is Some
                &&& held.primary is None && held.chain is None
            },
            PhaseView::AddPrimary => {
                &&& fits(request.primary)
                &&& self.store_is_ready()
                &&& held.loose is None && held.primary is None && held.chain is None
            },
            PhaseView::AddIntermediate(i) => {
                &&& 0 <= i < request.intermediates.len() && fits(request.intermediates[i])
                &&& self.primary_is_added()
            },
            PhaseView::SetOcsp => {
                &&& request.ocsp is Some && fits(request.ocsp->0)
                &&& self.primary_is_added()
            },
            PhaseView::BuildChain => {
                &&& file_time_at(request.now) is Ok
                &&& self.primary_is_added()
            },
            PhaseView::VerifyPolicy => {
                &&& self.store_is_ready()
                &&& held.root_store is None && held.loose is None
                &&& held.primary is Some && held.chain is Some
            },
            PhaseView::Finished(_) => {
                &&& held.chain is Some ==> held.primary is Some
                &&& held.primary is Some || held.loose is Some || held.root_store is Some
                    ==> held.store is Some
                &&& held.root_store is Some ==> held.primary is None && held.chain is None
            },
        }
    }

    /// The store is open, and has an engine exactly when there is an only root.
    pub open spec fn store_is_ready(self) -> bool {
        &&& self.held.store is Some
        &&& self.held.store->0.engine is Some <==> self.request.root is Some
    }

    /// The server's certificate is in the store, and the chain is not built yet.
    pub open spec fn primary_is_added(self) -> bool {
        &&& self.store_is_ready()
        &&& self.held.root_store is None
        &&& self.held.primary is Some
        &&& self.held.chain is None
    }
}

/// What holds in every phase of what is held, holds after every reply.
pub(crate) proof fn lemma_next_keeps_wf(state: State, reply: Reply, text: Seq<char>)
    requires
        state.wf(),
    ensures
        state.next(reply, text).wf(),
{
}

/// A verification under way.
///
/// It makes no call by itself: [`Verification::call`] tells which one to make, and
/// [`Verification::step`] takes the reply.
///
/// A chain that is refused for its trust status is not given back to the system;
/// every other object is, before the verification is done.
pub struct Verification<'a> {
    request: Request<'a>,
    held: Held,
    phase: Phase,
}

impl<'a> View for Verification<'a> {
    type V = State;

    closed spec fn view(&self) -> State {
        State { request: self.request@, held: self.held, phase: self.phase@ }
    }
}

impl<'a> Request<'a> {
    /// What follows once the store for the only root is open.
    fn before_root(&self, root: &[u8]) -> (phase: Phase)
        requires
            self@.root == Some(root@),
        ensures
            phase@ == self@.before_root(),
    {
        match encoded_len(root) {
            Ok(_) => Phase::AddRoot,
            Err(error) => Phase::Finished(Err(error)),
        }
    }

    /// What follows once the store is ready.
    fn before_primary(&self) -> (phase: Phase)
        ensures
            phase@ == self@.before_primary(),
    {
        match encoded_len(self.primary) {
            Ok(_) => Phase::AddPrimary,
            Err(error) => Phase::Finished(Err(error)),
        }
    }

    /// What follows once the first `i` intermediate certificates are added.
    fn before_intermediate(&self, i: usize) -> (phase: Phase)
        requires
            representable(self@.now),
        ensures
            phase@ == self@.before_intermediate(i as int),
    {
        if i >= self.intermediates.len() {
            return self.before_ocsp();
        }
        match encoded_len(self.intermediates[i]) {
            Ok(_) => Phase::AddIntermediate(i),
            Err(error) => Phase::Finished(Err(error)),
        }
    }

    /// What follows once all the certificates are added.
    fn before_ocsp(&self) -> (phase: Phase)
        requires
            representable(self@.now),
        ensures
            phase@ == self@.before_ocsp(),
    {
        match self.ocsp {
            None => self.before_chain(),
            Some(response) => if response.len() > u32::MAX as usize {
                Phase::Finished(
                    Err(
                        invalid_certificate(
                            String::from_str(
                                "Malformed OCSP response stapled to server certificate",
                            ),
                        ),
                    ),
                )
            } else {
                Phase::SetOcsp
            },
        }
    }

    /// What follows once everything is in place to build the chain.
    fn before_chain(&self) -> (phase: Phase)
        requires
            representable(self@.now),
        ensures
            phase@ == self@.before_chain(),
    {
        match file_time(self.now) {
            Ok(_) => Phase::BuildChain,
            Err(error) => Phase::Finished(Err(error)),
        }
    }
}

impl<'a> Verification<'a> {
    /// Starts the verification of a server's certificate.
    ///
    /// `root` is the only root to trust, in place of those of the system; `now` is
    /// the current time in nanoseconds since the Unix epoch.
    pub fn start(
        root: Option<&'a [u8]>,
        primary_cert: &'a [u8],
        intermediate_certs: &'a [&'a [u8]],
        server: &[u8],
        ocsp_data: Option<&'a [u8]>,
        now: i128,
    ) -> (verification: Verification<'a>)
        requires
            representable(now),
        ensures
            verification@ == State::start(
                request_of(
                    contents(root),
                    primary_cert@,
                    all_contents(intermediate_certs@),
                    server@,
                    contents(ocsp_data),
                    now,
                ),
            ),
            verification@.wf(),
            verification@.phase is OpenStore,
            states(
                verification@.request,
                root,
                primary_cert,
                intermediate_certs,
                server,
                ocsp_data,
                now,
            ),
    {
        Verification {
            request: Request {
                root,
                primary: primary_cert,
                intermediates: intermediate_certs,
                server_name: encode_server_name(server),
                ocsp: ocsp_data,
                now,
            },
            held: Held { store: None, root_store: None, loose: None, primary: None, chain: None },
            phase: Phase::OpenStore,
        }
    }

    /// The next call to make.
    pub fn call(&self) -> (call: Call<'_>)
        requires
            self@.wf(),
        ensures
            call@ == self@.call(),
    {
        if let Some(loose) = self.held.loose {
            return Call::FreeCertificate { certificate: loose.inner };
        }
        match &self.phase {
            Phase::OpenStore => CertificateStore::open(),
            Phase::OpenRootStore => CertificateStore::open(),
            Phase::AddRoot => match (self.held.root_store, self.request.root) {
                (Some(root_store), Some(root)) => Self::add(&root_store, root),
                _ => unreached(),
            },
            Phase::CreateEngine => match self.held.root_store {
                Some(root_store) => root_store.create_engine(),
                None => unreached(),
            },
            Phase::AddPrimary => match (self.held.root_store, self.held.store) {
                (Some(root_store), _) => root_store.release(),
                (None, Some(store)) => Self::add(&store, self.request.primary),
                _ => unreached(),
            },
            Phase::AddIntermediate(i) => match self.held.store {
                Some(store) => Self::add(&store, self.request.intermediates[*i]),
                None => unreached(),
            },
            Phase::SetOcsp => match (self.held.primary, self.request.ocsp) {
                (Some(primary), Some(response)) => primary.set_property(
                    CERT_OCSP_RESPONSE_PROP_ID,
                    response,
                ),
                _ => unreached(),
            },
            Phase::BuildChain => match (self.held.store, self.held.primary) {
                (Some(store), Some(primary)) => match store.new_chain_in(
                    &primary,
                    self.request.now,
                ) {
                    Ok(call) => call,
                    Err(_) => unreached(),
                },
                _ => unreached(),
            },
            Phase::VerifyPolicy => match self.held.chain {
                Some(chain) => chain.verify_chain_policy(self.request.server_name.as_slice()),
                None => unreached(),
            },
            Phase::Finished(result) => if let Some(root_store) = self.held.root_store {
                root_store.release()
            } else if let Some(chain) = self.held.chain {
                Call::FreeChain { chain: chain.inner }
            } else if let Some(primary) = self.held.primary {
                Call::FreeCertificate { certificate: primary.inner }
            } else if let Some(store) = self.held.store {
                store.release()
            } else {
                Call::Done(result)
            },
        }
    }

    /// Takes the reply to the call that [`Self::call`] tells.
    ///
    /// Where the system failed, the error quotes the system: the last error of the
    /// calling thread, or the description of the policy status.
    pub fn step(&mut self, reply: Reply)
        requires
            old(self)@.wf(),
        ensures
            final(self)@.wf(),
            final(self)@.request == old(self)@.request,
            exists|text: Seq<char>|
                {
                    &&& final(self)@ == #[trigger] old(self)@.next(reply, text)
                    &&& old(self)@.text_source(reply) is LastError ==> describes_last_error(text)
                    &&& old(self)@.text_source(reply) matches TextSource::Code(code) ==> describes(
                        code,
                        text,
                    )
                },
    {
        let text: String = system_text(self.text_source_of(reply));
        let ghost quoted: Seq<char> = text@;
        self.step_with(reply, text);
        assert(self@ == old(self)@.next(reply, quoted));
    }

    /// Takes the reply to the call that [`Self::call`] tells, with the text of the
    /// system that an error quotes.
    pub fn step_with(&mut self, reply: Reply, text: String)
        requires
            old(self)@.wf(),
        ensures
            final(self)@ == old(self)@.next(reply, text@),
            final(self)@.wf(),
            final(self)@.request == old(self)@.request,
    {
        proof {
            lemma_next_keeps_wf(self@, reply, text@);
        }
        if self.held.loose.is_some() {
            self.held.loose = None;
            return ;
        }
        match &self.phase {
            Phase::OpenStore => match CertificateStore::new(reply, text) {
                Ok(store) => {
                    self.held.store = Some(store);
                    self.phase =
                    if self.request.root.is_some() {
                        Phase::OpenRootStore
                    } else {
                        self.request.before_primary()
                    };
                },
                Err(error) => {
                    self.phase = Phase::Finished(Err(error));
                },
            },
            Phase::OpenRootStore => match CertificateStore::new(reply, text) {
                Ok(store) => {
                    self.held.root_store = Some(store);
                    self.phase =
                    match self.request.root {
                        Some(root) => self.request.before_root(root),
                        None => unreached(),
                    };
                },
                Err(error) => {
                    self.phase = Phase::Finished(Err(error));
                },
            },
            Phase::AddRoot => match CertificateStore::added_cert(reply) {
                Ok(certificate) => {
                    self.held.loose = Some(certificate);
                    self.phase = Phase::CreateEngine;
                },
                Err(error) => {
                    self.phase = Phase::Finished(Err(error));
                },
            },
            Phase::CreateEngine => match self.held.store {
                Some(store) => match store.new_with_fake_root(reply, text) {
                    Ok(store) => {
                        self.held.store = Some(store);
                        self.phase = self.request.before_primary();
                    },
                    Err(error) => {
                        self.phase = Phase::Finished(Err(error));
                    },
                },
                None => unreached(),
            },
            Phase::AddPrimary => if let Some(root_store) = self.held.root_store {
                self.held.root_store = root_store.released();
            } else {
                match CertificateStore::added_cert(reply) {
                    Ok(certificate) => {
                        self.held.primary = Some(certificate);
                        self.phase = self.request.before_intermediate(0);
                    },
                    Err(error) => {
                        self.phase = Phase::Finished(Err(error));
                    },
                }
            },
            Phase::AddIntermediate(i) => match CertificateStore::added_cert(reply) {
                Ok(certificate) => {
                    assert(*i < self.request.intermediates.len());
                    let following: usize = *i + 1;
                    self.held.loose = Some(certificate);
                    self.phase = self.request.before_intermediate(following);
                },
                Err(error) => {
                    self.phase = Phase::Finished(Err(error));
                },
            },
            Phase::SetOcsp => match Certificate::property_set(reply, text) {
                Ok(_) => {
                    self.phase = self.request.before_chain();
                },
                Err(error) => {
                    self.phase = Phase::Finished(Err(error));
                },
            },
            Phase::BuildChain => match CertificateStore::built_chain(reply, text) {
                Ok(chain) => {
                    self.held.chain = Some(chain);
                    self.phase = Phase::VerifyPolicy;
                },
                Err(error) => {
                    self.phase = Phase::Finished(Err(error));
                },
            },
            Phase::VerifyPolicy => {
                self.phase =
                match CertChain::policy_status(reply) {
                    Ok(status) => Phase::Finished(map_policy_status(status, text)),
                    Err(error) => Phase::Finished(Err(error)),
                };
            },
            Phase::Finished(_) => {
                self.give_back();
            },
        }
    }

    /// Forgets the object that was just given back.
    fn give_back(&mut self)
        requires
            old(self)@.wf(),
            old(self)@.phase is Finished,
            old(self)@.held.loose is None,
        ensures
            final(self)@.request == old(self)@.request,
            final(self)@.phase == old(self)@.phase,
            forall|reply: Reply, text: Seq<char>|
                final(self)@.held == (#[trigger] old(self)@.next(reply, text)).held,
    {
        if let Some(root_store) = self.held.root_store {
            self.held.root_store = root_store.released();
        } else if self.held.chain.is_some() {
            self.held.chain = None;
        } else if self.held.primary.is_some() {
            self.held.primary = None;
        } else if let Some(store) = self.held.store {
            self.held.store = store.released();
        }
    }

    /// The text of the system that a reply to the next call makes an error quote.
    pub fn text_source_of(&self, reply: Reply) -> (source: TextSource)
        requires
            self@.wf(),
        ensures
            source == self@.text_source(reply),
    {
        if self.held.loose.is_some() {
            return TextSource::Nothing;
        }
        match &self.phase {
            Phase::OpenStore | Phase::OpenRootStore => match reply.nonnull_handle() {
                Some(_) => TextSource::Nothing,
                None => TextSource::LastError,
            },
            Phase::CreateEngine | Phase::BuildChain => match reply.created_handle() {
                Some(_) => TextSource::Nothing,
                None => TextSource::LastError,
            },
            Phase::SetOcsp => if reply.res == TRUE {
                TextSource::Nothing
            } else {
                TextSource::LastError
            },
            Phase::VerifyPolicy => if reply.res == TRUE {
                text_source_of_policy(reply.status)
            } else {
                TextSource::Nothing
            },
            _ => TextSource::Nothing,
        }
    }

    /// The call that adds a certificate whose length is known to fit.
    fn add<'b>(store: &CertificateStore, cert: &'b [u8]) -> (call: Call<'b>)
        requires
            fits(cert@),
        ensures
            call@ == store.add_call(cert@),
    {
        match store.add_cert(cert) {
            Ok(call) => call,
            Err(_) => unreached(),
        }
    }
}

/// A request states what it was made from, part by part: which root is the only one to
/// trust, the certificates, the server's name, the stapled response, and the time.
pub open spec fn states(
    request: RequestView,
    root: Option<&[u8]>,
    primary_cert: &[u8],
    intermediate_certs: &[&[u8]],
    server: &[u8],
    ocsp_data: Option<&[u8]>,
    now: i128,
) -> bool {
    &&& match root {
        Some(only) => request.root == Some(only@),
        None => request.root is None,
    }
    &&& request.primary == primary_cert@
    &&& request.intermediates.len() == intermediate_certs@.len()
    &&& forall|k: int|
        0 <= k < intermediate_certs@.len() ==> (#[trigger] request.intermediates[k])
            == intermediate_certs@[k]@
    &&& names(request.server_name, server@)
    &&& match ocsp_data {
        Some(response) => request.ocsp == Some(response@),
        None => request.ocsp is None,
    }
    &&& request.now == now
}

/// `units` is the name `server`, byte for byte, and a zero after it.
pub open spec fn names(units: Seq<u16>, server: Seq<u8>) -> bool {
    &&& units.len() == server.len() + 1
    &&& forall|i: int| 0 <= i < server.len() ==> (#[trigger] units[i]) as int == server[i] as int
    &&& units[server.len() as int] == 0
}

/// The request that the arguments of a verification make.
pub open spec fn request_of(
    root: Option<Seq<u8>>,
    primary_cert: Seq<u8>,
    intermediate_certs: Seq<Seq<u8>>,
    server: Seq<u8>,
    ocsp_data: Option<Seq<u8>>,
    now: i128,
) -> RequestView {
    RequestView {
        root,
        primary: primary_cert,
        intermediates: intermediate_certs,
        server_name: null_terminated(server),
        ocsp: ocsp_data,
        now,
    }
}

} // verus!
