//! What the result of a verification rests on.
use crate::call::{CallView, Reply};
use crate::course::{
    all_answered_well, answered_well, call_at, has_failed, law_every_reached_state_is_well_formed,
    lemma_failed_iff, lemma_last_event, lemma_prefix_calls, lemma_step_decides, state_after, Event,
};
use crate::error::{CertificateErrorView, OtherErrorView, TlsErrorView};
use crate::policy::policy_verdict;
use crate::session::{PhaseView, RequestView, State};
use crate::store::{CertChain, Certificate, CertificateStore};
use crate::time::{denotes, file_time_at, law_file_time_denotes_the_time, representable};
use crate::trust::{law_verdict_by_flags, trust_verdict};
use crate::wincrypt::CERT_OCSP_RESPONSE_PROP_ID;
use vstd::prelude::*;

verus! {

/// The reply of index `i` says that `cert` was added to `store`, as the certificate
/// `added`.
pub open spec fn certificate_added(
    request: RequestView,
    events: Seq<Event>,
    i: int,
    store: CertificateStore,
    cert: Seq<u8>,
    added: Certificate,
) -> bool {
    &&& 0 <= i < events.len()
    &&& call_at(request, events, i) == store.add_call(cert)
    &&& call_at(request, events, i) matches CallView::AddCertificate { store: into, cert: der, .. }
        && into == store.inner && der == cert
    &&& events[i].reply.res == 1 && events[i].reply.handle == added.inner && added.inner != 0
}

/// A reply says that `cert` was added to `store`.
pub open spec fn is_added(
    request: RequestView,
    events: Seq<Event>,
    store: CertificateStore,
    cert: Seq<u8>,
) -> bool {
    exists|i: int, added: Certificate|
        #[trigger] certificate_added(request, events, i, store, cert, added)
}

/// Among the first `n` calls, none adds a certificate other than `root`, or to another
/// store than `root_store`.
pub open spec fn nothing_else_added(
    request: RequestView,
    events: Seq<Event>,
    n: int,
    root_store: CertificateStore,
    root: Seq<u8>,
) -> bool {
    forall|j: int|
        0 <= j < n && #[trigger] call_at(request, events, j) is AddCertificate ==> call_at(
            request,
            events,
            j,
        ) == root_store.add_call(root)
}

/// The reply of index `i` says that `engine` was made to trust what is in
/// `root_store` and nothing else; and `root` is all that was added to any store before.
pub open spec fn engine_trusts(
    request: RequestView,
    events: Seq<Event>,
    i: int,
    root_store: CertificateStore,
    root: Seq<u8>,
    engine: usize,
) -> bool {
    &&& 0 <= i < events.len()
    &&& call_at(request, events, i) == root_store.engine_call()
    &&& call_at(request, events, i) matches CallView::CreateEngine { exclusive_root, .. }
        && exclusive_root == root_store.inner
    &&& events[i].reply.res == 1 && events[i].reply.handle == engine && engine != 0
    &&& is_added(request, events, root_store, root)
    &&& nothing_else_added(request, events, i, root_store, root)
}

/// If there is an only root, the engine of `store` was made to trust it.
pub open spec fn trusts_only_root(
    request: RequestView,
    events: Seq<Event>,
    store: CertificateStore,
) -> bool {
    match (request.root, store.engine) {
        (Some(root), Some(engine)) => exists|i: int, root_store: CertificateStore|
            #[trigger] engine_trusts(request, events, i, root_store, root, engine),
        (None, None) => true,
        _ => false,
    }
}

/// The reply of index `i` says that the OCSP response was attached to `primary`.
pub open spec fn response_attached(
    request: RequestView,
    events: Seq<Event>,
    i: int,
    primary: Certificate,
    response: Seq<u8>,
) -> bool {
    &&& 0 <= i < events.len()
    &&& call_at(request, events, i) == primary.property_call(CERT_OCSP_RESPONSE_PROP_ID, response)
    &&& call_at(request, events, i) matches CallView::SetProperty {
        certificate,
        prop_id,
        data,
        len,
        ..
    } && certificate == primary.inner && prop_id == 70 && data == response && len == response.len()
    &&& events[i].reply.res == 1
}

/// The reply of index `i` says that `chain` is the chain of `primary` at the time of
/// the request, and that nothing but missing revocation information speaks against
/// it.
pub open spec fn chain_trusted(
    request: RequestView,
    events: Seq<Event>,
    i: int,
    store: CertificateStore,
    primary: Certificate,
    chain: CertChain,
) -> bool {
    &&& 0 <= i < events.len()
    &&& file_time_at(request.now) is Ok
    &&& call_at(request, events, i) == store.chain_call(primary, file_time_at(request.now)->Ok_0)
    &&& call_at(request, events, i) matches CallView::GetChain {
        engine,
        certificate,
        time,
        store: from,
        ..
    } && certificate == primary.inner && from == store.inner && denotes(time, request.now as int)
        && (store.engine matches Some(own) ==> engine == own) && (store.engine is None ==> engine
        == 0)
    &&& events[i].reply.res == 1 && events[i].reply.handle == chain.inner && chain.inner != 0
    &&& events[i].reply.status & !0x0100_0040 == 0
}

/// The reply of index `i` says that the policy has nothing against `chain` for the
/// server that the request names.
pub open spec fn policy_passed(
    request: RequestView,
    events: Seq<Event>,
    i: int,
    chain: CertChain,
) -> bool {
    &&& 0 <= i < events.len()
    &&& call_at(request, events, i) == chain.policy_call(request.server_name)
    &&& call_at(request, events, i) matches CallView::VerifyPolicy {
        chain: judged,
        server_name,
        ..
    } && judged == chain.inner && server_name == request.server_name
    &&& events[i].reply.res == 1
    &&& events[i].reply.status == 0
}

/// Everything that the acceptance of a certificate rests on.
pub open spec fn grounds(
    request: RequestView,
    events: Seq<Event>,
    store: CertificateStore,
    primary: Certificate,
    chain: CertChain,
) -> bool {
    &&& trusts_only_root(request, events, store)
    &&& exists|i: int|
        #[trigger] certificate_added(request, events, i, store, request.primary, primary)
    &&& forall|k: int|
        0 <= k < request.intermediates.len() ==> is_added(
            request,
            events,
            store,
            #[trigger] request.intermediates[k],
        )
    &&& request.ocsp matches Some(response) ==> exists|i: int|
        #[trigger] response_attached(request, events, i, primary, response)
    &&& exists|i: int| #[trigger] chain_trusted(request, events, i, store, primary, chain)
}

/// How many intermediate certificates are in the store.
spec fn added_so_far(state: State) -> int {
    match state.phase {
        PhaseView::AddIntermediate(i) => i,
        PhaseView::SetOcsp | PhaseView::BuildChain | PhaseView::VerifyPolicy =>
            state.request.intermediates.len() as int,
        _ => 0,
    }
}

/// The phases in which the server's certificate is in the store.
spec fn past_primary(state: State) -> bool {
    state.phase is AddIntermediate || state.phase is SetOcsp || state.phase is BuildChain
        || state.phase is VerifyPolicy
}

/// What the replies so far say of the only root.
spec fn root_backed(request: RequestView, events: Seq<Event>) -> bool {
    let state = state_after(request, events);
    &&& state.phase is CreateEngine ==> is_added(
        request,
        events,
        state.held.root_store->0,
        request.root->0,
    ) && nothing_else_added(
        request,
        events,
        events.len() as int,
        state.held.root_store->0,
        request.root->0,
    )
    &&& state.phase is OpenStore || state.phase is OpenRootStore || state.phase is AddRoot
        ==> forall|j: int|
        0 <= j < events.len() ==> !(#[trigger] call_at(request, events, j) is AddCertificate)
    &&& state.phase is AddPrimary || past_primary(state) ==> trusts_only_root(
        request,
        events,
        state.held.store->0,
    )
}

/// In every phase, what the verification takes for done about the only root was
/// confirmed by a reply.
proof fn lemma_root_backed(request: RequestView, events: Seq<Event>)
    requires
        representable(request.now),
    ensures
        root_backed(request, events),
    decreases events.len(),
{
    if events.len() > 0 {
        let earlier = events.drop_last();
        let n = events.len() - 1;
        let before = state_after(request, earlier);
        let after = state_after(request, events);
        lemma_root_backed(request, earlier);
        law_every_reached_state_is_well_formed(request, earlier);
        law_every_reached_state_is_well_formed(request, events);
        lemma_last_event(request, events);
        lemma_replies_stand(request, events);
        assert forall|j: int| 0 <= j < n implies #[trigger] call_at(request, events, j) == call_at(
            request,
            earlier,
            j,
        ) by {
            lemma_prefix_calls(request, events, n, j);
        }
        if after.phase is CreateEngine {
            if before.phase is AddRoot {
                assert(certificate_added(
                    request,
                    events,
                    n,
                    after.held.root_store->0,
                    request.root->0,
                    after.held.loose->0,
                ));
            }
        } else if after.phase is AddPrimary || past_primary(after) {
            let store = after.held.store->0;
            if before.phase is CreateEngine {
                assert(engine_trusts(
                    request,
                    events,
                    n,
                    before.held.root_store->0,
                    request.root->0,
                    store.engine->0,
                ));
            } else if before.phase is AddPrimary || past_primary(before) {
                assert(before.held.store == after.held.store);
                lemma_trust_stands(request, events, store);
            }
        }
    }
}

/// The engine still trusts the only root after later replies.
proof fn lemma_trust_stands(request: RequestView, events: Seq<Event>, store: CertificateStore)
    requires
        events.len() > 0,
        trusts_only_root(request, events.drop_last(), store),
    ensures
        trusts_only_root(request, events, store),
{
    let earlier = events.drop_last();
    lemma_replies_stand(request, events);
    lemma_last_event(request, events);
    if request.root is Some {
        let root = request.root->0;
        let engine = store.engine->0;
        let (i, root_store) = choose|i: int, root_store: CertificateStore|
            #[trigger] engine_trusts(request, earlier, i, root_store, root, engine);
        assert forall|j: int| 0 <= j <= i implies #[trigger] call_at(request, events, j) == call_at(
            request,
            earlier,
            j,
        ) by {
            lemma_prefix_calls(request, events, events.len() - 1, j);
        }
        assert(engine_trusts(request, events, i, root_store, root, engine));
    }
}

/// What the replies so far say, as far as the verification has come.
spec fn backed(request: RequestView, events: Seq<Event>) -> bool {
    let state = state_after(request, events);
    let store = state.held.store->0;
    let primary = state.held.primary->0;
    past_primary(state) ==> {
        &&& exists|i: int|
            #[trigger] certificate_added(request, events, i, store, request.primary, primary)
        &&& forall|k: int|
            0 <= k < added_so_far(state) ==> is_added(
                request,
                events,
                store,
                #[trigger] request.intermediates[k],
            )
        &&& state.phase is BuildChain || state.phase is VerifyPolicy ==> (
        request.ocsp matches Some(response) ==> exists|i: int|
            #[trigger] response_attached(request, events, i, primary, response))
        &&& state.phase is VerifyPolicy ==> exists|i: int| #[trigger]
            chain_trusted(request, events, i, store, primary, state.held.chain->0)
    }
}

/// What earlier replies say, they still say after later ones.
proof fn lemma_replies_stand(request: RequestView, events: Seq<Event>)
    requires
        events.len() > 0,
    ensures
        forall|i: int, store: CertificateStore, cert: Seq<u8>, added: Certificate| #[trigger]
            certificate_added(request, events.drop_last(), i, store, cert, added)
                ==> certificate_added(request, events, i, store, cert, added),
        forall|store: CertificateStore, cert: Seq<u8>| #[trigger]
            is_added(request, events.drop_last(), store, cert) ==> is_added(
                request,
                events,
                store,
                cert,
            ),
        forall|i: int, primary: Certificate, response: Seq<u8>| #[trigger]
            response_attached(request, events.drop_last(), i, primary, response)
                ==> response_attached(request, events, i, primary, response),
        forall|i: int, store: CertificateStore, primary: Certificate, chain: CertChain| #[trigger]
            chain_trusted(request, events.drop_last(), i, store, primary, chain) ==> chain_trusted(
                request,
                events,
                i,
                store,
                primary,
                chain,
            ),
{
    let earlier = events.drop_last();
    lemma_last_event(request, events);
    assert forall|i: int| 0 <= i < earlier.len() implies #[trigger] call_at(request, earlier, i)
        == call_at(request, events, i) && earlier[i] == events[i] by {
        lemma_prefix_calls(request, events, events.len() - 1, i);
    }
    assert forall|store: CertificateStore, cert: Seq<u8>| #[trigger]
        is_added(request, earlier, store, cert) implies is_added(request, events, store, cert) by {
        let (i, added) = choose|i: int, added: Certificate|
            #[trigger] certificate_added(request, earlier, i, store, cert, added);
        assert(certificate_added(request, events, i, store, cert, added));
    }
}

/// In every phase, what the verification takes for done was confirmed by a reply.
proof fn lemma_backed(request: RequestView, events: Seq<Event>)
    requires
        representable(request.now),
    ensures
        backed(request, events),
    decreases events.len(),
{
    if events.len() > 0 {
        let earlier = events.drop_last();
        let n = events.len() - 1;
        let before = state_after(request, earlier);
        let after = state_after(request, events);
        let reply = events.last().reply;
        lemma_backed(request, earlier);
        law_every_reached_state_is_well_formed(request, earlier);
        law_every_reached_state_is_well_formed(request, events);
        lemma_last_event(request, events);
        lemma_replies_stand(request, events);
        law_verdict_by_flags(reply.status);
        law_file_time_denotes_the_time(request.now);
        let store = after.held.store->0;
        let primary = after.held.primary->0;
        if past_primary(after) {
            if before.phase is AddPrimary && before.phase != after.phase {
                assert(certificate_added(request, events, n, store, request.primary, primary));
            } else {
                assert(past_primary(before));
                assert(before.held.store == after.held.store);
                assert(before.held.primary == after.held.primary);
                let i = choose|i: int|
                    #[trigger] certificate_added(
                        request,
                        earlier,
                        i,
                        store,
                        request.primary,
                        primary,
                    );
                assert(certificate_added(request, events, i, store, request.primary, primary));
                if before.phase is AddIntermediate && before.phase != after.phase {
                    let k = before.phase->AddIntermediate_0;
                    let added = after.held.loose->0;
                    assert(certificate_added(
                        request,
                        events,
                        n,
                        store,
                        request.intermediates[k],
                        added,
                    ));
                    assert(is_added(request, events, store, request.intermediates[k]));
                    assert(added_so_far(after) <= k + 1);
                }
                if after.phase is BuildChain || after.phase is VerifyPolicy {
                    if before.phase is SetOcsp {
                        assert(response_attached(request, events, n, primary, request.ocsp->0));
                    } else if before.phase is BuildChain || before.phase is VerifyPolicy {
                        if request.ocsp is Some {
                            let i = choose|i: int|
                                #[trigger] response_attached(
                                    request,
                                    earlier,
                                    i,
                                    primary,
                                    request.ocsp->0,
                                );
                            assert(response_attached(request, events, i, primary, request.ocsp->0));
                        }
                    }
                }
                if after.phase is VerifyPolicy {
                    if before.phase is BuildChain {
                        assert(chain_trusted(
                            request,
                            events,
                            n,
                            store,
                            primary,
                            after.held.chain->0,
                        ));
                    } else {
                        let i = choose|i: int|
                            #[trigger] chain_trusted(
                                request,
                                earlier,
                                i,
                                store,
                                primary,
                                before.held.chain->0,
                            );
                        assert(chain_trusted(
                            request,
                            events,
                            i,
                            store,
                            primary,
                            after.held.chain->0,
                        ));
                    }
                }
            }
        }
    }
}

/// The grounds of an acceptance stand after later replies.
proof fn lemma_grounds_stand(
    request: RequestView,
    events: Seq<Event>,
    store: CertificateStore,
    primary: Certificate,
    chain: CertChain,
)
    requires
        events.len() > 0,
        grounds(request, events.drop_last(), store, primary, chain),
    ensures
        grounds(request, events, store, primary, chain),
{
    let earlier = events.drop_last();
    lemma_replies_stand(request, events);
    lemma_trust_stands(request, events, store);
    let i = choose|i: int|
        #[trigger] certificate_added(request, earlier, i, store, request.primary, primary);
    assert(certificate_added(request, events, i, store, request.primary, primary));
    if request.ocsp is Some {
        let i = choose|i: int|
            #[trigger] response_attached(request, earlier, i, primary, request.ocsp->0);
        assert(response_attached(request, events, i, primary, request.ocsp->0));
    }
    let i = choose|i: int| #[trigger] chain_trusted(request, earlier, i, store, primary, chain);
    assert(chain_trusted(request, events, i, store, primary, chain));
}

/// A certificate is accepted only if the system confirmed all of this: it and all the
/// intermediate certificates were added to one store, and the stapled OCSP response
/// was attached to it; its chain was built from that store, as of the time of the
/// request, by the engine of the system or, where an only root is given, by one made to
/// trust that root alone, and nothing but missing revocation information speaks
/// against that chain; and the policy has nothing against that chain for the server of
/// the request.
pub proof fn law_accepted_only_on_grounds(request: RequestView, events: Seq<Event>)
    requires
        representable(request.now),
        state_after(request, events).phase is Finished,
        state_after(request, events).phase->Finished_0 is Ok,
    ensures
        exists|store: CertificateStore, primary: Certificate, chain: CertChain, v: int|
            #[trigger] grounds(request, events, store, primary, chain) && #[trigger] policy_passed(
                request,
                events,
                v,
                chain,
            ),
    decreases events.len(),
{
    let earlier = events.drop_last();
    let n = events.len() - 1;
    let before = state_after(request, earlier);
    law_every_reached_state_is_well_formed(request, earlier);
    lemma_last_event(request, events);
    lemma_step_decides(before, events.last().reply, events.last().text);
    if before.phase is Finished {
        law_accepted_only_on_grounds(request, earlier);
        let (store, primary, chain, v) = choose|
            store: CertificateStore,
            primary: Certificate,
            chain: CertChain,
            v: int,
        |
            #[trigger] grounds(request, earlier, store, primary, chain) && #[trigger] policy_passed(
                request,
                earlier,
                v,
                chain,
            );
        lemma_grounds_stand(request, events, store, primary, chain);
        lemma_prefix_calls(request, events, n, v);
        assert(policy_passed(request, events, v, chain));
    } else {
        assert(before.phase is VerifyPolicy);
        lemma_backed(request, earlier);
        lemma_root_backed(request, earlier);
        let store = before.held.store->0;
        let primary = before.held.primary->0;
        let chain = before.held.chain->0;
        assert(grounds(request, earlier, store, primary, chain));
        lemma_grounds_stand(request, events, store, primary, chain);
        assert(policy_passed(request, events, n, chain));
    }
}

/// The error that a badly answered call is met with.
pub open spec fn complaint(call: CallView, reply: Reply, text: Seq<char>) -> TlsErrorView {
    match call {
        CallView::AddCertificate { .. } => TlsErrorView::InvalidCertificate(
            CertificateErrorView::BadEncoding,
        ),
        CallView::GetChain { .. } => if reply.res != 1 || reply.handle == 0 {
            TlsErrorView::General(text)
        } else {
            trust_verdict(reply.status)->Err_0
        },
        CallView::VerifyPolicy { .. } => if reply.res != 1 {
            TlsErrorView::General("TLS certificate verification was unavailable on the system!"@)
        } else {
            policy_verdict(reply.status, text)->Err_0
        },
        _ => TlsErrorView::General(text),
    }
}

/// A call that is answered badly decides the result: the verification ends with the
/// error of that call, whatever comes after it.
pub proof fn law_badly_answered_call_decides(request: RequestView, events: Seq<Event>, n: int)
    requires
        representable(request.now),
        0 <= n < events.len(),
        !answered_well(call_at(request, events, n), events[n].reply),
    ensures
        state_after(request, events).phase == PhaseView::Finished(
            Err(complaint(call_at(request, events, n), events[n].reply, events[n].text)),
        ),
    decreases events.len(),
{
    let earlier = events.drop_last();
    let before = state_after(request, earlier);
    law_every_reached_state_is_well_formed(request, earlier);
    lemma_last_event(request, events);
    law_verdict_by_flags(events[n].reply.status);
    if n < events.len() - 1 {
        lemma_prefix_calls(request, events, events.len() - 1, n);
        law_badly_answered_call_decides(request, earlier, n);
        lemma_step_decides(before, events.last().reply, events.last().text);
    }
}

/// The error that a request is refused with for what it holds, if it is. The parts
/// are looked at in the order in which the system is told of them.
pub open spec fn objection(request: RequestView) -> Option<TlsErrorView> {
    if (request.root matches Some(root) && root.len() > 0xffff_ffff) || request.primary.len()
        > 0xffff_ffff || (exists|k: int|
        0 <= k < request.intermediates.len() && (#[trigger] request.intermediates[k]).len()
            > 0xffff_ffff) {
        Some(TlsErrorView::InvalidCertificate(CertificateErrorView::BadEncoding))
    } else if request.ocsp matches Some(response) && response.len() > 0xffff_ffff {
        Some(
            TlsErrorView::InvalidCertificate(
                CertificateErrorView::Other(
                    OtherErrorView::Message(
                        "Malformed OCSP response stapled to server certificate"@,
                    ),
                ),
            ),
        )
    } else if request.now < 0 {
        Some(TlsErrorView::FailedToGetCurrentTime)
    } else {
        None
    }
}

/// While every call is answered well, only an objection to the request makes the
/// verification fail.
proof fn lemma_objection_decides(request: RequestView, events: Seq<Event>)
    requires
        representable(request.now),
        all_answered_well(request, events),
        has_failed(state_after(request, events)),
    ensures
        objection(request) == Some(state_after(request, events).phase->Finished_0->Err_0),
    decreases events.len(),
{
    let earlier = events.drop_last();
    let n = events.len() - 1;
    let before = state_after(request, earlier);
    law_every_reached_state_is_well_formed(request, earlier);
    lemma_last_event(request, events);
    lemma_step_decides(before, events.last().reply, events.last().text);
    assert forall|i: int| 0 <= i < earlier.len() implies answered_well(
        #[trigger] call_at(request, earlier, i),
        earlier[i].reply,
    ) by {
        lemma_prefix_calls(request, events, n, i);
        assert(answered_well(call_at(request, events, i), events[i].reply));
    }
    if has_failed(before) {
        lemma_objection_decides(request, earlier);
    } else {
        lemma_failed_iff(request, earlier);
        assert(answered_well(call_at(request, events, n), events[n].reply));
    }
}

/// A verification all of whose calls are answered well ends with the objection to the
/// request, if there is one, and accepts the certificate otherwise.
pub proof fn law_objection_decides_if_all_is_answered_well(
    request: RequestView,
    events: Seq<Event>,
)
    requires
        representable(request.now),
        state_after(request, events).call() is Done,
        all_answered_well(request, events),
    ensures
        match objection(request) {
            Some(error) => state_after(request, events).call() == CallView::Done(Err(error)),
            None => state_after(request, events).call()->Done_0 is Ok,
        },
{
    lemma_failed_iff(request, events);
    law_every_reached_state_is_well_formed(request, events);
    if has_failed(state_after(request, events)) {
        lemma_objection_decides(request, events);
    }
}

} // verus!
