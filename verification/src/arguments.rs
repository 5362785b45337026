//! What each call asks for, in terms of what is to be verified.
//!
//! In all of these laws the verification is started from a root (the only one to trust, if
//! there is one), the server's certificate, the intermediate certificates, the server's
//! name, the OCSP response and the current time, and may have had any replies.
use crate::call::{CallView, Reply};
use crate::course::{
    call_at, law_every_reached_state_is_well_formed, lemma_failed_iff, state_after, Event,
};
use crate::name::{law_each_byte_is_one_unit, ServerNameView};
use crate::os::TextSource;
use crate::policy::law_description_is_of_the_status;
use crate::session::{names, request_of, RequestView};
use crate::store::{lemma_flag_values, CertChain, Certificate, CertificateStore};
use crate::time::{
    denotes, law_denoted_time_is_exact, law_file_time_denotes_the_time, representable,
};
use crate::verdict::{grounds, law_accepted_only_on_grounds, policy_passed, response_attached};
use crate::windows::stapled;
use vstd::prelude::*;
use vstd::utf8::encode_utf8;

verus! {

/// The chain is asked for as of the current time: the file time in the call and `now` are
/// less than one tick apart, both counted from the Windows epoch. A time before the Unix
/// epoch is never asked for.
pub proof fn law_chain_is_as_of_now(
    root: Option<Seq<u8>>,
    primary: Seq<u8>,
    intermediates: Seq<Seq<u8>>,
    server: Seq<u8>,
    ocsp: Option<Seq<u8>>,
    now: i128,
    events: Seq<Event>,
)
    requires
        representable(now),
    ensures
        state_after(
            request_of(root, primary, intermediates, server, ocsp, now),
            events,
        ).call() matches CallView::GetChain { time, .. } ==> {
            &&& now >= 0
            &&& denotes(time, now as int)
            &&& now + 11_644_473_600_000_000_000 < 100 * 0x1_0000_0000_0000_0000 ==> 0 <= now
                + 11_644_473_600_000_000_000 - 100 * (time.high * 0x1_0000_0000 + time.low) < 100
        },
{
    let request = request_of(root, primary, intermediates, server, ocsp, now);
    law_every_reached_state_is_well_formed(request, events);
    law_file_time_denotes_the_time(now);
    if let CallView::GetChain { time, .. } = state_after(request, events).call() {
        if now + 11_644_473_600_000_000_000 < 100 * 0x1_0000_0000_0000_0000 {
            law_denoted_time_is_exact(time, now);
        }
    }
}

/// The chain is asked for server authentication, all of it required, with revocation
/// looked up in the cache for the whole chain but its root; and by the engine of the
/// system exactly when no root is given.
pub proof fn law_chain_is_for_server_authentication(
    root: Option<Seq<u8>>,
    primary: Seq<u8>,
    intermediates: Seq<Seq<u8>>,
    server: Seq<u8>,
    ocsp: Option<Seq<u8>>,
    now: i128,
    events: Seq<Event>,
)
    requires
        representable(now),
    ensures
        state_after(
            request_of(root, primary, intermediates, server, ocsp, now),
            events,
        ).call() matches CallView::GetChain { engine, usage_type, usages, flags, .. } ==> {
            &&& usage_type == 0
            &&& usages.len() == 1
            &&& usages[0] == "1.3.6.1.5.5.7.3.1"@
            &&& flags == 0xC000_0001
            &&& engine == 0 <==> root is None
        },
{
    law_every_reached_state_is_well_formed(
        request_of(root, primary, intermediates, server, ocsp, now),
        events,
    );
    lemma_flag_values();
}

/// The chain is held against the policy of TLS, as that of a server, with nothing ignored
/// but an unknown revocation status, and under the very name of the server, whatever the
/// name.
pub proof fn law_policy_is_that_of_tls_for_the_server(
    root: Option<Seq<u8>>,
    primary: Seq<u8>,
    intermediates: Seq<Seq<u8>>,
    server: Seq<u8>,
    ocsp: Option<Seq<u8>>,
    now: i128,
    events: Seq<Event>,
)
    requires
        representable(now),
    ensures
        state_after(
            request_of(root, primary, intermediates, server, ocsp, now),
            events,
        ).call() matches CallView::VerifyPolicy { policy, flags, auth_type, server_name, .. } ==> {
            &&& policy == 4
            &&& auth_type == 2
            &&& flags == 0xF00
            &&& names(server_name, server)
        },
{
    law_every_reached_state_is_well_formed(
        request_of(root, primary, intermediates, server, ocsp, now),
        events,
    );
    lemma_flag_values();
    law_each_byte_is_one_unit(server);
}

/// A server that is named by a text, be it a DNS name or an address, is held against the
/// policy under the UTF-8 bytes of the whole text.
pub proof fn law_policy_is_given_the_whole_name(
    name: ServerNameView,
    root: Option<Seq<u8>>,
    primary: Seq<u8>,
    intermediates: Seq<Seq<u8>>,
    ocsp: Option<Seq<u8>>,
    now: i128,
    events: Seq<Event>,
)
    requires
        representable(now),
        name.bytes() is Ok,
    ensures
        match (
            name,
            state_after(
                request_of(root, primary, intermediates, name.bytes()->Ok_0, ocsp, now),
                events,
            ).call(),
        ) {
            (ServerNameView::DnsName(text), CallView::VerifyPolicy { server_name, .. }) => names(
                server_name,
                encode_utf8(text),
            ),
            (ServerNameView::IpAddress(text), CallView::VerifyPolicy { server_name, .. }) => names(
                server_name,
                encode_utf8(text),
            ),
            (ServerNameView::Unsupported, _) => false,
            _ => true,
        },
{
    law_policy_is_that_of_tls_for_the_server(
        root,
        primary,
        intermediates,
        name.bytes()->Ok_0,
        ocsp,
        now,
        events,
    );
}

/// The arguments of the calls that open stores, add certificates, make an engine and
/// attach a response.
pub proof fn law_objects_are_made_as_documented(
    root: Option<Seq<u8>>,
    primary: Seq<u8>,
    intermediates: Seq<Seq<u8>>,
    server: Seq<u8>,
    ocsp: Option<Seq<u8>>,
    now: i128,
    events: Seq<Event>,
)
    requires
        representable(now),
    ensures
        match state_after(
            request_of(root, primary, intermediates, server, ocsp, now),
            events,
        ).call() {
            CallView::OpenStore { provider, encoding, crypt_prov, flags } => provider == 2
                && encoding == 0 && crypt_prov == 0 && flags == 4,
            CallView::AddCertificate { encoding, cert, len, disposition, .. } => encoding == 1
                && disposition == 4 && len == cert.len() && (root == Some(cert) || cert == primary
                || intermediates.contains(cert)),
            CallView::CreateEngine { flags, .. } => flags == 0x14 && root is Some,
            CallView::SetProperty { prop_id, flags, data, len, .. } => prop_id == 70 && flags
                == 0x8000_0000 && ocsp == Some(data) && len == data.len(),
            CallView::CloseStore { flags, .. } => flags == 0,
            _ => true,
        },
{
    law_every_reached_state_is_well_formed(
        request_of(root, primary, intermediates, server, ocsp, now),
        events,
    );
    lemma_flag_values();
}

/// A response that a server stapled to its certificate is attached to it, all of it,
/// whatever its length: no certificate is accepted without. Nothing is attached where
/// nothing was stapled.
pub proof fn law_stapled_response_is_attached(
    root: Option<Seq<u8>>,
    primary: Seq<u8>,
    intermediates: Seq<Seq<u8>>,
    server: Seq<u8>,
    ocsp_response: Seq<u8>,
    now: i128,
    events: Seq<Event>,
)
    requires
        representable(now),
    ensures
        ({
            let request = request_of(
                root,
                primary,
                intermediates,
                server,
                stapled(ocsp_response),
                now,
            );
            let state = state_after(request, events);
            &&& ocsp_response.len() > 0 && state.phase is Finished && state.phase->Finished_0 is Ok
                ==> exists|i: int|
                {
                    &&& 0 <= i < events.len()
                    &&& (#[trigger] call_at(request, events, i)) matches CallView::SetProperty {
                        prop_id,
                        data,
                        len,
                        ..
                    } && prop_id == 70 && data == ocsp_response && len == ocsp_response.len()
                    &&& events[i].reply.res == 1
                }
            &&& ocsp_response.len() == 0 ==> !(state.call() is SetProperty)
            &&& state.call() matches CallView::SetProperty { data, .. } ==> data == ocsp_response
        }),
{
    let request = request_of(root, primary, intermediates, server, stapled(ocsp_response), now);
    let state = state_after(request, events);
    law_every_reached_state_is_well_formed(request, events);
    if ocsp_response.len() > 0 && state.phase is Finished && state.phase->Finished_0 is Ok {
        law_accepted_only_on_grounds(request, events);
        lemma_failed_iff(request, events);
        let (store, certificate, chain, v) = choose|
            store: CertificateStore,
            certificate: Certificate,
            chain: CertChain,
            v: int,
        |
            #[trigger] grounds(request, events, store, certificate, chain)
                && #[trigger] policy_passed(request, events, v, chain);
        let i = choose|i: int|
            #[trigger] response_attached(request, events, i, certificate, ocsp_response);
        assert(call_at(request, events, i) is SetProperty);
    }
}

/// Where an error quotes the system, it quotes what belongs there: the last error, for a
/// call that did not give what it was asked for; the description of the very status, for a
/// policy status that has no error of its own; and nothing otherwise.
pub proof fn law_right_text_is_quoted(request: RequestView, events: Seq<Event>, reply: Reply)
    requires
        representable(request.now),
    ensures
        match (
            state_after(request, events).call(),
            state_after(request, events).text_source(reply),
        ) {
            (CallView::OpenStore { .. }, source) => source == if reply.handle == 0 {
                TextSource::LastError
            } else {
                TextSource::Nothing
            },
            (CallView::CreateEngine { .. }, source) => source == if reply.res == 1 && reply.handle
                != 0 {
                TextSource::Nothing
            } else {
                TextSource::LastError
            },
            (CallView::GetChain { .. }, source) => source == if reply.res == 1 && reply.handle
                != 0 {
                TextSource::Nothing
            } else {
                TextSource::LastError
            },
            (CallView::SetProperty { .. }, source) => source == if reply.res == 1 {
                TextSource::Nothing
            } else {
                TextSource::LastError
            },
            (CallView::VerifyPolicy { .. }, TextSource::Code(code)) => reply.res == 1 && (code
                - reply.status) % 0x1_0000_0000 == 0 && reply.status != 0 && reply.status
                != 0x800B_010F && reply.status != 0x800B_0114 && reply.status != 0x8009_2010,
            (CallView::VerifyPolicy { .. }, TextSource::Nothing) => reply.res != 1 || reply.status
                == 0 || reply.status == 0x800B_010F || reply.status == 0x800B_0114 || reply.status
                == 0x8009_2010,
            (_, source) => source is Nothing,
        },
{
    law_every_reached_state_is_well_formed(request, events);
    law_description_is_of_the_status(reply.status);
}

} // verus!
