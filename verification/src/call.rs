//! The calls that are made to the certificate engine, and its replies.
use crate::error::{outcome, TlsError, TlsErrorView};
use crate::time::FileTime;
use crate::wincrypt::{NULL, TRUE};
use vstd::prelude::*;

verus! {

/// A call to be made, with all its arguments. Handles are addresses.
#[derive(Debug)]
pub enum Call<'a> {
    /// `CertOpenStore`, without further parameters.
    OpenStore { provider: usize, encoding: u32, crypt_prov: usize, flags: u32 },
    /// `CertAddEncodedCertificateToStore`.
    AddCertificate {
        store: usize,
        encoding: u32,
        cert: &'a [u8],
        len: u32,
        disposition: u32,
    },
    /// `CertCreateCertificateChainEngine`, with a configuration that is zero but
    /// for these fields.
    CreateEngine { flags: u32, exclusive_root: usize },
    /// `CertSetCertificateContextProperty`, with a blob of data.
    SetProperty { certificate: usize, prop_id: u32, flags: u32, data: &'a [u8], len: u32 },
    /// `CertGetCertificateChain`, with parameters that are zero but for the
    /// requested usage.
    GetChain {
        engine: usize,
        certificate: usize,
        time: FileTime,
        store: usize,
        usage_type: u32,
        usages: Vec<&'static str>,
        flags: u32,
    },
    /// `CertVerifyCertificateChainPolicy`, with parameters that are zero but for
    /// these fields.
    VerifyPolicy {
        policy: usize,
        chain: usize,
        flags: u32,
        auth_type: u32,
        server_name: &'a [u16],
    },
    /// `CertFreeCertificateChain`.
    FreeChain { chain: usize },
    /// `CertFreeCertificateContext`.
    FreeCertificate { certificate: usize },
    /// `CertFreeCertificateChainEngine`.
    FreeEngine { engine: usize },
    /// `CertCloseStore`.
    CloseStore { store: usize, flags: u32 },
    /// No further call: the verification has come to this result.
    Done(&'a Result<(), TlsError>),
}

/// What a [`Call`] says, its buffers and texts as sequences.
pub enum CallView {
    OpenStore { provider: usize, encoding: u32, crypt_prov: usize, flags: u32 },
    AddCertificate { store: usize, encoding: u32, cert: Seq<u8>, len: u32, disposition: u32 },
    CreateEngine { flags: u32, exclusive_root: usize },
    SetProperty { certificate: usize, prop_id: u32, flags: u32, data: Seq<u8>, len: u32 },
    GetChain {
        engine: usize,
        certificate: usize,
        time: FileTime,
        store: usize,
        usage_type: u32,
        usages: Seq<Seq<char>>,
        flags: u32,
    },
    VerifyPolicy {
        policy: usize,
        chain: usize,
        flags: u32,
        auth_type: u32,
        server_name: Seq<u16>,
    },
    FreeChain { chain: usize },
    FreeCertificate { certificate: usize },
    FreeEngine { engine: usize },
    CloseStore { store: usize, flags: u32 },
    Done(Result<(), TlsErrorView>),
}

impl<'a> View for Call<'a> {
    type V = CallView;

    open spec fn view(&self) -> CallView {
        match *self {
            Call::OpenStore { provider, encoding, crypt_prov, flags } => CallView::OpenStore {
                provider,
                encoding,
                crypt_prov,
                flags,
            },
            Call::AddCertificate { store, encoding, cert, len, disposition } =>
                CallView::AddCertificate { store, encoding, cert: cert@, len, disposition },
            Call::CreateEngine { flags, exclusive_root } => CallView::CreateEngine {
                flags,
                exclusive_root,
            },
            Call::SetProperty { certificate, prop_id, flags, data, len } => CallView::SetProperty {
                certificate,
                prop_id,
                flags,
                data: data@,
                len,
            },
            Call::GetChain { engine, certificate, time, store, usage_type, usages, flags } =>
                CallView::GetChain {
                    engine,
                    certificate,
                    time,
                    store,
                    usage_type,
                    usages: usages@.map_values(|usage: &'static str| usage@),
                    flags,
                },
            Call::VerifyPolicy { policy, chain, flags, auth_type, server_name } =>
                CallView::VerifyPolicy {
                    policy,
                    chain,
                    flags,
                    auth_type,
                    server_name: server_name@,
                },
            Call::FreeChain { chain } => CallView::FreeChain { chain },
            Call::FreeCertificate { certificate } => CallView::FreeCertificate { certificate },
            Call::FreeEngine { engine } => CallView::FreeEngine { engine },
            Call::CloseStore { store, flags } => CallView::CloseStore { store, flags },
            Call::Done(result) => CallView::Done(outcome(*result)),
        }
    }
}

/// The reply to a call.
///
/// A call has only some of these fields to give; the others are not looked at.
#[derive(Debug, Clone, Copy, PartialEq, Eq, Structural)]
pub struct Reply {
    /// The `BOOL` that the call returned.
    pub res: i32,
    /// The handle that the call returned or wrote, null if it gave none.
    pub handle: usize,
    /// The error status: of the trust in the chain, for the call that builds one;
    /// of the policy, for the call that applies one.
    pub status: u32,
}

impl Reply {
    /// The call returned `TRUE`, not just any value but zero.
    pub open spec fn succeeded(self) -> bool {
        self.res == TRUE
    }

    /// The handle that the reply gives, unless it is null.
    pub open spec fn given(self) -> Option<usize> {
        if self.handle != NULL {
            Some(self.handle)
        } else {
            None
        }
    }

    /// The handle that the call made, if it succeeded and the handle is not null.
    pub open spec fn created(self) -> Option<usize> {
        if self.succeeded() {
            self.given()
        } else {
            None
        }
    }

    /// The handle that the reply gives, unless it is null.
    pub fn nonnull_handle(&self) -> (handle: Option<usize>)
        ensures
            handle == self.given(),
            self.handle != 0 ==> handle == Some(self.handle),
            self.handle == 0 ==> handle is None,
    {
        if self.handle != NULL {
            Some(self.handle)
        } else {
            None
        }
    }

    /// The handle that the call made, if it succeeded and the handle is not null.
    pub fn created_handle(&self) -> (handle: Option<usize>)
        ensures
            handle == self.created(),
            self.handle != 0 && self.res == 1 ==> handle == Some(self.handle),
            self.handle == 0 || self.res != 1 ==> handle is None,
    {
        match self.nonnull_handle() {
            Some(handle) => if self.res == TRUE {
                Some(handle)
            } else {
                None
            },
            None => None,
        }
    }
}

/// A reply succeeds only by `TRUE` itself, and gives a handle only if it is not null.
pub proof fn law_meaning_of_a_reply(reply: Reply)
    ensures
        reply.succeeded() <==> reply.res == 1,
        reply.given() == Some(reply.handle) <==> reply.handle != 0,
        reply.given() is None <==> reply.handle == 0,
        reply.created() == Some(reply.handle) <==> reply.handle != 0 && reply.res == 1,
        reply.created() is None <==> reply.handle == 0 || reply.res != 1,
{
}

/// A view has the arguments of the call, each under its name.
pub proof fn law_view_keeps_the_arguments(call: Call<'_>)
    ensures
        match (call, call@) {
            (
                Call::OpenStore { provider, encoding, crypt_prov, flags },
                CallView::OpenStore { provider: p, encoding: e, crypt_prov: c, flags: f },
            ) => provider == p && encoding == e && crypt_prov == c && flags == f,
            (
                Call::AddCertificate { store, encoding, cert, len, disposition },
                CallView::AddCertificate { store: s, encoding: e, cert: c, len: l, disposition: d },
            ) => store == s && encoding == e && cert@ == c && len == l && disposition == d,
            (
                Call::CreateEngine { flags, exclusive_root },
                CallView::CreateEngine { flags: f, exclusive_root: r },
            ) => flags == f && exclusive_root == r,
            (
                Call::SetProperty { certificate, prop_id, flags, data, len },
                CallView::SetProperty { certificate: c, prop_id: p, flags: f, data: d, len: l },
            ) => certificate == c && prop_id == p && flags == f && data@ == d && len == l,
            (
                Call::GetChain { engine, certificate, time, store, usage_type, usages, flags },
                CallView::GetChain {
                    engine: e,
                    certificate: c,
                    time: t,
                    store: s,
                    usage_type: u,
                    usages: names,
                    flags: f,
                },
            ) => {
                &&& engine == e && certificate == c && time == t && store == s
                &&& usage_type == u && flags == f
                &&& usages@.len() == names.len()
                &&& forall|i: int|
                    0 <= i < usages@.len() ==> (#[trigger] names[i]) == usages@[i]@
            },
            (
                Call::VerifyPolicy { policy, chain, flags, auth_type, server_name },
                CallView::VerifyPolicy {
                    policy: p,
                    chain: c,
                    flags: f,
                    auth_type: a,
                    server_name: n,
                },
            ) => policy == p && chain == c && flags == f && auth_type == a && server_name@ == n,
            (Call::FreeChain { chain }, CallView::FreeChain { chain: c }) => chain == c,
            (
                Call::FreeCertificate { certificate },
                CallView::FreeCertificate { certificate: c },
            ) => certificate == c,
            (Call::FreeEngine { engine }, CallView::FreeEngine { engine: e }) => engine == e,
            (
                Call::CloseStore { store, flags },
                CallView::CloseStore { store: s, flags: f },
            ) => store == s && flags == f,
            (Call::Done(result), CallView::Done(seen)) => match (*result, seen) {
                (Ok(_), Ok(_)) => true,
                (Err(error), Err(told)) => error@ == told,
                _ => false,
            },
            _ => false,
        },
{
}

} // verus!
