//! Server names, as a client knows them and as Windows wants them.
use crate::error::{TlsError, TlsErrorView};
use vstd::prelude::*;
use vstd::utf8::{
    decode_utf8, encode_utf8, encode_utf8_decode_utf8, encode_utf8_valid_utf8, valid_utf8,
};

verus! {

/// How a client names the server that it connects to.
#[derive(Debug, Clone, PartialEq, Eq)]
pub enum ServerName {
    /// By a DNS name.
    DnsName(String),
    /// By an address, in its textual form.
    IpAddress(String),
    /// In any other way.
    Unsupported,
}

/// What a [`ServerName`] says, its text as a sequence of characters.
pub enum ServerNameView {
    DnsName(Seq<char>),
    IpAddress(Seq<char>),
    Unsupported,
}

impl View for ServerName {
    type V = ServerNameView;

    open spec fn view(&self) -> ServerNameView {
        match *self {
            ServerName::DnsName(name) => ServerNameView::DnsName(name@),
            ServerName::IpAddress(address) => ServerNameView::IpAddress(address@),
            ServerName::Unsupported => ServerNameView::Unsupported,
        }
    }
}

impl ServerNameView {
    /// The bytes by which the server is named to the system.
    pub open spec fn bytes(self) -> Result<Seq<u8>, TlsErrorView> {
        match self {
            ServerNameView::DnsName(name) => Ok(encode_utf8(name)),
            ServerNameView::IpAddress(address) => Ok(encode_utf8(address)),
            ServerNameView::Unsupported => Err(TlsErrorView::UnsupportedNameType),
        }
    }
}

impl ServerName {
    /// The bytes by which the server is named to the system.
    pub fn as_bytes(&self) -> (result: Result<&[u8], TlsError>)
        ensures
            match result {
                Ok(bytes) => self@.bytes() == Ok::<Seq<u8>, TlsErrorView>(bytes@),
                Err(error) => self@.bytes() == Err::<Seq<u8>, TlsErrorView>(error@),
            },
            match *self {
                ServerName::DnsName(name) => result is Ok && result->Ok_0@ == encode_utf8(name@),
                ServerName::IpAddress(address) => result is Ok && result->Ok_0@ == encode_utf8(
                    address@,
                ),
                ServerName::Unsupported => result == Err::<&[u8], TlsError>(
                    TlsError::UnsupportedNameType,
                ),
            },
    {
        match self {
            ServerName::DnsName(name) => Ok(name.as_str().as_bytes()),
            ServerName::IpAddress(address) => Ok(address.as_str().as_bytes()),
            ServerName::Unsupported => Err(TlsError::UnsupportedNameType),
        }
    }
}

/// A name as a null-terminated string of 16-bit units, one for each byte.
pub open spec fn null_terminated(server: Seq<u8>) -> Seq<u16> {
    server.map_values(|byte: u8| byte as u16).push(0)
}

/// The bytes of a string of 16-bit units, up to its terminator.
pub open spec fn up_to_null(units: Seq<u16>) -> Seq<u16>
    decreases units.len(),
{
    if units.len() == 0 || units[0] == 0 {
        Seq::empty()
    } else {
        seq![units[0]] + up_to_null(units.skip(1))
    }
}

/// Encodes a name as a null-terminated string of 16-bit units.
pub fn encode_server_name(server: &[u8]) -> (units: Vec<u16>)
    ensures
        units@ == null_terminated(server@),
        units@.len() == server@.len() + 1,
        forall|i: int| 0 <= i < server@.len() ==> (#[trigger] units@[i]) as int == server@[i] as int,
        units@.last() == 0,
{
    let mut units: Vec<u16> = Vec::new();
    for i in 0..server.len()
        invariant
            units@ == server@.take(i as int).map_values(|byte: u8| byte as u16),
    {
        units.push(server[i] as u16);
        assert(units@ =~= server@.take(i + 1).map_values(|byte: u8| byte as u16));
    }
    assert(server@.take(server@.len() as int) =~= server@);
    units.push(0);
    proof {
        law_each_byte_is_one_unit(server@);
    }
    units
}

/// The system reads back the very name that was encoded, provided that no byte
/// of it is zero: the terminator is then the first zero.
pub proof fn law_encoded_name_reads_back(server: Seq<u8>)
    requires
        !server.contains(0u8),
    ensures
        up_to_null(null_terminated(server)) == server.map_values(|byte: u8| byte as u16),
    decreases server.len(),
{
    let units = null_terminated(server);
    if server.len() == 0 {
        assert(units[0] == 0);
        assert(up_to_null(units) =~= server.map_values(|byte: u8| byte as u16));
    } else {
        let rest = server.skip(1);
        assert(server.contains(server[0]));
        assert forall|byte: u8| rest.contains(byte) implies server.contains(byte) by {
            let i = choose|i: int| 0 <= i < rest.len() && rest[i] == byte;
            assert(server[i + 1] == byte);
        }
        law_encoded_name_reads_back(rest);
        assert(units.skip(1) =~= null_terminated(rest));
        assert(up_to_null(units) =~= server.map_values(|byte: u8| byte as u16));
    }
}

/// Different names are encoded differently.
pub proof fn law_encoding_is_injective(left: Seq<u8>, right: Seq<u8>)
    requires
        null_terminated(left) == null_terminated(right),
    ensures
        left == right,
{
    assert(left.len() + 1 == null_terminated(left).len());
    assert(right.len() + 1 == null_terminated(right).len());
    assert forall|i: int| 0 <= i < left.len() implies left[i] == right[i] by {
        assert(null_terminated(left)[i] == left[i] as u16);
        assert(null_terminated(right)[i] == right[i] as u16);
    }
    assert(left =~= right);
}

/// A name is encoded byte by byte, each as one unit of the same value and in its place,
/// and one zero follows.
pub proof fn law_each_byte_is_one_unit(server: Seq<u8>)
    ensures
        null_terminated(server).len() == server.len() + 1,
        forall|i: int|
            0 <= i < server.len() ==> (#[trigger] null_terminated(server)[i]) as int
                == server[i] as int,
        null_terminated(server).last() == 0,
{
}

/// The server is named to the system by the UTF-8 encoding of the whole text that names
/// it, whether it is a DNS name or an address, so that the text can be read back; and it
/// is named at all unless it is named in some other way.
pub proof fn law_server_is_named_in_full(text: Seq<char>)
    ensures
        ServerNameView::DnsName(text).bytes() matches Ok(bytes) && valid_utf8(bytes) && decode_utf8(
            bytes,
        ) == text,
        ServerNameView::IpAddress(text).bytes() matches Ok(bytes) && valid_utf8(bytes)
            && decode_utf8(bytes) == text,
        ServerNameView::Unsupported.bytes() == Err::<Seq<u8>, TlsErrorView>(
            TlsErrorView::UnsupportedNameType,
        ),
{
    encode_utf8_valid_utf8(text);
    encode_utf8_decode_utf8(text);
}

/// A view is of the same kind as the name, with the same text.
pub proof fn law_view_keeps_the_name(name: ServerName)
    ensures
        match (name, name@) {
            (ServerName::DnsName(text), ServerNameView::DnsName(seen)) => text@ == seen,
            (ServerName::IpAddress(text), ServerNameView::IpAddress(seen)) => text@ == seen,
            (ServerName::Unsupported, ServerNameView::Unsupported) => true,
            _ => false,
        },
{
}

} // verus!
