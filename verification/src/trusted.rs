//! What this crate takes on trust: the types of the network stack and of the
//! HTTPS client that it handles, and the few of their functions that it calls.
//! Verus reads none of their bodies. Each item says what is claimed of it.

use embassy_net::dns::DnsSocket;
use embassy_net::tcp::client::{TcpClient, TcpClientState};
use embassy_net::{Stack, StackResources};
use reqwless::client::{TlsConfig, TlsVerify};
use vstd::prelude::*;
use vstd::string::*;
use vstd::utf8::valid_utf8;

verus! {

/// `embassy_net::tcp::client::TcpClientState`: the slots from which TCP
/// connections take their send and receive buffers. Opaque here.
#[verifier::external_type_specification]
#[verifier::external_body]
pub struct ExTcpClientState<const N: usize, const TX_SZ: usize, const RX_SZ: usize>(
    TcpClientState<N, TX_SZ, RX_SZ>,
);

/// `embassy_net::tcp::client::TcpClient`: opens TCP connections on a stack,
/// with buffers from a slot table. Opaque here.
#[verifier::external_type_specification]
#[verifier::external_body]
pub struct ExTcpClient<'d, const N: usize, const TX_SZ: usize, const RX_SZ: usize>(
    TcpClient<'d, N, TX_SZ, RX_SZ>,
);

/// `embassy_net::dns::DnsSocket`: resolves names on a stack. Opaque here.
#[verifier::external_type_specification]
#[verifier::external_body]
pub struct ExDnsSocket<'a>(DnsSocket<'a>);

/// `embassy_net::Stack`: a copyable handle to the network stack. Opaque here.
#[verifier::external_type_specification]
#[verifier::external_body]
pub struct ExStack<'d>(Stack<'d>);

/// `reqwless::client::TlsConfig`: seed, record buffers and verification mode
/// of a TLS session. Opaque here.
#[verifier::external_type_specification]
#[verifier::external_body]
pub struct ExTlsConfig<'a>(TlsConfig<'a>);

/// `reqwless::client::TlsVerify`: how the remote host is verified.
#[verifier::external_type_specification]
pub struct ExTlsVerify<'a>(TlsVerify<'a>);

/// `TcpClientState::new` makes a table with every slot free. Nothing is
/// claimed of the table.
pub assume_specification<const N: usize, const TX_SZ: usize, const RX_SZ: usize>[ TcpClientState::<N, TX_SZ, RX_SZ>::new ]() -> (state: TcpClientState<N, TX_SZ, RX_SZ>);

/// `TcpClient::new` stores the stack handle and the reference to the slot
/// table. Nothing is claimed of the client.
pub assume_specification<'d, const N: usize, const TX_SZ: usize, const RX_SZ: usize>[ TcpClient::<'d, N, TX_SZ, RX_SZ>::new ](
    stack: Stack<'d>,
    state: &'d TcpClientState<N, TX_SZ, RX_SZ>,
) -> (client: TcpClient<'d, N, TX_SZ, RX_SZ>);

/// `DnsSocket::new` stores the stack handle. Nothing is claimed of the socket.
pub assume_specification<'a>[ DnsSocket::<'a>::new ](stack: Stack<'a>) -> (socket: DnsSocket<'a>);

/// `TlsConfig::new` stores its four arguments. Nothing is claimed of the
/// configuration, nor of what a later session leaves in the two buffers.
pub assume_specification<'a>[ TlsConfig::<'a>::new ](
    seed: u64,
    read_buffer: &'a mut [u8],
    write_buffer: &'a mut [u8],
    verify: TlsVerify<'a>,
) -> (config: TlsConfig<'a>);

/// `embassy_net::Config`: how the stack gets its addresses. Opaque here.
#[verifier::external_type_specification]
#[verifier::external_body]
pub struct ExNetConfig(embassy_net::Config);

/// `embassy_net::StackResources`: the memory that a stack lives in. Opaque
/// here.
#[verifier::external_type_specification]
#[verifier::external_body]
pub struct ExStackResources<const SOCK: usize>(StackResources<SOCK>);

/// `StackResources::new` makes the memory for a stack, not yet in use.
/// Nothing is claimed of it.
pub assume_specification<const SOCK: usize>[ StackResources::<SOCK>::new ]() -> (resources:
    StackResources<SOCK>);

/// `embassy_net::Config::dhcpv4`, over an `embassy_net::DhcpConfig::default()`
/// whose host name was set to `hostname`. The host name is held in a string of
/// at most 32 bytes, and the conversion fails on a longer one: such a name is
/// left out. Nothing is claimed of the configuration.
#[verifier::external_body]
pub(crate) fn dhcpv4_announcing(hostname: &str) -> (network: embassy_net::Config)
    requires
        hostname.spec_bytes().len() <= 32,
{
    let mut dhcp = embassy_net::DhcpConfig::default();
    dhcp.hostname = Some(core::str::FromStr::from_str(hostname).unwrap());
    embassy_net::Config::dhcpv4(dhcp)
}

/// `reqwless::request::Method`: the method of an HTTP request.
#[verifier::external_type_specification]
pub struct ExMethod(reqwless::request::Method);

/// `core::str::Utf8Error`: why bytes are no UTF-8. Opaque here.
#[verifier::external_type_specification]
#[verifier::external_body]
pub struct ExUtf8Error(core::str::Utf8Error);

/// `core::str::from_utf8` checks that the bytes are valid UTF-8 and hands them
/// back as text: it succeeds on exactly the valid sequences, and the text is
/// made of the very bytes that were given.
pub assume_specification[ core::str::from_utf8 ](v: &[u8]) -> (text: Result<
    &str,
    core::str::Utf8Error,
>)
    ensures
        text is Ok <==> valid_utf8(v@),
        text matches Ok(decoded) ==> decoded.spec_bytes() == v@,
;

} // verus!
