//! A statically sized arena of network buffers.
//!
//! One arena owns every buffer that an HTTPS client needs: the two TLS record
//! buffers, the table of TCP client slots and the buffer into which a response
//! is received. All of them are sized by the type's parameters and allocated
//! when the arena is made. The arena is configured once: configuring it binds
//! the buffers to a network stack and lends them out as a [`Transport`].

use crate::seed::{compose_seed, seed_of};
use embassy_net::dns::DnsSocket;
use embassy_net::tcp::client::{TcpClient, TcpClientState};
use embassy_net::Stack;
use reqwless::client::{TlsConfig, TlsVerify};
use vstd::prelude::*;

verus! {

/// Bytes in each of the two TLS record buffers.
pub const TLS_BUFFER_BYTES: usize = 3072;

/// Total bytes of buffer in an arena of `n` TCP slots of `size` bytes in each
/// direction and a receive buffer of `rx` bytes.
pub open spec fn footprint_of(n: nat, size: nat, rx: nat) -> nat {
    2 * TLS_BUFFER_BYTES as nat + 2 * n * size + rx
}

/// Why an arena refused to be configured.
#[derive(Clone, Copy, Debug, PartialEq, Eq, Structural)]
pub enum ArenaError {
    /// The arena has been configured before.
    AlreadyConfigured,
}

/// What can be observed of an arena.
pub struct ArenaState {
    /// Seed handed to the TLS layer.
    pub seed: u64,
    /// Contents of the buffer that TLS reads into.
    pub tls_read: Seq<u8>,
    /// Contents of the buffer that TLS writes from.
    pub tls_write: Seq<u8>,
    /// Contents of the buffer that a response is received into.
    pub rx: Seq<u8>,
    /// Whether the arena has been configured.
    pub configured: bool,
}

/// A first configuration: it takes an unconfigured arena to a configured one
/// and keeps the seed.
pub open spec fn configures(before: ArenaState, after: ArenaState) -> bool {
    !before.configured && after.configured && after.seed == before.seed
}

/// One attempt to configure an arena. On a configured arena nothing is lent
/// and nothing changes; on an unconfigured one the attempt configures it.
pub open spec fn attempts(before: ArenaState, after: ArenaState, lent: bool) -> bool {
    if before.configured {
        !lent && after == before
    } else {
        lent && configures(before, after)
    }
}

/// The buffers for `N` concurrent TCP clients of `SIZE` bytes in each
/// direction, two TLS record buffers and a receive buffer of `RX` bytes.
pub struct NetBuffer<const N: usize, const SIZE: usize, const RX: usize> {
    tls_seed: u64,
    tls_read_buffer: [u8; TLS_BUFFER_BYTES],
    tls_write_buffer: [u8; TLS_BUFFER_BYTES],
    tcp_state: TcpClientState<N, SIZE, SIZE>,
    http_rxbuf: [u8; RX],
    configured: bool,
}

/// What a configured arena lends out: all that an HTTPS client is built from,
/// and the buffer to hand to each request.
pub struct Transport<'t, const N: usize, const SIZE: usize> {
    /// TLS settings over the arena's seed and record buffers.
    pub tls: TlsConfig<'t>,
    /// TCP client over the arena's slot table.
    pub tcp: TcpClient<'t, N, SIZE, SIZE>,
    /// Name resolver on the same stack.
    pub dns: DnsSocket<'t>,
    /// The arena's receive buffer.
    pub rx: &'t mut [u8],
}

impl<const N: usize, const SIZE: usize, const RX: usize> View for NetBuffer<N, SIZE, RX> {
    type V = ArenaState;

    closed spec fn view(&self) -> ArenaState {
        ArenaState {
            seed: self.tls_seed,
            tls_read: self.tls_read_buffer@,
            tls_write: self.tls_write_buffer@,
            rx: self.http_rxbuf@,
            configured: self.configured,
        }
    }
}

impl<const N: usize, const SIZE: usize, const RX: usize> NetBuffer<N, SIZE, RX> {
    /// Makes an unconfigured arena with every buffer zeroed. Its seed joins
    /// two 32-bit random draws, the first in the upper half.
    pub fn new(first_draw: u32, second_draw: u32) -> (arena: Self)
        ensures
            !arena@.configured,
            arena@.seed as int == seed_of(first_draw, second_draw),
            arena@.tls_read == Seq::new(TLS_BUFFER_BYTES as nat, |i: int| 0u8),
            arena@.tls_write == Seq::new(TLS_BUFFER_BYTES as nat, |i: int| 0u8),
            arena@.rx == Seq::new(RX as nat, |i: int| 0u8),
    {
        broadcast use vstd::array::group_array_axioms;

        NetBuffer {
            tls_seed: compose_seed(first_draw, second_draw),
            tls_read_buffer: [0u8; TLS_BUFFER_BYTES],
            tls_write_buffer: [0u8; TLS_BUFFER_BYTES],
            tcp_state: TcpClientState::new(),
            http_rxbuf: [0u8; RX],
            configured: false,
        }
    }

    /// Binds the buffers to `stack` and lends them out. The arena must not
    /// have been configured before.
    pub fn configure<'t>(&'t mut self, stack: Stack<'t>) -> (out: Transport<'t, N, SIZE>)
        requires
            !old(self)@.configured,
        ensures
            configures(old(self)@, final(self)@),
            out.rx@ == old(self)@.rx,
            final(self)@.rx == final(out.rx)@,
    {
        self.configured = true;
        let tls = TlsConfig::new(
            self.tls_seed,
            &mut self.tls_read_buffer,
            &mut self.tls_write_buffer,
            TlsVerify::None,
        );
        Transport {
            tls,
            tcp: TcpClient::new(stack, &self.tcp_state),
            dns: DnsSocket::new(stack),
            rx: &mut self.http_rxbuf,
        }
    }

    /// Configures the arena if it has not been configured before, and refuses
    /// otherwise, leaving the arena as it was.
    pub fn try_configure<'t>(&'t mut self, stack: Stack<'t>) -> (out: Result<
        Transport<'t, N, SIZE>,
        ArenaError,
    >)
        ensures
            attempts(old(self)@, final(self)@, out is Ok),
            out matches Err(e) ==> e == ArenaError::AlreadyConfigured && *final(self) == *old(self),
            out matches Ok(lent) ==> lent.rx@ == old(self)@.rx && final(self)@.rx == final(lent.rx)@,
    {
        if self.configured {
            Err(ArenaError::AlreadyConfigured)
        } else {
            Ok(self.configure(stack))
        }
    }

    /// Whether the arena has been configured.
    pub fn is_configured(&self) -> (configured: bool)
        ensures
            configured == self@.configured,
    {
        self.configured
    }

    /// The seed handed to the TLS layer.
    pub fn seed(&self) -> (seed: u64)
        ensures
            seed == self@.seed,
    {
        self.tls_seed
    }

    /// Total bytes of buffer that one arena of this type commits: a function
    /// of the type's parameters alone. `None` where the sum does not fit the
    /// machine's word.
    pub fn footprint() -> (bytes: Option<usize>)
        ensures
            bytes is Some <==> footprint_of(N as nat, SIZE as nat, RX as nat) <= usize::MAX,
            bytes matches Some(total) ==> total == footprint_of(N as nat, SIZE as nat, RX as nat),
    {
        let tcp_state = match N.checked_mul(SIZE) {
            Some(one_way) => one_way.checked_mul(2),
            None => None,
        };
        assert(2 * N * SIZE == (N * SIZE) * 2) by (nonlinear_arith);
        assert(N * SIZE >= 0) by (nonlinear_arith);
        match tcp_state {
            Some(table) => match table.checked_add(2 * TLS_BUFFER_BYTES) {
                Some(fixed) => fixed.checked_add(RX),
                None => None,
            },
            None => None,
        }
    }
}

/// An arena is configured once. Let `states[0]` be an arena as any
/// configuration left it, and let each later state come from the one before it
/// by one more attempt: then every one of those attempts is refused, and the
/// arena never changes again.
pub proof fn lemma_configured_once(states: Seq<ArenaState>, lent: Seq<bool>)
    requires
        states.len() == lent.len() + 1,
        states[0].configured,
        forall|i: int| 0 <= i < lent.len() ==> attempts(states[i], #[trigger] states[i + 1], lent[i]),
    ensures
        forall|i: int| 0 <= i < lent.len() ==> !#[trigger] lent[i] && states[i + 1] == states[0],
    decreases lent.len(),
{
    if lent.len() > 0 {
        let last = lent.len() - 1;
        let earlier = states.drop_last();
        lemma_configured_once(earlier, lent.drop_last());
        assert(earlier[0] == states[0]);
        assert(states[last] == states[0]) by {
            if last > 0 {
                assert(!lent.drop_last()[last - 1]);
                assert(earlier[last] == states[last]);
            }
        }
        assert(attempts(states[last], states[last + 1], lent[last]));
        assert forall|i: int| 0 <= i < lent.len() implies !#[trigger] lent[i] && states[i + 1]
            == states[0] by {
            if i < last {
                assert(!lent.drop_last()[i]);
                assert(earlier[i + 1] == states[i + 1]);
            }
        }
    }
}

} // verus!
