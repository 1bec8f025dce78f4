use core::task::Context;
use embassy_net::driver::{Capabilities, Driver, HardwareAddress, LinkState, RxToken, TxToken};
use embassy_net::{Stack, StackResources};
use salfa_gate::net_buf::{ArenaError, NetBuffer, TLS_BUFFER_BYTES};

/// A network device on which nothing ever arrives and nothing can be sent.
struct DeadLink;

struct NoFrame;

impl RxToken for NoFrame {
    fn consume<R, F>(self, f: F) -> R
    where
        F: FnOnce(&mut [u8]) -> R,
    {
        f(&mut [])
    }
}

impl TxToken for NoFrame {
    fn consume<R, F>(self, len: usize, f: F) -> R
    where
        F: FnOnce(&mut [u8]) -> R,
    {
        let mut frame = vec![0u8; len];
        f(&mut frame)
    }
}

impl Driver for DeadLink {
    type RxToken<'a>
        = NoFrame
    where
        Self: 'a;
    type TxToken<'a>
        = NoFrame
    where
        Self: 'a;

    fn receive(&mut self, _cx: &mut Context) -> Option<(NoFrame, NoFrame)> {
        None
    }

    fn transmit(&mut self, _cx: &mut Context) -> Option<NoFrame> {
        None
    }

    fn link_state(&mut self, _cx: &mut Context) -> LinkState {
        LinkState::Down
    }

    fn capabilities(&self) -> Capabilities {
        let mut capabilities = Capabilities::default();
        capabilities.max_transmission_unit = 1514;
        capabilities
    }

    fn hardware_address(&self) -> HardwareAddress {
        HardwareAddress::Ethernet([0x02, 0, 0, 0, 0, 0x01])
    }
}

fn idle_stack() -> Stack<'static> {
    let resources: &'static mut StackResources<4> = Box::leak(Box::new(StackResources::new()));
    let (stack, _runner) = embassy_net::new(
        DeadLink,
        embassy_net::Config::dhcpv4(Default::default()),
        resources,
        0x0123_4567_89ab_cdef,
    );
    stack
}

#[test]
fn new_arena_is_unconfigured_and_seeded() {
    let arena: NetBuffer<8, 1024, 1024> = NetBuffer::new(0xdead_beef, 0x0bad_f00d);
    assert!(!arena.is_configured());
    assert_eq!(arena.seed(), 0xdead_beef_0bad_f00d);
}

#[test]
fn footprint_of_the_default_arena() {
    assert_eq!(NetBuffer::<8, 1024, 1024>::footprint(), Some(6144 + 2 * 8 * 1024 + 1024));
    assert_eq!(NetBuffer::<8, 1024, 1024>::footprint(), Some(23552));
    assert_eq!(2 * TLS_BUFFER_BYTES, 6144);
}

#[test]
fn footprint_follows_the_parameters() {
    assert_eq!(NetBuffer::<0, 0, 0>::footprint(), Some(6144));
    assert_eq!(NetBuffer::<1, 1, 1>::footprint(), Some(6147));
    assert_eq!(NetBuffer::<4, 512, 2048>::footprint(), Some(6144 + 4096 + 2048));
}

#[test]
fn footprint_that_does_not_fit_is_none() {
    assert_eq!(NetBuffer::<{ usize::MAX }, 2, 0>::footprint(), None);
    assert_eq!(NetBuffer::<{ usize::MAX / 2 }, 1, 0>::footprint(), None);
    assert_eq!(NetBuffer::<0, 0, { usize::MAX }>::footprint(), None);
    assert_eq!(
        NetBuffer::<0, 0, { usize::MAX - 6144 }>::footprint(),
        Some(usize::MAX)
    );
}

#[test]
fn configure_lends_the_receive_buffer() {
    let stack = idle_stack();
    let mut arena: NetBuffer<2, 64, 128> = NetBuffer::new(1, 2);
    {
        let transport = arena.configure(stack);
        assert_eq!(transport.rx.len(), 128);
        assert!(transport.rx.iter().all(|byte| *byte == 0));
        transport.rx[0] = 0x48;
        transport.rx[127] = 0x0a;
    }
    assert!(arena.is_configured());
    assert_eq!(arena.seed(), 0x0000_0001_0000_0002);
}

#[test]
fn second_configuration_is_refused() {
    let stack = idle_stack();
    let mut arena: NetBuffer<2, 64, 128> = NetBuffer::new(7, 9);
    {
        let first = arena.try_configure(stack);
        let transport = match first {
            Ok(transport) => transport,
            Err(_) => panic!("the first configuration must succeed"),
        };
        transport.rx[3] = 0x7f;
    }
    assert!(arena.is_configured());
    for _ in 0..3 {
        let again = arena.try_configure(stack);
        assert!(matches!(again, Err(ArenaError::AlreadyConfigured)));
        assert!(arena.is_configured());
        assert_eq!(arena.seed(), 0x0000_0007_0000_0009);
    }
}
