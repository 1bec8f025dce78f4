//! Start-up: the scheduler's tiers, and the checks and values from which the
//! wireless link and the network stack are brought up.

use crate::config::{Settings, HOSTNAME_MAX_BYTES, PSK_MAX_BYTES, SSID_MAX_BYTES};
use crate::trusted::dhcpv4_announcing;
use embassy_net::StackResources;
use vstd::prelude::*;
use vstd::string::*;

verus! {

/// Bytes of heap claimed at start-up. Nothing claims more later.
pub const HEAP_BYTES: usize = 72 * 1024;

/// Sockets that the network stack has room for.
pub const STACK_SOCKETS: usize = 8;

/// One of the scheduler's three levels. Tasks of one tier take turns; a task
/// of a higher tier is served before one of a lower tier.
#[derive(Clone, Copy, Debug, PartialEq, Eq, Structural)]
pub enum Tier {
    Low,
    Mid,
    High,
}

/// The software interrupt that drives a tier's executor, and the hardware
/// priority at which that interrupt runs.
#[derive(Clone, Copy, Debug, PartialEq, Eq, Structural)]
pub struct TierBinding {
    pub tier: Tier,
    pub software_interrupt: u8,
    pub priority: u8,
}

/// What start-up sets the scheduler up with.
#[derive(Clone, Copy, Debug)]
pub struct SchedulerPlan {
    /// Bytes of heap to claim, once.
    pub heap_bytes: usize,
    /// The three tiers, lowest first.
    pub tiers: [TierBinding; 3],
}

/// Position of `tier` among the tiers, lowest first.
pub open spec fn rank(tier: Tier) -> nat {
    match tier {
        Tier::Low => 0,
        Tier::Mid => 1,
        Tier::High => 2,
    }
}

/// Tier `k` is driven by software interrupt `k` at priority `k + 1`.
pub open spec fn binding_of(tier: Tier) -> TierBinding {
    TierBinding {
        tier,
        software_interrupt: rank(tier) as u8,
        priority: (rank(tier) + 1) as u8,
    }
}

/// The binding of `tier`.
pub fn binding(tier: Tier) -> (bound: TierBinding)
    ensures
        bound == binding_of(tier),
{
    match tier {
        Tier::Low => TierBinding { tier, software_interrupt: 0, priority: 1 },
        Tier::Mid => TierBinding { tier, software_interrupt: 1, priority: 2 },
        Tier::High => TierBinding { tier, software_interrupt: 2, priority: 3 },
    }
}

/// The scheduler's set-up: the heap to claim, and the three tiers with their
/// interrupts and priorities, lowest first.
pub fn ispa_init() -> (plan: SchedulerPlan)
    ensures
        plan.heap_bytes == HEAP_BYTES,
        plan.tiers@ == seq![binding_of(Tier::Low), binding_of(Tier::Mid), binding_of(Tier::High)],
{
    SchedulerPlan {
        heap_bytes: HEAP_BYTES,
        tiers: [binding(Tier::Low), binding(Tier::Mid), binding(Tier::High)],
    }
}

/// Tiers are strictly ordered by priority and no two share an interrupt or a
/// priority.
pub proof fn lemma_tiers_strictly_ordered(lower: Tier, higher: Tier)
    ensures
        rank(lower) < rank(higher) <==> binding_of(lower).priority < binding_of(higher).priority,
        lower != higher ==> binding_of(lower).software_interrupt != binding_of(
            higher,
        ).software_interrupt,
        lower != higher ==> binding_of(lower).priority != binding_of(higher).priority,
{
}

/// A setting that is too long for the field it goes into.
#[derive(Clone, Copy, Debug, PartialEq, Eq, Structural)]
pub enum ConfigError {
    /// The network name holds more than 32 bytes.
    SsidTooLong,
    /// The pre-shared key holds more than 64 bytes.
    PskTooLong,
    /// The host name holds more than 32 bytes.
    HostnameTooLong,
}

impl ConfigError {
    /// The error in words.
    pub fn message(&self) -> (text: &'static str)
        ensures
            text@ == match *self {
                ConfigError::SsidTooLong => "WIFI SSID name too long: [>32]"@,
                ConfigError::PskTooLong => "WIFI password too long: [>64]"@,
                ConfigError::HostnameTooLong => "DHCPv4 hostname too long: [>32]"@,
            },
    {
        match self {
            ConfigError::SsidTooLong => "WIFI SSID name too long: [>32]",
            ConfigError::PskTooLong => "WIFI password too long: [>64]",
            ConfigError::HostnameTooLong => "DHCPv4 hostname too long: [>32]",
        }
    }
}

/// The first setting of `config` that is over its limit, in the order
/// network name, key, host name; `None` where all three fit.
pub open spec fn first_oversize(config: Settings) -> Option<ConfigError> {
    if config.wifi_ssid.spec_bytes().len() > SSID_MAX_BYTES {
        Some(ConfigError::SsidTooLong)
    } else if config.wifi_psk.spec_bytes().len() > PSK_MAX_BYTES {
        Some(ConfigError::PskTooLong)
    } else if config.hostname.spec_bytes().len() > HOSTNAME_MAX_BYTES {
        Some(ConfigError::HostnameTooLong)
    } else {
        None
    }
}

/// A setting over its limit is always refused: start-up gets its plan on
/// exactly the settings whose network name, key and host name all fit.
pub proof fn lemma_oversize_is_refused(config: Settings)
    ensures
        first_oversize(config) is Some <==> {
            ||| config.wifi_ssid.spec_bytes().len() > SSID_MAX_BYTES
            ||| config.wifi_psk.spec_bytes().len() > PSK_MAX_BYTES
            ||| config.hostname.spec_bytes().len() > HOSTNAME_MAX_BYTES
        },
{
}

/// The number of bytes that `text` holds.
fn byte_len(text: &str) -> (bytes: usize)
    ensures
        bytes == text.spec_bytes().len(),
{
    broadcast use vstd::slice::axiom_spec_len;

    text.as_bytes().len()
}

/// A network name, a key and a host name that fit their fields.
#[derive(Clone, Copy, Debug)]
pub struct Credentials {
    ssid: &'static str,
    password: &'static str,
    hostname: &'static str,
}

impl Credentials {
    #[verifier::type_invariant]
    spec fn within_limits(self) -> bool {
        &&& self.ssid.spec_bytes().len() <= SSID_MAX_BYTES
        &&& self.password.spec_bytes().len() <= PSK_MAX_BYTES
        &&& self.hostname.spec_bytes().len() <= HOSTNAME_MAX_BYTES
    }

    /// The network name.
    pub closed spec fn spec_ssid(&self) -> Seq<char> {
        self.ssid@
    }

    /// The pre-shared key.
    pub closed spec fn spec_password(&self) -> Seq<char> {
        self.password@
    }

    /// The host name.
    pub closed spec fn spec_hostname(&self) -> Seq<char> {
        self.hostname@
    }

    /// The network name, of at most 32 bytes.
    pub fn ssid(&self) -> (ssid: &'static str)
        ensures
            ssid@ == self.spec_ssid(),
            ssid.spec_bytes().len() <= SSID_MAX_BYTES,
    {
        proof {
            use_type_invariant(self);
        }
        self.ssid
    }

    /// The pre-shared key, of at most 64 bytes.
    pub fn password(&self) -> (password: &'static str)
        ensures
            password@ == self.spec_password(),
            password.spec_bytes().len() <= PSK_MAX_BYTES,
    {
        proof {
            use_type_invariant(self);
        }
        self.password
    }

    /// The host name, of at most 32 bytes.
    pub fn hostname(&self) -> (hostname: &'static str)
        ensures
            hostname@ == self.spec_hostname(),
            hostname.spec_bytes().len() <= HOSTNAME_MAX_BYTES,
    {
        proof {
            use_type_invariant(self);
        }
        self.hostname
    }
}

/// What the wireless link and the network stack are brought up with.
pub struct WifiPlan {
    /// What the controller joins the network with.
    pub credentials: Credentials,
    /// Addressing by DHCP, announcing the host name.
    pub network: embassy_net::Config,
    /// The memory for the stack.
    pub resources: StackResources<STACK_SOCKETS>,
}

/// Checks the settings and prepares what the link and the stack are brought
/// up with. A setting over its limit is an error, the first in the order
/// network name, key, host name; nothing is prepared then.
pub fn wifi_init(config: &Settings) -> (plan: Result<WifiPlan, ConfigError>)
    ensures
        match plan {
            Ok(plan) => {
                &&& first_oversize(*config) is None
                &&& plan.credentials.spec_ssid() == config.wifi_ssid@
                &&& plan.credentials.spec_password() == config.wifi_psk@
                &&& plan.credentials.spec_hostname() == config.hostname@
            },
            Err(error) => first_oversize(*config) == Some(error),
        },
{
    if byte_len(config.wifi_ssid) > SSID_MAX_BYTES {
        return Err(ConfigError::SsidTooLong);
    }
    if byte_len(config.wifi_psk) > PSK_MAX_BYTES {
        return Err(ConfigError::PskTooLong);
    }
    if byte_len(config.hostname) > HOSTNAME_MAX_BYTES {
        return Err(ConfigError::HostnameTooLong);
    }
    let credentials = Credentials {
        ssid: config.wifi_ssid,
        password: config.wifi_psk,
        hostname: config.hostname,
    };
    Ok(
        WifiPlan {
            credentials,
            network: dhcpv4_announcing(config.hostname),
            resources: StackResources::new(),
        },
    )
}

} // verus!
