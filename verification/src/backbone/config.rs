//! How Backbone interfaces are set up, and which addresses they use.
use vstd::prelude::*;
use vstd::string::*;
use crate::backbone::flap::FastFlapPolicy;
use crate::interface::{
    InterfaceDirection, InterfaceId, InterfaceMode, InterfaceProfile, SECOND,
};
use crate::text::{
    contains_char, decimal, decimal_text, has_prefix, join2, join3,
    numeral_stands_for_its_number, numeral_value, prefix_and_rest_make_the_text, starts_with,
};

verus! {

/// The largest packet of a link, and the size of its socket buffers.
pub const HW_MTU: u32 = 1_048_576;

/// The bitrate that a listener advertises.
pub const BITRATE_GUESS: u64 = 1_000_000_000;

/// The bitrate that a link advertises.
pub const CHILD_BITRATE_GUESS: u64 = 100_000_000;

/// The packet size that suits a link of the advertised bitrate.
pub const CHILD_OPTIMISED_MTU: u32 = 65_536;

/// The packet size of the network.
pub const NETWORK_MTU: u32 = 500;

/// Seconds between two tries to connect.
pub const RECONNECT_WAIT: u64 = 5;

/// Seconds that a try to connect may take.
pub const INITIAL_CONNECT_TIMEOUT: u64 = 5;

/// Seconds of silence before a link is probed.
pub const TCP_PROBE_AFTER: u32 = 5;

/// Seconds between two probes.
pub const TCP_PROBE_INTERVAL: u32 = 2;

/// Probes without an answer before a link is given up.
pub const TCP_PROBES: u32 = 12;

/// Seconds before a link with unanswered data is given up.
pub const TCP_USER_TIMEOUT: u32 = 24;

pub const BLOCK_FAST_FLAPPING: bool = true;

/// A shorter connection counts as a flap, in nanoseconds.
pub const FAST_FLAPPING_THRESHOLD: u128 = 20_000_000_000;

/// How many flaps are tolerated.
pub const FAST_FLAPPING_GRACE: u64 = 5;

/// How long a flap counts, in nanoseconds.
pub const FAST_FLAPPING_BLOCK_TIME: u128 = 43_200_000_000_000;

/// How many packets may wait for a link.
pub const TX_CHANNEL_DEPTH: usize = 1024;

/// How long a listener waits after it failed to accept, in nanoseconds.
pub const ACCEPT_RETRY_WAIT: u128 = 100_000_000;

/// How a Backbone server is set up. Durations are in nanoseconds.
#[derive(Clone, Debug)]
pub struct BackboneServerConfig {
    pub name: String,
    pub listen_ip: String,
    pub listen_port: u16,
    pub prefer_ipv6: bool,
    pub mode: InterfaceMode,
    /// A network device whose address is used in place of `listen_ip`.
    pub device: Option<String>,
    pub block_fast_flapping: bool,
    pub fast_flapping_threshold: u128,
    pub fast_flapping_grace: u64,
    pub fast_flapping_block_time: u128,
}

impl BackboneServerConfig {
    /// The defaults for a server of that name at that address.
    pub fn new(name: &str, ip: &str, port: u16) -> (config: Self)
        ensures
            config.name@ == name@,
            config.listen_ip@ == ip@,
            config.listen_port == port,
            !config.prefer_ipv6,
            config.mode is Full,
            config.device is None,
            config.policy() == (FastFlapPolicy {
                enabled: BLOCK_FAST_FLAPPING,
                threshold: FAST_FLAPPING_THRESHOLD,
                grace: FAST_FLAPPING_GRACE,
                block_time: FAST_FLAPPING_BLOCK_TIME,
            }),
    {
        BackboneServerConfig {
            name: name.to_owned(),
            listen_ip: ip.to_owned(),
            listen_port: port,
            prefer_ipv6: false,
            mode: InterfaceMode::Full,
            device: None,
            block_fast_flapping: BLOCK_FAST_FLAPPING,
            fast_flapping_threshold: FAST_FLAPPING_THRESHOLD,
            fast_flapping_grace: FAST_FLAPPING_GRACE,
            fast_flapping_block_time: FAST_FLAPPING_BLOCK_TIME,
        }
    }

    /// When peers that come and go are turned away.
    pub open spec fn policy(self) -> FastFlapPolicy {
        FastFlapPolicy {
            enabled: self.block_fast_flapping,
            threshold: self.fast_flapping_threshold,
            grace: self.fast_flapping_grace,
            block_time: self.fast_flapping_block_time,
        }
    }

    /// When peers that come and go are turned away.
    pub fn fast_flap_policy(&self) -> (policy: FastFlapPolicy)
        ensures
            policy == self.policy(),
    {
        FastFlapPolicy {
            enabled: self.block_fast_flapping,
            threshold: self.fast_flapping_threshold,
            grace: self.fast_flapping_grace,
            block_time: self.fast_flapping_block_time,
        }
    }

    /// What the transport is told of the listener, which only takes peers in.
    pub fn listener_profile(&self, id: InterfaceId) -> (profile: InterfaceProfile)
        ensures
            profile.id == id,
            profile.parent_id is None,
            profile.name@ == self.name@,
            profile.mode == self.mode,
            profile.direction == (InterfaceDirection {
                inbound: true,
                outbound: false,
                forward: false,
                repeat: false,
            }),
            profile.bitrate == BITRATE_GUESS,
            profile.mtu == NETWORK_MTU,
    {
        InterfaceProfile {
            id,
            parent_id: None,
            name: self.name.clone(),
            mode: self.mode,
            direction: InterfaceDirection {
                inbound: true,
                outbound: false,
                forward: false,
                repeat: false,
            },
            bitrate: BITRATE_GUESS,
            mtu: NETWORK_MTU,
        }
    }
}

/// How a Backbone client is set up.
#[derive(Clone, Debug)]
pub struct BackboneClientConfig {
    pub name: String,
    pub target_host: String,
    pub target_port: u16,
    pub prefer_ipv6: bool,
    pub connect_timeout_secs: u64,
    /// How many tries may fail in a row; without a number, any.
    pub max_reconnect_tries: Option<usize>,
    pub mode: InterfaceMode,
}

impl BackboneClientConfig {
    /// The defaults for a client of that name and that server.
    pub fn new(name: &str, host: &str, port: u16) -> (config: Self)
        ensures
            config.name@ == name@,
            config.target_host@ == host@,
            config.target_port == port,
            !config.prefer_ipv6,
            config.connect_timeout_secs == INITIAL_CONNECT_TIMEOUT,
            config.max_reconnect_tries is None,
            config.mode is Full,
    {
        BackboneClientConfig {
            name: name.to_owned(),
            target_host: host.to_owned(),
            target_port: port,
            prefer_ipv6: false,
            connect_timeout_secs: INITIAL_CONNECT_TIMEOUT,
            max_reconnect_tries: None,
            mode: InterfaceMode::Full,
        }
    }

    /// What the transport is told of the client.
    pub fn interface_profile(&self, id: InterfaceId) -> (profile: InterfaceProfile)
        ensures
            profile.id == id,
            profile.parent_id is None,
            profile.name@ == self.name@,
            profile.mode == self.mode,
            profile.direction == link_direction(),
            profile.bitrate == CHILD_BITRATE_GUESS,
            profile.mtu == link_mtu(Some(CHILD_OPTIMISED_MTU)),
    {
        InterfaceProfile {
            id,
            parent_id: None,
            name: self.name.clone(),
            mode: self.mode,
            direction: InterfaceDirection {
                inbound: true,
                outbound: true,
                forward: false,
                repeat: false,
            },
            bitrate: CHILD_BITRATE_GUESS,
            mtu: child_mtu(),
        }
    }
}

/// Which way packets pass over a link.
pub open spec fn link_direction() -> InterfaceDirection {
    InterfaceDirection { inbound: true, outbound: true, forward: false, repeat: false }
}

/// The packet size of a link, given the one that suits its bitrate, where there is one.
pub open spec fn link_mtu(optimised: Option<u32>) -> u32 {
    match optimised {
        Some(mtu) => if mtu < HW_MTU {
            mtu
        } else {
            HW_MTU
        },
        None => NETWORK_MTU,
    }
}

/// The packet size of a link, given the one that suits its bitrate.
pub fn bounded_mtu(optimised: Option<u32>) -> (mtu: u32)
    ensures
        mtu == link_mtu(optimised),
{
    match optimised {
        Some(mtu) => if mtu < HW_MTU {
            mtu
        } else {
            HW_MTU
        },
        None => NETWORK_MTU,
    }
}

/// The packet size of a link.
pub fn child_mtu() -> (mtu: u32)
    ensures
        mtu == link_mtu(Some(CHILD_OPTIMISED_MTU)),
{
    bounded_mtu(Some(CHILD_OPTIMISED_MTU))
}

/// How a link is kept under watch. Durations are in nanoseconds.
#[derive(Clone, Copy, Debug, PartialEq, Eq, Structural)]
pub struct KeepaliveTuning {
    pub idle: u128,
    pub interval: u128,
    pub probes: u32,
    pub user_timeout: u128,
}

/// How a link is kept under watch.
pub open spec fn keepalive_tuning() -> KeepaliveTuning {
    KeepaliveTuning {
        idle: (TCP_PROBE_AFTER * 1_000_000_000) as u128,
        interval: (TCP_PROBE_INTERVAL * 1_000_000_000) as u128,
        probes: TCP_PROBES,
        user_timeout: (TCP_USER_TIMEOUT * 1_000_000_000) as u128,
    }
}

/// How a link is kept under watch.
pub fn keepalive_durations() -> (tuning: KeepaliveTuning)
    ensures
        tuning == keepalive_tuning(),
{
    KeepaliveTuning {
        idle: TCP_PROBE_AFTER as u128 * SECOND,
        interval: TCP_PROBE_INTERVAL as u128 * SECOND,
        probes: TCP_PROBES,
        user_timeout: TCP_USER_TIMEOUT as u128 * SECOND,
    }
}

/// The address of a network device, as text.
#[derive(Clone, Debug, PartialEq, Eq)]
pub enum DeviceAddress {
    V4(String),
    V6(String),
}

/// The address to listen at.
pub open spec fn listen_address(
    config: BackboneServerConfig,
    device_address: Option<DeviceAddress>,
) -> Seq<char> {
    match (config.device, device_address) {
        (Some(_), Some(DeviceAddress::V4(text))) => text@,
        (Some(_), Some(DeviceAddress::V6(text))) => "["@ + text@ + "]"@,
        _ => config.listen_ip@,
    }
}

/// The address to listen at: that of the device, where one is configured and found, or
/// else the configured one.
pub fn resolve_listen_addr(
    config: &BackboneServerConfig,
    device_address: Option<DeviceAddress>,
) -> (listen_ip: String)
    ensures
        listen_ip@ == listen_address(*config, device_address),
{
    if config.device.is_some() {
        match device_address {
            Some(DeviceAddress::V4(text)) => {
                return text;
            },
            Some(DeviceAddress::V6(text)) => {
                return join3("[", text.as_str(), "]");
            },
            None => {},
        }
    }
    config.listen_ip.clone()
}

/// The address is a bare IPv6 address, which takes brackets before a port.
pub open spec fn bare_ipv6(listen_ip: Seq<char>) -> bool {
    !has_prefix(listen_ip, "["@) && listen_ip.contains(':') && !listen_ip.contains('.')
}

/// The address and port to bind, as text.
pub open spec fn bind_text(listen_ip: Seq<char>, port: u16) -> Seq<char> {
    if bare_ipv6(listen_ip) {
        "["@ + listen_ip + "]:"@ + decimal_text(port as nat)
    } else {
        listen_ip + ":"@ + decimal_text(port as nat)
    }
}

/// The address and port to bind, as text.
pub fn bind_addr(listen_ip: &str, port: u16) -> (text: String)
    ensures
        text@ == bind_text(listen_ip@, port),
{
    let port = decimal(port as u64);
    if starts_with(listen_ip, "[") {
        join3(listen_ip, ":", port.as_str())
    } else if contains_char(listen_ip, ':') && !contains_char(listen_ip, '.') {
        let host = join3("[", listen_ip, "]:");
        join2(host.as_str(), port.as_str())
    } else {
        join3(listen_ip, ":", port.as_str())
    }
}

/// `chosen` is the address to use of those that were resolved.
pub open spec fn prefers(v6: Seq<bool>, prefer_ipv6: bool, chosen: Option<usize>) -> bool {
    match chosen {
        Some(index) => {
            &&& index < v6.len()
            &&& v6[index as int] == prefer_ipv6 ==> forall|i: int|
                0 <= i < index ==> #[trigger] v6[i] != prefer_ipv6
            &&& v6[index as int] != prefer_ipv6 ==> index == 0 && forall|i: int|
                0 <= i < v6.len() ==> #[trigger] v6[i] != prefer_ipv6
        },
        None => v6.len() == 0,
    }
}

/// Which of the resolved addresses is used: the first of the preferred family, or else
/// the first. `v6` says of each whether it is an IPv6 address.
pub fn preferred_address(v6: &Vec<bool>, prefer_ipv6: bool) -> (chosen: Option<usize>)
    ensures
        prefers(v6@, prefer_ipv6, chosen),
{
    let mut index: usize = 0;
    while index < v6.len()
        invariant
            index <= v6@.len(),
            forall|i: int| 0 <= i < index ==> #[trigger] v6@[i] != prefer_ipv6,
        decreases v6@.len() - index,
    {
        if v6[index] == prefer_ipv6 {
            return Some(index);
        }
        index = index + 1;
    }
    if v6.len() == 0 {
        None
    } else {
        Some(0)
    }
}

/// What is said when a host has no address.
pub fn no_addresses_message(host: &str, port: u16) -> (message: String)
    ensures
        message@ == "no addresses resolved for "@ + host@ + ":"@ + decimal_text(port as nat),
{
    let head = join3("no addresses resolved for ", host, ":");
    join2(head.as_str(), decimal(port as u64).as_str())
}

/// The policy against peers that come and go is the configured one, item by item.
pub proof fn policy_is_as_configured(config: BackboneServerConfig)
    ensures
        config.policy().enabled == config.block_fast_flapping,
        config.policy().threshold == config.fast_flapping_threshold,
        config.policy().grace == config.fast_flapping_grace,
        config.policy().block_time == config.fast_flapping_block_time,
{
}

/// A packet of a link is never larger than its socket buffers, nor than suits its bitrate;
/// where nothing is known of that, it is as large as the network's.
pub proof fn link_packets_fit(optimised: u32)
    ensures
        link_mtu(Some(optimised)) <= 1_048_576,
        link_mtu(Some(optimised)) <= optimised,
        optimised <= 1_048_576 ==> link_mtu(Some(optimised)) == optimised,
        link_mtu(None) == 500,
        link_direction().inbound && link_direction().outbound,
        !link_direction().forward && !link_direction().repeat,
{
}

/// A device's address is listened at only where a device is configured; an IPv6 address of a
/// device comes in brackets, so that it takes no second pair before a port.
pub proof fn device_address_is_listened_at(
    config: BackboneServerConfig,
    text: String,
    port: u16,
)
    ensures
        config.device is None ==> listen_address(config, Some(DeviceAddress::V4(text)))
            == config.listen_ip@,
        config.device is None ==> listen_address(config, Some(DeviceAddress::V6(text)))
            == config.listen_ip@,
        listen_address(config, None) == config.listen_ip@,
        config.device is Some ==> listen_address(config, Some(DeviceAddress::V4(text))) == text@,
        config.device is Some ==> listen_address(config, Some(DeviceAddress::V6(text))) == seq!['[']
            + text@ + seq![']'],
        config.device is Some ==> bind_text(
            listen_address(config, Some(DeviceAddress::V6(text))),
            port,
        ) == seq!['['] + text@ + seq![']', ':'] + decimal_text(port as nat),
{
    reveal_strlit("[");
    reveal_strlit("]");
    reveal_strlit(":");
    assert("["@ =~= seq!['[']);
    assert("]"@ =~= seq![']']);
    assert(":"@ =~= seq![':']);
    let host = seq!['['] + text@ + seq![']'];
    prefix_and_rest_make_the_text(host, "["@, text@ + seq![']']);
    assert(host =~= "["@ + (text@ + seq![']']));
    assert(host + ":"@ + decimal_text(port as nat) =~= seq!['['] + text@ + seq![']', ':']
        + decimal_text(port as nat));
}

/// A text to bind ends with a colon and the port. Before it stands the address, in brackets
/// exactly if it has colons but neither dots nor brackets of its own.
pub proof fn port_stands_behind_the_address(listen_ip: Seq<char>, port: u16)
    ensures
        ({
            let text = bind_text(listen_ip, port);
            let digits = decimal_text(port as nat);
            let head = text.subrange(0, text.len() - digits.len());
            &&& digits.len() <= text.len()
            &&& numeral_value(text.subrange(text.len() - digits.len(), text.len() as int)) == port
            &&& listen_ip.contains(':') && !listen_ip.contains('.') && listen_ip[0] != '['
                ==> head == seq!['['] + listen_ip + seq![']', ':']
            &&& !listen_ip.contains(':') || listen_ip.contains('.') || (listen_ip.len() > 0
                && listen_ip[0] == '[') ==> head == listen_ip + seq![':']
        }),
{
    reveal_strlit("[");
    reveal_strlit("]:");
    reveal_strlit(":");
    assert("["@ =~= seq!['[']);
    assert("]:"@ =~= seq![']', ':']);
    assert(":"@ =~= seq![':']);
    prefix_and_rest_make_the_text(listen_ip, "["@, Seq::empty());
    numeral_stands_for_its_number(port as nat);
    let text = bind_text(listen_ip, port);
    let digits = decimal_text(port as nat);
    let head = text.subrange(0, text.len() - digits.len());
    assert(text.subrange(text.len() - digits.len(), text.len() as int) =~= digits);
    if bare_ipv6(listen_ip) {
        assert(head =~= seq!['['] + listen_ip + seq![']', ':']);
    } else {
        assert(head =~= listen_ip + seq![':']);
    }
}

/// An address of the preferred family is used where there is one, and the first of those;
/// any address is better than none.
pub proof fn preferred_family_wins(
    v6: Seq<bool>,
    prefer_ipv6: bool,
    chosen: Option<usize>,
    other: int,
)
    requires
        prefers(v6, prefer_ipv6, chosen),
        0 <= other < v6.len(),
    ensures
        chosen is Some,
        chosen->0 < v6.len(),
        v6[other] == prefer_ipv6 ==> v6[chosen->0 as int] == prefer_ipv6 && chosen->0 <= other,
        v6[chosen->0 as int] != prefer_ipv6 ==> chosen->0 == 0,
{
}

/// A link is probed after five seconds of silence and then every two, is given up after twelve
/// probes without an answer, and after twenty-four seconds with data that was not answered.
pub proof fn silent_links_are_probed()
    ensures
        keepalive_tuning().idle == 5_000_000_000,
        keepalive_tuning().interval == 2_000_000_000,
        keepalive_tuning().probes == 12,
        keepalive_tuning().user_timeout == 24_000_000_000,
{
}

/// The defaults: connections under twenty seconds are flaps, five are tolerated, and a peer is
/// turned away for twelve hours. A try to connect may take five seconds, and the next one
/// follows after five; a hundred milliseconds pass after a failure to accept.
pub proof fn defaults_of_the_backbone()
    ensures
        BLOCK_FAST_FLAPPING,
        FAST_FLAPPING_THRESHOLD == 20 * 1_000_000_000,
        FAST_FLAPPING_GRACE == 5,
        FAST_FLAPPING_BLOCK_TIME == 12 * 3600 * 1_000_000_000,
        RECONNECT_WAIT == 5,
        INITIAL_CONNECT_TIMEOUT == 5,
        ACCEPT_RETRY_WAIT == 100_000_000,
        HW_MTU == 1_048_576,
        BITRATE_GUESS == 1_000_000_000,
        CHILD_BITRATE_GUESS == 100_000_000,
        CHILD_OPTIMISED_MTU == 65_536,
        NETWORK_MTU == 500,
        TX_CHANNEL_DEPTH == 1024,
{
}

} // verus!
