use rns_interface::backbone::client::{
    BackboneClient, BackboneClientAction, BackboneClientEvent,
};
use rns_interface::backbone::config::{
    bind_addr, bounded_mtu, child_mtu, keepalive_durations, no_addresses_message,
    preferred_address, resolve_listen_addr, BackboneClientConfig, BackboneServerConfig,
    DeviceAddress, ACCEPT_RETRY_WAIT, BITRATE_GUESS, BLOCK_FAST_FLAPPING, CHILD_BITRATE_GUESS,
    FAST_FLAPPING_BLOCK_TIME, FAST_FLAPPING_GRACE, FAST_FLAPPING_THRESHOLD, HW_MTU,
    INITIAL_CONNECT_TIMEOUT, NETWORK_MTU, RECONNECT_WAIT,
};
use rns_interface::backbone::flap::{
    FastFlapAdmission, FastFlapConnection, FastFlapPolicy, FastFlapTable,
    InterfaceInspectionSnapshot, PeerAddress,
};
use rns_interface::backbone::server::{
    accept_peer, link_packets, listener_action, AcceptedPeer, ActiveClients, ListenerAction,
    ListenerEvent,
};
use rns_interface::interface::{InterfaceMode, MILLISECOND, SECOND};

struct Runtime {
    table: FastFlapTable,
    now: u128,
}

fn test_runtime(capacity: usize) -> Runtime {
    Runtime {
        table: FastFlapTable::new(capacity),
        now: 0,
    }
}

fn default_policy() -> FastFlapPolicy {
    FastFlapPolicy {
        enabled: BLOCK_FAST_FLAPPING,
        threshold: FAST_FLAPPING_THRESHOLD,
        grace: FAST_FLAPPING_GRACE,
        block_time: FAST_FLAPPING_BLOCK_TIME,
    }
}

fn v4(last: u8) -> PeerAddress {
    PeerAddress::V4(u32::from_be_bytes([192, 0, 2, last]))
}

impl Runtime {
    fn advance(&mut self, duration: u128) {
        self.now += duration;
    }

    fn allow(&mut self, ip: PeerAddress, policy: FastFlapPolicy) -> FastFlapConnection {
        match self.table.admit_peer(ip, policy, self.now) {
            FastFlapAdmission::Allowed(connection) => connection,
            FastFlapAdmission::Rejected { flaps } => {
                panic!("expected the connection to be allowed, recorded flaps: {flaps}")
            }
        }
    }

    fn assert_rejected(&mut self, ip: PeerAddress, policy: FastFlapPolicy) {
        assert!(matches!(
            self.table.admit_peer(ip, policy, self.now),
            FastFlapAdmission::Rejected { .. }
        ));
    }

    fn end(&mut self, mut connection: FastFlapConnection) {
        connection.disconnected(&mut self.table, self.now);
    }

    fn record_short(&mut self, ip: PeerAddress, policy: FastFlapPolicy) {
        let connection = self.allow(ip, policy);
        self.advance(MILLISECOND);
        self.end(connection);
    }

    fn flaps(&self, ip: PeerAddress) -> Option<u64> {
        self.table.tracked_flaps(ip)
    }

    fn inspect(&mut self, policy: FastFlapPolicy, active: u64) -> InterfaceInspectionSnapshot {
        self.table.inspection_snapshot(policy, active, self.now)
    }
}

#[test]
fn test_backbone_server_config() {
    let cfg = BackboneServerConfig::new("backbone0", "0.0.0.0", 4243);
    assert_eq!(cfg.listen_port, 4243);
    assert!(!cfg.prefer_ipv6);
    assert!(cfg.device.is_none());
    assert!(cfg.block_fast_flapping);
    assert_eq!(cfg.fast_flapping_threshold, 20 * SECOND);
    assert_eq!(cfg.fast_flapping_grace, 5);
    assert_eq!(cfg.fast_flapping_block_time, 12 * 60 * 60 * SECOND);
}

#[test]
fn test_backbone_client_config() {
    let cfg = BackboneClientConfig::new("bb-client", "10.0.0.1", 4243);
    assert_eq!(cfg.target_host, "10.0.0.1");
    assert_eq!(cfg.connect_timeout_secs, INITIAL_CONNECT_TIMEOUT);
}

#[test]
fn test_constants() {
    assert_eq!(HW_MTU, 1_048_576);
    assert_eq!(BITRATE_GUESS, 1_000_000_000);
    assert_eq!(CHILD_BITRATE_GUESS, 100_000_000);
    assert_eq!(RECONNECT_WAIT, 5);
}

#[test]
fn test_backbone_server_config_mode() {
    let cfg = BackboneServerConfig::new("bb-srv", "0.0.0.0", 4243);
    assert_eq!(cfg.mode, InterfaceMode::Full);
    assert_eq!(cfg.listen_ip, "0.0.0.0");
    assert_eq!(cfg.name, "bb-srv");
}

#[test]
fn test_backbone_client_config_defaults() {
    let cfg = BackboneClientConfig::new("bb-cli", "192.168.1.1", 4243);
    assert_eq!(cfg.target_host, "192.168.1.1");
    assert_eq!(cfg.target_port, 4243);
    assert_eq!(cfg.mode, InterfaceMode::Full);
    assert!(cfg.max_reconnect_tries.is_none());
}

#[test]
fn test_backbone_config_ipv6() {
    let cfg = BackboneServerConfig::new("bb-v6", "::", 4243);
    assert!(!cfg.prefer_ipv6);
    let mut cfg = cfg;
    cfg.prefer_ipv6 = true;
    assert!(cfg.prefer_ipv6);
}

#[test]
fn test_child_mtu_uses_100mbps_curve() {
    let mtu = child_mtu();
    assert!(mtu <= HW_MTU);
    assert!(mtu >= NETWORK_MTU / 2);
    assert_eq!(mtu, 65_536);
    assert_eq!(bounded_mtu(Some(2_000_000)), HW_MTU);
    assert_eq!(bounded_mtu(None), 500);
}

#[test]
fn fast_flap_grace_is_strictly_greater_than_five() {
    let mut runtime = test_runtime(16);
    let policy = default_policy();
    let ip = v4(1);

    // A grace of five admits and records six short connections. The seventh is blocked.
    for _ in 0..=policy.grace {
        runtime.record_short(ip, policy);
    }
    assert_eq!(runtime.flaps(ip), Some(6));
    runtime.assert_rejected(ip, policy);
}

#[test]
fn threshold_and_expiry_boundaries_are_strict() {
    let mut runtime = test_runtime(16);
    let mut policy = default_policy();
    policy.grace = 0;
    let stable_ip = v4(2);
    let blocked_ip = v4(3);

    let stable = runtime.allow(stable_ip, policy);
    runtime.advance(policy.threshold);
    runtime.end(stable);
    assert_eq!(runtime.flaps(stable_ip), None);

    runtime.record_short(blocked_ip, policy);
    runtime.advance(policy.block_time);
    runtime.assert_rejected(blocked_ip, policy);
    runtime.advance(1);
    let readmitted = runtime.allow(blocked_ip, policy);
    assert_eq!(runtime.flaps(blocked_ip), None);
    runtime.end(readmitted);
}

#[test]
fn stable_connection_does_not_reset_existing_flaps() {
    let mut runtime = test_runtime(16);
    let mut policy = default_policy();
    policy.grace = 1;
    let ip = v4(4);

    runtime.record_short(ip, policy);
    let stable = runtime.allow(ip, policy);
    runtime.advance(policy.threshold);
    runtime.end(stable);
    assert_eq!(runtime.flaps(ip), Some(1));

    runtime.record_short(ip, policy);
    assert_eq!(runtime.flaps(ip), Some(2));
    runtime.assert_rejected(ip, policy);
}

#[test]
fn rejected_connection_does_not_refresh_expiry() {
    let mut runtime = test_runtime(16);
    let mut policy = default_policy();
    policy.grace = 0;
    let ip = v4(5);

    runtime.record_short(ip, policy);
    runtime.advance(policy.block_time - 1);
    runtime.assert_rejected(ip, policy);
    runtime.advance(2);
    let readmitted = runtime.allow(ip, policy);
    assert_eq!(runtime.flaps(ip), None);
    runtime.end(readmitted);
}

#[test]
fn disabled_policy_neither_tracks_nor_blocks() {
    let mut runtime = test_runtime(16);
    let mut policy = default_policy();
    policy.enabled = false;
    policy.grace = 0;
    let ip = v4(6);

    for _ in 0..10 {
        runtime.record_short(ip, policy);
    }
    assert_eq!(runtime.flaps(ip), None);
    let admitted = runtime.allow(ip, policy);
    runtime.end(admitted);
    assert_eq!(
        runtime.inspect(policy, 0),
        InterfaceInspectionSnapshot {
            active_clients: Some(0),
            blocked_ips: Some(0),
        }
    );
}

#[test]
fn inspection_uses_strict_grace_and_expiry_boundaries() {
    let mut runtime = test_runtime(16);
    let policy = default_policy();
    let ip = v4(12);

    for _ in 0..policy.grace {
        runtime.record_short(ip, policy);
    }
    assert_eq!(
        runtime.inspect(policy, 3),
        InterfaceInspectionSnapshot {
            active_clients: Some(3),
            blocked_ips: Some(0),
        }
    );

    runtime.record_short(ip, policy);
    assert_eq!(runtime.inspect(policy, 3).blocked_ips, Some(1));
    runtime.advance(policy.block_time);
    assert_eq!(runtime.inspect(policy, 3).blocked_ips, Some(1));
    runtime.advance(1);
    assert_eq!(runtime.inspect(policy, 3).blocked_ips, Some(0));
}

#[test]
fn repeated_inspection_snapshots_are_live_and_non_destructive() {
    let mut runtime = test_runtime(16);
    let mut policy = default_policy();
    policy.grace = 0;
    let ip = v4(13);
    runtime.record_short(ip, policy);

    let first = runtime.inspect(policy, 1);
    let second = runtime.inspect(policy, 1);
    assert_eq!(first, second);
    assert_eq!(first.active_clients, Some(1));
    assert_eq!(first.blocked_ips, Some(1));

    assert_eq!(runtime.inspect(policy, 2).active_clients, Some(2));
}

#[test]
fn blocking_is_ip_scoped() {
    let mut runtime = test_runtime(16);
    let mut policy = default_policy();
    policy.grace = 0;
    let blocked_ip = v4(7);
    let other_ip = v4(8);

    runtime.record_short(blocked_ip, policy);
    runtime.assert_rejected(blocked_ip, policy);
    let other = runtime.allow(other_ip, policy);
    runtime.end(other);
    // The IPv6 address of the same number is another peer.
    runtime.allow(PeerAddress::V6(0xC000_0207), policy);
}

#[test]
fn listeners_share_one_process_global_ip_keyspace() {
    // Two listeners with one table.
    let mut runtime = test_runtime(16);
    let policy = default_policy();
    let ip = v4(9);

    for _ in 0..=policy.grace {
        runtime.record_short(ip, policy);
    }
    runtime.assert_rejected(ip, policy);
    runtime.assert_rejected(ip, policy);
}

#[test]
fn full_table_preserves_unexpired_entries_and_reuses_expired_slots() {
    let mut runtime = test_runtime(1);
    let mut policy = default_policy();
    policy.grace = 0;
    let tracked_ip = v4(10);
    let untracked_ip = v4(11);

    runtime.record_short(tracked_ip, policy);
    runtime.record_short(untracked_ip, policy);

    assert_eq!(runtime.flaps(tracked_ip), Some(1));
    assert_eq!(runtime.flaps(untracked_ip), None);
    runtime.assert_rejected(tracked_ip, policy);
    let untracked = runtime.allow(untracked_ip, policy);
    runtime.end(untracked);

    runtime.advance(policy.block_time + 1);
    runtime.record_short(untracked_ip, policy);
    assert_eq!(runtime.flaps(tracked_ip), None);
    assert_eq!(runtime.flaps(untracked_ip), Some(1));
}

#[test]
fn connection_is_accounted_for_once() {
    let mut runtime = test_runtime(16);
    let policy = default_policy();
    let mut connection = runtime.allow(v4(20), policy);
    connection.disconnected(&mut runtime.table, 1);
    connection.disconnected(&mut runtime.table, 2);
    assert_eq!(runtime.flaps(v4(20)), Some(1));
}

#[test]
fn expired_peers_make_room_for_a_new_one() {
    let mut runtime = test_runtime(3);
    let policy = default_policy();
    runtime.record_short(v4(31), policy);
    runtime.advance(policy.block_time);
    runtime.record_short(v4(32), policy);
    runtime.record_short(v4(33), policy);
    runtime.record_short(v4(34), policy);
    assert_eq!(runtime.flaps(v4(31)), None);
    assert_eq!(runtime.flaps(v4(32)), Some(1));
    assert_eq!(runtime.flaps(v4(33)), Some(1));
    assert_eq!(runtime.flaps(v4(34)), Some(1));
}

// Server

#[test]
fn rejected_admission_does_not_consume_child_id_or_handle() {
    let mut table = FastFlapTable::new(16);
    let mut config = BackboneServerConfig::new("blocked-id-test", "127.0.0.1", 4243);
    config.fast_flapping_grace = 0;
    let localhost = PeerAddress::V4(0x7F00_0001);
    table.record_disconnect(localhost, 0, config.fast_flap_policy(), 1);
    let mut next_id = 100;
    assert!(matches!(
        accept_peer(&config, 1, &mut next_id, &mut table, localhost, 2),
        AcceptedPeer::Rejected { flaps: 1 }
    ));
    assert_eq!(next_id, 100);
    let snapshot = table.inspection_snapshot(config.fast_flap_policy(), 0, 2);
    assert_eq!(snapshot.active_clients, Some(0));
    assert_eq!(snapshot.blocked_ips, Some(1));
}

#[test]
fn aborted_child_read_task_records_short_connection() {
    let mut table = FastFlapTable::new(16);
    let config = BackboneServerConfig::new("abort-accounting-test", "127.0.0.1", 4243);
    let localhost = PeerAddress::V4(0x7F00_0001);
    let mut clients = ActiveClients { count: 0 };
    let mut next_id = 100;
    match accept_peer(&config, 1, &mut next_id, &mut table, localhost, 0) {
        AcceptedPeer::Link {
            profile,
            mut connection,
        } => {
            clients.connected();
            assert_eq!(clients.count, 1);
            assert_eq!(profile.id, 100);
            assert_eq!(profile.parent_id, Some(1));
            assert_eq!(profile.name, "abort-accounting-test/client_100");
            assert_eq!(profile.bitrate, CHILD_BITRATE_GUESS);
            assert_eq!(profile.mtu, child_mtu());
            assert!(profile.direction.inbound && profile.direction.outbound);
            connection.disconnected(&mut table, MILLISECOND);
            clients.disconnected();
        }
        AcceptedPeer::Rejected { .. } => panic!("the first connection is allowed"),
    }
    assert_eq!(clients.count, 0);
    assert_eq!(table.tracked_flaps(localhost), Some(1));
    assert_eq!(next_id, 101);
}

#[test]
fn listener_only_takes_peers_in() {
    let profile = BackboneServerConfig::new("bb", "0.0.0.0", 4243).listener_profile(3);
    assert!(profile.direction.inbound);
    assert!(!profile.direction.outbound);
    assert_eq!(profile.bitrate, BITRATE_GUESS);
    assert_eq!(profile.mtu, NETWORK_MTU);
    assert_eq!(
        listener_action(ListenerEvent::AcceptFailed),
        ListenerAction::Wait {
            wait: ACCEPT_RETRY_WAIT
        }
    );
    assert_eq!(
        listener_action(ListenerEvent::RegistryClosed),
        ListenerAction::End
    );
    assert_eq!(
        listener_action(ListenerEvent::Rejected),
        ListenerAction::Accept
    );
}

#[test]
fn empty_frames_are_no_packets() {
    let packets = link_packets(vec![vec![1, 2], vec![], vec![3]], 9);
    assert_eq!(
        packets.iter().map(|p| p.raw.clone()).collect::<Vec<_>>(),
        vec![vec![1, 2], vec![3]]
    );
    assert!(packets.iter().all(|p| p.interface_id == 9 && p.rssi.is_none()));
}

#[test]
fn addresses_are_written_for_binding() {
    assert_eq!(bind_addr("0.0.0.0", 4243), "0.0.0.0:4243");
    assert_eq!(bind_addr("::", 4243), "[::]:4243");
    assert_eq!(bind_addr("[fe80::1]", 1), "[fe80::1]:1");
    assert_eq!(bind_addr("::ffff:10.0.0.1", 1), "::ffff:10.0.0.1:1");
    assert_eq!(bind_addr("localhost", 65_535), "localhost:65535");

    let mut config = BackboneServerConfig::new("bb", "10.0.0.1", 1);
    let v6 = || Some(DeviceAddress::V6("fe80::1".into()));
    assert_eq!(resolve_listen_addr(&config, v6()), "10.0.0.1");
    config.device = Some("eth0".into());
    assert_eq!(resolve_listen_addr(&config, v6()), "[fe80::1]");
    assert_eq!(
        resolve_listen_addr(&config, Some(DeviceAddress::V4("192.0.2.1".into()))),
        "192.0.2.1"
    );
    assert_eq!(resolve_listen_addr(&config, None), "10.0.0.1");
}

#[test]
fn preferred_family_comes_first() {
    assert_eq!(preferred_address(&vec![true, false, true], false), Some(1));
    assert_eq!(preferred_address(&vec![false, true, true], true), Some(1));
    assert_eq!(preferred_address(&vec![true, true], false), Some(0));
    assert_eq!(preferred_address(&vec![], true), None);
    assert_eq!(
        no_addresses_message("host", 80),
        "no addresses resolved for host:80"
    );
}

#[test]
fn links_are_probed() {
    let tuning = keepalive_durations();
    assert_eq!(tuning.idle, 5 * SECOND);
    assert_eq!(tuning.interval, 2 * SECOND);
    assert_eq!(tuning.probes, 12);
    assert_eq!(tuning.user_timeout, 24 * SECOND);
}

// Client

#[test]
fn test_backbone_max_reconnect_dereg() {
    let mut client = BackboneClient::new(Some(1));
    assert_eq!(
        client.advance(BackboneClientEvent::Resolved),
        BackboneClientAction::Connect
    );
    assert_eq!(
        client.advance(BackboneClientEvent::Failed),
        BackboneClientAction::Deregister
    );
    assert_eq!(
        client.advance(BackboneClientEvent::WaitOver),
        BackboneClientAction::Continue
    );
}

#[test]
fn client_waits_between_tries_and_forgets_failures_once_connected() {
    let mut client = BackboneClient::new(Some(2));
    assert_eq!(
        client.advance(BackboneClientEvent::Failed),
        BackboneClientAction::Wait { wait: 5 * SECOND }
    );
    assert_eq!(
        client.advance(BackboneClientEvent::WaitOver),
        BackboneClientAction::Resolve
    );
    client.advance(BackboneClientEvent::Resolved);
    assert_eq!(
        client.advance(BackboneClientEvent::Connected),
        BackboneClientAction::Carry
    );
    assert_eq!(
        client.advance(BackboneClientEvent::Disconnected),
        BackboneClientAction::Wait { wait: 5 * SECOND }
    );
    client.advance(BackboneClientEvent::WaitOver);
    assert_eq!(
        client.advance(BackboneClientEvent::Failed),
        BackboneClientAction::Deregister
    );
}

#[test]
fn client_without_a_bound_never_gives_up() {
    let mut client = BackboneClient::new(None);
    for _ in 0..100 {
        assert_eq!(
            client.advance(BackboneClientEvent::Failed),
            BackboneClientAction::Wait { wait: 5 * SECOND }
        );
        client.advance(BackboneClientEvent::WaitOver);
    }
}

#[test]
fn client_is_described_to_the_transport() {
    let profile = BackboneClientConfig::new("bb", "host", 1).interface_profile(4);
    assert_eq!(profile.id, 4);
    assert_eq!(profile.bitrate, CHILD_BITRATE_GUESS);
    assert_eq!(profile.mtu, child_mtu());
    assert!(profile.direction.inbound && profile.direction.outbound);
}
