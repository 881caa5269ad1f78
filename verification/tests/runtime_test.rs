use psniff_rs::devices::ReceivedPacketData;
use psniff_rs::packet_listeners::arp_listener;
use psniff_rs::packet_listeners::ipv4_tcp_listener;
use psniff_rs::packet_listeners::ipv4_udp_listener;
use psniff_rs::packet_listeners::listener::{BuildError, ListenerEvent, ListenerOutcome};
use psniff_rs::runtime::{keep_successes, Orchestrator, RunPhase};

#[test]
fn keep_successes_partitions_in_order() {
    let results: Vec<Result<&str, &str>> =
        vec![Ok("capture"), Err("no receiver"), Ok("tcp"), Ok("udp"), Err("no state")];
    let (kept, failed) = keep_successes(results);
    assert_eq!(kept, vec!["capture", "tcp", "udp"]);
    assert_eq!(failed, vec!["no receiver", "no state"]);
}

#[test]
fn keep_successes_of_nothing_is_nothing() {
    let (kept, failed) = keep_successes(Vec::<Result<u8, u8>>::new());
    assert!(kept.is_empty());
    assert!(failed.is_empty());
}

#[test]
fn orchestrator_walks_its_phases() {
    let mut o = Orchestrator::new();
    assert_eq!(o.phase(), RunPhase::Idle);
    o.begin_building();
    assert_eq!(o.phase(), RunPhase::Building);
    o.record_builds(2, 1);
    assert_eq!(o.phase(), RunPhase::Running);
    assert_eq!(o.spawned(), 2);
    assert_eq!(o.build_failures(), 1);
    // The first unit to exit triggers the one broadcast.
    assert!(o.on_unit_exit());
    assert_eq!(o.phase(), RunPhase::ShuttingDown);
    // Later exits never broadcast again.
    assert!(!o.on_unit_exit());
    assert_eq!(o.joined(), 2);
    o.finish();
    assert_eq!(o.phase(), RunPhase::Terminated);
}

#[test]
fn interrupt_broadcasts_exactly_once() {
    let mut o = Orchestrator::new();
    o.begin_building();
    o.record_builds(1, 0);
    assert!(o.on_interrupt());
    assert!(!o.on_unit_exit());
    o.finish();
    assert_eq!(o.phase(), RunPhase::Terminated);
}

#[test]
fn one_failed_build_leaves_the_others_running() {
    // Three listener build steps; the ARP listener gets no channel and its
    // build fails; the two others run to completion regardless.
    let (_tcp_tx, tcp_rx) = tokio::sync::mpsc::channel::<ReceivedPacketData>(4);
    let (_udp_tx, udp_rx) = tokio::sync::mpsc::channel::<ReceivedPacketData>(4);
    let tcp_build = ipv4_tcp_listener::new().set_receiver(tcp_rx).build();
    let arp_build = arp_listener::new().build();
    let udp_build = ipv4_udp_listener::new().set_receiver(udp_rx).build();
    assert!(tcp_build.is_ok());
    assert!(matches!(arp_build, Err(BuildError::NoReceiver)));
    assert!(udp_build.is_ok());

    let statuses: Vec<Result<&str, BuildError>> = vec![
        match &tcp_build { Ok(_) => Ok("tcp"), Err(e) => Err(*e) },
        match &arp_build { Ok(_) => Ok("arp"), Err(e) => Err(*e) },
        match &udp_build { Ok(_) => Ok("udp"), Err(e) => Err(*e) },
    ];
    let (kept, failed) = keep_successes(statuses);
    assert_eq!(kept, vec!["tcp", "udp"]);
    assert_eq!(failed, vec![BuildError::NoReceiver]);

    let mut o = Orchestrator::new();
    o.begin_building();
    o.record_builds(kept.len(), failed.len());
    assert_eq!(o.spawned(), 2);
    assert_eq!(o.build_failures(), 1);

    // Both built listeners observe the cancellation signal and stop.
    let (mut tcp, _tcp_rx) = tcp_build.unwrap();
    let (mut udp, _udp_rx) = udp_build.unwrap();
    assert!(matches!(tcp.on_event(ListenerEvent::Cancelled), ListenerOutcome::Stop));
    assert!(o.on_unit_exit());
    assert!(matches!(udp.on_event(ListenerEvent::Cancelled), ListenerOutcome::Stop));
    assert!(!o.on_unit_exit());
    o.finish();
    assert_eq!(o.phase(), RunPhase::Terminated);
}
