use psniff_rs::devices::{self, CaptureEvent, CaptureOutcome, FrameHeader, Matcher, ReceivedPacketData};
use psniff_rs::frame::{NetLayerInfo, TransportLayerInfo};
use psniff_rs::state::appstate;
use psniff_rs::state::packet_count::PacketCount;

fn header() -> FrameHeader {
    FrameHeader { ts_sec: 0, ts_usec: 0, caplen: 64, len: 64 }
}

fn tcp_frame(src_ip: [u8; 4], dst_ip: [u8; 4], sport: u16, dport: u16, seq: u32, syn: bool) -> Vec<u8> {
    let builder = etherparse::PacketBuilder::ethernet2([1; 6], [2; 6])
        .ipv4(src_ip, dst_ip, 64)
        .tcp(sport, dport, seq, 1024);
    let builder = if syn { builder.syn() } else { builder };
    let mut buf = Vec::new();
    builder.write(&mut buf, &[0xde, 0xad]).unwrap();
    buf
}

fn udp_frame() -> Vec<u8> {
    let builder = etherparse::PacketBuilder::ethernet2([1; 6], [2; 6])
        .ipv4([10, 0, 0, 1], [10, 0, 0, 2], 64)
        .udp(5353, 53);
    let mut buf = Vec::new();
    builder.write(&mut buf, &[1, 2, 3, 4, 5]).unwrap();
    buf
}

fn arp_frame() -> Vec<u8> {
    let mut v = Vec::new();
    v.extend_from_slice(&[2; 6]);
    v.extend_from_slice(&[1; 6]);
    v.extend_from_slice(&[0x08, 0x06]);
    // htype ethernet, ptype IPv4, hlen 6, plen 4, op request
    v.extend_from_slice(&[0x00, 0x01, 0x08, 0x00, 6, 4, 0x00, 0x01]);
    v.extend_from_slice(&[1, 1, 1, 1, 1, 1]);
    v.extend_from_slice(&[10, 0, 0, 1]);
    v.extend_from_slice(&[0, 0, 0, 0, 0, 0]);
    v.extend_from_slice(&[10, 0, 0, 2]);
    v
}

fn unknown_ethertype_frame() -> Vec<u8> {
    let mut v = Vec::new();
    v.extend_from_slice(&[2; 6]);
    v.extend_from_slice(&[1; 6]);
    v.extend_from_slice(&[0x88, 0xb5]);
    v.extend_from_slice(&[1, 2, 3, 4]);
    v
}

fn ipv4_frame_with_protocol(proto: u8) -> Vec<u8> {
    let mut v = Vec::new();
    v.extend_from_slice(&[2; 6]);
    v.extend_from_slice(&[1; 6]);
    v.extend_from_slice(&[0x08, 0x00]);
    let payload = [0u8; 4];
    let total_len = (20 + payload.len()) as u16;
    v.extend_from_slice(&[0x45, 0]);
    v.extend_from_slice(&total_len.to_be_bytes());
    v.extend_from_slice(&[0, 0, 0, 0, 64, proto, 0, 0]);
    v.extend_from_slice(&[10, 0, 0, 1]);
    v.extend_from_slice(&[10, 0, 0, 2]);
    v.extend_from_slice(&payload);
    v
}

#[test]
fn test_loop() {}

#[test]
fn classifier_table() {
    assert_eq!(
        devices::classify(&NetLayerInfo::Absent, &TransportLayerInfo::Absent),
        Some(Matcher::Missing)
    );
    assert_eq!(
        devices::classify(&NetLayerInfo::Arp, &TransportLayerInfo::Absent),
        Some(Matcher::Arp)
    );
    let v4 = NetLayerInfo::V4 { src: 1, dst: 2, ip_number: 6, fragmented: false };
    let v6 = NetLayerInfo::V6 { ip_number: 17 };
    assert_eq!(devices::classify(&v4, &TransportLayerInfo::Icmp4), Some(Matcher::IPv4_ICMPv4));
    assert_eq!(devices::classify(&v4, &TransportLayerInfo::Icmp6), Some(Matcher::Unexpected));
    assert_eq!(devices::classify(&v6, &TransportLayerInfo::Icmp4), Some(Matcher::Unexpected));
    assert_eq!(devices::classify(&v6, &TransportLayerInfo::Icmp6), Some(Matcher::IPv6_ICMPv6));
    assert_eq!(devices::classify(&v4, &TransportLayerInfo::Absent), None);
    assert_eq!(devices::classify(&v6, &TransportLayerInfo::Absent), None);
}

#[test]
fn builder_without_interface_fails() {
    let r = devices::new().build();
    assert!(matches!(r, Err(devices::BuildError::NoInterface)));
}

#[test]
fn builder_without_state_fails() {
    let r = devices::new().set_interface("eth0".to_string()).build();
    assert!(matches!(r, Err(devices::BuildError::NoState)));
}

#[test]
fn build_registers_the_interface_once() {
    let state = appstate::new();
    let b = devices::new().set_interface("eth0".to_string()).set_state(state);
    let (_d, st) = b.build().unwrap();
    assert_eq!(st.counters_for(&"eth0".to_string()), Some(PacketCount::default()));
    assert_eq!(st.snapshot_all().len(), 1);
}

#[test]
fn ipv6_tcp_frame_is_classified_from_bytes() {
    let b = devices::new().set_interface("eth0".to_string()).set_state(appstate::new());
    let (mut d, mut st) = b.build().unwrap();
    let builder = etherparse::PacketBuilder::ethernet2([1; 6], [2; 6])
        .ipv6([0x20; 16], [0x21; 16], 64)
        .tcp(4444, 80, 1, 1024);
    let mut frame = Vec::new();
    builder.write(&mut frame, &[7, 7]).unwrap();
    let out = d.capture_step(&mut st, CaptureEvent::Packet { header: header(), data: frame });
    assert_eq!(out, CaptureOutcome::DroppedNoSender { category: Matcher::IPv6_TCP });
}

#[test]
fn icmpv4_frame_is_classified_from_bytes() {
    let b = devices::new().set_interface("eth0".to_string()).set_state(appstate::new());
    let (mut d, mut st) = b.build().unwrap();
    let builder = etherparse::PacketBuilder::ethernet2([1; 6], [2; 6])
        .ipv4([10, 0, 0, 1], [10, 0, 0, 2], 64)
        .icmpv4_echo_request(1, 1);
    let mut frame = Vec::new();
    builder.write(&mut frame, &[]).unwrap();
    let out = d.capture_step(&mut st, CaptureEvent::Packet { header: header(), data: frame });
    assert_eq!(out, CaptureOutcome::DroppedNoSender { category: Matcher::IPv4_ICMPv4 });
}

#[test]
fn capture_routes_tcp_frame_to_its_channel() {
    let (tcp_tx, mut tcp_rx) = tokio::sync::mpsc::channel::<ReceivedPacketData>(16);
    let b = devices::new()
        .set_interface("eth0".to_string())
        .set_state(appstate::new())
        .set_typed_sender(Matcher::IPv4_TCP, tcp_tx);
    let (mut d, mut st) = b.build().unwrap();
    let frame = tcp_frame([10, 0, 0, 1], [10, 0, 0, 2], 4444, 80, 100, true);
    let out = d.capture_step(&mut st, CaptureEvent::Packet { header: header(), data: frame.clone() });
    assert_eq!(out, CaptureOutcome::Sent { category: Matcher::IPv4_TCP, delivered: true });
    match tcp_rx.try_recv().unwrap() {
        ReceivedPacketData::MovingPacket { data, .. } => assert_eq!(data, frame),
        _ => panic!("expected a frame on the TCP channel"),
    }
}

#[test]
fn unregistered_category_is_dropped_silently() {
    let b = devices::new().set_interface("eth0".to_string()).set_state(appstate::new());
    let (mut d, mut st) = b.build().unwrap();
    let out = d.capture_step(&mut st, CaptureEvent::Packet { header: header(), data: udp_frame() });
    assert_eq!(out, CaptureOutcome::DroppedNoSender { category: Matcher::IPv4_UDP });
}

#[test]
fn no_network_layer_is_never_forwarded() {
    // Even with a channel registered under the no-network-layer category,
    // such frames are dropped, never forwarded.
    let (tx, mut rx) = tokio::sync::mpsc::channel::<ReceivedPacketData>(16);
    let b = devices::new()
        .set_interface("eth0".to_string())
        .set_state(appstate::new())
        .set_typed_sender(Matcher::Missing, tx);
    let (mut d, mut st) = b.build().unwrap();
    let out = d.capture_step(
        &mut st,
        CaptureEvent::Packet { header: header(), data: unknown_ethertype_frame() },
    );
    assert_eq!(out, CaptureOutcome::DroppedNoNetworkLayer);
    assert!(rx.try_recv().is_err());
}

#[test]
fn missing_transport_is_dropped_with_protocol_number() {
    let b = devices::new().set_interface("eth0".to_string()).set_state(appstate::new());
    let (mut d, mut st) = b.build().unwrap();
    let out = d.capture_step(
        &mut st,
        CaptureEvent::Packet { header: header(), data: ipv4_frame_with_protocol(89) },
    );
    assert_eq!(out, CaptureOutcome::DroppedNoTransport { v6: false, ip_number: 89 });
}

#[test]
fn malformed_frame_is_dropped_and_loop_continues() {
    let b = devices::new().set_interface("eth0".to_string()).set_state(appstate::new());
    let (mut d, mut st) = b.build().unwrap();
    let out = d.capture_step(&mut st, CaptureEvent::Packet { header: header(), data: vec![1, 2, 3] });
    assert_eq!(out, CaptureOutcome::DroppedMalformed);
    let out = d.capture_step(&mut st, CaptureEvent::CaptureFault);
    assert_eq!(out, CaptureOutcome::FaultLogged);
}

#[test]
fn timeout_tick_refreshes_counters_only_on_change() {
    let b = devices::new().set_interface("eth0".to_string()).set_state(appstate::new());
    let (mut d, mut st) = b.build().unwrap();
    let out = d.capture_step(
        &mut st,
        CaptureEvent::TimeoutTick { total: 5, os_dropped: 1, if_dropped: 0 },
    );
    assert_eq!(out, CaptureOutcome::CountsRefreshed { changed: true });
    assert_eq!(
        st.counters_for(&"eth0".to_string()),
        Some(PacketCount { total: 5, os_dropped: 1, if_dropped: 0 })
    );
    let out = d.capture_step(
        &mut st,
        CaptureEvent::TimeoutTick { total: 5, os_dropped: 1, if_dropped: 0 },
    );
    assert_eq!(out, CaptureOutcome::CountsRefreshed { changed: false });
}

#[test]
fn cancellation_exits_within_one_step_and_forwards_nothing_more() {
    let (tcp_tx, mut tcp_rx) = tokio::sync::mpsc::channel::<ReceivedPacketData>(16);
    let b = devices::new()
        .set_interface("eth0".to_string())
        .set_state(appstate::new())
        .set_typed_sender(Matcher::IPv4_TCP, tcp_tx);
    let (mut d, mut st) = b.build().unwrap();
    // The cancellation signal is observed between poll timeouts: the very
    // next step exits, and the loop that drives the engine stops here, so
    // no further frame is forwarded.
    let out = d.capture_step(&mut st, CaptureEvent::Cancelled);
    assert_eq!(out, CaptureOutcome::Exit);
    assert!(tcp_rx.try_recv().is_err());
}
