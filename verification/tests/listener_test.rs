use psniff_rs::devices::{self, CaptureEvent, CaptureOutcome, FrameHeader, Matcher, ReceivedPacketData};
use psniff_rs::packet_listeners::arp_listener;
use psniff_rs::packet_listeners::ipv4_tcp_listener::{self, FlowKey, SegmentReport};
use psniff_rs::packet_listeners::ipv4_udp_listener;
use psniff_rs::packet_listeners::listener::{BuildError, ListenerEvent, ListenerOutcome};
use psniff_rs::state::appstate;

fn header() -> FrameHeader {
    FrameHeader { ts_sec: 0, ts_usec: 0, caplen: 64, len: 64 }
}

fn tcp_frame(seq: u32, syn: bool) -> Vec<u8> {
    let builder = etherparse::PacketBuilder::ethernet2([1; 6], [2; 6])
        .ipv4([10, 0, 0, 1], [10, 0, 0, 2], 64)
        .tcp(4444, 80, seq, 1024);
    let builder = if syn { builder.syn() } else { builder };
    let mut buf = Vec::new();
    builder.write(&mut buf, &[0xca, 0xfe]).unwrap();
    buf
}

fn udp_frame() -> Vec<u8> {
    let builder = etherparse::PacketBuilder::ethernet2([1; 6], [2; 6])
        .ipv4([10, 0, 0, 9], [10, 0, 0, 8], 64)
        .udp(5353, 53);
    let mut buf = Vec::new();
    builder.write(&mut buf, &[9, 9, 9]).unwrap();
    buf
}

fn arp_frame() -> Vec<u8> {
    let mut v = Vec::new();
    v.extend_from_slice(&[2; 6]);
    v.extend_from_slice(&[1; 6]);
    v.extend_from_slice(&[0x08, 0x06]);
    v.extend_from_slice(&[0x00, 0x01, 0x08, 0x00, 6, 4, 0x00, 0x01]);
    v.extend_from_slice(&[1, 1, 1, 1, 1, 1]);
    v.extend_from_slice(&[10, 0, 0, 1]);
    v.extend_from_slice(&[0, 0, 0, 0, 0, 0]);
    v.extend_from_slice(&[10, 0, 0, 2]);
    v
}

#[test]
fn listener_build_without_receiver_fails() {
    assert!(matches!(arp_listener::new().build(), Err(BuildError::NoReceiver)));
    assert!(matches!(ipv4_tcp_listener::new().build(), Err(BuildError::NoReceiver)));
    assert!(matches!(ipv4_udp_listener::new().build(), Err(BuildError::NoReceiver)));
}

#[test]
fn cancellation_stops_every_listener() {
    let (_tx, rx) = tokio::sync::mpsc::channel::<ReceivedPacketData>(4);
    let (mut tcp, _rx) = ipv4_tcp_listener::new().set_receiver(rx).build().unwrap();
    assert!(matches!(tcp.on_event(ListenerEvent::Cancelled), ListenerOutcome::Stop));
    let (_tx, rx) = tokio::sync::mpsc::channel::<ReceivedPacketData>(4);
    let (mut arp, _rx) = arp_listener::new().set_receiver(rx).build().unwrap();
    assert!(matches!(arp.on_event(ListenerEvent::Cancelled), ListenerOutcome::Stop));
    let (_tx, rx) = tokio::sync::mpsc::channel::<ReceivedPacketData>(4);
    let (mut udp, _rx) = ipv4_udp_listener::new().set_receiver(rx).build().unwrap();
    assert!(matches!(udp.on_event(ListenerEvent::Cancelled), ListenerOutcome::Stop));
}

#[test]
fn decode_failure_keeps_the_loop_alive() {
    let (_tx, rx) = tokio::sync::mpsc::channel::<ReceivedPacketData>(4);
    let (mut tcp, _rx) = ipv4_tcp_listener::new().set_receiver(rx).build().unwrap();
    let ev = ListenerEvent::Item(ReceivedPacketData::MovingPacket {
        header: header(),
        data: vec![0, 1],
    });
    assert!(matches!(tcp.on_event(ev), ListenerOutcome::DecodeFailed));
    assert_eq!(tcp.packet_count(), 0);
}

#[test]
fn udp_listener_emits_structured_diagnostic() {
    let (_tx, rx) = tokio::sync::mpsc::channel::<ReceivedPacketData>(4);
    let (mut udp, _rx) = ipv4_udp_listener::new().set_receiver(rx).build().unwrap();
    let ev = ListenerEvent::Item(ReceivedPacketData::MovingPacket {
        header: header(),
        data: udp_frame(),
    });
    match udp.on_event(ev) {
        ListenerOutcome::Handled(d) => {
            assert_eq!(d.src_ip, u32::from_be_bytes([10, 0, 0, 9]));
            assert_eq!(d.dst_ip, u32::from_be_bytes([10, 0, 0, 8]));
            assert_eq!(d.src_port, 5353);
            assert_eq!(d.dst_port, 53);
            assert_eq!(d.payload_len, 3);
        },
        other => panic!("expected a handled datagram, got {:?}", other),
    }
}

#[test]
fn three_frames_scenario() {
    // Capture three frames: one ARP, one IPv4/TCP SYN (seq=100), one
    // IPv4/TCP on the same flow (seq=101); run them through the engine and
    // both listeners.
    let (arp_tx, arp_rx) = tokio::sync::mpsc::channel::<ReceivedPacketData>(16);
    let (tcp_tx, tcp_rx) = tokio::sync::mpsc::channel::<ReceivedPacketData>(16);
    let b = devices::new()
        .set_interface("eth0".to_string())
        .set_state(appstate::new())
        .set_typed_sender(Matcher::Arp, arp_tx)
        .set_typed_sender(Matcher::IPv4_TCP, tcp_tx);
    let (mut d, mut st) = b.build().unwrap();

    for (frame, want) in [
        (arp_frame(), Matcher::Arp),
        (tcp_frame(100, true), Matcher::IPv4_TCP),
        (tcp_frame(101, false), Matcher::IPv4_TCP),
    ] {
        let out = d.capture_step(&mut st, CaptureEvent::Packet { header: header(), data: frame });
        assert_eq!(out, CaptureOutcome::Sent { category: want, delivered: true });
    }

    let (mut arp, mut arp_rx) = arp_listener::new().set_receiver(arp_rx).build().unwrap();
    while let Ok(item) = arp_rx.try_recv() {
        arp.on_event(ListenerEvent::Item(item));
    }
    assert_eq!(arp.packet_count(), 1);

    let (mut tcp, mut tcp_rx) = ipv4_tcp_listener::new().set_receiver(tcp_rx).build().unwrap();
    let mut reports = Vec::new();
    while let Ok(item) = tcp_rx.try_recv() {
        match tcp.on_event(ListenerEvent::Item(item)) {
            ListenerOutcome::Handled(diag) => reports.push((diag.report, diag.seq, diag.syn)),
            other => panic!("expected a handled segment, got {:?}", other),
        }
    }
    assert_eq!(
        reports,
        vec![(SegmentReport::NewSession, 100, true), (SegmentReport::Progressed, 101, false)]
    );

    assert_eq!(tcp.session_count(), 1);
    let key = FlowKey {
        src_ip: u32::from_be_bytes([10, 0, 0, 1]),
        src_port: 4444,
        dst_ip: u32::from_be_bytes([10, 0, 0, 2]),
        dst_port: 80,
    };
    let session = tcp.session(&key).unwrap();
    assert_eq!(session.last_seq, 101);
    assert_eq!(session.count, 2);
}
