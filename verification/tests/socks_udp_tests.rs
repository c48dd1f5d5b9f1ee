use relay_core::{CtlProbe, ProxySocks5UdpConnectRemoteRecv, UdpCopyRemoteError, MAX_UDP_HDR_LEN};

fn receiver(end_on_control_closed: bool) -> ProxySocks5UdpConnectRemoteRecv<(), ()> {
    ProxySocks5UdpConnectRemoteRecv::new((), (), end_on_control_closed)
}

fn ipv4_packet(payload: &[u8]) -> Vec<u8> {
    let mut p = vec![0, 0, 0, 1, 192, 0, 2, 1, 0, 53];
    p.extend_from_slice(payload);
    p
}

#[test]
fn header_size_constant() {
    let rx = receiver(false);
    assert_eq!(rx.max_hdr_len(), 262);
    assert_eq!(rx.max_hdr_len(), 262);
    assert_eq!(MAX_UDP_HDR_LEN, 256 + 4 + 2);
}

#[test]
fn liveness_eof_tolerated_before_traffic() {
    let mut rx = receiver(false);
    assert!(rx.needs_ctl_probe());
    assert!(rx.check_ctl_stream(CtlProbe::Read(0)).is_ok());
    // probing is now off for good
    assert!(!rx.needs_ctl_probe());
    assert!(rx.check_ctl_stream(CtlProbe::Read(0)).is_ok());
}

#[test]
fn liveness_eof_enforced_when_requested() {
    let mut rx = receiver(true);
    let e = rx.check_ctl_stream(CtlProbe::Read(0)).expect_err("EOF must close");
    assert!(matches!(e, UdpCopyRemoteError::RemoteSessionClosed));
}

#[test]
fn liveness_eof_enforced_after_traffic() {
    let mut rx = receiver(false);
    let pkt = ipv4_packet(b"hi");
    let (off, n) = rx.decapsulate_packet(&pkt, pkt.len()).expect("valid packet");
    assert_eq!((off, n), (10, 12));
    let e = rx.check_ctl_stream(CtlProbe::Read(0)).expect_err("EOF after traffic must close");
    assert!(matches!(e, UdpCopyRemoteError::RemoteSessionClosed));
}

#[test]
fn ctl_probe_variants() {
    let mut rx = receiver(false);
    assert!(rx.check_ctl_stream(CtlProbe::WouldBlock).is_ok());
    assert!(rx.check_ctl_stream(CtlProbe::Read(1)).is_ok());
    assert!(rx.check_ctl_stream(CtlProbe::Read(3)).is_ok());
    let e = rx.check_ctl_stream(CtlProbe::Read(4)).expect_err("full probe buffer");
    assert!(matches!(e, UdpCopyRemoteError::RemoteSessionError(_)));
    let e = rx
        .check_ctl_stream(CtlProbe::Failed(String::from("reset")))
        .expect_err("probe failure");
    assert!(matches!(e, UdpCopyRemoteError::RemoteSessionError(_)));
}

#[test]
fn decapsulate_address_forms() {
    let mut rx = receiver(false);
    let pkt = ipv4_packet(b"payload");
    assert_eq!(rx.decapsulate_packet(&pkt, pkt.len()).unwrap().0, 10);

    let mut v6 = vec![0, 0, 0, 4];
    v6.extend_from_slice(&[0; 16]);
    v6.extend_from_slice(&[0, 53]);
    v6.extend_from_slice(b"x");
    assert_eq!(rx.decapsulate_packet(&v6, v6.len()).unwrap().0, 22);

    let mut dom = vec![0, 0, 0, 3, 5];
    dom.extend_from_slice(b"a.org");
    dom.extend_from_slice(&[0, 53]);
    dom.extend_from_slice(b"data");
    assert_eq!(rx.decapsulate_packet(&dom, dom.len()).unwrap().0, 12);
}

#[test]
fn decapsulate_malformed() {
    let mut rx = receiver(false);
    // fragmented
    let e = rx.decapsulate_packet(&[0, 0, 1, 1, 0, 0, 0, 0, 0, 0], 10).unwrap_err();
    assert!(matches!(e, UdpCopyRemoteError::InvalidPacket(_)));
    // too short
    let e = rx.decapsulate_packet(&[0, 0, 0], 3).unwrap_err();
    assert!(matches!(e, UdpCopyRemoteError::InvalidPacket(_)));
    // unknown address type
    let e = rx.decapsulate_packet(&[0, 0, 0, 9, 0, 0, 0, 0, 0, 0], 10).unwrap_err();
    assert!(matches!(e, UdpCopyRemoteError::InvalidPacket(_)));
    // truncated address
    let e = rx.decapsulate_packet(&[0, 0, 0, 1, 1, 2], 6).unwrap_err();
    assert!(matches!(e, UdpCopyRemoteError::InvalidPacket(_)));
    // a failed parse must not turn liveness enforcement on
    assert!(rx.check_ctl_stream(CtlProbe::Read(0)).is_ok());
}

#[test]
fn batch_matches_single_packet_parsing() {
    let mut rx = receiver(false);
    let a = ipv4_packet(b"one");
    let mut b = vec![0, 0, 0, 3, 3];
    b.extend_from_slice(b"a.b");
    b.extend_from_slice(&[0, 1]);
    b.extend_from_slice(b"two");
    let metas = rx.decapsulate_batch(&vec![a.clone(), b.clone()]).expect("both valid");
    assert_eq!(metas.len(), 2);
    assert_eq!((metas[0].offset, metas[0].len), (10, a.len()));
    assert_eq!((metas[1].offset, metas[1].len), (10, b.len()));

    let mut single = receiver(false);
    let (off_a, _) = single.decapsulate_packet(&a, a.len()).unwrap();
    let (off_b, _) = single.decapsulate_packet(&b, b.len()).unwrap();
    assert_eq!(off_a, metas[0].offset);
    assert_eq!(off_b, metas[1].offset);
}

#[test]
fn batch_fails_whole_on_one_bad_header() {
    let mut rx = receiver(false);
    let good = ipv4_packet(b"ok");
    let bad = vec![0, 0, 7, 1, 0, 0, 0, 0, 0, 0];
    let e = rx.decapsulate_batch(&vec![good, bad]).unwrap_err();
    assert!(matches!(e, UdpCopyRemoteError::InvalidPacket(_)));
    // the failed batch must not turn liveness enforcement on
    assert!(rx.check_ctl_stream(CtlProbe::Read(0)).is_ok());
}

#[test]
fn batch_turns_liveness_on() {
    let mut rx = receiver(false);
    let pkt = ipv4_packet(b"go");
    rx.decapsulate_batch(&vec![pkt]).expect("valid");
    let e = rx.check_ctl_stream(CtlProbe::Read(0)).expect_err("EOF after batch traffic");
    assert!(matches!(e, UdpCopyRemoteError::RemoteSessionClosed));
}
