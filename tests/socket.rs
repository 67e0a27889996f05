use quinn_runtime::addr::{IpAddress, SocketAddress};
use quinn_runtime::meta::{datagrams_in, split_for_send, EcnCodepoint, RecvMeta, Transmit, UdpState};
use quinn_runtime::socket::{batch_outcome, Blocked, IoError, IoPoll, SendProgress};

fn loopback(port: u16) -> SocketAddress {
    SocketAddress::v4(127, 0, 0, 1, port)
}

fn segmented(len: usize, size: Option<usize>) -> Transmit {
    Transmit {
        destination: loopback(4433),
        ecn: Some(EcnCodepoint::Ect0),
        contents: (0..len).map(|i| i as u8).collect(),
        segment_size: size,
    }
}

#[test]
fn address_v4_value() {
    let a = loopback(4433);
    assert_eq!(a.ip, IpAddress::V4(0x7f00_0001));
    assert_eq!(a.port, 4433);
    assert!(a.is_ipv4());
    assert!(!SocketAddress::new(IpAddress::V6(1), 1).is_ipv4());
}

#[test]
fn ecn_bits_round_trip() {
    for e in [EcnCodepoint::Ect0, EcnCodepoint::Ect1, EcnCodepoint::Ce] {
        assert_eq!(EcnCodepoint::from_bits(e.bits()), Some(e));
    }
    assert_eq!(EcnCodepoint::Ect0.bits(), 0b10);
    assert_eq!(EcnCodepoint::from_bits(0), None);
    assert_eq!(EcnCodepoint::from_bits(4), None);
}

#[test]
fn datagram_counts() {
    assert_eq!(datagrams_in(10, 4), 3);
    assert_eq!(datagrams_in(8, 4), 2);
    assert_eq!(datagrams_in(0, 4), 1);
    assert_eq!(datagrams_in(3, 4), 1);
}

#[test]
fn recv_meta_datagram_count() {
    let m = RecvMeta { addr: loopback(1), dst_ip: None, ecn: None, len: 10, stride: Some(4) };
    assert_eq!(m.datagram_count(), 3);
    let single = RecvMeta { stride: None, ..m };
    assert_eq!(single.datagram_count(), 1);
    let full = RecvMeta { stride: Some(10), ..m };
    assert_eq!(full.datagram_count(), 1);
}

#[test]
fn split_degrades_without_offload() {
    let t = segmented(10, Some(4));
    let pieces = split_for_send(&t, &UdpState { max_gso_segments: 1, gro_segments: 1 });
    assert_eq!(pieces.len(), 3);
    assert_eq!(pieces[0].contents, vec![0, 1, 2, 3]);
    assert_eq!(pieces[1].contents, vec![4, 5, 6, 7]);
    assert_eq!(pieces[2].contents, vec![8, 9]);
    for p in &pieces {
        assert_eq!(p.destination, t.destination);
        assert_eq!(p.ecn, t.ecn);
        assert_eq!(p.segment_size, None);
    }
}

#[test]
fn split_keeps_transmit_that_offload_carries() {
    let t = segmented(10, Some(4));
    let pieces = split_for_send(&t, &UdpState { max_gso_segments: 3, gro_segments: 1 });
    assert_eq!(pieces.len(), 1);
    assert_eq!(pieces[0].contents, t.contents);
    assert_eq!(pieces[0].segment_size, Some(4));

    let plain = segmented(10, None);
    let pieces = split_for_send(&plain, &UdpState { max_gso_segments: 1, gro_segments: 1 });
    assert_eq!(pieces.len(), 1);
    assert_eq!(pieces[0].contents, plain.contents);
}

#[test]
fn batch_outcome_counts_progress() {
    assert_eq!(batch_outcome(2, 5, Blocked::WouldBlock), IoPoll::Ready(Ok(2)));
    assert_eq!(batch_outcome(5, 5, Blocked::WouldBlock), IoPoll::Ready(Ok(5)));
    assert_eq!(batch_outcome(1, 5, Blocked::Failed(IoError { code: 111 })), IoPoll::Ready(Ok(1)));
}

#[test]
fn batch_outcome_without_progress() {
    assert_eq!(batch_outcome(0, 5, Blocked::WouldBlock), IoPoll::Pending);
    let e = IoError { code: 101 };
    assert_eq!(batch_outcome(0, 5, Blocked::Failed(e)), IoPoll::Ready(Err(e)));
    assert_eq!(batch_outcome(0, 0, Blocked::WouldBlock), IoPoll::Ready(Ok(0)));
}

#[test]
fn send_progress_drains_remainder() {
    let mut p = SendProgress::new(5);
    assert_eq!(p.remaining(), 5);
    p.record(2);
    assert_eq!(p.remaining(), 3);
    assert!(!p.is_drained());
    p.record(1);
    p.record(2);
    assert_eq!(p.remaining(), 0);
    assert!(p.is_drained());
}

#[test]
fn recv_meta_datagram_bounds() {
    let m = RecvMeta { addr: loopback(1), dst_ip: None, ecn: None, len: 10, stride: Some(4) };
    assert_eq!(m.datagram_bounds(0), (0, 4));
    assert_eq!(m.datagram_bounds(1), (4, 8));
    assert_eq!(m.datagram_bounds(2), (8, 10));
    let single = RecvMeta { stride: None, ..m };
    assert_eq!(single.datagram_bounds(0), (0, 10));
    let empty = RecvMeta { len: 0, stride: None, ..m };
    assert_eq!(empty.datagram_count(), 1);
    assert_eq!(empty.datagram_bounds(0), (0, 0));
}
