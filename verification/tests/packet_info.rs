use rsts::mpeg::packet::{
    NULL_PACKET_PID, PAYLOAD_SIZE, SCRAMBLING_CLEAR, SCRAMBLING_EVEN, SCRAMBLING_ODD,
};
use rsts::mpeg::packet_info::PacketInfo;

#[test]
fn packet_info_test_null_packet() {
    let p: PacketInfo = PacketInfo::null_packet();
    assert_eq!(p.pid(), NULL_PACKET_PID);
    assert_eq!(p.continuity_counter(), 0);
    let payload = p.payload();
    assert!(p.has_payload());
    for i in 0..PAYLOAD_SIZE {
        assert_eq!(payload[i], 0xff);
    }
    assert!(p.has_discontinuity());
    assert!(!p.has_adaptation_field());
    assert!(!p.has_adaptation_field());
}

#[test]
fn packet_info_test_transport_error() {
    let mut p = PacketInfo::null_packet();
    p.set_transport_error();
    assert!(p.has_transport_error());
}

#[test]
fn packet_info_test_unit_start() {
    let mut p = PacketInfo::null_packet();
    p.set_unit_start();
    assert!(p.has_unit_start());
}

#[test]
fn packet_info_test_transport_priority() {
    let mut p = PacketInfo::null_packet();
    p.set_transport_priority();
    assert!(p.has_transport_priority());
}

#[test]
fn packet_info_test_payload() {
    let mut p = PacketInfo::null_packet();
    p.set_payload();
    assert!(p.has_payload());
}

#[test]
fn packet_info_test_pid() {
    let mut p = PacketInfo::null_packet();
    for pid in 0..8191 {
        p.set_pid(pid);
        assert_eq!(p.pid(), pid);
    }
}

#[test]
fn packet_info_test_continuity_counter() {
    let mut p = PacketInfo::null_packet();
    for cc in 0..15 {
        p.set_continuity_counter(cc);
        assert_eq!(p.continuity_counter(), cc);
    }
}

#[test]
fn packet_info_test_zero_continuity_counter() {
    let mut packet = PacketInfo::null_packet();
    packet.set_continuity_counter(5);
    assert_eq!(packet.continuity_counter(), 5);
    packet.zero_continuity_counter();
    assert_eq!(packet.continuity_counter(), 0);
}

#[test]
fn packet_info_test_adaptation_field_0() {
    let mut p = PacketInfo::null_packet();
    let length: u8 = 0;
    p.set_adaptation_field(length);
    assert!(p.has_adaptation_field());
    assert_eq!(p.adaptation_field(), length);
}

#[test]
fn packet_info_test_adaptation_field_1() {
    let mut p = PacketInfo::null_packet();
    let length: u8 = 1;
    p.set_adaptation_field(length);
    assert!(p.has_adaptation_field());
    assert_eq!(p.adaptation_field(), length);
}

#[test]
fn packet_info_test_adaptation_field_2() {
    let mut p = PacketInfo::null_packet();
    let length: u8 = 2;
    p.set_adaptation_field(length);
    assert!(p.has_adaptation_field());
    assert_eq!(p.adaptation_field(), length);
}

#[test]
fn packet_info_test_scrambling_clear() {
    let mut p = PacketInfo::null_packet();
    p.set_scrambling(SCRAMBLING_CLEAR);
    assert_eq!(p.scrambling(), SCRAMBLING_CLEAR);
}

#[test]
fn packet_info_test_scrambling_even() {
    let mut p = PacketInfo::null_packet();
    p.set_scrambling(SCRAMBLING_EVEN);
    assert_eq!(p.scrambling(), SCRAMBLING_EVEN);
}

#[test]
fn packet_info_test_scrambling_odd() {
    let mut p = PacketInfo::null_packet();
    p.set_scrambling(SCRAMBLING_ODD);
    assert_eq!(p.scrambling(), SCRAMBLING_ODD);
}

#[test]
fn packet_info_test_discontinuity() {
    let mut p = PacketInfo::null_packet();
    p.set_discontinuity();
    assert!(p.has_discontinuity());
    p.clear_discontinuity();
    assert!(!p.has_discontinuity());
}

#[test]
fn packet_info_test_random_access() {
    let mut p = PacketInfo::null_packet();
    p.set_random_access();
    assert!(p.has_random_access());
}

#[test]
fn packet_info_test_stream_priority() {
    let mut p = PacketInfo::null_packet();
    p.set_stream_priority();
    assert!(p.has_stream_priority());
}

#[test]
fn packet_info_test_pcr() {
    let mut p = PacketInfo::null_packet();
    let pcr: u64 = 23647;
    p.set_pcr(pcr);
    assert!(p.has_pcr());
    assert_eq!(p.pcr(), pcr);
}

#[test]
fn packet_info_test_pcr_ext() {
    let mut p = PacketInfo::null_packet();
    let ext: u16 = 137;
    p.set_pcr_ext(ext);
    assert_eq!(p.pcr_ext(), ext);
}
