use rsts::mpeg::packet::{
    adaptation_field, clear_discontinuity, continuity_counter, has_adaptation_field,
    has_discontinuity, has_payload, has_pcr, has_random_access, has_stream_priority,
    has_transport_error, has_transport_priority, has_unit_start, null_packet, payload, pcr,
    pcr_ext, pid, scrambling, set_adaptation_field, set_continuity_counter, set_discontinuity,
    set_payload, set_pcr, set_pcr_ext, set_pid, set_random_access, set_scrambling,
    set_stream_priority, set_transport_error, set_transport_priority, set_unit_start,
    zero_continuity_counter, Packet, NULL_PACKET_PID, PACKET_SIZE, PAYLOAD_SIZE,
    SCRAMBLING_CLEAR, SCRAMBLING_EVEN, SCRAMBLING_ODD, SYNC_BYTE,
};

#[test]
fn packet_test_null_packet() {
    let packet: Packet = null_packet();
    assert_eq!(packet[0], SYNC_BYTE);
    assert_eq!(pid(&packet), NULL_PACKET_PID);
    assert_eq!(continuity_counter(&packet), 0);
    let payload = payload(&packet);
    assert!(has_payload(&packet));
    for i in 0..PAYLOAD_SIZE {
        assert_eq!(payload[i], 0xff);
    }
    assert!(has_discontinuity(&packet));
    assert!(!has_adaptation_field(&packet));
    assert!(!has_adaptation_field(&packet));
}

#[test]
fn packet_test_transport_error() {
    let mut packet = null_packet();
    set_transport_error(&mut packet);
    assert!(has_transport_error(&packet));
}

#[test]
fn packet_test_unit_start() {
    let mut packet = null_packet();
    set_unit_start(&mut packet);
    assert!(has_unit_start(&packet));
}

#[test]
fn packet_test_transport_priority() {
    let mut packet = null_packet();
    set_transport_priority(&mut packet);
    assert!(has_transport_priority(&packet));
}

#[test]
fn packet_test_payload() {
    let mut packet = null_packet();
    set_payload(&mut packet);
    assert!(has_payload(&packet));
}

#[test]
fn packet_test_pid() {
    let mut packet = null_packet();
    for p in 0..8191 {
        set_pid(&mut packet, p);
        assert_eq!(pid(&packet), p);
    }
}

#[test]
fn packet_test_continuity_counter() {
    let mut packet = null_packet();
    for cc in 0..15 {
        set_continuity_counter(&mut packet, cc);
        assert_eq!(continuity_counter(&packet), cc);
    }
}

#[test]
fn packet_test_zero_continuity_counter() {
    let mut packet = null_packet();
    set_continuity_counter(&mut packet, 5);
    assert_eq!(continuity_counter(&packet), 5);
    zero_continuity_counter(&mut packet);
    assert_eq!(continuity_counter(&packet), 0);
}

#[test]
fn packet_test_adaptation_field_0() {
    let mut packet = null_packet();
    let length: u8 = 0;
    set_adaptation_field(&mut packet, length);
    assert!(has_adaptation_field(&packet));
    assert_eq!(adaptation_field(&packet), length);
    assert_eq!(packet[5], 0xff);
}

#[test]
fn packet_test_adaptation_field_1() {
    let mut packet = null_packet();
    let length: u8 = 1;
    set_adaptation_field(&mut packet, length);
    assert!(has_adaptation_field(&packet));
    assert_eq!(adaptation_field(&packet), length);
    assert_eq!(packet[5], 0x00);
}

#[test]
fn packet_test_adaptation_field_2() {
    let mut packet = null_packet();
    let length: u8 = 2;
    set_adaptation_field(&mut packet, length);
    assert!(has_adaptation_field(&packet));
    assert_eq!(adaptation_field(&packet), length);
    assert_eq!(packet[5], 0x00);
    for i in 6..PACKET_SIZE {
        assert_eq!(packet[i], 0xff);
    }
}

#[test]
fn packet_test_scrambling_clear() {
    let mut packet = null_packet();
    set_scrambling(&mut packet, SCRAMBLING_CLEAR);
    assert_eq!(scrambling(&packet), SCRAMBLING_CLEAR);
}

#[test]
fn packet_test_scrambling_even() {
    let mut packet = null_packet();
    set_scrambling(&mut packet, SCRAMBLING_EVEN);
    assert_eq!(scrambling(&packet), SCRAMBLING_EVEN);
}

#[test]
fn packet_test_scrambling_odd() {
    let mut packet = null_packet();
    set_scrambling(&mut packet, SCRAMBLING_ODD);
    assert_eq!(scrambling(&packet), SCRAMBLING_ODD);
}

#[test]
fn packet_test_discontinuity() {
    let mut packet = null_packet();
    set_discontinuity(&mut packet);
    assert!(has_discontinuity(&packet));
    clear_discontinuity(&mut packet);
    assert!(!has_discontinuity(&packet));
}

#[test]
fn packet_test_random_access() {
    let mut packet = null_packet();
    set_random_access(&mut packet);
    assert!(has_random_access(&packet));
}

#[test]
fn packet_test_stream_priority() {
    let mut packet = null_packet();
    set_stream_priority(&mut packet);
    assert!(has_stream_priority(&packet));
}

#[test]
fn packet_test_pcr() {
    let mut packet = null_packet();
    let p: u64 = 23647;
    set_pcr(&mut packet, p);
    assert!(has_pcr(&packet));
    assert_eq!(pcr(&packet), p);
}

#[test]
fn packet_test_pcr_ext() {
    let mut packet = null_packet();
    let ext: u16 = 137;
    set_pcr_ext(&mut packet, ext);
    assert_eq!(pcr_ext(&packet), ext);
}
