use raxupf::gtpu::{
    read_be16, read_be32, write_be16, write_be32, GtpuExtensionType, GtpuHdr, GtpuMessageType,
    GtpuOptFields,
};
use raxupf::pdu::{DLPduSession, GtpuDLPduExtensionHdr};

#[test]
fn big_endian_helpers() {
    assert_eq!(read_be16(0x12, 0x34), 0x1234);
    assert_eq!(read_be32(0xde, 0xad, 0xbe, 0xef), 0xdead_beef);
    assert_eq!(write_be16(0x0868), [0x08, 0x68]);
    assert_eq!(write_be32(0x0102_0304), [1, 2, 3, 4]);
    let [a, b, c, d] = write_be32(0xcafe_babe);
    assert_eq!(read_be32(a, b, c, d), 0xcafe_babe);
}

#[test]
fn message_type_values_roundtrip() {
    let all = [
        (GtpuMessageType::EchoRequest, 1u8),
        (GtpuMessageType::EchoResponse, 2),
        (GtpuMessageType::ErrorIndication, 26),
        (GtpuMessageType::SupportedExtensionHeaders, 31),
        (GtpuMessageType::TunnelStatus, 253),
        (GtpuMessageType::EndMarker, 254),
        (GtpuMessageType::GPdu, 255),
    ];
    for (t, v) in all {
        assert_eq!(u8::from(t), v);
        assert_eq!(GtpuMessageType::try_from(v), Ok(t));
    }
    assert_eq!(GtpuMessageType::try_from(3u8), Err(3));
}

#[test]
fn extension_type_values_roundtrip() {
    for (t, v) in [
        (GtpuExtensionType::NoMoreExtensions, 0u8),
        (GtpuExtensionType::UdpPort, 0x40),
        (GtpuExtensionType::PduSessionContainer, 0x85),
    ] {
        assert_eq!(u8::from(t), v);
        assert_eq!(GtpuExtensionType::try_from(v), Ok(t));
    }
    assert_eq!(GtpuExtensionType::try_from(0x41u8), Err(0x41));
}

#[test]
fn gtpu_header_fields() {
    let bytes = [0x34u8, 0xff, 0x00, 0x24, 0x00, 0x00, 0x04, 0xd2];
    let h = GtpuHdr::from_bytes(&bytes, 0);
    assert_eq!(h.version(), 1);
    assert_eq!(h.protocol_type(), 1);
    assert!(h.has_flags());
    assert!(h.has_extension_header());
    assert!(!h.has_sequence_number());
    assert!(!h.has_npdu_number());
    assert_eq!(h.message_type(), Ok(GtpuMessageType::GPdu));
    assert_eq!(h.message_length(), 0x24);
    assert_eq!(h.teid(), 1234);
    assert_eq!(h.to_bytes(), bytes.to_vec());
}

#[test]
fn gtpu_header_setters() {
    let mut h = GtpuHdr::from_bytes(&[0u8; 8], 0);
    h.set_version(1);
    h.set_protocol_type(1);
    h.set_extension_header(1);
    h.set_message_type(1);
    h.set_message_length(0x0102);
    h.set_teid(0xaabb_ccdd);
    assert_eq!(h.to_bytes(), vec![0x34, 0x01, 0x01, 0x02, 0xaa, 0xbb, 0xcc, 0xdd]);
    assert_eq!(h.message_type(), Ok(GtpuMessageType::EchoRequest));
}

#[test]
fn gtpu_optional_fields() {
    let mut o = GtpuOptFields::from_bytes(&[9u8; 4], 0);
    // the sequence number is written over all four octets
    o.set_sequence_number(0x0a0b);
    assert_eq!(o.to_bytes(), vec![0, 0, 0x0a, 0x0b]);
    o.set_sequence_number(0x0a0b_0000);
    o.set_npdu_number(7);
    o.set_next_extension_header(0x85);
    assert_eq!(o.to_bytes(), vec![0x0a, 0x0b, 7, 0x85]);
    assert_eq!(o.sequence_number(), 0x0a0b_0785);
    assert_eq!(o.npdu_number(), 7);
    assert_eq!(o.next_extension_header_type(), Ok(GtpuExtensionType::PduSessionContainer));
}

#[test]
fn dl_pdu_session_container() {
    let mut content = DLPduSession::default();
    content.set_pdu_type(0);
    content.set_qfi(9);
    assert_eq!(content.qfi(), 9);
    assert_eq!(content.flags_qfi, 9);
    assert!(!content.has_ppp());
    assert!(!content.has_rqi());
    // PPP and RQI are kept by the QFI setter and set on their own
    content.set_ppp(1);
    assert!(content.has_ppp());
    assert_eq!(content.qfi(), 9);
    assert_eq!(content.pdu_type(), 0);
    content.set_rqi(1);
    content.set_qfi(5);
    assert_eq!(content.flags_qfi, 0xC5);
    content.set_ppp(0);
    assert!(!content.has_ppp());
    assert!(content.has_rqi());
    assert_eq!(content.flags_qfi, 0x45);
    assert_eq!(content.pt_flags, 0);
    content.set_rqi(0);
    content.set_qfi(9);
    let mut h = GtpuDLPduExtensionHdr::from_bytes(&[0u8; 8], 0);
    h.set_length(1);
    h.set_content(content);
    h.set_next_extension_header(0);
    assert_eq!(h.length(), 1);
    assert_eq!(h.to_bytes(), vec![0, 0, 0, 1, 0, 9, 0]);
}
