use raxupf::checksum::{csum_add, csum_fold_u32, csum_fold_u64, csum_replace4};
use raxupf::net::{ipv4_csum, read_bytes, write_bytes, Ipv4Hdr, UdpHdr};

const SAMPLE_HDR: [u8; 20] = [
    0x45, 0x00, 0x00, 0x73, 0x00, 0x00, 0x40, 0x00, 0x40, 0x11, 0x00, 0x00, 0xc0, 0xa8, 0x00,
    0x01, 0xc0, 0xa8, 0x00, 0xc7,
];

#[test]
fn csum_add_carries_around() {
    assert_eq!(csum_add(1, 2), 3);
    assert_eq!(csum_add(0xffff_ffff, 1), 1);
    assert_eq!(csum_add(0xffff_ffff, 0xffff_ffff), 0xffff_ffff);
}

#[test]
fn csum_fold_values() {
    assert_eq!(csum_fold_u32(0x1234_5678), 0x9753);
    assert_eq!(csum_fold_u32(0), 0xffff);
    assert_eq!(csum_fold_u64(0x1_0000_fffe), 0);
    assert_eq!(csum_fold_u64(0), 0xffff);
}

#[test]
fn fold_complements_the_sum() {
    // the sum plus its folded complement is a multiple of 0xffff
    for s in [0u64, 1, 0xfffe, 0x1_2345, 0xdead_beef, 0xffff_ffff_ffff] {
        let f = csum_fold_u64(s) as u64;
        assert_eq!((s + f) % 0xffff, 0);
    }
}

#[test]
fn ipv4_header_checksum_known_value() {
    assert_eq!(ipv4_csum(&SAMPLE_HDR), 0xb861);
    let mut with_sum = SAMPLE_HDR;
    with_sum[10] = 0xb8;
    with_sum[11] = 0x61;
    // a header with its checksum in place sums to zero
    assert_eq!(ipv4_csum(&with_sum), 0);
}

#[test]
fn csum_replace4_incremental_update() {
    assert_eq!(csum_replace4(0x1234, 0x0a00_0001, 0x0a00_0002), 0x1233);
    // replacing an address in a summed header keeps the header's sum right
    let mut hdr = SAMPLE_HDR;
    hdr[10] = 0xb8;
    hdr[11] = 0x61;
    let old_src = u32::from_be_bytes([hdr[12], hdr[13], hdr[14], hdr[15]]);
    let new_src: u32 = 0x0a0b_0c0d;
    let new_sum = csum_replace4(0xb861, old_src, new_src);
    hdr[12..16].copy_from_slice(&new_src.to_be_bytes());
    hdr[10..12].copy_from_slice(&new_sum.to_be_bytes());
    assert_eq!(ipv4_csum(&hdr), 0);
}

#[test]
fn ipv4_header_bytes_roundtrip() {
    let h = Ipv4Hdr::from_bytes(&SAMPLE_HDR, 0);
    assert_eq!(h.vihl, 0x45);
    assert_eq!(h.tot_len(), 0x73);
    assert_eq!(h.proto(), 0x11);
    assert_eq!(h.src_addr(), 0xc0a8_0001);
    assert_eq!(h.dst_addr(), 0xc0a8_00c7);
    assert_eq!(h.to_bytes(), SAMPLE_HDR.to_vec());
}

#[test]
fn ipv4_header_setters() {
    let mut h = Ipv4Hdr::from_bytes(&[0u8; 20], 0);
    h.set_vihl(4, 20);
    assert_eq!(h.vihl, 0x45);
    h.set_tos(46, 1);
    assert_eq!(h.tos, 0xb9);
    h.set_frags(4, 0);
    assert_eq!(h.frags, 0x8000);
    h.set_frags(2, 0x1fff);
    assert_eq!(h.frags, 0x5fff);
    h.set_src_addr(0x0102_0304);
    h.set_dst_addr(0x0506_0708);
    h.set_checksum(0xabcd);
    let b = h.to_bytes();
    assert_eq!(&b[10..20], &[0xab, 0xcd, 1, 2, 3, 4, 5, 6, 7, 8]);
}

#[test]
fn udp_header_bytes() {
    let mut u = UdpHdr::from_bytes(&[0u8; 8], 0);
    u.set_src_port(2152);
    u.set_dst_port(53);
    u.set_len(0x1234);
    u.set_checksum(0);
    assert_eq!(u.to_bytes(), vec![0x08, 0x68, 0x00, 0x35, 0x12, 0x34, 0, 0]);
    assert!(UdpHdr::from_bytes(&u.to_bytes(), 0) == u);
}

#[test]
fn read_and_write_bytes() {
    let mut pkt = vec![0u8, 1, 2, 3, 4, 5];
    assert_eq!(read_bytes(&pkt, 2, 3), vec![2, 3, 4]);
    write_bytes(&mut pkt, 4, &[9, 9]);
    assert_eq!(pkt, vec![0, 1, 2, 3, 9, 9]);
}
