use raxupf::iprule_parser::{
    parse_action, parse_address, parse_direction, parse_port_range, parse_protocol,
    parse_sdf_filter, Action, Addr, Direction, Protocol, SdfFilter, SdfFilterError, TCP, UDP,
};
use raxupf::sdf::{PortRange, SdfFilterPod};

fn chars(s: &str) -> Vec<char> {
    s.chars().collect()
}

fn rest(c: &[char], n: usize) -> String {
    c[n..].iter().collect()
}

#[test]
fn action() {
    let flow_description = chars("permit out ip from any to assigned");
    let (action, _) = parse_action(&flow_description);
    assert_eq!(action, Action::Permit);

    let flow_description = chars("deny out ip from any to assigned");
    let (action, n) = parse_action(&flow_description);
    assert_eq!(action, Action::Deny);

    assert_eq!(rest(&flow_description, n).trim(), "out ip from any to assigned");
}

#[test]
fn direction() {
    let flow_description = chars("out ip from any to assigned");
    let (direction, n) = parse_direction(&flow_description);
    assert_eq!(direction, Direction::Out);
    assert_eq!(rest(&flow_description, n).trim(), "ip from any to assigned");
}

#[test]
fn protocol() {
    let flow_description = chars("ip from any to assigned");
    let (protocol, _) = parse_protocol(&flow_description);
    assert_eq!(protocol, Protocol::Any);

    let flow_description = chars("6 from any to assigned");
    let (protocol, _) = parse_protocol(&flow_description);
    assert_eq!(protocol, Protocol::Tcp);

    let flow_description = chars("17 from any to assigned");
    let (protocol, n) = parse_protocol(&flow_description);
    assert_eq!(protocol, Protocol::Udp);
    assert_eq!(rest(&flow_description, n).trim(), "from any to assigned");
}

#[test]
fn address() {
    let flow_description = chars("any");
    let (ip, _) = parse_address(&flow_description);
    assert_eq!(ip, Addr::Any);

    let flow_description = chars("192.168.168.104/24 ");
    let (ip, _) = parse_address(&flow_description);
    assert_eq!(
        ip,
        Addr::IpAddrPrefix(0xC0A8_A868u32, 24)
    );

    let flow_description = chars("192.168.168.104 ");
    let (ip, _) = parse_address(&flow_description);
    assert_eq!(ip, Addr::IpAddr(0xC0A8_A868u32));
}

#[test]
fn port_range() {
    let flow_description = chars("1000-2000");
    let (port_range, _) = parse_port_range(&flow_description);
    assert_eq!(port_range.start(), 1000);
    assert_eq!(port_range.end(), 2000);

    let flow_description = chars("1000");
    let (port_range, _) = parse_port_range(&flow_description);
    assert_eq!(port_range.start(), 1000);
    assert_eq!(port_range.end(), 1000);
}

#[test]
fn parse_sdf_filter_test() {
    let sdf = SdfFilter {
        flow_description: "permit out ip from any to assigned".to_string(),
    };
    let sdf_filter = parse_sdf_filter(&sdf).unwrap();
    let expected_sdf = SdfFilterPod::default();
    assert_eq!(expected_sdf, sdf_filter);

    let sdf = SdfFilter {
        flow_description: "permit out 6 from 192.168.1.10 80 to assigned 10000-20000".to_string(),
    };
    let sdf_filter = parse_sdf_filter(&sdf).unwrap();

    let mut expected_sdf = SdfFilterPod::default();
    expected_sdf.set_protocol(TCP);
    expected_sdf.set_src_ip(0xC0A8_010Au32);
    expected_sdf.set_src_port_range(PortRange::new(80, 80));
    expected_sdf.set_dst_port_range(PortRange::new(10000, 20000));
    assert_eq!(expected_sdf, sdf_filter);
}

#[test]
fn sdf_filter_with_prefixes_and_udp() {
    let sdf = SdfFilter {
        flow_description: "  permit out 17 from 10.0.0.0/8 1000-2000 to 172.16.0.1/16 53 ".to_string(),
    };
    let sdf_filter = parse_sdf_filter(&sdf).unwrap();
    let mut expected = SdfFilterPod::default();
    expected.set_protocol(UDP);
    expected.set_src_ip(0x0A00_0000u32);
    expected.set_src_ip_prefix(8);
    expected.set_src_port_range(PortRange::new(1000, 2000));
    expected.set_dst_ip(0xAC10_0001u32);
    expected.set_dst_ip_prefix(16);
    expected.set_dst_port_range(PortRange::new(53, 53));
    assert_eq!(expected, sdf_filter);
    assert_eq!(sdf_filter.src_ip_mask, 0xff00_0000);
    assert_eq!(sdf_filter.dst_ip_mask, 0xffff_0000);
}

#[test]
fn sdf_filter_errors() {
    let cases = [
        ("deny out ip from any to assigned", SdfFilterError::MissingPermit),
        ("permit in ip from any to assigned", SdfFilterError::MissingOut),
        ("permit out 300 from any to assigned", SdfFilterError::InvalidProtocol),
        ("permit out 1 from any to assigned", SdfFilterError::InvalidProtocol),
        ("permit out ip to any to assigned", SdfFilterError::MissingFrom),
        ("permit out ip from any from assigned", SdfFilterError::MissingTo),
    ];
    for (text, err) in cases {
        let sdf = SdfFilter { flow_description: text.to_string() };
        assert_eq!(parse_sdf_filter(&sdf), Err(err));
    }
}

#[test]
fn protocol_out_of_byte_range_is_unknown_and_consumes_nothing() {
    let text = chars("256 from any");
    assert_eq!(parse_protocol(&text), (Protocol::Unknown, 0));
    let text = chars("0006 from any");
    assert_eq!(parse_protocol(&text), (Protocol::Tcp, 4));
}

#[test]
fn port_range_edges() {
    assert_eq!(parse_port_range(&chars("")), (PortRange::new(0, 0), 0));
    assert_eq!(parse_port_range(&chars("70000")), (PortRange::new(0, 0), 0));
    assert_eq!(parse_port_range(&chars("80-")), (PortRange::new(80, 80), 2));
    assert_eq!(parse_port_range(&chars("80-70000")), (PortRange::new(80, 80), 2));
}

#[test]
fn address_without_space_is_any() {
    assert_eq!(parse_address(&chars("10.0.0.1")), (Addr::Any, 0));
    assert_eq!(parse_address(&chars("assigned 80")), (Addr::Assigned, 8));
}
