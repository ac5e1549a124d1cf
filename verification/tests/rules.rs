use raxupf::far::{FarAction, FarInfo, OhcFlags, OHC_CTAG, OHC_GTPU_UDP_IPV4, OHC_IPV4};
use raxupf::fteid::Fteid;
use raxupf::ies::{
    CreateFarIe, CreatePdrIe, CreateQerIe, ForwardingParametersIe, FteidIe,
    OuterHeaderCreationFlags, OuterHeaderCreationIe, PdiIe, SourceInterfaceValue, UeIpAddressIe,
    UpdateFarIe, UpdateForwardingParametersIe, UpdatePdrIe, UpdateQerIe, UpfError,
};
use raxupf::iprule_parser::{classify_sdf_filter, SdfFilter, SdfFilterError, SdfParse};
use raxupf::pdi::{PdiPod, PDI_F_TEID, PDI_QFI, PDI_SDF_FILTER, PDI_UE_IPV4};
use raxupf::pfcp::PfcpContext;
use raxupf::rules::checks::{check_create_pdr, check_update_pdr, create_far_would_panic, ReadCheck};
use raxupf::rules::far::{create_far_rule, update_far_rule};
use raxupf::rules::helpers::{
    fteid_ie_to_pod, fteid_pod_to_ie, handle_fteid, handle_ue_ips, ohc_description_to_flags,
    parse_fteid, parse_ue_ip, ueip_pod_to_ie,
};
use raxupf::rules::pdr::{create_pdr_rule, update_pdr_rule};
use raxupf::rules::qer::{create_qer_rule, update_qer_rule};
use raxupf::sdf::{prefix_to_mask, PortRange, SdfFilterPod};
use raxupf::session::PfcpSession;
use raxupf::ue_ip::UeIpPod;

const UPF: u32 = 0xc0a8_0001;
const GNB: u32 = 0xc0a8_0002;
const UE: u32 = 0x0a00_0001;

fn no_flags() -> OuterHeaderCreationFlags {
    OuterHeaderCreationFlags {
        gtpu_udp_ipv4: false,
        gtpu_udp_ipv6: false,
        udp_ipv4: false,
        udp_ipv6: false,
        ipv4: false,
        ipv6: false,
        ctag: false,
        stag: false,
    }
}

fn fteid_ie(teid: u32) -> FteidIe {
    FteidIe {
        v4: true,
        v6: false,
        ch: false,
        chid: false,
        teid,
        ipv4_address: Some(UPF),
        ipv6_address: None,
        choose_id: 0,
    }
}

fn ue_ie(v4: Option<u32>, v6: Option<u128>) -> UeIpAddressIe {
    UeIpAddressIe {
        v4: v4.is_some(),
        v6: v6.is_some(),
        choose_ipv4: false,
        choose_ipv6: false,
        ipv4_address: v4,
        ipv6_address: v6,
    }
}

fn pdi_ie(f_teid: Option<FteidIe>, ue: Vec<UeIpAddressIe>, sdfs: Vec<&str>) -> PdiIe {
    PdiIe {
        source_interface: SourceInterfaceValue::Access,
        f_teid,
        ue_ip_addresses: ue,
        qfis: vec![1, 2, 3, 4, 5, 6],
        sdf_filters: sdfs.into_iter().map(|s| SdfFilter { flow_description: s.to_string() }).collect(),
    }
}

fn ctx() -> PfcpContext {
    PfcpContext::new("upf".to_string(), UPF, None)
}

#[test]
fn outer_header_creation_flags() {
    assert_eq!(ohc_description_to_flags(no_flags()).bits(), 0);
    let mut d = no_flags();
    d.gtpu_udp_ipv4 = true;
    assert_eq!(ohc_description_to_flags(d).bits(), OHC_GTPU_UDP_IPV4);
    d.ipv4 = true;
    d.ctag = true;
    let f = ohc_description_to_flags(d);
    assert_eq!(f.bits(), OHC_GTPU_UDP_IPV4 | OHC_IPV4 | OHC_CTAG);
    assert!(f.contains(OhcFlags::from_bits(OHC_IPV4)));
}

#[test]
fn fteid_conversions_roundtrip() {
    let ie = fteid_ie(0x1234);
    let pod = fteid_ie_to_pod(&ie);
    assert_eq!(pod.teid(), 0x1234);
    assert!(pod.is_v4());
    assert!(!pod.is_v6());
    assert_eq!(pod.ipv4_address(), UPF);
    assert_eq!(fteid_pod_to_ie(&pod), ie);
    let mut v6 = ie;
    v6.v6 = true;
    v6.ipv6_address = Some(0x2001_0db8 << 96);
    let pod = fteid_ie_to_pod(&v6);
    assert!(pod.is_v6());
    assert_eq!(pod.ipv6_address(), 0x2001_0db8 << 96);
    assert_eq!(fteid_pod_to_ie(&pod), v6);
    // the CHOOSE flags are not told back
    let mut chosen = ie;
    chosen.chid = true;
    chosen.choose_id = 3;
    assert_eq!(fteid_pod_to_ie(&fteid_ie_to_pod(&chosen)), ie);
}

#[test]
fn ue_ip_to_ie() {
    let pod = UeIpPod::new(UE, 0, true, false);
    assert_eq!(ueip_pod_to_ie(&pod), ue_ie(Some(UE), None));
    let pod = UeIpPod::new(0, 7, false, true);
    assert_eq!(ueip_pod_to_ie(&pod), ue_ie(None, Some(7)));
}

#[test]
fn reading_fteids() {
    let c = ctx();
    assert!(parse_fteid(&c, &fteid_ie(5)) == Ok(Fteid::new(5, UPF)));
    let mut none = fteid_ie(5);
    none.v4 = false;
    assert!(parse_fteid(&c, &none) == Err(UpfError::FteidWithoutAddress));
    let mut choose_v6 = fteid_ie(5);
    choose_v6.ch = true;
    choose_v6.v6 = true;
    assert!(parse_fteid(&c, &choose_v6) == Err(UpfError::FteidIpv6Unavailable));
}

#[test]
fn reading_ue_addresses() {
    let c = ctx();
    assert!(parse_ue_ip(&c, &ue_ie(Some(UE), None)) == Ok(UeIpPod::new(UE, 0, true, false)));
    assert!(parse_ue_ip(&c, &ue_ie(Some(UE), Some(9))) == Ok(UeIpPod::new(UE, 9, true, true)));
    assert!(parse_ue_ip(&c, &ue_ie(None, None)) == Err(UpfError::UeIpWithoutAddress));
    let mut v4_missing = ue_ie(Some(UE), None);
    v4_missing.ipv4_address = None;
    assert!(parse_ue_ip(&c, &v4_missing) == Err(UpfError::UeIpv4Missing));
    let mut v6_missing = ue_ie(None, Some(1));
    v6_missing.ipv6_address = None;
    assert!(parse_ue_ip(&c, &v6_missing) == Err(UpfError::UeIpv6Missing));
}

#[test]
fn pdi_reading_sets_mask_bits() {
    let c = ctx();
    let mut pod = PdiPod::default();
    let ie = pdi_ie(Some(fteid_ie(3)), vec![ue_ie(Some(UE), None)], vec![]);
    assert!(handle_fteid(&ie, &c, &mut pod) == Ok(Some(Fteid::new(3, UPF))));
    assert!(handle_ue_ips(&ie, &c, &mut pod) == Ok(Some(UeIpPod::new(UE, 0, true, false))));
    assert!(pod.pdi_mask().contains(PDI_F_TEID));
    assert!(pod.pdi_mask().contains(PDI_UE_IPV4));
    assert!(pod.fteid() == Fteid::new(3, UPF));
    assert_eq!(pod.ue_ipv4_address(), UE);
    let two = pdi_ie(None, vec![ue_ie(Some(UE), None), ue_ie(Some(UE), None)], vec![]);
    let mut other = PdiPod::default();
    assert!(handle_ue_ips(&two, &c, &mut other) == Err(UpfError::TooManyUeIpAddresses));
    assert!(handle_fteid(&two, &c, &mut other) == Ok(None));
    assert!(!other.pdi_mask().contains(PDI_F_TEID));
}

#[test]
fn create_far_builds_the_far() {
    let mut session = PfcpSession::new("smf".to_string(), 1);
    // a Create FAR without forwarding parameters stores nothing
    create_far_rule(&CreateFarIe { far_id: 1, apply_action: 2, forwarding_parameters: None }, &mut session);
    assert!(session.fars.is_empty());
    let mut flags = no_flags();
    flags.gtpu_udp_ipv4 = true;
    let far = CreateFarIe {
        far_id: 2,
        apply_action: 0xff,
        forwarding_parameters: Some(ForwardingParametersIe {
            destination_interface: 1,
            dscp: None,
            outer_header_creation: Some(OuterHeaderCreationIe {
                description: flags,
                teid: Some(9),
                ipv4_address: Some(GNB),
            }),
        }),
    };
    create_far_rule(&far, &mut session);
    let info = session.fars[&2];
    // unknown action bits are dropped
    assert_eq!(info.action().bits(), 0x1f);
    assert!(info.action().contains(FarAction::forw()));
    assert_eq!(info.destination_interface(), 1);
    assert_eq!(info.dscp(), 0);
    assert_eq!(info.teid(), 9);
    assert_eq!(info.remote_ipv4(), GNB);
    assert_eq!(info.ohc().bits(), OHC_GTPU_UDP_IPV4);
}

#[test]
fn update_far_changes_the_given_fields() {
    let mut session = PfcpSession::new("smf".to_string(), 1);
    let mut info = FarInfo::new();
    info.set_action(2);
    info.set_teid(1);
    info.set_remote_ipv4(GNB);
    session.insert_far(3, info);
    // an Update FAR for a FAR the session does not hold changes nothing
    update_far_rule(&UpdateFarIe { far_id: 4, apply_action: Some(1), update_forwarding_parameters: None }, &mut session);
    assert!(!session.fars.contains_key(&4));
    update_far_rule(
        &UpdateFarIe {
            far_id: 3,
            apply_action: None,
            update_forwarding_parameters: Some(UpdateForwardingParametersIe {
                destination_interface: None,
                dscp: Some(46),
                outer_header_creation: Some(OuterHeaderCreationIe {
                    description: no_flags(),
                    teid: Some(2),
                    ipv4_address: None,
                }),
            }),
        },
        &mut session,
    );
    let after = session.fars[&3];
    assert_eq!(after.action().bits(), 2);
    assert_eq!(after.dscp(), 46);
    assert_eq!(after.teid(), 2);
    assert_eq!(after.remote_ipv4(), GNB);
    assert_eq!(after.ohc().bits(), 0);
}

#[test]
fn qer_rules_leave_the_session() {
    let mut session = PfcpSession::new("smf".to_string(), 1);
    create_qer_rule(&CreateQerIe { qer_id: 1 }, &mut session);
    update_qer_rule(&UpdateQerIe { qer_id: 1 }, &mut session);
    assert!(session.qers.is_empty());
}

#[test]
fn create_pdr_builds_the_pdr() {
    let c = ctx();
    let mut session = PfcpSession::new("smf".to_string(), 1);
    let pdr = CreatePdrIe {
        pdr_id: 4,
        precedence: 10,
        outer_header_removal: Some(1),
        pdi: pdi_ie(Some(fteid_ie(8)), vec![], vec!["permit out ip from 10.0.0.0/8 to assigned"]),
        far_id: Some(2),
        qer_ids: vec![5, 6],
        urr_ids: vec![7],
    };
    let created = create_pdr_rule(&pdr, &c, &mut session).unwrap();
    assert_eq!(created.pdr_id, 4);
    assert_eq!(created.f_teid, Some(fteid_ie(8)));
    assert_eq!(created.ue_ip_address, None);
    assert_eq!(session.teid(), Some(8));
    let info = session.ul_pdrs[&4];
    assert_eq!(info.pdr_id(), 4);
    assert_eq!(info.precedence(), 10);
    assert_eq!(info.ohr().bits(), 1);
    assert_eq!(info.far_id(), 2);
    assert_eq!(&info.qer_ids()[..3], &[5, 6, 0]);
    assert_eq!(&info.urr_ids()[..2], &[7, 0]);
    let pdi = info.pdi();
    assert!(pdi.pdi_mask().contains(PDI_F_TEID));
    assert!(pdi.pdi_mask().contains(PDI_QFI));
    assert!(pdi.pdi_mask().contains(PDI_SDF_FILTER));
    assert!(!pdi.pdi_mask().contains(PDI_UE_IPV4));
    // only the first five QFIs are kept
    assert_eq!(pdi.qfis(), &[1, 2, 3, 4, 5]);
    let mut sdf = SdfFilterPod::default();
    sdf.set_src_ip(0x0a00_0000);
    sdf.set_src_ip_prefix(8);
    sdf.set_allocated(true);
    assert_eq!(pdi.sdfs()[0], sdf);
}

#[test]
fn create_pdr_refusal_keeps_what_was_read() {
    let c = ctx();
    let mut session = PfcpSession::new("smf".to_string(), 1);
    let pdr = CreatePdrIe {
        pdr_id: 4,
        precedence: 10,
        outer_header_removal: None,
        pdi: pdi_ie(Some(fteid_ie(8)), vec![], vec!["permit in ip from any to assigned"]),
        far_id: None,
        qer_ids: vec![],
        urr_ids: vec![],
    };
    assert_eq!(
        create_pdr_rule(&pdr, &c, &mut session),
        Err(UpfError::SdfFilter(SdfFilterError::MissingOut))
    );
    // the session took the TEID before the filter was refused
    assert_eq!(session.teid(), Some(8));
    assert!(session.ul_pdrs.is_empty());
}

#[test]
fn update_pdr_changes_uplink_rules_only() {
    let c = ctx();
    let mut session = PfcpSession::new("smf".to_string(), 1);
    let mut info = raxupf::pdr::PdrInfo::new(2);
    info.set_precedence(5);
    session.insert_ul_pdr(2, info);
    let update = UpdatePdrIe {
        pdr_id: 2,
        precedence: Some(6),
        outer_header_removal: None,
        pdi: Some(pdi_ie(None, vec![], vec!["permit out 300 from any to assigned"])),
        far_id: Some(9),
        qer_ids: vec![],
        urr_ids: vec![],
    };
    // the precedence is kept though the filter is refused
    assert_eq!(
        update_pdr_rule(&update, &c, &mut session),
        Err(UpfError::SdfFilter(SdfFilterError::InvalidProtocol))
    );
    assert_eq!(session.ul_pdrs[&2].precedence(), 6);
    assert_eq!(session.ul_pdrs[&2].far_id(), 0);
    let update = UpdatePdrIe { pdi: None, ..update };
    assert_eq!(update_pdr_rule(&update, &c, &mut session), Ok(()));
    assert_eq!(session.ul_pdrs[&2].far_id(), 9);
    assert!(session.ul_pdrs[&2].is_allocated());
    // a rule the session holds only for the downlink is not updated
    let update = UpdatePdrIe {
        pdr_id: 3,
        precedence: Some(1),
        outer_header_removal: None,
        pdi: None,
        far_id: None,
        qer_ids: vec![],
        urr_ids: vec![],
    };
    session.insert_dl_pdr(3, raxupf::pdr::PdrInfo::new(3));
    assert_eq!(update_pdr_rule(&update, &c, &mut session), Ok(()));
    assert_eq!(session.dl_pdrs[&3].precedence(), 0);
}

#[test]
fn prefix_masks() {
    assert_eq!(prefix_to_mask(0), 0);
    assert_eq!(prefix_to_mask(1), 0x8000_0000);
    assert_eq!(prefix_to_mask(24), 0xffff_ff00);
    assert_eq!(prefix_to_mask(32), 0xffff_ffff);
    let mut sdf = SdfFilterPod::default();
    sdf.set_dst_ip_prefix(16);
    assert_eq!(sdf.dst_ip_mask, 0xffff_0000);
}

#[test]
fn port_ranges() {
    let mut r = PortRange::new(10, 20);
    assert_eq!((r.start(), r.end()), (10, 20));
    r.set_start(1);
    r.set_end(2);
    assert_eq!(r, PortRange::new(1, 2));
    assert_eq!(PortRange::default(), PortRange::new(0, 0));
}

fn sdf(text: &str) -> SdfFilter {
    SdfFilter { flow_description: text.to_string() }
}

#[test]
fn classifying_flow_descriptions() {
    let mut expected = SdfFilterPod::default();
    expected.set_protocol(6);
    assert_eq!(classify_sdf_filter(&sdf("permit out 6 from any to assigned")), SdfParse::Accepted(expected));
    assert_eq!(
        classify_sdf_filter(&sdf("permit out 6 to any")),
        SdfParse::Rejected(SdfFilterError::MissingFrom)
    );
    // addresses and prefixes that do not parse
    assert_eq!(classify_sdf_filter(&sdf("permit out ip from 300.1.1.1 80 to assigned")), SdfParse::Panics);
    assert_eq!(classify_sdf_filter(&sdf("permit out ip from 10.0.0.0/40 to assigned")), SdfParse::Panics);
    assert_eq!(classify_sdf_filter(&sdf("permit out ip from any to 10.0.0.0/33 53")), SdfParse::Panics);
}

#[test]
fn checks_before_handling() {
    let mut flags = no_flags();
    flags.gtpu_udp_ipv4 = true;
    let mut far = CreateFarIe {
        far_id: 1,
        apply_action: 2,
        forwarding_parameters: Some(ForwardingParametersIe {
            destination_interface: 0,
            dscp: None,
            outer_header_creation: Some(OuterHeaderCreationIe { description: flags, teid: Some(1), ipv4_address: Some(GNB) }),
        }),
    };
    assert!(!create_far_would_panic(&far));
    far.forwarding_parameters.as_mut().unwrap().outer_header_creation.as_mut().unwrap().teid = None;
    assert!(create_far_would_panic(&far));

    let pdr = |f: Option<FteidIe>, sdfs: Vec<&str>, qers: usize| CreatePdrIe {
        pdr_id: 1,
        precedence: 1,
        outer_header_removal: None,
        pdi: pdi_ie(f, vec![], sdfs),
        far_id: None,
        qer_ids: vec![1; qers],
        urr_ids: vec![],
    };
    assert_eq!(check_create_pdr(None, &pdr(Some(fteid_ie(1)), vec![], 1)), ReadCheck::Reads);
    let mut choose = fteid_ie(1);
    choose.ch = true;
    assert_eq!(check_create_pdr(None, &pdr(Some(choose), vec![], 1)), ReadCheck::Panics);
    let mut none = fteid_ie(1);
    none.v4 = false;
    assert_eq!(check_create_pdr(None, &pdr(Some(none), vec![], 1)), ReadCheck::Refused);
    assert_eq!(check_create_pdr(None, &pdr(None, vec!["deny"], 1)), ReadCheck::Refused);
    assert_eq!(check_create_pdr(None, &pdr(None, vec!["permit out ip from any to assigned"; 11], 1)), ReadCheck::Panics);
    assert_eq!(check_create_pdr(None, &pdr(None, vec!["permit out ip from any to assigned"; 10], 1)), ReadCheck::Reads);
    assert_eq!(check_create_pdr(None, &pdr(None, vec![], 11)), ReadCheck::Panics);

    let update = |f: Option<FteidIe>, sdfs: Vec<&str>| UpdatePdrIe {
        pdr_id: 1,
        precedence: None,
        outer_header_removal: None,
        pdi: Some(pdi_ie(f, vec![], sdfs)),
        far_id: None,
        qer_ids: vec![],
        urr_ids: vec![],
    };
    // a refused F-TEID is passed over in an update
    assert_eq!(check_update_pdr(None, &update(Some(none), vec![])), ReadCheck::Reads);
    assert_eq!(check_update_pdr(None, &update(Some(choose), vec![])), ReadCheck::Panics);
    assert_eq!(check_update_pdr(None, &update(None, vec!["permit in"])), ReadCheck::Refused);
}

#[test]
fn ue_addresses_roundtrip() {
    let c = ctx();
    for pod in [UeIpPod::new(UE, 0, true, false), UeIpPod::new(0, 5, false, true), UeIpPod::new(UE, 5, true, true)] {
        assert!(parse_ue_ip(&c, &ueip_pod_to_ie(&pod)) == Ok(pod));
    }
}
