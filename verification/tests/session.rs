use std::collections::HashMap;

use raxupf::association::PfcpAssociation;
use raxupf::datapath::DatapathMaps;
use raxupf::far::FarInfo;
use raxupf::ies::{
    CreateFarIe, CreatePdrIe, CreateQerIe, CreateUrrIe, CreatedPdrIe, ForwardingParametersIe,
    FteidIe, IpAddress, OuterHeaderCreationFlags, OuterHeaderCreationIe, PdiIe,
    SessionEstablishmentRequestIes, SessionEstablishmentResponseIes,
    SessionModificationRequestIes, SessionModificationResponseIes, SourceInterfaceValue,
    UeIpAddressIe, UpdateFarIe, UpdateForwardingParametersIe, UpdatePdrIe, UpfError,
};
use raxupf::iprule_parser::{SdfFilter, SdfFilterError};
use raxupf::pdr::PdrInfo;
use raxupf::pdr_processing::RuleMaps;
use raxupf::pfcp::{handle_association_setup_request, handle_hearbeat_request, PfcpContext};
use raxupf::session::{
    establishment_would_panic, modification_would_panic,
    handle_session_establishment_request, handle_session_modification_request, PfcpSession,
};
use raxupf::PDR_MAP_SIZE;

const UPF: u32 = 0xc0a8_0001;
const GNB: u32 = 0xc0a8_0002;
const UE: u32 = 0x0a00_0001;

fn gtpu_ohc() -> OuterHeaderCreationFlags {
    OuterHeaderCreationFlags {
        gtpu_udp_ipv4: true,
        gtpu_udp_ipv6: false,
        udp_ipv4: false,
        udp_ipv6: false,
        ipv4: false,
        ipv6: false,
        ctag: false,
        stag: false,
    }
}

fn downlink_far(far_id: u32) -> CreateFarIe {
    CreateFarIe {
        far_id,
        apply_action: 2,
        forwarding_parameters: Some(ForwardingParametersIe {
            destination_interface: 0,
            dscp: Some(10),
            outer_header_creation: Some(OuterHeaderCreationIe {
                description: gtpu_ohc(),
                teid: Some(0x55),
                ipv4_address: Some(GNB),
            }),
        }),
    }
}

fn fteid(teid: u32) -> FteidIe {
    FteidIe {
        v4: true,
        v6: false,
        ch: false,
        chid: false,
        teid,
        ipv4_address: Some(UPF),
        ipv6_address: None,
        choose_id: 0,
    }
}

fn ue_ip(addr: u32) -> UeIpAddressIe {
    UeIpAddressIe {
        v4: true,
        v6: false,
        choose_ipv4: false,
        choose_ipv6: false,
        ipv4_address: Some(addr),
        ipv6_address: None,
    }
}

fn pdi(
    source_interface: SourceInterfaceValue,
    f_teid: Option<FteidIe>,
    ue: Vec<UeIpAddressIe>,
    sdfs: Vec<&str>,
) -> PdiIe {
    PdiIe {
        source_interface,
        f_teid,
        ue_ip_addresses: ue,
        qfis: vec![9],
        sdf_filters: sdfs
            .into_iter()
            .map(|s| SdfFilter { flow_description: s.to_string() })
            .collect(),
    }
}

fn create_pdr(pdr_id: u16, precedence: u32, pdi: PdiIe) -> CreatePdrIe {
    CreatePdrIe {
        pdr_id,
        precedence,
        outer_header_removal: None,
        pdi,
        far_id: Some(1),
        qer_ids: vec![1],
        urr_ids: vec![],
    }
}

fn context_with_association() -> PfcpContext {
    let mut ctx = PfcpContext::new("upf".to_string(), UPF, None);
    assert!(handle_association_setup_request(&mut ctx, "smf".to_string(), IpAddress::V4(GNB)).is_none());
    ctx
}

fn establishment(pdrs: Vec<Option<CreatePdrIe>>) -> SessionEstablishmentRequestIes {
    SessionEstablishmentRequestIes {
        sequence: 7,
        cp_seid: Some(0x100),
        node_id: Some("smf".to_string()),
        create_fars: vec![Some(downlink_far(1))],
        create_qers: vec![Some(CreateQerIe { qer_id: 1 })],
        create_urrs: vec![Some(CreateUrrIe { urr_id: 1 })],
        create_pdrs: pdrs,
    }
}

fn modification(up_seid: Option<u64>) -> SessionModificationRequestIes {
    SessionModificationRequestIes {
        sequence: 8,
        up_seid,
        remove_fars: None,
        remove_qers: None,
        remove_urrs: None,
        remove_pdrs: None,
        create_fars: None,
        create_qers: None,
        create_urrs: None,
        create_pdrs: None,
        update_fars: None,
        update_qers: None,
        update_urrs: None,
        update_pdrs: None,
    }
}

fn established() -> (PfcpContext, u64) {
    let mut ctx = context_with_association();
    let req = establishment(vec![
        Some(create_pdr(1, 200, pdi(SourceInterfaceValue::Core, None, vec![ue_ip(UE)], vec![]))),
        Some(create_pdr(2, 100, pdi(SourceInterfaceValue::Access, Some(fteid(0x77)), vec![], vec![]))),
    ]);
    match handle_session_establishment_request(&mut ctx, &req) {
        Ok(SessionEstablishmentResponseIes::Accepted { up_seid, .. }) => (ctx, up_seid),
        _ => panic!("the session was not established"),
    }
}

#[test]
fn heartbeat_is_answered() {
    assert_eq!(handle_hearbeat_request(), Ok(()));
}

#[test]
fn association_setup_replaces_an_earlier_one() {
    let mut ctx = PfcpContext::new("upf".to_string(), UPF, Some(1));
    assert!(handle_association_setup_request(&mut ctx, "smf".to_string(), IpAddress::V4(GNB)).is_none());
    assert_eq!(ctx.find_association(&"smf".to_string()), Some(0));
    assert_eq!(ctx.allocate_up_seid(&"smf".to_string()), Some(2));
    let previous =
        handle_association_setup_request(&mut ctx, "smf".to_string(), IpAddress::V4(UE)).unwrap();
    assert_eq!(previous.lseid, 2);
    assert_eq!(previous.laddr(), IpAddress::V4(GNB));
    assert_eq!(ctx.associations.len(), 1);
    assert_eq!(ctx.associations[0].1.laddr(), IpAddress::V4(UE));
    assert_eq!(ctx.associations[0].1.lseid, 1);
    assert_eq!(ctx.find_association(&"other".to_string()), None);
    assert_eq!(ctx.allocate_up_seid(&"other".to_string()), None);
}

#[test]
fn association_local_seids_grow() {
    let mut a = PfcpAssociation::new("smf".to_string(), IpAddress::V4(GNB));
    assert_eq!(a.lnode_id(), "smf");
    assert_eq!(a.allocate_lseid(), 2);
    assert_eq!(a.allocate_lseid(), 3);
    assert_eq!(a.allocate_lseid(), 4);
    assert!(a.get_session(1).is_none());
    // a session is stored under the last local SEID handed out
    a.insert_session(PfcpSession::new("smf".to_string(), 9));
    assert_eq!(a.get_session(4).map(|s| s.cp_seid()), Some(9));
    assert!(a.get_session(9).is_none());
}

#[test]
fn establishment_builds_the_session() {
    let (ctx, up_seid) = established();
    assert_eq!(up_seid, 2);
    let session = ctx.get_session(up_seid).unwrap();
    assert_eq!(session.cp_seid(), 0x100);
    assert_eq!(session.teid(), Some(0x77));
    assert_eq!(session.ue_ipv4(), Some(UE));
    assert_eq!(session.ue_ipv6(), None);
    // the PDR with a UE address is a downlink rule, the other an uplink one
    assert!(session.dl_pdrs.contains_key(&1));
    assert!(session.ul_pdrs.contains_key(&2));
    let far = session.fars[&1];
    assert_eq!(far.teid(), 0x55);
    assert_eq!(far.remote_ipv4(), GNB);
    assert_eq!(far.dscp(), 10);
    assert_eq!(far.action().bits(), 2);
    assert_eq!(far.ohc().bits(), 1);
    // QERs and URRs are not kept in the session
    assert!(session.qers.is_empty());
    assert!(session.urrs.is_empty());
    let ul = session.ul_pdrs[&2];
    assert_eq!(ul.precedence(), 100);
    assert_eq!(ul.far_id(), 1);
    assert_eq!(ul.qer_ids()[0], 1);
    assert!(ul.is_allocated());
    assert_eq!(ul.pdi().fteid().teid(), 0x77);
    assert_eq!(ul.pdi().qfis()[0], 9);
}

#[test]
fn establishment_answers_with_the_created_pdrs() {
    let mut ctx = context_with_association();
    let req = establishment(vec![
        Some(create_pdr(1, 200, pdi(SourceInterfaceValue::Core, None, vec![ue_ip(UE)], vec![]))),
        Some(create_pdr(2, 100, pdi(SourceInterfaceValue::Access, Some(fteid(0x77)), vec![], vec![]))),
    ]);
    match handle_session_establishment_request(&mut ctx, &req) {
        Ok(SessionEstablishmentResponseIes::Accepted { cp_seid, sequence, up_seid, created_pdrs }) => {
            assert_eq!(cp_seid, 0x100);
            assert_eq!(sequence, 7);
            assert_eq!(up_seid, 2);
            assert_eq!(
                created_pdrs,
                vec![
                    CreatedPdrIe { pdr_id: 1, f_teid: None, ue_ip_address: Some(ue_ip(UE)) },
                    CreatedPdrIe { pdr_id: 2, f_teid: Some(fteid(0x77)), ue_ip_address: None },
                ]
            );
        }
        _ => panic!("the session was not established"),
    }
}

#[test]
fn establishment_refusals() {
    let mut ctx = context_with_association();
    let mut req = establishment(vec![]);
    req.cp_seid = None;
    assert!(matches!(handle_session_establishment_request(&mut ctx, &req), Err(UpfError::MissingSeid)));
    let mut req = establishment(vec![]);
    req.node_id = None;
    assert!(matches!(handle_session_establishment_request(&mut ctx, &req), Err(UpfError::InvalidNodeId)));
    let mut req = establishment(vec![]);
    req.node_id = Some("unknown".to_string());
    assert!(matches!(
        handle_session_establishment_request(&mut ctx, &req),
        Ok(SessionEstablishmentResponseIes::NoAssociation { sequence: 7 })
    ));
    let mut req = establishment(vec![]);
    req.create_fars.push(None);
    assert!(matches!(handle_session_establishment_request(&mut ctx, &req), Err(UpfError::InvalidCreateFar)));
    let mut req = establishment(vec![]);
    req.create_qers.push(None);
    assert!(matches!(handle_session_establishment_request(&mut ctx, &req), Err(UpfError::InvalidCreateQer)));
    let mut req = establishment(vec![]);
    req.create_urrs.push(None);
    assert!(matches!(handle_session_establishment_request(&mut ctx, &req), Err(UpfError::InvalidCreateUrr)));
    let req = establishment(vec![None]);
    assert!(matches!(handle_session_establishment_request(&mut ctx, &req), Err(UpfError::InvalidCreatePdr)));
    // no session was stored by any of them
    assert!(ctx.sessions.is_empty());
}

#[test]
fn establishment_pdr_errors() {
    let mut ctx = context_with_association();
    let mut no_address = fteid(1);
    no_address.v4 = false;
    let req = establishment(vec![Some(create_pdr(
        1,
        1,
        pdi(SourceInterfaceValue::Access, Some(no_address), vec![], vec![]),
    ))]);
    assert!(matches!(
        handle_session_establishment_request(&mut ctx, &req),
        Err(UpfError::FteidWithoutAddress)
    ));
    let mut choose_v6 = fteid(1);
    choose_v6.ch = true;
    choose_v6.v6 = true;
    let req = establishment(vec![Some(create_pdr(
        1,
        1,
        pdi(SourceInterfaceValue::Access, Some(choose_v6), vec![], vec![]),
    ))]);
    assert!(matches!(
        handle_session_establishment_request(&mut ctx, &req),
        Err(UpfError::FteidIpv6Unavailable)
    ));
    let req = establishment(vec![Some(create_pdr(
        1,
        1,
        pdi(SourceInterfaceValue::Core, None, vec![ue_ip(UE), ue_ip(UE)], vec![]),
    ))]);
    assert!(matches!(
        handle_session_establishment_request(&mut ctx, &req),
        Err(UpfError::TooManyUeIpAddresses)
    ));
    let mut missing = ue_ip(UE);
    missing.ipv4_address = None;
    let req = establishment(vec![Some(create_pdr(
        1,
        1,
        pdi(SourceInterfaceValue::Core, None, vec![missing], vec![]),
    ))]);
    assert!(matches!(
        handle_session_establishment_request(&mut ctx, &req),
        Err(UpfError::UeIpv4Missing)
    ));
    let req = establishment(vec![Some(create_pdr(
        1,
        1,
        pdi(SourceInterfaceValue::Core, None, vec![], vec!["deny out ip from any to assigned"]),
    ))]);
    assert!(matches!(
        handle_session_establishment_request(&mut ctx, &req),
        Err(UpfError::SdfFilter(SdfFilterError::MissingPermit))
    ));
}

#[test]
fn establishment_reads_sdf_filters() {
    let mut ctx = context_with_association();
    let req = establishment(vec![Some(create_pdr(
        3,
        1,
        pdi(
            SourceInterfaceValue::Core,
            None,
            vec![ue_ip(UE)],
            vec!["permit out 17 from any to assigned 53"],
        ),
    ))]);
    let up_seid = match handle_session_establishment_request(&mut ctx, &req) {
        Ok(SessionEstablishmentResponseIes::Accepted { up_seid, .. }) => up_seid,
        _ => panic!("the session was not established"),
    };
    let session = ctx.get_session(up_seid).unwrap();
    let pdr = session.dl_pdrs[&3];
    let sdf = pdr.pdi().sdfs()[0];
    assert!(sdf.is_allocated());
    assert_eq!(sdf.protocol(), 17);
    assert_eq!(sdf.dst_port_range().start(), 53);
    assert!(!pdr.pdi().sdfs()[1].is_allocated());
}

#[test]
fn modification_of_an_unknown_session() {
    let (mut ctx, _) = established();
    assert!(matches!(
        handle_session_modification_request(&mut ctx, &modification(None)),
        Err(UpfError::MissingSeid)
    ));
    assert!(matches!(
        handle_session_modification_request(&mut ctx, &modification(Some(99))),
        Ok(SessionModificationResponseIes::SessionNotFound { up_seid: 99, sequence: 8 })
    ));
}

#[test]
fn modification_is_accepted_and_stores_the_modified_session() {
    let (mut ctx, up_seid) = established();
    let mut req = modification(Some(up_seid));
    req.remove_pdrs = Some(vec![Some(1)]);
    req.create_pdrs = Some(vec![Some(create_pdr(
        5,
        50,
        pdi(SourceInterfaceValue::Access, Some(fteid(0x88)), vec![], vec![]),
    ))]);
    req.update_fars = Some(vec![Some(UpdateFarIe {
        far_id: 1,
        apply_action: Some(1),
        update_forwarding_parameters: Some(UpdateForwardingParametersIe {
            destination_interface: Some(1),
            dscp: None,
            outer_header_creation: None,
        }),
    })]);
    req.update_pdrs = Some(vec![Some(UpdatePdrIe {
        pdr_id: 2,
        precedence: Some(300),
        outer_header_removal: None,
        pdi: None,
        far_id: None,
        qer_ids: vec![],
        urr_ids: vec![],
    })]);
    match handle_session_modification_request(&mut ctx, &req) {
        Ok(SessionModificationResponseIes::Accepted { cp_seid, sequence, created_pdrs }) => {
            assert_eq!(cp_seid, 0x100);
            assert_eq!(sequence, 8);
            assert_eq!(
                created_pdrs,
                vec![CreatedPdrIe { pdr_id: 5, f_teid: Some(fteid(0x88)), ue_ip_address: None }]
            );
        }
        _ => panic!("the modification was not accepted"),
    }
    // the stored session is the modified one
    let session = ctx.get_session(up_seid).unwrap();
    assert_eq!(session.cp_seid(), 0x100);
    assert!(session.ul_pdrs.contains_key(&5));
    assert_eq!(session.ul_pdrs[&5].precedence(), 50);
    assert_eq!(session.ul_pdrs[&2].precedence(), 300);
    assert_eq!(session.fars[&1].action().bits(), 1);
}

#[test]
fn modification_refusals() {
    let (mut ctx, up_seid) = established();
    let mut req = modification(Some(up_seid));
    req.remove_fars = Some(vec![None]);
    assert!(matches!(handle_session_modification_request(&mut ctx, &req), Err(UpfError::InvalidRemoveFar)));
    let mut req = modification(Some(up_seid));
    req.remove_pdrs = Some(vec![None]);
    assert!(matches!(handle_session_modification_request(&mut ctx, &req), Err(UpfError::InvalidRemovePdr)));
    let mut req = modification(Some(up_seid));
    req.create_fars = Some(vec![None]);
    assert!(matches!(handle_session_modification_request(&mut ctx, &req), Err(UpfError::InvalidCreateFar)));
    let mut req = modification(Some(up_seid));
    req.update_fars = Some(vec![None]);
    assert!(matches!(handle_session_modification_request(&mut ctx, &req), Err(UpfError::InvalidUpdateFar)));
    let mut req = modification(Some(up_seid));
    req.update_pdrs = Some(vec![None]);
    assert!(matches!(handle_session_modification_request(&mut ctx, &req), Err(UpfError::InvalidUpdatePdr)));
    // a refused request leaves the stored session as it was
    let session = ctx.get_session(up_seid).unwrap();
    assert_eq!(session.ul_pdrs[&2].precedence(), 100);
}

fn empty_maps() -> DatapathMaps {
    DatapathMaps {
        int_ips: vec![UPF],
        ul_pdrs: HashMap::new(),
        dl_pdrs: HashMap::new(),
        rules: RuleMaps { fars: HashMap::new(), qers: HashMap::new(), urrs: HashMap::new() },
    }
}

#[test]
fn compile_session_orders_rules_by_precedence() {
    let ctx = PfcpContext::new("upf".to_string(), UPF, None);
    let mut session = PfcpSession::new("smf".to_string(), 1);
    let mut maps = empty_maps();
    assert_eq!(ctx.compile_session(&session, &mut maps), Err(UpfError::SessionWithoutTeid));
    assert!(maps.ul_pdrs.is_empty());
    for (id, precedence) in [(1u16, 30u32), (2, 10), (3, 20)] {
        let mut pdr = PdrInfo::new(id);
        pdr.set_precedence(precedence);
        pdr.set_allocated(true);
        session.insert_ul_pdr(id, pdr);
    }
    session.insert_far(4, FarInfo::new());
    session.set_teid(0x77);
    assert_eq!(ctx.compile_session(&session, &mut maps), Err(UpfError::SessionWithoutUeIp));
    let rules = maps.ul_pdrs[&0x77];
    let order: Vec<u16> = rules.iter().take(3).map(|p| p.pdr_id()).collect();
    assert_eq!(order, vec![2, 3, 1]);
    assert!(rules[3..].iter().all(|p| !p.is_allocated()));
    assert_eq!(rules.len(), PDR_MAP_SIZE);
    assert!(maps.rules.fars.contains_key(&4));
    assert!(maps.dl_pdrs.is_empty());
    for (id, precedence) in [(7u16, 5u32), (8, 1)] {
        let mut pdr = PdrInfo::new(id);
        pdr.set_precedence(precedence);
        pdr.set_allocated(true);
        session.insert_dl_pdr(id, pdr);
    }
    session.set_ue_ipv4(UE);
    assert_eq!(ctx.compile_session(&session, &mut maps), Ok(()));
    // the downlink map holds the downlink rules, ordered by precedence
    let dl = maps.dl_pdrs[&UE];
    let dl_order: Vec<u16> = dl.iter().take(2).map(|p| p.pdr_id()).collect();
    assert_eq!(dl_order, vec![8, 7]);
    assert!(dl[2..].iter().all(|p| !p.is_allocated()));
}

#[test]
fn up_seids_of_an_association_increase() {
    let mut ctx = context_with_association();
    assert!(handle_association_setup_request(&mut ctx, "other".to_string(), IpAddress::V4(UE)).is_none());
    let first = ctx.allocate_up_seid(&"smf".to_string()).unwrap();
    let second = ctx.allocate_up_seid(&"smf".to_string()).unwrap();
    assert!(first < second);
    assert_eq!((first, second), (2, 3));
    // the other association keeps its last local SEID
    assert_eq!(ctx.associations[1].1.lseid, 1);
}

#[test]
fn establishment_panics_are_told_before_handling() {
    let ctx = context_with_association();
    let good = establishment(vec![Some(create_pdr(
        2,
        100,
        pdi(SourceInterfaceValue::Access, Some(fteid(0x77)), vec![], vec![]),
    ))]);
    assert!(!establishment_would_panic(&ctx, &good));
    // an Outer Header Creation without its TEID
    let mut req = establishment(vec![]);
    let mut far = downlink_far(1);
    far.forwarding_parameters.as_mut().unwrap().outer_header_creation.as_mut().unwrap().teid = None;
    req.create_fars = vec![Some(far)];
    assert!(establishment_would_panic(&ctx, &req));
    // an F-TEID to be chosen by the UPF
    let mut chosen = fteid(0);
    chosen.ch = true;
    let req = establishment(vec![
        Some(create_pdr(2, 100, pdi(SourceInterfaceValue::Access, Some(fteid(0x77)), vec![], vec![]))),
        Some(create_pdr(3, 100, pdi(SourceInterfaceValue::Access, Some(chosen), vec![], vec![]))),
    ]);
    assert!(establishment_would_panic(&ctx, &req));
    // a refused PDR before it stops the request first
    let mut no_address = fteid(0x78);
    no_address.v4 = false;
    let req = establishment(vec![
        Some(create_pdr(2, 100, pdi(SourceInterfaceValue::Access, Some(no_address), vec![], vec![]))),
        Some(create_pdr(3, 100, pdi(SourceInterfaceValue::Access, Some(chosen), vec![], vec![]))),
    ]);
    assert!(!establishment_would_panic(&ctx, &req));
    // no association: nothing is built
    let mut req = establishment(vec![]);
    req.node_id = Some("other".to_string());
    req.create_fars = vec![Some(far)];
    assert!(!establishment_would_panic(&ctx, &req));
}

#[test]
fn modification_panics_are_told_before_handling() {
    let (ctx, up_seid) = established();
    let session = ctx.get_session(up_seid).unwrap();
    let mut chosen = fteid(0);
    chosen.ch = true;
    let mut req = modification(Some(up_seid));
    req.create_pdrs = Some(vec![Some(create_pdr(5, 50, pdi(SourceInterfaceValue::Access, Some(chosen), vec![], vec![])))]);
    assert!(modification_would_panic(&ctx, &session, &req));
    // a refused removal stops the request first
    req.remove_fars = Some(vec![None]);
    assert!(!modification_would_panic(&ctx, &session, &req));
    // an update of an uplink PDR whose F-TEID is to be chosen panics
    let mut req = modification(Some(up_seid));
    req.update_pdrs = Some(vec![Some(UpdatePdrIe {
        pdr_id: 2,
        precedence: None,
        outer_header_removal: None,
        pdi: Some(pdi(SourceInterfaceValue::Access, Some(chosen), vec![], vec![])),
        far_id: None,
        qer_ids: vec![],
        urr_ids: vec![],
    })]);
    assert!(modification_would_panic(&ctx, &session, &req));
    // one that names no uplink PDR does nothing
    req.update_pdrs.as_mut().unwrap()[0].as_mut().unwrap().pdr_id = 9;
    assert!(!modification_would_panic(&ctx, &session, &req));
    assert!(!modification_would_panic(&ctx, &session, &modification(Some(up_seid))));
}
