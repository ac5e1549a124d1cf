use std::time::SystemTime;

use rs_pfcp::ie::cause::{Cause, CauseValue};
use rs_pfcp::ie::apply_action::ApplyAction;
use rs_pfcp::ie::create_far::CreateFar;
use rs_pfcp::ie::create_pdr::CreatePdr;
use rs_pfcp::ie::create_qer::CreateQer;
use rs_pfcp::ie::destination_interface::{DestinationInterface, Interface};
use rs_pfcp::ie::f_teid::Fteid;
use rs_pfcp::ie::forwarding_parameters::ForwardingParameters;
use rs_pfcp::ie::outer_header_creation::OuterHeaderCreation;
use rs_pfcp::ie::pdi::Pdi;
use rs_pfcp::ie::precedence::Precedence;
use rs_pfcp::ie::sdf_filter::SdfFilter;
use rs_pfcp::ie::source_interface::{SourceInterface, SourceInterfaceValue as WireSourceInterface};
use rs_pfcp::ie::update_far::UpdateFar;
use rs_pfcp::ie::update_pdr::UpdatePdr;
use rs_pfcp::ie::create_urr::CreateUrr;
use rs_pfcp::ie::created_pdr::CreatedPdr;
use rs_pfcp::ie::far_id::FarId;
use rs_pfcp::ie::measurement_method::MeasurementMethod;
use rs_pfcp::ie::pdr_id::PdrId;
use rs_pfcp::ie::qer_id::QerId;
use rs_pfcp::ie::recovery_time_stamp::RecoveryTimeStamp;
use rs_pfcp::ie::reporting_triggers::ReportingTriggers;
use rs_pfcp::ie::update_qer::UpdateQer;
use rs_pfcp::ie::update_urr::UpdateUrr;
use rs_pfcp::ie::urr_id::UrrId;
use rs_pfcp::ie::{Ie, IeType};
use rs_pfcp::message::heartbeat_request::HeartbeatRequest;
use rs_pfcp::message::{Message, SessionEstablishmentResponse, SessionModificationResponse};

use raxupf::answers::{
    association_setup_answer, classify_node_id, establishment_answer, modification_answer, PfcpAnswer,
};
use raxupf::ies::{
    NodeIdValue, SourceInterfaceValue,
    CreatedPdrIe, FteidIe, IpAddress, SessionEstablishmentResponseIes,
    SessionModificationResponseIes, UpfError,
};
use raxupf::requests::{
    classify_message, read_association_setup_request, read_session_establishment_request,
    read_session_modification_request, AssociationSetupReading, AssociationSetupRequestWire,
    PfcpMessageKind, SessionEstablishmentRequestWire, SessionModificationRequestWire,
};

fn fseid_payload(seid: u64) -> Vec<u8> {
    // V4 flag, the SEID, and an IPv4 address
    let mut p = vec![0x02];
    p.extend(seid.to_be_bytes());
    p.extend([10, 0, 0, 9]);
    p
}

fn fqdn_node_id(name: &str) -> Vec<u8> {
    let mut p = vec![2];
    p.extend(name.as_bytes());
    p
}

fn establishment_wire(fseid: Vec<u8>, node_id: Vec<u8>) -> SessionEstablishmentRequestWire {
    SessionEstablishmentRequestWire {
        sequence: 3,
        fseid,
        node_id,
        create_fars: vec![],
        create_qers: vec![CreateQer::new(QerId::new(4)).marshal(), vec![1, 2]],
        create_urrs: vec![],
        create_pdrs: vec![],
    }
}

#[test]
fn classifying_messages() {
    let ts = RecoveryTimeStamp::new(SystemTime::now());
    let ts_ie = Ie::new(IeType::RecoveryTimeStamp, ts.marshal().to_vec());
    let heartbeat = HeartbeatRequest::new(7u32, ts_ie, None, vec![]).marshal();
    assert_eq!(classify_message(&heartbeat), PfcpMessageKind::HeartbeatRequest);
    assert_eq!(classify_message(&[0xff, 0x00]), PfcpMessageKind::Unparsable);
}

#[test]
fn reading_an_establishment_request() {
    let r = read_session_establishment_request(establishment_wire(fseid_payload(0x1234), fqdn_node_id("smf.example")));
    assert_eq!(r.sequence, 3);
    assert_eq!(r.cp_seid, Some(0x1234));
    assert_eq!(r.node_id.as_deref(), Some("smf.example"));
    assert_eq!(r.create_qers.len(), 2);
    assert_eq!(r.create_qers[0].map(|q| q.qer_id), Some(4));
    assert!(r.create_qers[1].is_none());
    // an F-SEID shorter than its flags say, and an IPv4 Node ID
    let mut short = fseid_payload(1);
    short.truncate(11);
    let r = read_session_establishment_request(establishment_wire(short, vec![0, 10, 0, 0, 1]));
    assert_eq!(r.cp_seid, None);
    assert_eq!(r.node_id.as_deref(), Some("10.0.0.1"));
    let r = read_session_establishment_request(establishment_wire(vec![], vec![]));
    assert_eq!(r.cp_seid, None);
    assert_eq!(r.node_id, None);
}

#[test]
fn reading_a_modification_request() {
    let w = SessionModificationRequestWire {
        sequence: 9,
        up_seid: Some(2),
        remove_fars: Some(vec![FarId::new(5).marshal().to_vec(), vec![0, 0, 1]]),
        remove_qers: None,
        remove_urrs: Some(vec![vec![0, 0, 0, 8]]),
        remove_pdrs: Some(vec![PdrId::new(6).marshal().to_vec()]),
        create_fars: None,
        create_qers: None,
        create_urrs: None,
        create_pdrs: None,
        update_fars: None,
        update_qers: Some(vec![vec![]]),
        update_urrs: None,
        update_pdrs: None,
    };
    let r = read_session_modification_request(w);
    assert_eq!(r.sequence, 9);
    assert_eq!(r.up_seid, Some(2));
    assert_eq!(r.remove_fars, Some(vec![Some(5), None]));
    assert_eq!(r.remove_qers, None);
    assert_eq!(r.remove_urrs, Some(vec![Some(8)]));
    assert_eq!(r.remove_pdrs, Some(vec![Some(6)]));
    assert!(matches!(r.update_qers.as_deref(), Some([None])));
}

#[test]
fn reading_qer_and_urr_lists() {
    let create_urr = CreateUrr::new(
        UrrId::new(3),
        MeasurementMethod::new(false, true, false),
        ReportingTriggers::new(),
        None,
        None,
        None,
        None,
        None,
        None,
    )
    .marshal();
    let w = SessionModificationRequestWire {
        sequence: 4,
        up_seid: None,
        remove_fars: None,
        remove_qers: Some(vec![QerId::new(12).marshal().to_vec()]),
        remove_urrs: None,
        remove_pdrs: None,
        create_fars: None,
        create_qers: Some(vec![CreateQer::new(QerId::new(21)).marshal()]),
        create_urrs: Some(vec![create_urr, vec![9]]),
        create_pdrs: None,
        update_fars: None,
        update_qers: Some(vec![UpdateQer::builder(QerId::new(2)).build().unwrap().marshal()]),
        update_urrs: Some(vec![UpdateUrr::builder(UrrId::new(4)).build().unwrap().marshal()]),
        update_pdrs: None,
    };
    let r = read_session_modification_request(w);
    assert_eq!(r.up_seid, None);
    assert_eq!(r.remove_qers, Some(vec![Some(12)]));
    let create_qers = r.create_qers.unwrap();
    assert_eq!(create_qers.len(), 1);
    assert_eq!(create_qers[0].map(|q| q.qer_id), Some(21));
    let create_urrs = r.create_urrs.unwrap();
    assert_eq!(create_urrs.len(), 2);
    assert_eq!(create_urrs[0].map(|u| u.urr_id), Some(3));
    assert!(create_urrs[1].is_none());
    assert_eq!(r.update_qers.unwrap()[0].map(|q| q.qer_id), Some(2));
    assert_eq!(r.update_urrs.unwrap()[0].map(|u| u.urr_id), Some(4));
}

#[test]
fn reading_far_and_pdr_ies() {
    let fp = ForwardingParameters::new(DestinationInterface::new(Interface::Access))
        .with_outer_header_creation(OuterHeaderCreation::gtpu_ipv4(0x55u32, [10, 0, 0, 7].into()));
    let mut far = CreateFar::new(FarId::new(3), ApplyAction::new(2));
    far.forwarding_parameters = Some(fp);
    let mut pdi = Pdi::new(SourceInterface::new(WireSourceInterface::Access));
    pdi.f_teid = Some(Fteid::new(true, false, 0x66u32, Some([10, 0, 0, 1].into()), None, 0));
    pdi.sdf_filters = vec![SdfFilter::new("permit out ip from any to assigned")];
    let mut pdr = CreatePdr::new(PdrId::new(4), Precedence::new(200), pdi.clone());
    pdr.far_id = Some(FarId::new(3));
    pdr.qer_ids = vec![QerId::new(1), QerId::new(2)];
    let update_far = UpdateFar::new(FarId::new(3), Some(ApplyAction::new(1)), None, None, None);
    let mut update_pdr = UpdatePdr::new(PdrId::new(4));
    update_pdr.pdi = Some(pdi);
    let w = SessionModificationRequestWire {
        sequence: 1,
        up_seid: Some(1),
        remove_fars: None,
        remove_qers: None,
        remove_urrs: None,
        remove_pdrs: None,
        create_fars: Some(vec![far.marshal(), vec![1, 2, 3]]),
        create_qers: None,
        create_urrs: None,
        create_pdrs: Some(vec![pdr.marshal(), vec![]]),
        update_fars: Some(vec![update_far.marshal()]),
        update_qers: None,
        update_urrs: None,
        update_pdrs: Some(vec![update_pdr.marshal()]),
    };
    let r = read_session_modification_request(w);
    let fars = r.create_fars.unwrap();
    let read = fars[0].unwrap();
    assert_eq!(read.far_id, 3);
    assert_eq!(read.apply_action, 2);
    let fp = read.forwarding_parameters.unwrap();
    assert_eq!(fp.destination_interface, 0);
    assert_eq!(fp.dscp, None);
    let ohc = fp.outer_header_creation.unwrap();
    assert!(ohc.description.gtpu_udp_ipv4);
    assert_eq!(ohc.teid, Some(0x55));
    assert_eq!(ohc.ipv4_address, Some(0x0a00_0007));
    assert!(fars[1].is_none());
    let pdrs = r.create_pdrs.unwrap();
    let read = pdrs[0].as_ref().unwrap();
    assert_eq!(read.pdr_id, 4);
    assert_eq!(read.precedence, 200);
    assert_eq!(read.far_id, Some(3));
    assert_eq!(read.qer_ids, vec![1, 2]);
    assert_eq!(read.pdi.source_interface, SourceInterfaceValue::Access);
    let fteid = read.pdi.f_teid.unwrap();
    assert_eq!((fteid.v4, fteid.teid, fteid.ipv4_address), (true, 0x66, Some(0x0a00_0001)));
    assert_eq!(read.pdi.sdf_filters[0].flow_description, "permit out ip from any to assigned");
    assert!(pdrs[1].is_none());
    let updated = r.update_fars.unwrap()[0].unwrap();
    assert_eq!((updated.far_id, updated.apply_action), (3, Some(1)));
    assert!(updated.update_forwarding_parameters.is_none());
    let updates = r.update_pdrs.unwrap();
    let update = updates[0].as_ref().unwrap();
    assert_eq!(update.pdr_id, 4);
    assert_eq!(update.precedence, None);
    assert_eq!(update.pdi.as_ref().unwrap().f_teid.unwrap().teid, 0x66);
}

#[test]
fn reading_an_association_setup_request() {
    let ts = RecoveryTimeStamp::new(SystemTime::now()).marshal().to_vec();
    let w = AssociationSetupRequestWire { sequence: 1, node_id: fqdn_node_id("smf"), recovery_time_stamp: ts.clone() };
    assert_eq!(read_association_setup_request(&w), AssociationSetupReading::Read("smf".to_string()));
    let w = AssociationSetupRequestWire { sequence: 1, node_id: vec![7], recovery_time_stamp: ts };
    assert_eq!(read_association_setup_request(&w), AssociationSetupReading::NodeIdUnreadable);
    let w = AssociationSetupRequestWire { sequence: 1, node_id: fqdn_node_id("smf"), recovery_time_stamp: vec![1, 2] };
    assert_eq!(read_association_setup_request(&w), AssociationSetupReading::RecoveryTimeStampUnreadable);
}

fn created() -> Vec<CreatedPdrIe> {
    vec![
        CreatedPdrIe { pdr_id: 1, f_teid: None, ue_ip_address: None },
        CreatedPdrIe {
            pdr_id: 2,
            f_teid: Some(FteidIe {
                v4: true,
                v6: false,
                ch: false,
                chid: false,
                teid: 0x77,
                ipv4_address: Some(0xc0a8_0001),
                ipv6_address: None,
                choose_id: 0,
            }),
            ue_ip_address: None,
        },
    ]
}

#[test]
fn answering_an_establishment() {
    let handled = Ok(SessionEstablishmentResponseIes::Accepted {
        cp_seid: 0x100,
        sequence: 7,
        up_seid: 2,
        created_pdrs: created(),
    });
    let bytes = match establishment_answer(&handled, IpAddress::V4(0xc0a8_0001)) {
        Ok(PfcpAnswer::Reply(bytes)) => bytes,
        _ => panic!("no reply"),
    };
    let response = SessionEstablishmentResponse::unmarshal(&bytes).unwrap();
    assert_eq!(response.cause().unwrap().value, CauseValue::RequestAccepted);
    assert_eq!(*response.sequence(), 7);
    assert_eq!(response.seid().map(|s| *s), Some(0x100));
    assert_eq!(*response.fseid().unwrap().seid, 2);
    assert_eq!(response.created_pdrs().len(), 2);
    let second = response.created_pdrs()[1].parse::<CreatedPdr>().unwrap();
    assert_eq!(second.pdr_id.value, 2);
    assert_eq!(second.f_teid.unwrap().teid.value(), 0x77);

    let no_association = Ok(SessionEstablishmentResponseIes::NoAssociation { sequence: 7 });
    assert_eq!(establishment_answer(&no_association, IpAddress::V4(1)), Ok(PfcpAnswer::Unbuildable));
    assert_eq!(establishment_answer(&Err(UpfError::MissingSeid), IpAddress::V4(1)), Err(UpfError::MissingSeid));
}

#[test]
fn answering_a_modification() {
    let not_found = Ok(SessionModificationResponseIes::SessionNotFound { up_seid: 99, sequence: 8 });
    let bytes = match modification_answer(&not_found) {
        Ok(PfcpAnswer::Reply(bytes)) => bytes,
        _ => panic!("no reply"),
    };
    let response = SessionModificationResponse::unmarshal(&bytes).unwrap();
    assert_eq!(Cause::unmarshal(&response.cause.payload).unwrap().value, CauseValue::SessionContextNotFound);
    assert_eq!(response.seid().map(|s| *s), Some(99));

    let accepted = Ok(SessionModificationResponseIes::Accepted { cp_seid: 5, sequence: 8, created_pdrs: created() });
    let bytes = match modification_answer(&accepted) {
        Ok(PfcpAnswer::Reply(bytes)) => bytes,
        _ => panic!("no reply"),
    };
    let response = SessionModificationResponse::unmarshal(&bytes).unwrap();
    assert_eq!(Cause::unmarshal(&response.cause.payload).unwrap().value, CauseValue::RequestAccepted);
    assert_eq!(response.created_pdrs.len(), 2);
    assert_eq!(modification_answer(&Err(UpfError::InvalidRemoveFar)), Err(UpfError::InvalidRemoveFar));
}

#[test]
fn answering_an_association_setup() {
    assert_eq!(classify_node_id(&"10.0.0.1".to_string(), None), NodeIdValue::Ipv4(0x0a00_0001));
    assert_eq!(classify_node_id(&"::1".to_string(), Some(1)), NodeIdValue::Ipv6(1));
    assert_eq!(classify_node_id(&"upf.example".to_string(), None), NodeIdValue::Fqdn("upf.example".to_string()));
    let ts = RecoveryTimeStamp::new(SystemTime::now()).marshal().to_vec();
    let bytes = association_setup_answer(5, &"upf.example".to_string(), None, &ts);
    let response = rs_pfcp::message::association_setup_response::AssociationSetupResponse::unmarshal(&bytes).unwrap();
    assert_eq!(*response.sequence(), 5);
    assert_eq!(Cause::unmarshal(&response.cause.payload).unwrap().value, CauseValue::RequestAccepted);
    let node = rs_pfcp::ie::node_id::NodeId::unmarshal(&response.node_id.payload).unwrap();
    assert_eq!(node, rs_pfcp::ie::node_id::NodeId::new_fqdn("upf.example"));
    let bytes = association_setup_answer(6, &"10.0.0.1".to_string(), None, &ts);
    let response = rs_pfcp::message::association_setup_response::AssociationSetupResponse::unmarshal(&bytes).unwrap();
    let node = rs_pfcp::ie::node_id::NodeId::unmarshal(&response.node_id.payload).unwrap();
    assert_eq!(node, rs_pfcp::ie::node_id::NodeId::new_ipv4([10, 0, 0, 1].into()));
}
