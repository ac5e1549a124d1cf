use vstd::prelude::*;

pub mod answers;
pub mod association;
pub mod checksum;
pub mod configuration;
pub mod datapath;
pub mod far;
pub mod pdi;
pub mod parser;
pub mod pdr;
pub mod pdr_processing;
pub mod pdu;
pub mod pfcp;
pub mod fteid;
pub mod gtpu;
pub mod gtpu_helpers;
pub mod ies;
pub mod ipaddr;
pub mod iprule_parser;
pub mod net;
pub mod sdf;
pub mod session;
pub mod text;
pub mod qer;
pub mod requests;
pub mod resource_manager;
pub mod rule_ies;
pub mod rules;
pub mod ue_ip;
pub mod urr;
pub mod wire;

verus! {

pub const FAR_MAP_SIZE: usize = 10;
pub const QER_MAP_SIZE: usize = 10;
pub const URR_MAP_SIZE: usize = 10;
pub const SDF_MAP_SIZE: usize = 10;
pub const SESSION_MAP_SIZE: usize = 10;
pub const PDR_MAP_SIZE: usize = 10;
pub const MAX_QFI_NUM: usize = 5;

/// UDP port of GTP-U (3GPP TS 29.281).
pub const GTPU_DST_PORT: u16 = 2152;
/// Protocol Type of GTP, as against GTP'.
pub const GTP_PROTOCOL_TYPE: u8 = 1;
/// GTP-U is version 1.
pub const GTP_VERSION: u8 = 1;
/// How many extension headers a GTP-U packet is searched for.
pub const MAX_EXT_HDRS: usize = 4;
/// Address family of IPv4.
pub const AF_INET: u8 = 2;

/// XDP action code: the program failed.
pub const XDP_ABORTED: u32 = 0;
/// XDP action code: drop the packet.
pub const XDP_DROP: u32 = 1;
/// XDP action code: hand the packet on to the network stack.
pub const XDP_PASS: u32 = 2;
/// XDP action code: send the packet back out of the interface it came in on.
pub const XDP_TX: u32 = 3;

/// Source and destination MAC addresses that a FIB lookup gives for a next hop.
#[derive(Clone, Copy)]
pub struct FibMacs {
    pub src_mac: [u8; 6],
    pub dst_mac: [u8; 6],
}

} // verus!
