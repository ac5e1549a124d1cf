//! The UPF's settings.
use vstd::prelude::*;

verus! {

/// All the settings of the UPF.
pub struct Configuration {
    pub pfcp: PfcpConfiguration,
    pub api: ApiConfiguration,
    pub logger: LoggerConfiguration,
}

/// Settings of the PFCP endpoint.
pub struct PfcpConfiguration {
    pub addr: String,
    pub node_id: String,
    pub ret_timeout: String,
    pub max_ret: u32,
}

/// Settings of the GTP-U endpoint.
pub struct GtpuConfiguration {
    pub interface: String,
}

/// Settings of the management API.
pub struct ApiConfiguration {
    pub addr: String,
    pub port: u16,
    pub prefix: String,
}

/// Settings of the logger.
pub struct LoggerConfiguration {
    pub name: String,
    pub level: String,
}

} // verus!
