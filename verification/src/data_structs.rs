//! Network interfaces of a machine, as `ip -j a` reports them.
use vstd::prelude::*;

pub use crate::machines::structs::Machine;

verus! {

/// The interfaces of a machine.
pub type InterfacesConfigs = Vec<InterfaceConfig>;

/// One network interface.
#[derive(Default, Debug, Clone, PartialEq, Eq)]
pub struct InterfaceConfig {
    pub ifindex: i64,
    pub ifname: String,
    pub flags: Vec<String>,
    pub mtu: i64,
    pub qdisc: String,
    pub operstate: String,
    pub group: String,
    pub txqlen: Option<i64>,
    pub link_type: String,
    pub address: String,
    pub broadcast: String,
    pub addr_info: Vec<AddrInfo>,
    pub master: Option<String>,
    pub permaddr: Option<String>,
    pub link_index: Option<i64>,
    pub link_netnsid: Option<i64>,
}

/// One address bound to an interface.
#[derive(Default, Debug, Clone, PartialEq, Eq)]
pub struct AddrInfo {
    pub family: String,
    pub local: String,
    pub prefixlen: i64,
    pub scope: String,
    pub label: Option<String>,
    pub valid_life_time: i64,
    pub preferred_life_time: i64,
    pub metric: Option<i64>,
    pub broadcast: Option<String>,
    pub dynamic: Option<bool>,
}

} // verus!
