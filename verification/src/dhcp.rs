//! Acquisition of a network address.

use crate::ticks::ticks_from_millis;
use vstd::prelude::*;

verus! {

/// The network configuration that a DHCP server assigned.
#[derive(Debug, Clone, Copy)]
pub struct AssignedConfig {
    /// The device's address.
    pub address: [u8; 4],
    /// The length of the network's prefix.
    pub prefix_len: u8,
    /// The gateway's address.
    pub gateway: Option<[u8; 4]>,
}

/// The addresses that network operations need.
#[derive(Debug, Clone, Copy)]
pub struct IpInfo {
    /// The device's address.
    pub local_address: [u8; 4],
    /// The length of the network's prefix.
    pub prefix_len: u8,
    /// The gateway's address.
    pub gateway_address: [u8; 4],
}

/// What is to be done next to acquire an address.
pub enum DhcpAction {
    /// Look again after that many ticks.
    Retry(u64),
    /// The addresses are known.
    Acquired(IpInfo),
}

/// Whether `action` is what follows on what was assigned.
pub open spec fn is_dhcp_action(config: Option<AssignedConfig>, action: DhcpAction) -> bool {
    match config {
        None => action == DhcpAction::Retry(500_000),
        Some(assigned) => action matches DhcpAction::Acquired(info) && info == (IpInfo {
            local_address: assigned.address,
            prefix_len: assigned.prefix_len,
            gateway_address: assigned.gateway->0,
        }),
    }
}

/// Looks whether a configuration was assigned. One without a gateway is of no use.
pub fn run_dhcp_client(config: Option<AssignedConfig>) -> (action: DhcpAction)
    requires
        config matches Some(assigned) ==> assigned.gateway is Some,
    ensures
        match config {
            None => action == DhcpAction::Retry(500_000),
            Some(assigned) => action matches DhcpAction::Acquired(info) && info == (IpInfo {
                local_address: assigned.address,
                prefix_len: assigned.prefix_len,
                gateway_address: assigned.gateway->0,
            }),
        },
        is_dhcp_action(config, action),
{
    match config {
        None => DhcpAction::Retry(ticks_from_millis(500)),
        Some(assigned) => DhcpAction::Acquired(
            IpInfo {
                local_address: assigned.address,
                prefix_len: assigned.prefix_len,
                gateway_address: assigned.gateway.unwrap(),
            },
        ),
    }
}

/// Addresses are acquired exactly where they were assigned, each as it was assigned; until
/// then it is looked for them every half second.
pub proof fn assigned_addresses_acquired(config: Option<AssignedConfig>, action: DhcpAction)
    requires
        is_dhcp_action(config, action),
    ensures
        action is Acquired <==> config is Some,
        config matches Some(assigned) ==> action->Acquired_0.local_address == assigned.address
            && action->Acquired_0.prefix_len == assigned.prefix_len && (
        assigned.gateway matches Some(gateway) ==> action->Acquired_0.gateway_address == gateway),
        config is None ==> action == DhcpAction::Retry(500_000),
{
}

} // verus!
