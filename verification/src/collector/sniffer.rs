//! CSI collection as a sniffer.

use super::control::{stop_collection, CaptureRequest, InitStep, StopStep};
use crate::config::{default_config, CSIConfig};
use vstd::prelude::*;

verus! {

/// A device that collects CSI of every packet that it hears.
pub struct CSISniffer {
    /// CSI collection parameters.
    pub csi_config: CSIConfig,
    /// The only address whose packets are captured, if one is set.
    pub mac_filter: Option<[u8; 6]>,
}

impl CSISniffer {
    /// Creates a sniffer with the given configuration.
    pub fn new(csi_config: CSIConfig, mac_filter: Option<[u8; 6]>) -> (device: Self)
        ensures
            device == (CSISniffer { csi_config, mac_filter }),
    {
        CSISniffer { csi_config, mac_filter }
    }

    /// Creates a sniffer with default parameters and no address filter.
    pub fn new_with_defaults() -> (device: Self)
        ensures
            device == (CSISniffer { csi_config: default_config(), mac_filter: None }),
    {
        CSISniffer { csi_config: CSIConfig::default(), mac_filter: None }
    }

    /// Initializes the radio and the tasks: the steps to take, in order.
    pub fn init(&self) -> (steps: Vec<InitStep<()>>)
        ensures
            steps@ == seq![
                InitStep::<()>::SetPromiscuous,
                InitStep::SpawnProcessing,
                InitStep::SpawnSniffer,
            ],
    {
        let mut steps: Vec<InitStep<()>> = Vec::new();
        steps.push(InitStep::SetPromiscuous);
        steps.push(InitStep::SpawnProcessing);
        steps.push(InitStep::SpawnSniffer);
        steps
    }

    /// Whether a start asks for what the device is configured for.
    pub open spec fn starts_with(self, request: CaptureRequest) -> bool {
        &&& request.csi_config == self.csi_config
        &&& request.mac_filter == self.mac_filter
    }

    /// Starts collection: what is to be captured, of which the sniffer's task gets the
    /// parameters before it is signalled.
    pub fn start_collection(&self) -> (request: CaptureRequest)
        ensures
            self.starts_with(request),
    {
        CaptureRequest { csi_config: self.csi_config, mac_filter: self.mac_filter }
    }

    /// Stops collection.
    pub fn stop_collection(&self) -> (steps: [StopStep; 2])
        ensures
            steps@ == seq![StopStep::SignalStop, StopStep::AwaitHalted],
    {
        stop_collection()
    }

    /// The device with other CSI collection parameters.
    pub open spec fn with_csi_config(self, csi_config: CSIConfig) -> Self {
        CSISniffer { csi_config, ..self }
    }

    /// The device with another address filter.
    pub open spec fn with_mac_filter(self, mac_filter: Option<[u8; 6]>) -> Self {
        CSISniffer { mac_filter, ..self }
    }

    /// A start after updates loads the new parameters and the new filter.
    pub proof fn start_loads_update(
        self,
        csi_config: CSIConfig,
        mac_filter: Option<[u8; 6]>,
        request: CaptureRequest,
    )
        requires
            self.with_csi_config(csi_config).with_mac_filter(mac_filter).starts_with(request),
        ensures
            request == (CaptureRequest { csi_config, mac_filter }),
    {
    }

    /// Replaces the CSI collection parameters.
    pub fn update_csi_config(&mut self, csi_config: CSIConfig)
        ensures
            *final(self) == old(self).with_csi_config(csi_config),
    {
        self.csi_config = csi_config;
    }

    /// Replaces the address filter.
    pub fn update_mac_filter(&mut self, mac_filter: Option<[u8; 6]>)
        ensures
            *final(self) == old(self).with_mac_filter(mac_filter),
    {
        self.mac_filter = mac_filter;
    }
}

impl CSISniffer {
    /// A start asks for capture with the device's parameters and filter.
    pub proof fn start_described(self, request: CaptureRequest)
        requires
            self.starts_with(request),
        ensures
            request.csi_config == self.csi_config,
            request.mac_filter == self.mac_filter,
    {
    }

    /// An update changes what it is of, and leaves the rest.
    pub proof fn update_leaves_rest(self, csi_config: CSIConfig, mac_filter: Option<[u8; 6]>)
        ensures
            self.with_csi_config(csi_config).csi_config == csi_config,
            self.with_csi_config(csi_config).mac_filter == self.mac_filter,
            self.with_mac_filter(mac_filter).mac_filter == mac_filter,
            self.with_mac_filter(mac_filter).csi_config == self.csi_config,
    {
    }
}

} // verus!
