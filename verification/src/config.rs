//! Parameters of CSI collection, and what the driver is told of them.

use vstd::prelude::*;

verus! {

/// CSI collection parameters.
#[derive(Debug, Clone, Copy, PartialEq, Eq, Structural)]
pub struct CSIConfig {
    /// Receive legacy long training field data.
    pub lltf_enabled: bool,
    /// Receive HT long training field data.
    pub htltf_enabled: bool,
    /// Receive space-time block code HT long training field data.
    pub stbc_htltf2_enabled: bool,
    /// Average legacy and HT long training field data of HT packets.
    pub ltf_merge_enabled: bool,
    /// Smooth adjacent subcarriers.
    pub channel_filter_enabled: bool,
    /// Scale CSI data by a fixed shift instead of automatically.
    pub manu_scale: bool,
    /// The fixed shift.
    pub shift: u8,
    /// Capture CSI of acknowledgement frames.
    pub dump_ack_en: bool,
}

/// The default parameters.
pub open spec fn default_config() -> CSIConfig {
    CSIConfig {
        lltf_enabled: true,
        htltf_enabled: true,
        stbc_htltf2_enabled: true,
        ltf_merge_enabled: true,
        channel_filter_enabled: true,
        manu_scale: false,
        shift: 0,
        dump_ack_en: false,
    }
}

impl Default for CSIConfig {
    fn default() -> (config: Self)
        ensures
            config == default_config(),
    {
        CSIConfig {
            lltf_enabled: true,
            htltf_enabled: true,
            stbc_htltf2_enabled: true,
            ltf_merge_enabled: true,
            channel_filter_enabled: true,
            manu_scale: false,
            shift: 0,
            dump_ack_en: false,
        }
    }
}

/// CSI collection parameters as the driver takes them.
#[derive(Debug, Clone, Copy, PartialEq, Eq, Structural)]
pub struct CsiConfig {
    pub lltf_en: bool,
    pub htltf_en: bool,
    pub stbc_htltf2_en: bool,
    pub ltf_merge_en: bool,
    pub channel_filter_en: bool,
    pub manu_scale: bool,
    pub shift: u8,
    pub dump_ack_en: bool,
}

/// What the driver is told of CSI collection parameters.
pub open spec fn driver_config(config: CSIConfig) -> CsiConfig {
    CsiConfig {
        lltf_en: config.lltf_enabled,
        htltf_en: config.htltf_enabled,
        stbc_htltf2_en: config.stbc_htltf2_enabled,
        ltf_merge_en: config.ltf_merge_enabled,
        channel_filter_en: config.channel_filter_enabled,
        manu_scale: config.manu_scale,
        shift: config.shift,
        dump_ack_en: config.dump_ack_en,
    }
}

/// Builds what the driver is told of CSI collection parameters.
pub fn build_csi_config(csi_config: CSIConfig) -> (driver: CsiConfig)
    ensures
        driver == driver_config(csi_config),
        driver.lltf_en == csi_config.lltf_enabled,
        driver.htltf_en == csi_config.htltf_enabled,
        driver.stbc_htltf2_en == csi_config.stbc_htltf2_enabled,
        driver.ltf_merge_en == csi_config.ltf_merge_enabled,
        driver.channel_filter_en == csi_config.channel_filter_enabled,
        driver.manu_scale == csi_config.manu_scale,
        driver.shift == csi_config.shift,
        driver.dump_ack_en == csi_config.dump_ack_en,
{
    CsiConfig {
        lltf_en: csi_config.lltf_enabled,
        htltf_en: csi_config.htltf_enabled,
        stbc_htltf2_en: csi_config.stbc_htltf2_enabled,
        ltf_merge_en: csi_config.ltf_merge_enabled,
        channel_filter_en: csi_config.channel_filter_enabled,
        manu_scale: csi_config.manu_scale,
        shift: csi_config.shift,
        dump_ack_en: csi_config.dump_ack_en,
    }
}

/// CSI collection parameters of the ESP32-C6, which the driver takes as they are.
#[derive(Debug, Clone, Copy, PartialEq, Eq, Structural)]
pub struct Esp32c6CSIConfig {
    /// Capture CSI.
    pub enable: u32,
    /// Capture CSI of 11g packets.
    pub acquire_csi_legacy: u32,
    /// Capture CSI of HT20 packets.
    pub acquire_csi_ht20: u32,
    /// Capture CSI of HT40 packets.
    pub acquire_csi_ht40: u32,
    /// Capture CSI of HE20 single-user packets.
    pub acquire_csi_su: u32,
    /// Capture CSI of HE20 multi-user packets.
    pub acquire_csi_mu: u32,
    /// Capture CSI of HE20 packets with dual carrier modulation.
    pub acquire_csi_dcm: u32,
    /// Capture CSI of beamformed HE20 packets.
    pub acquire_csi_beamformed: u32,
    /// Which training fields of packets with space-time block coding are captured.
    pub acquire_csi_he_stbc: u32,
    /// Scaling.
    pub val_scale_cfg: u32,
    /// Capture CSI of acknowledgement frames.
    pub dump_ack_en: u32,
    /// Reserved.
    pub reserved: u32,
}

/// CSI collection parameters as the ESP32-C6's driver takes them.
#[derive(Debug, Clone, Copy, PartialEq, Eq, Structural)]
pub struct Esp32c6CsiConfig {
    pub enable: u32,
    pub acquire_csi_legacy: u32,
    pub acquire_csi_ht20: u32,
    pub acquire_csi_ht40: u32,
    pub acquire_csi_su: u32,
    pub acquire_csi_mu: u32,
    pub acquire_csi_dcm: u32,
    pub acquire_csi_beamformed: u32,
    pub acquire_csi_he_stbc: u32,
    pub val_scale_cfg: u32,
    pub dump_ack_en: u32,
    pub reserved: u32,
}

/// Builds what the ESP32-C6's driver is told of CSI collection parameters.
pub fn build_csi_config_esp32c6(csi_config: Esp32c6CSIConfig) -> (driver: Esp32c6CsiConfig)
    ensures
        driver == (Esp32c6CsiConfig {
            enable: csi_config.enable,
            acquire_csi_legacy: csi_config.acquire_csi_legacy,
            acquire_csi_ht20: csi_config.acquire_csi_ht20,
            acquire_csi_ht40: csi_config.acquire_csi_ht40,
            acquire_csi_su: csi_config.acquire_csi_su,
            acquire_csi_mu: csi_config.acquire_csi_mu,
            acquire_csi_dcm: csi_config.acquire_csi_dcm,
            acquire_csi_beamformed: csi_config.acquire_csi_beamformed,
            acquire_csi_he_stbc: csi_config.acquire_csi_he_stbc,
            val_scale_cfg: csi_config.val_scale_cfg,
            dump_ack_en: csi_config.dump_ack_en,
            reserved: csi_config.reserved,
        }),
{
    Esp32c6CsiConfig {
        enable: csi_config.enable,
        acquire_csi_legacy: csi_config.acquire_csi_legacy,
        acquire_csi_ht20: csi_config.acquire_csi_ht20,
        acquire_csi_ht40: csi_config.acquire_csi_ht40,
        acquire_csi_su: csi_config.acquire_csi_su,
        acquire_csi_mu: csi_config.acquire_csi_mu,
        acquire_csi_dcm: csi_config.acquire_csi_dcm,
        acquire_csi_beamformed: csi_config.acquire_csi_beamformed,
        acquire_csi_he_stbc: csi_config.acquire_csi_he_stbc,
        val_scale_cfg: csi_config.val_scale_cfg,
        dump_ack_en: csi_config.dump_ack_en,
        reserved: csi_config.reserved,
    }
}

/// Each parameter reaches the driver as it is: the driver's field of the same meaning has its
/// value, whatever the other parameters are.
pub proof fn driver_follows_parameters(config: CSIConfig)
    ensures
        driver_config(config).lltf_en == config.lltf_enabled,
        driver_config(config).htltf_en == config.htltf_enabled,
        driver_config(config).stbc_htltf2_en == config.stbc_htltf2_enabled,
        driver_config(config).ltf_merge_en == config.ltf_merge_enabled,
        driver_config(config).channel_filter_en == config.channel_filter_enabled,
        driver_config(config).manu_scale == config.manu_scale,
        driver_config(config).shift == config.shift,
        driver_config(config).dump_ack_en == config.dump_ack_en,
{
}

/// By default every kind of training field is received, merged and smoothed, the scale is
/// automatic, and acknowledgements are left out.
pub proof fn default_receives_all()
    ensures
        default_config().lltf_enabled && default_config().htltf_enabled
            && default_config().stbc_htltf2_enabled,
        default_config().ltf_merge_enabled && default_config().channel_filter_enabled,
        !default_config().manu_scale && default_config().shift == 0,
        !default_config().dump_ack_en,
{
}

} // verus!
