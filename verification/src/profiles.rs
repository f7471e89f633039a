//! Modem profile definitions and the profile registry.
//!
//! A modem profile captures everything needed to talk to one modem model: AT
//! command mappings, signal parsing patterns, port preferences, capabilities
//! and AT whitelist additions.

use vstd::prelude::*;
use crate::text::str_eq;

verus! {

/// Identifies a modem model by USB vendor/product ID.
#[derive(Debug, Clone)]
pub struct ModemIdentity {
    /// USB vendor ID, e.g. "2c7c" (Quectel).
    pub vendor_id: String,
    /// USB product ID, e.g. "0122" (RM551E-GL).
    pub product_id: String,
    pub manufacturer: String,
    pub model: String,
    /// Alternative model strings that also match this profile.
    pub model_variants: Vec<String>,
}

/// AT command mappings for hardware operations (`None` = use the fallback).
#[derive(Debug, Clone)]
pub struct AtCommandSet {
    pub signal_cmd: Option<String>,
    pub signal_parse_regex: Option<String>,
    pub generic_signal_cmd: String,
    pub operator_name_cmd: Option<String>,
    pub operator_name_regex: Option<String>,
    pub generic_operator_cmd: String,
    pub generic_operator_regex: String,
    pub iccid_cmd: String,
    pub iccid_regex: Option<String>,
    pub registration_cmd: String,
}

/// Serial port mapping preferences.
#[derive(Debug, Clone)]
pub struct PortMapping {
    /// Preferred AT port names in priority order.
    pub at_port_preference: Vec<String>,
    /// Preferred USB interface numbers in priority order.
    pub at_interface_preference: Vec<u32>,
    pub baud_rate: u32,
}

/// USB-net mode detection configuration (boot-time only).
#[derive(Debug, Clone)]
pub struct UsbNetDetectConfig {
    /// AT command issued to detect the mode; `None` disables detection.
    pub query_cmd: Option<String>,
    /// Parser key selecting the response mapping; `None` = log only.
    pub parser: Option<String>,
}

impl Default for UsbNetDetectConfig {
    fn default() -> (c: Self)
        ensures
            c.query_cmd is None,
            c.parser is None,
    {
        UsbNetDetectConfig { query_cmd: None, parser: None }
    }
}

/// Modem capabilities for UI display and feature gating.
#[derive(Debug, Clone)]
pub struct ModemCapabilities {
    pub supports_5g: bool,
    pub supports_carrier_aggregation: bool,
    pub supported_technologies: Vec<String>,
    pub max_supported_bands: Vec<String>,
    pub supported_protocols: Vec<String>,
    pub has_temperature_sensor: bool,
    pub has_gps: bool,
}

/// Band locking and network mode control configuration.
#[derive(Debug, Clone)]
pub struct BandModeConfig {
    pub supported: bool,
    pub commands: BandModeCommands,
    pub modes: Vec<NetworkModeOption>,
    pub lte_bands: Vec<u32>,
    pub nsa_nr5g_bands: Vec<u32>,
    pub sa_nr5g_bands: Vec<u32>,
    pub nrdc_nr5g_bands: Vec<u32>,
    pub reboot_on_band_change: bool,
    /// Band list separator in AT commands.
    pub band_separator: String,
    /// "per_type" (one command per band type) or "telit_bnd" (one bitmask command).
    pub band_command_variant: String,
}

impl Default for BandModeConfig {
    fn default() -> (c: Self)
        ensures
            !c.supported,
            c.modes@.len() == 0,
            c.lte_bands@.len() == 0,
            c.nsa_nr5g_bands@.len() == 0,
            c.sa_nr5g_bands@.len() == 0,
            c.nrdc_nr5g_bands@.len() == 0,
            !c.reboot_on_band_change,
            c.band_separator@ == Seq::<char>::empty(),
            c.band_command_variant@ == Seq::<char>::empty(),
    {
        BandModeConfig {
            supported: false,
            commands: BandModeCommands::default(),
            modes: Vec::new(),
            lte_bands: Vec::new(),
            nsa_nr5g_bands: Vec::new(),
            sa_nr5g_bands: Vec::new(),
            nrdc_nr5g_bands: Vec::new(),
            reboot_on_band_change: false,
            band_separator: String::new(),
            band_command_variant: String::new(),
        }
    }
}

/// AT command templates for band/mode control (`None` = unsupported).
#[derive(Debug, Clone)]
pub struct BandModeCommands {
    pub query_mode: Option<String>,
    pub set_mode: Option<String>,
    pub query_nr5g_disable: Option<String>,
    pub set_nr5g_disable: Option<String>,
    pub query_lte_bands: Option<String>,
    pub set_lte_bands: Option<String>,
    pub query_nsa_bands: Option<String>,
    pub set_nsa_bands: Option<String>,
    pub query_sa_bands: Option<String>,
    pub set_sa_bands: Option<String>,
    pub query_nrdc_bands: Option<String>,
    pub set_nrdc_bands: Option<String>,
    pub query_nrdc_mode: Option<String>,
    pub set_nrdc_mode: Option<String>,
    pub query_all_bands: Option<String>,
    pub set_all_bands: Option<String>,
    pub restore_bands: Option<String>,
}

impl Default for BandModeCommands {
    fn default() -> (c: Self)
        ensures
            c.query_mode is None,
            c.set_mode is None,
            c.query_lte_bands is None,
            c.set_lte_bands is None,
            c.restore_bands is None,
            c.query_all_bands is None,
            c.set_all_bands is None,
    {
        BandModeCommands {
            query_mode: None,
            set_mode: None,
            query_nr5g_disable: None,
            set_nr5g_disable: None,
            query_lte_bands: None,
            set_lte_bands: None,
            query_nsa_bands: None,
            set_nsa_bands: None,
            query_sa_bands: None,
            set_sa_bands: None,
            query_nrdc_bands: None,
            set_nrdc_bands: None,
            query_nrdc_mode: None,
            set_nrdc_mode: None,
            query_all_bands: None,
            set_all_bands: None,
            restore_bands: None,
        }
    }
}

/// A network mode option available for a modem.
#[derive(Debug, Clone)]
pub struct NetworkModeOption {
    pub id: String,
    pub label: String,
    pub mode_value: String,
    pub nr5g_disable_value: Option<u8>,
    pub active_sections: BandSections,
}

/// Which band sections (LTE, NSA, SA) are active for a given mode.
#[derive(Debug, Clone, Copy, Default)]
pub struct BandSections {
    pub lte: bool,
    pub nsa: bool,
    pub sa: bool,
}

/// Template-driven APN profile apply sequence.
#[derive(Debug, Clone)]
pub struct ApnApplyConfig {
    pub supported: bool,
    pub steps: Vec<ApnApplyStep>,
    pub always_reboot: bool,
    pub pre_reboot_delay_ms: u64,
}

impl Default for ApnApplyConfig {
    fn default() -> (c: Self)
        ensures
            !c.supported,
            c.steps@.len() == 0,
            !c.always_reboot,
            c.pre_reboot_delay_ms == 0,
    {
        ApnApplyConfig { supported: false, steps: Vec::new(), always_reboot: false, pre_reboot_delay_ms: 0 }
    }
}

/// One step of an APN profile apply sequence.
#[derive(Debug, Clone)]
pub struct ApnApplyStep {
    pub label: String,
    /// AT command template with `{mbn_profile}`, `{cid}`, `{ip_type}`, `{apn}`.
    pub command: String,
    /// Skip this step when the APN profile has no MBN profile.
    pub requires_mbn: bool,
    pub timeout_secs: u64,
}

/// MBN carrier profile management configuration.
#[derive(Debug, Clone)]
pub struct MbnConfig {
    pub supported: bool,
    pub commands: MbnCommands,
    pub reboot_recommended: bool,
}

impl Default for MbnConfig {
    fn default() -> (c: Self)
        ensures
            !c.supported,
            !c.reboot_recommended,
            c.commands.list_profiles is None,
    {
        MbnConfig { supported: false, commands: MbnCommands::default(), reboot_recommended: false }
    }
}

/// AT command templates for MBN carrier profile management.
#[derive(Debug, Clone)]
pub struct MbnCommands {
    pub list_profiles: Option<String>,
    pub query_auto_select: Option<String>,
    pub set_auto_select: Option<String>,
    pub query_selected: Option<String>,
    pub select_profile: Option<String>,
    pub deactivate: Option<String>,
}

impl Default for MbnCommands {
    fn default() -> (c: Self)
        ensures
            c.list_profiles is None,
            c.query_auto_select is None,
            c.set_auto_select is None,
            c.query_selected is None,
            c.select_profile is None,
            c.deactivate is None,
    {
        MbnCommands {
            list_profiles: None,
            query_auto_select: None,
            set_auto_select: None,
            query_selected: None,
            select_profile: None,
            deactivate: None,
        }
    }
}

/// Live APN read/write (QICSGP) templates; `None`/`None` means no QICSGP.
#[derive(Debug, Clone)]
pub struct ApnLiveConfig {
    /// Read template, e.g. `AT+QICSGP={cid}`.
    pub query: Option<String>,
    /// Write template with `{cid}`, `{context_type}`, `{apn}`, `{username}`,
    /// `{password}`, `{auth}`.
    pub write: Option<String>,
}

impl Default for ApnLiveConfig {
    fn default() -> (c: Self)
        ensures
            c.query is None,
            c.write is None,
    {
        ApnLiveConfig { query: None, write: None }
    }
}

/// Dual SIM slot management configuration.
#[derive(Debug, Clone)]
pub struct DualSimConfig {
    pub supported: bool,
    pub slot_count: u8,
    pub query_slot_cmd: Option<String>,
    pub query_slot_regex: Option<String>,
    pub set_slot_cmd: Option<String>,
    pub sim_init_cmd: Option<String>,
    pub sim_init_regex: Option<String>,
    /// Bitmask value meaning fully initialized.
    pub sim_init_complete_value: u8,
    pub sim_init_timeout_secs: u64,
}

impl Default for DualSimConfig {
    fn default() -> (c: Self)
        ensures
            !c.supported,
            c.slot_count == 0,
            c.query_slot_cmd is None,
            c.set_slot_cmd is None,
            c.sim_init_complete_value == 0,
            c.sim_init_timeout_secs == 0,
    {
        DualSimConfig {
            supported: false,
            slot_count: 0,
            query_slot_cmd: None,
            query_slot_regex: None,
            set_slot_cmd: None,
            sim_init_cmd: None,
            sim_init_regex: None,
            sim_init_complete_value: 0,
            sim_init_timeout_secs: 0,
        }
    }
}

/// Band name prefix mapping, e.g. `"LTE BAND "` to `"B"`.
#[derive(Debug, Clone)]
pub struct BandPrefixMapping {
    pub prefix: String,
    pub replacement: String,
}

/// Carrier aggregation query configuration.
#[derive(Debug, Clone)]
pub struct CarrierAggregationConfig {
    pub supported: bool,
    pub ca_info_cmd: Option<String>,
    pub lte_scc_regex: Option<String>,
    pub nr5g_scc_regex: Option<String>,
    pub network_type_cmd: Option<String>,
    pub network_type_regex: Option<String>,
    /// Applied in order; first matching prefix wins.
    pub band_prefix_mappings: Vec<BandPrefixMapping>,
    /// "qcainfo" or "telit_cainfo".
    pub ca_parser_variant: String,
}

impl Default for CarrierAggregationConfig {
    fn default() -> (c: Self)
        ensures
            !c.supported,
            c.ca_info_cmd is None,
            c.lte_scc_regex is None,
            c.nr5g_scc_regex is None,
            c.network_type_cmd is None,
            c.network_type_regex is None,
            c.band_prefix_mappings@.len() == 0,
            c.ca_parser_variant@ == "qcainfo"@,
    {
        CarrierAggregationConfig {
            supported: false,
            ca_info_cmd: None,
            lte_scc_regex: None,
            nr5g_scc_regex: None,
            network_type_cmd: None,
            network_type_regex: None,
            band_prefix_mappings: Vec::new(),
            ca_parser_variant: "qcainfo".to_string(),
        }
    }
}

/// GPS coordinate format returned by the modem.
#[derive(Debug, Clone, Copy, PartialEq, Eq, Structural)]
pub enum GpsCoordinateFormat {
    /// Decimal degrees.
    Decimal,
    /// NMEA `DDMM.MMMM`.
    Nmea,
}

impl Default for GpsCoordinateFormat {
    fn default() -> (f: Self)
        ensures
            f == GpsCoordinateFormat::Decimal,
    {
        GpsCoordinateFormat::Decimal
    }
}

/// GPS command configuration.
#[derive(Debug, Clone)]
pub struct GpsConfig {
    pub supported: bool,
    pub start_cmd: Option<String>,
    pub start_already_running_codes: Vec<u32>,
    pub query_cmd: Option<String>,
    pub no_fix_error_codes: Vec<u32>,
    pub query_regex: Option<String>,
    pub stop_cmd: Option<String>,
    pub stop_already_stopped_codes: Vec<u32>,
    pub start_tolerates_bare_error: bool,
    pub coordinate_format: GpsCoordinateFormat,
}

impl Default for GpsConfig {
    fn default() -> (c: Self)
        ensures
            !c.supported,
            c.start_cmd is None,
            c.query_cmd is None,
            c.stop_cmd is None,
            c.query_regex is None,
            !c.start_tolerates_bare_error,
            c.coordinate_format == GpsCoordinateFormat::Decimal,
    {
        GpsConfig {
            supported: false,
            start_cmd: None,
            start_already_running_codes: Vec::new(),
            query_cmd: None,
            no_fix_error_codes: Vec::new(),
            query_regex: None,
            stop_cmd: None,
            stop_already_stopped_codes: Vec::new(),
            start_tolerates_bare_error: false,
            coordinate_format: GpsCoordinateFormat::Decimal,
        }
    }
}

/// Per-antenna metrics command configuration.
#[derive(Debug, Clone)]
pub struct AntennaMetricsConfig {
    pub supported: bool,
    pub rsrp_cmd: Option<String>,
    pub sinr_cmd: Option<String>,
    pub rsrq_cmd: Option<String>,
    /// Value meaning "not available".
    pub sentinel_value: i32,
    pub rsrp_min: i32,
    pub rsrp_max: i32,
    pub rsrq_min: i32,
    pub rsrq_max: i32,
    pub sinr_min: i32,
    pub sinr_max: i32,
    /// The RSRP command returns interleaved RSRP/RSRQ per port.
    pub interleaved_rsrp_rsrq: bool,
}

impl Default for AntennaMetricsConfig {
    fn default() -> (c: Self)
        ensures
            !c.supported,
            c.rsrp_cmd is None,
            c.sinr_cmd is None,
            c.rsrq_cmd is None,
            c.sentinel_value == -32768,
            c.rsrp_min == -140,
            c.rsrp_max == -44,
            c.rsrq_min == -20,
            c.rsrq_max == 0,
            c.sinr_min == -23,
            c.sinr_max == 40,
            !c.interleaved_rsrp_rsrq,
    {
        AntennaMetricsConfig {
            supported: false,
            rsrp_cmd: None,
            sinr_cmd: None,
            rsrq_cmd: None,
            sentinel_value: -32768,
            rsrp_min: -140,
            rsrp_max: -44,
            rsrq_min: -20,
            rsrq_max: 0,
            sinr_min: -23,
            sinr_max: 40,
            interleaved_rsrp_rsrq: false,
        }
    }
}

/// A signal response format variant; variants are tried in order.
#[derive(Debug, Clone)]
pub struct SignalFormatVariant {
    pub label: String,
    /// Skip the variant unless the response contains this (empty = always try).
    pub requires_substring: String,
    /// Pattern with named groups rsrp, rsrq, rssi, sinr, band, cellid.
    pub regex: String,
    /// Prefix for the captured band number ("B" or "n").
    pub band_prefix: String,
    /// "4G" or "5G".
    pub technology: String,
}

/// Signal parsing configuration (empty = generic fallback only).
#[derive(Debug, Clone)]
pub struct SignalParseConfig {
    pub variants: Vec<SignalFormatVariant>,
}

impl Default for SignalParseConfig {
    fn default() -> (c: Self)
        ensures
            c.variants@.len() == 0,
    {
        SignalParseConfig { variants: Vec::new() }
    }
}

/// Firmware version query configuration.
#[derive(Debug, Clone)]
pub struct FirmwareVersionConfig {
    pub firmware_cmd: Option<String>,
    pub firmware_regex: Option<String>,
}

impl Default for FirmwareVersionConfig {
    fn default() -> (c: Self)
        ensures
            c.firmware_cmd is None,
            c.firmware_regex is None,
    {
        FirmwareVersionConfig { firmware_cmd: None, firmware_regex: None }
    }
}

/// Additional AT whitelist entries for a modem.
#[derive(Debug, Clone)]
pub struct ProfileAtWhitelist {
    pub safe_commands: Vec<String>,
    pub confirmation_commands: Vec<String>,
    pub blocked_prefixes: Vec<String>,
}

impl Default for ProfileAtWhitelist {
    fn default() -> (c: Self)
        ensures
            c.safe_commands@.len() == 0,
            c.confirmation_commands@.len() == 0,
            c.blocked_prefixes@.len() == 0,
    {
        ProfileAtWhitelist {
            safe_commands: Vec::new(),
            confirmation_commands: Vec::new(),
            blocked_prefixes: Vec::new(),
        }
    }
}

/// Complete modem profile for one modem model.
#[derive(Debug, Clone)]
pub struct ModemProfile {
    pub identity: ModemIdentity,
    pub commands: AtCommandSet,
    pub port_mapping: PortMapping,
    pub capabilities: ModemCapabilities,
    pub at_whitelist_additions: ProfileAtWhitelist,
    /// Short label for whitelist display; falls back to the model name.
    pub whitelist_label: Option<String>,
    pub band_mode_config: BandModeConfig,
    pub mbn_config: MbnConfig,
    pub apn_apply_config: ApnApplyConfig,
    pub apn_live_config: ApnLiveConfig,
    pub dual_sim_config: DualSimConfig,
    pub ca_config: CarrierAggregationConfig,
    pub firmware_config: FirmwareVersionConfig,
    pub gps_config: GpsConfig,
    pub antenna_metrics_config: AntennaMetricsConfig,
    pub signal_parse_config: SignalParseConfig,
    pub notes: Option<String>,
    /// AT command that reboots the modem for watchdog recovery.
    pub restart_command: String,
    pub usbnet_detect: UsbNetDetectConfig,
}

/// The identity of the generic fallback profile: vendor and product "0000".
pub open spec fn is_generic_identity(id: ModemIdentity) -> bool {
    id.vendor_id@ == "0000"@ && id.product_id@ == "0000"@
}

impl ModemProfile {
    /// Whether this is the generic fallback profile.
    pub fn is_generic(&self) -> (b: bool)
        ensures
            b == is_generic_identity(self.identity),
    {
        str_eq(self.identity.vendor_id.as_str(), "0000") && str_eq(
            self.identity.product_id.as_str(),
            "0000",
        )
    }
}

} // verus!
