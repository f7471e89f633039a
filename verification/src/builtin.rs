//! Built-in modem profiles compiled into the library.
//!
//! Each profile is plain data. The contracts pin down the USB identity, the
//! AT command set and its reply patterns, the AT whitelist additions (safe,
//! confirmation and blocked commands), the live-APN templates, the restart
//! command, the USB-net detection command and parser, and the port mapping.

use vstd::prelude::*;
use crate::hardware::strings_view;
use crate::profiles::{
    AntennaMetricsConfig, ApnApplyConfig, ApnApplyStep, ApnLiveConfig, AtCommandSet,
    BandModeCommands, BandModeConfig, BandPrefixMapping, BandSections,
    CarrierAggregationConfig, DualSimConfig, FirmwareVersionConfig, GpsConfig,
    GpsCoordinateFormat, MbnCommands, MbnConfig, ModemCapabilities, ModemIdentity,
    ModemProfile, NetworkModeOption, PortMapping, ProfileAtWhitelist, SignalFormatVariant,
    SignalParseConfig, UsbNetDetectConfig, is_generic_identity,
};

verus! {

/// `p` carries the given USB identity and names.
pub open spec fn has_identity(
    p: ModemProfile,
    vendor_id: Seq<char>,
    product_id: Seq<char>,
    manufacturer: Seq<char>,
    model: Seq<char>,
) -> bool {
    &&& p.identity.vendor_id@ == vendor_id
    &&& p.identity.product_id@ == product_id
    &&& p.identity.manufacturer@ == manufacturer
    &&& p.identity.model@ == model
}

/// The tty names `p` prefers for its AT port, most preferred first.
pub open spec fn at_ports(p: ModemProfile) -> Seq<Seq<char>> {
    p.port_mapping.at_port_preference@.map_values(|s: String| s@)
}

/// `p` is the generic fallback modem: USB IDs "0000", manufacturer
/// "Generic", model "Unknown Modem", and only the standard 3GPP commands
/// (no vendor signal or operator-name command, `AT+CCID` for the ICCID).
pub open spec fn is_generic_modem(p: ModemProfile) -> bool {
    &&& has_identity(p, "0000"@, "0000"@, "Generic"@, "Unknown Modem"@)
    &&& p.commands.signal_cmd is None
    &&& p.commands.signal_parse_regex is None
    &&& p.commands.generic_signal_cmd@ == "AT+CSQ"@
    &&& p.commands.operator_name_cmd is None
    &&& p.commands.operator_name_regex is None
    &&& p.commands.generic_operator_cmd@ == "AT+COPS?"@
    &&& p.commands.iccid_cmd@ == "AT+CCID"@
    &&& p.commands.registration_cmd@ == "AT+CEREG?"@
}

/// Every field of `p` is as the Quectel RM551E-GL profile sets it.
pub open spec fn rm551e_gl_profile(p: ModemProfile) -> bool {
    &&& p.identity.vendor_id@ == "2c7c"@
    &&& p.identity.product_id@ == "0122"@
    &&& p.identity.manufacturer@ == "Quectel"@
    &&& p.identity.model@ == "RM551E-GL"@
    &&& p.identity.model_variants@.len() == 1
    &&& p.identity.model_variants@[0]@ == "RM551E"@
    &&& p.commands.signal_cmd is Some
    &&& p.commands.signal_cmd.unwrap()@ == r#"AT+QENG="servingcell""#@
    &&& p.commands.signal_parse_regex is Some
    &&& p.commands.signal_parse_regex.unwrap()@ == r#"\+QENG:\s*"servingcell","[^"]*","LTE","[^"]*",\d+,\d+,(?P<cellid>[0-9A-Fa-f]+),\d+,(?P<earfcn>\d+),(?P<band>\d+),\d+,\d+,[0-9A-Fa-f]+,(?P<rsrp>-?\d+),(?P<rsrq>-?\d+),(?P<rssi>-?\d+),(?P<sinr>-?\d+)"#@
    &&& p.commands.generic_signal_cmd@ == "AT+CSQ"@
    &&& p.commands.operator_name_cmd is Some
    &&& p.commands.operator_name_cmd.unwrap()@ == "AT+QSPN"@
    &&& p.commands.operator_name_regex is Some
    &&& p.commands.operator_name_regex.unwrap()@ == r#"\+QSPN:\s*"([^"]*)""#@
    &&& p.commands.generic_operator_cmd@ == "AT+COPS?"@
    &&& p.commands.generic_operator_regex@ == r#"\+COPS:\s*\d+,\d+,"([^"]*)""#@
    &&& p.commands.iccid_cmd@ == "AT+QCCID"@
    &&& p.commands.iccid_regex is Some
    &&& p.commands.iccid_regex.unwrap()@ == r"\+QCCID:\s*([0-9A-Fa-f]+)"@
    &&& p.commands.registration_cmd@ == "AT+CEREG?"@
    &&& p.port_mapping.at_port_preference@.len() == 2
    &&& p.port_mapping.at_port_preference@[0]@ == "ttyUSB2"@
    &&& p.port_mapping.at_port_preference@[1]@ == "ttyUSB3"@
    &&& p.port_mapping.at_interface_preference@.len() == 2
    &&& p.port_mapping.at_interface_preference@[0] == 2
    &&& p.port_mapping.at_interface_preference@[1] == 3
    &&& p.port_mapping.baud_rate == 115200
    &&& p.capabilities.supports_5g
    &&& p.capabilities.supports_carrier_aggregation
    &&& p.capabilities.supported_technologies@.len() == 4
    &&& p.capabilities.supported_technologies@[0]@ == "2G"@
    &&& p.capabilities.supported_technologies@[1]@ == "3G"@
    &&& p.capabilities.supported_technologies@[2]@ == "4G"@
    &&& p.capabilities.supported_technologies@[3]@ == "5G"@
    &&& p.capabilities.max_supported_bands@.len() == 68
    &&& p.capabilities.max_supported_bands@[0]@ == "B1"@
    &&& p.capabilities.max_supported_bands@[1]@ == "B2"@
    &&& p.capabilities.max_supported_bands@[2]@ == "B3"@
    &&& p.capabilities.max_supported_bands@[3]@ == "B4"@
    &&& p.capabilities.max_supported_bands@[4]@ == "B5"@
    &&& p.capabilities.max_supported_bands@[5]@ == "B8"@
    &&& p.capabilities.max_supported_bands@[6]@ == "B12"@
    &&& p.capabilities.max_supported_bands@[7]@ == "B13"@
    &&& p.capabilities.max_supported_bands@[8]@ == "B14"@
    &&& p.capabilities.max_supported_bands@[9]@ == "B17"@
    &&& p.capabilities.max_supported_bands@[10]@ == "B18"@
    &&& p.capabilities.max_supported_bands@[11]@ == "B19"@
    &&& p.capabilities.max_supported_bands@[12]@ == "B20"@
    &&& p.capabilities.max_supported_bands@[13]@ == "B25"@
    &&& p.capabilities.max_supported_bands@[14]@ == "B26"@
    &&& p.capabilities.max_supported_bands@[15]@ == "B28"@
    &&& p.capabilities.max_supported_bands@[16]@ == "B29"@
    &&& p.capabilities.max_supported_bands@[17]@ == "B30"@
    &&& p.capabilities.max_supported_bands@[18]@ == "B32"@
    &&& p.capabilities.max_supported_bands@[19]@ == "B34"@
    &&& p.capabilities.max_supported_bands@[20]@ == "B39"@
    &&& p.capabilities.max_supported_bands@[21]@ == "B40"@
    &&& p.capabilities.max_supported_bands@[22]@ == "B41"@
    &&& p.capabilities.max_supported_bands@[23]@ == "B42"@
    &&& p.capabilities.max_supported_bands@[24]@ == "B43"@
    &&& p.capabilities.max_supported_bands@[25]@ == "B46"@
    &&& p.capabilities.max_supported_bands@[26]@ == "B48"@
    &&& p.capabilities.max_supported_bands@[27]@ == "B53"@
    &&& p.capabilities.max_supported_bands@[28]@ == "B66"@
    &&& p.capabilities.max_supported_bands@[29]@ == "B70"@
    &&& p.capabilities.max_supported_bands@[30]@ == "B71"@
    &&& p.capabilities.max_supported_bands@[31]@ == "n1"@
    &&& p.capabilities.max_supported_bands@[32]@ == "n2"@
    &&& p.capabilities.max_supported_bands@[33]@ == "n3"@
    &&& p.capabilities.max_supported_bands@[34]@ == "n5"@
    &&& p.capabilities.max_supported_bands@[35]@ == "n7"@
    &&& p.capabilities.max_supported_bands@[36]@ == "n8"@
    &&& p.capabilities.max_supported_bands@[37]@ == "n12"@
    &&& p.capabilities.max_supported_bands@[38]@ == "n13"@
    &&& p.capabilities.max_supported_bands@[39]@ == "n14"@
    &&& p.capabilities.max_supported_bands@[40]@ == "n18"@
    &&& p.capabilities.max_supported_bands@[41]@ == "n20"@
    &&& p.capabilities.max_supported_bands@[42]@ == "n25"@
    &&& p.capabilities.max_supported_bands@[43]@ == "n26"@
    &&& p.capabilities.max_supported_bands@[44]@ == "n28"@
    &&& p.capabilities.max_supported_bands@[45]@ == "n29"@
    &&& p.capabilities.max_supported_bands@[46]@ == "n30"@
    &&& p.capabilities.max_supported_bands@[47]@ == "n38"@
    &&& p.capabilities.max_supported_bands@[48]@ == "n40"@
    &&& p.capabilities.max_supported_bands@[49]@ == "n41"@
    &&& p.capabilities.max_supported_bands@[50]@ == "n48"@
    &&& p.capabilities.max_supported_bands@[51]@ == "n53"@
    &&& p.capabilities.max_supported_bands@[52]@ == "n66"@
    &&& p.capabilities.max_supported_bands@[53]@ == "n70"@
    &&& p.capabilities.max_supported_bands@[54]@ == "n71"@
    &&& p.capabilities.max_supported_bands@[55]@ == "n75"@
    &&& p.capabilities.max_supported_bands@[56]@ == "n77"@
    &&& p.capabilities.max_supported_bands@[57]@ == "n78"@
    &&& p.capabilities.max_supported_bands@[58]@ == "n79"@
    &&& p.capabilities.max_supported_bands@[59]@ == "n91"@
    &&& p.capabilities.max_supported_bands@[60]@ == "n92"@
    &&& p.capabilities.max_supported_bands@[61]@ == "n93"@
    &&& p.capabilities.max_supported_bands@[62]@ == "n94"@
    &&& p.capabilities.max_supported_bands@[63]@ == "n257"@
    &&& p.capabilities.max_supported_bands@[64]@ == "n258"@
    &&& p.capabilities.max_supported_bands@[65]@ == "n259"@
    &&& p.capabilities.max_supported_bands@[66]@ == "n260"@
    &&& p.capabilities.max_supported_bands@[67]@ == "n261"@
    &&& p.capabilities.supported_protocols@.len() == 3
    &&& p.capabilities.supported_protocols@[0]@ == "qmi"@
    &&& p.capabilities.supported_protocols@[1]@ == "at"@
    &&& p.capabilities.supported_protocols@[2]@ == "mbim"@
    &&& p.capabilities.has_temperature_sensor
    &&& p.capabilities.has_gps
    &&& p.at_whitelist_additions.safe_commands@.len() == 31
    &&& p.at_whitelist_additions.safe_commands@[0]@ == r#"AT+QENG="servingcell""#@
    &&& p.at_whitelist_additions.safe_commands@[1]@ == r#"AT+QENG="neighbourcell""#@
    &&& p.at_whitelist_additions.safe_commands@[2]@ == "AT+QNWINFO"@
    &&& p.at_whitelist_additions.safe_commands@[3]@ == "AT+QCAINFO"@
    &&& p.at_whitelist_additions.safe_commands@[4]@ == "AT+QSPN"@
    &&& p.at_whitelist_additions.safe_commands@[5]@ == "AT+QTEMP"@
    &&& p.at_whitelist_additions.safe_commands@[6]@ == "AT+QRSRP"@
    &&& p.at_whitelist_additions.safe_commands@[7]@ == "AT+QSINR"@
    &&& p.at_whitelist_additions.safe_commands@[8]@ == "AT+QRSRQ"@
    &&& p.at_whitelist_additions.safe_commands@[9]@ == "AT+QCSQ"@
    &&& p.at_whitelist_additions.safe_commands@[10]@ == r#"AT+QNWCFG="lte_ambr""#@
    &&& p.at_whitelist_additions.safe_commands@[11]@ == r#"AT+QNWCFG="nr5g_ambr""#@
    &&& p.at_whitelist_additions.safe_commands@[12]@ == "AT+QGPSLOC=2"@
    &&& p.at_whitelist_additions.safe_commands@[13]@ == "AT+QGPS?"@
    &&& p.at_whitelist_additions.safe_commands@[14]@ == "AT+QGPSCFG?"@
    &&& p.at_whitelist_additions.safe_commands@[15]@ == "AT+QGMR"@
    &&& p.at_whitelist_additions.safe_commands@[16]@ == r#"AT+QMBNCFG="List""#@
    &&& p.at_whitelist_additions.safe_commands@[17]@ == r#"AT+QMBNCFG="AutoSel""#@
    &&& p.at_whitelist_additions.safe_commands@[18]@ == r#"AT+QMBNCFG="Select""#@
    &&& p.at_whitelist_additions.safe_commands@[19]@ == "AT+QUIMSLOT?"@
    &&& p.at_whitelist_additions.safe_commands@[20]@ == "AT+QINISTAT"@
    &&& p.at_whitelist_additions.safe_commands@[21]@ == "AT+QSIMSTAT?"@
    &&& p.at_whitelist_additions.safe_commands@[22]@ == "AT+QPINC"@
    &&& p.at_whitelist_additions.safe_commands@[23]@ == "AT+QICSGP=1"@
    &&& p.at_whitelist_additions.safe_commands@[24]@ == "AT+QICSGP=2"@
    &&& p.at_whitelist_additions.safe_commands@[25]@ == "AT+QICSGP=3"@
    &&& p.at_whitelist_additions.safe_commands@[26]@ == "AT+QICSGP=4"@
    &&& p.at_whitelist_additions.safe_commands@[27]@ == "AT+QICSGP=5"@
    &&& p.at_whitelist_additions.safe_commands@[28]@ == "AT+QICSGP=6"@
    &&& p.at_whitelist_additions.safe_commands@[29]@ == "AT+QICSGP=7"@
    &&& p.at_whitelist_additions.safe_commands@[30]@ == "AT+QICSGP=8"@
    &&& p.at_whitelist_additions.confirmation_commands@.len() == 9
    &&& p.at_whitelist_additions.confirmation_commands@[0]@ == "AT+QPOWD"@
    &&& p.at_whitelist_additions.confirmation_commands@[1]@ == "AT+QGPS"@
    &&& p.at_whitelist_additions.confirmation_commands@[2]@ == "AT+QGPSEND"@
    &&& p.at_whitelist_additions.confirmation_commands@[3]@ == "AT+QGPSCFG"@
    &&& p.at_whitelist_additions.confirmation_commands@[4]@ == "AT+QNWPREFCFG"@
    &&& p.at_whitelist_additions.confirmation_commands@[5]@ == "AT+QMBNCFG"@
    &&& p.at_whitelist_additions.confirmation_commands@[6]@ == "AT+QUIMSLOT"@
    &&& p.at_whitelist_additions.confirmation_commands@[7]@ == "AT+QSIMSTAT"@
    &&& p.at_whitelist_additions.confirmation_commands@[8]@ == "AT+QICSGP"@
    &&& p.at_whitelist_additions.blocked_prefixes@.len() == 8
    &&& p.at_whitelist_additions.blocked_prefixes@[0]@ == "AT+QFASTBOOT"@
    &&& p.at_whitelist_additions.blocked_prefixes@[1]@ == "AT+QDOWNLOAD"@
    &&& p.at_whitelist_additions.blocked_prefixes@[2]@ == "AT+QPRTPARA"@
    &&& p.at_whitelist_additions.blocked_prefixes@[3]@ == "AT+QNVW"@
    &&& p.at_whitelist_additions.blocked_prefixes@[4]@ == "AT+QNVFW"@
    &&& p.at_whitelist_additions.blocked_prefixes@[5]@ == "AT+QSIMDET"@
    &&& p.at_whitelist_additions.blocked_prefixes@[6]@ == "AT$QCPWRDN"@
    &&& p.at_whitelist_additions.blocked_prefixes@[7]@ == "AT$QCDMG"@
    &&& p.whitelist_label is Some
    &&& p.whitelist_label.unwrap()@ == "RM551"@
    &&& p.band_mode_config.supported
    &&& p.band_mode_config.commands.query_mode is Some
    &&& p.band_mode_config.commands.query_mode.unwrap()@ == r#"AT+QNWPREFCFG="mode_pref""#@
    &&& p.band_mode_config.commands.set_mode is Some
    &&& p.band_mode_config.commands.set_mode.unwrap()@ == r#"AT+QNWPREFCFG="mode_pref",{value}"#@
    &&& p.band_mode_config.commands.query_nr5g_disable is Some
    &&& p.band_mode_config.commands.query_nr5g_disable.unwrap()@ == r#"AT+QNWPREFCFG="nr5g_disable_mode""#@
    &&& p.band_mode_config.commands.set_nr5g_disable is Some
    &&& p.band_mode_config.commands.set_nr5g_disable.unwrap()@ == r#"AT+QNWPREFCFG="nr5g_disable_mode",{value}"#@
    &&& p.band_mode_config.commands.query_lte_bands is Some
    &&& p.band_mode_config.commands.query_lte_bands.unwrap()@ == r#"AT+QNWPREFCFG="lte_band""#@
    &&& p.band_mode_config.commands.set_lte_bands is Some
    &&& p.band_mode_config.commands.set_lte_bands.unwrap()@ == r#"AT+QNWPREFCFG="lte_band",{value}"#@
    &&& p.band_mode_config.commands.query_nsa_bands is Some
    &&& p.band_mode_config.commands.query_nsa_bands.unwrap()@ == r#"AT+QNWPREFCFG="nsa_nr5g_band""#@
    &&& p.band_mode_config.commands.set_nsa_bands is Some
    &&& p.band_mode_config.commands.set_nsa_bands.unwrap()@ == r#"AT+QNWPREFCFG="nsa_nr5g_band",{value}"#@
    &&& p.band_mode_config.commands.query_sa_bands is Some
    &&& p.band_mode_config.commands.query_sa_bands.unwrap()@ == r#"AT+QNWPREFCFG="nr5g_band""#@
    &&& p.band_mode_config.commands.set_sa_bands is Some
    &&& p.band_mode_config.commands.set_sa_bands.unwrap()@ == r#"AT+QNWPREFCFG="nr5g_band",{value}"#@
    &&& p.band_mode_config.commands.query_nrdc_bands is Some
    &&& p.band_mode_config.commands.query_nrdc_bands.unwrap()@ == r#"AT+QNWPREFCFG="nrdc_nr5g_band""#@
    &&& p.band_mode_config.commands.set_nrdc_bands is Some
    &&& p.band_mode_config.commands.set_nrdc_bands.unwrap()@ == r#"AT+QNWPREFCFG="nrdc_nr5g_band",{value}"#@
    &&& p.band_mode_config.commands.query_nrdc_mode is Some
    &&& p.band_mode_config.commands.query_nrdc_mode.unwrap()@ == r#"AT+QNWPREFCFG="nrdc_mode""#@
    &&& p.band_mode_config.commands.set_nrdc_mode is Some
    &&& p.band_mode_config.commands.set_nrdc_mode.unwrap()@ == r#"AT+QNWPREFCFG="nrdc_mode",{value}"#@
    &&& p.band_mode_config.commands.query_all_bands is None
    &&& p.band_mode_config.commands.set_all_bands is None
    &&& p.band_mode_config.commands.restore_bands is Some
    &&& p.band_mode_config.commands.restore_bands.unwrap()@ == r#"AT+QNWPREFCFG="restore_band""#@
    &&& p.band_mode_config.modes@.len() == 6
    &&& p.band_mode_config.modes@[0].id@ == "auto"@
    &&& p.band_mode_config.modes@[0].label@ == "Auto"@
    &&& p.band_mode_config.modes@[0].mode_value@ == "AUTO"@
    &&& p.band_mode_config.modes@[0].nr5g_disable_value is Some
    &&& p.band_mode_config.modes@[0].nr5g_disable_value.unwrap() == 0
    &&& p.band_mode_config.modes@[0].active_sections.lte
    &&& p.band_mode_config.modes@[0].active_sections.nsa
    &&& p.band_mode_config.modes@[0].active_sections.sa
    &&& p.band_mode_config.modes@[1].id@ == "lte"@
    &&& p.band_mode_config.modes@[1].label@ == "LTE"@
    &&& p.band_mode_config.modes@[1].mode_value@ == "LTE"@
    &&& p.band_mode_config.modes@[1].nr5g_disable_value is Some
    &&& p.band_mode_config.modes@[1].nr5g_disable_value.unwrap() == 2
    &&& p.band_mode_config.modes@[1].active_sections.lte
    &&& !p.band_mode_config.modes@[1].active_sections.nsa
    &&& !p.band_mode_config.modes@[1].active_sections.sa
    &&& p.band_mode_config.modes@[2].id@ == "5g_sa"@
    &&& p.band_mode_config.modes@[2].label@ == "5G SA"@
    &&& p.band_mode_config.modes@[2].mode_value@ == "NR5G"@
    &&& p.band_mode_config.modes@[2].nr5g_disable_value is Some
    &&& p.band_mode_config.modes@[2].nr5g_disable_value.unwrap() == 2
    &&& !p.band_mode_config.modes@[2].active_sections.lte
    &&& !p.band_mode_config.modes@[2].active_sections.nsa
    &&& p.band_mode_config.modes@[2].active_sections.sa
    &&& p.band_mode_config.modes@[3].id@ == "5g_nsa"@
    &&& p.band_mode_config.modes@[3].label@ == "5G NSA"@
    &&& p.band_mode_config.modes@[3].mode_value@ == "LTE:NR5G"@
    &&& p.band_mode_config.modes@[3].nr5g_disable_value is Some
    &&& p.band_mode_config.modes@[3].nr5g_disable_value.unwrap() == 1
    &&& p.band_mode_config.modes@[3].active_sections.lte
    &&& p.band_mode_config.modes@[3].active_sections.nsa
    &&& !p.band_mode_config.modes@[3].active_sections.sa
    &&& p.band_mode_config.modes@[4].id@ == "auto_no_nsa"@
    &&& p.band_mode_config.modes@[4].label@ == "Auto (no NSA)"@
    &&& p.band_mode_config.modes@[4].mode_value@ == "AUTO"@
    &&& p.band_mode_config.modes@[4].nr5g_disable_value is Some
    &&& p.band_mode_config.modes@[4].nr5g_disable_value.unwrap() == 2
    &&& p.band_mode_config.modes@[4].active_sections.lte
    &&& !p.band_mode_config.modes@[4].active_sections.nsa
    &&& p.band_mode_config.modes@[4].active_sections.sa
    &&& p.band_mode_config.modes@[5].id@ == "auto_no_sa"@
    &&& p.band_mode_config.modes@[5].label@ == "Auto (no SA)"@
    &&& p.band_mode_config.modes@[5].mode_value@ == "AUTO"@
    &&& p.band_mode_config.modes@[5].nr5g_disable_value is Some
    &&& p.band_mode_config.modes@[5].nr5g_disable_value.unwrap() == 1
    &&& p.band_mode_config.modes@[5].active_sections.lte
    &&& p.band_mode_config.modes@[5].active_sections.nsa
    &&& !p.band_mode_config.modes@[5].active_sections.sa
    &&& p.band_mode_config.lte_bands@.len() == 33
    &&& p.band_mode_config.lte_bands@[0] == 1
    &&& p.band_mode_config.lte_bands@[1] == 2
    &&& p.band_mode_config.lte_bands@[2] == 3
    &&& p.band_mode_config.lte_bands@[3] == 4
    &&& p.band_mode_config.lte_bands@[4] == 5
    &&& p.band_mode_config.lte_bands@[5] == 7
    &&& p.band_mode_config.lte_bands@[6] == 8
    &&& p.band_mode_config.lte_bands@[7] == 12
    &&& p.band_mode_config.lte_bands@[8] == 13
    &&& p.band_mode_config.lte_bands@[9] == 14
    &&& p.band_mode_config.lte_bands@[10] == 17
    &&& p.band_mode_config.lte_bands@[11] == 18
    &&& p.band_mode_config.lte_bands@[12] == 19
    &&& p.band_mode_config.lte_bands@[13] == 20
    &&& p.band_mode_config.lte_bands@[14] == 25
    &&& p.band_mode_config.lte_bands@[15] == 26
    &&& p.band_mode_config.lte_bands@[16] == 28
    &&& p.band_mode_config.lte_bands@[17] == 29
    &&& p.band_mode_config.lte_bands@[18] == 30
    &&& p.band_mode_config.lte_bands@[19] == 32
    &&& p.band_mode_config.lte_bands@[20] == 34
    &&& p.band_mode_config.lte_bands@[21] == 38
    &&& p.band_mode_config.lte_bands@[22] == 39
    &&& p.band_mode_config.lte_bands@[23] == 40
    &&& p.band_mode_config.lte_bands@[24] == 41
    &&& p.band_mode_config.lte_bands@[25] == 42
    &&& p.band_mode_config.lte_bands@[26] == 43
    &&& p.band_mode_config.lte_bands@[27] == 46
    &&& p.band_mode_config.lte_bands@[28] == 48
    &&& p.band_mode_config.lte_bands@[29] == 53
    &&& p.band_mode_config.lte_bands@[30] == 66
    &&& p.band_mode_config.lte_bands@[31] == 70
    &&& p.band_mode_config.lte_bands@[32] == 71
    &&& p.band_mode_config.nsa_nr5g_bands@.len() == 35
    &&& p.band_mode_config.nsa_nr5g_bands@[0] == 1
    &&& p.band_mode_config.nsa_nr5g_bands@[1] == 2
    &&& p.band_mode_config.nsa_nr5g_bands@[2] == 3
    &&& p.band_mode_config.nsa_nr5g_bands@[3] == 5
    &&& p.band_mode_config.nsa_nr5g_bands@[4] == 7
    &&& p.band_mode_config.nsa_nr5g_bands@[5] == 8
    &&& p.band_mode_config.nsa_nr5g_bands@[6] == 12
    &&& p.band_mode_config.nsa_nr5g_bands@[7] == 13
    &&& p.band_mode_config.nsa_nr5g_bands@[8] == 14
    &&& p.band_mode_config.nsa_nr5g_bands@[9] == 18
    &&& p.band_mode_config.nsa_nr5g_bands@[10] == 20
    &&& p.band_mode_config.nsa_nr5g_bands@[11] == 25
    &&& p.band_mode_config.nsa_nr5g_bands@[12] == 26
    &&& p.band_mode_config.nsa_nr5g_bands@[13] == 28
    &&& p.band_mode_config.nsa_nr5g_bands@[14] == 29
    &&& p.band_mode_config.nsa_nr5g_bands@[15] == 30
    &&& p.band_mode_config.nsa_nr5g_bands@[16] == 38
    &&& p.band_mode_config.nsa_nr5g_bands@[17] == 40
    &&& p.band_mode_config.nsa_nr5g_bands@[18] == 41
    &&& p.band_mode_config.nsa_nr5g_bands@[19] == 48
    &&& p.band_mode_config.nsa_nr5g_bands@[20] == 53
    &&& p.band_mode_config.nsa_nr5g_bands@[21] == 66
    &&& p.band_mode_config.nsa_nr5g_bands@[22] == 70
    &&& p.band_mode_config.nsa_nr5g_bands@[23] == 71
    &&& p.band_mode_config.nsa_nr5g_bands@[24] == 75
    &&& p.band_mode_config.nsa_nr5g_bands@[25] == 76
    &&& p.band_mode_config.nsa_nr5g_bands@[26] == 77
    &&& p.band_mode_config.nsa_nr5g_bands@[27] == 78
    &&& p.band_mode_config.nsa_nr5g_bands@[28] == 79
    &&& p.band_mode_config.nsa_nr5g_bands@[29] == 92
    &&& p.band_mode_config.nsa_nr5g_bands@[30] == 94
    &&& p.band_mode_config.nsa_nr5g_bands@[31] == 257
    &&& p.band_mode_config.nsa_nr5g_bands@[32] == 258
    &&& p.band_mode_config.nsa_nr5g_bands@[33] == 260
    &&& p.band_mode_config.nsa_nr5g_bands@[34] == 261
    &&& p.band_mode_config.sa_nr5g_bands@.len() == 37
    &&& p.band_mode_config.sa_nr5g_bands@[0] == 1
    &&& p.band_mode_config.sa_nr5g_bands@[1] == 2
    &&& p.band_mode_config.sa_nr5g_bands@[2] == 3
    &&& p.band_mode_config.sa_nr5g_bands@[3] == 5
    &&& p.band_mode_config.sa_nr5g_bands@[4] == 7
    &&& p.band_mode_config.sa_nr5g_bands@[5] == 8
    &&& p.band_mode_config.sa_nr5g_bands@[6] == 12
    &&& p.band_mode_config.sa_nr5g_bands@[7] == 13
    &&& p.band_mode_config.sa_nr5g_bands@[8] == 14
    &&& p.band_mode_config.sa_nr5g_bands@[9] == 18
    &&& p.band_mode_config.sa_nr5g_bands@[10] == 20
    &&& p.band_mode_config.sa_nr5g_bands@[11] == 25
    &&& p.band_mode_config.sa_nr5g_bands@[12] == 26
    &&& p.band_mode_config.sa_nr5g_bands@[13] == 28
    &&& p.band_mode_config.sa_nr5g_bands@[14] == 29
    &&& p.band_mode_config.sa_nr5g_bands@[15] == 30
    &&& p.band_mode_config.sa_nr5g_bands@[16] == 38
    &&& p.band_mode_config.sa_nr5g_bands@[17] == 40
    &&& p.band_mode_config.sa_nr5g_bands@[18] == 41
    &&& p.band_mode_config.sa_nr5g_bands@[19] == 48
    &&& p.band_mode_config.sa_nr5g_bands@[20] == 53
    &&& p.band_mode_config.sa_nr5g_bands@[21] == 66
    &&& p.band_mode_config.sa_nr5g_bands@[22] == 70
    &&& p.band_mode_config.sa_nr5g_bands@[23] == 71
    &&& p.band_mode_config.sa_nr5g_bands@[24] == 75
    &&& p.band_mode_config.sa_nr5g_bands@[25] == 76
    &&& p.band_mode_config.sa_nr5g_bands@[26] == 77
    &&& p.band_mode_config.sa_nr5g_bands@[27] == 78
    &&& p.band_mode_config.sa_nr5g_bands@[28] == 79
    &&& p.band_mode_config.sa_nr5g_bands@[29] == 91
    &&& p.band_mode_config.sa_nr5g_bands@[30] == 92
    &&& p.band_mode_config.sa_nr5g_bands@[31] == 93
    &&& p.band_mode_config.sa_nr5g_bands@[32] == 94
    &&& p.band_mode_config.sa_nr5g_bands@[33] == 257
    &&& p.band_mode_config.sa_nr5g_bands@[34] == 258
    &&& p.band_mode_config.sa_nr5g_bands@[35] == 260
    &&& p.band_mode_config.sa_nr5g_bands@[36] == 261
    &&& p.band_mode_config.nrdc_nr5g_bands@.len() == 37
    &&& p.band_mode_config.nrdc_nr5g_bands@[0] == 1
    &&& p.band_mode_config.nrdc_nr5g_bands@[1] == 2
    &&& p.band_mode_config.nrdc_nr5g_bands@[2] == 3
    &&& p.band_mode_config.nrdc_nr5g_bands@[3] == 5
    &&& p.band_mode_config.nrdc_nr5g_bands@[4] == 7
    &&& p.band_mode_config.nrdc_nr5g_bands@[5] == 8
    &&& p.band_mode_config.nrdc_nr5g_bands@[6] == 12
    &&& p.band_mode_config.nrdc_nr5g_bands@[7] == 13
    &&& p.band_mode_config.nrdc_nr5g_bands@[8] == 14
    &&& p.band_mode_config.nrdc_nr5g_bands@[9] == 18
    &&& p.band_mode_config.nrdc_nr5g_bands@[10] == 20
    &&& p.band_mode_config.nrdc_nr5g_bands@[11] == 25
    &&& p.band_mode_config.nrdc_nr5g_bands@[12] == 26
    &&& p.band_mode_config.nrdc_nr5g_bands@[13] == 28
    &&& p.band_mode_config.nrdc_nr5g_bands@[14] == 29
    &&& p.band_mode_config.nrdc_nr5g_bands@[15] == 30
    &&& p.band_mode_config.nrdc_nr5g_bands@[16] == 38
    &&& p.band_mode_config.nrdc_nr5g_bands@[17] == 40
    &&& p.band_mode_config.nrdc_nr5g_bands@[18] == 41
    &&& p.band_mode_config.nrdc_nr5g_bands@[19] == 48
    &&& p.band_mode_config.nrdc_nr5g_bands@[20] == 53
    &&& p.band_mode_config.nrdc_nr5g_bands@[21] == 66
    &&& p.band_mode_config.nrdc_nr5g_bands@[22] == 70
    &&& p.band_mode_config.nrdc_nr5g_bands@[23] == 71
    &&& p.band_mode_config.nrdc_nr5g_bands@[24] == 75
    &&& p.band_mode_config.nrdc_nr5g_bands@[25] == 76
    &&& p.band_mode_config.nrdc_nr5g_bands@[26] == 77
    &&& p.band_mode_config.nrdc_nr5g_bands@[27] == 78
    &&& p.band_mode_config.nrdc_nr5g_bands@[28] == 79
    &&& p.band_mode_config.nrdc_nr5g_bands@[29] == 91
    &&& p.band_mode_config.nrdc_nr5g_bands@[30] == 92
    &&& p.band_mode_config.nrdc_nr5g_bands@[31] == 93
    &&& p.band_mode_config.nrdc_nr5g_bands@[32] == 94
    &&& p.band_mode_config.nrdc_nr5g_bands@[33] == 257
    &&& p.band_mode_config.nrdc_nr5g_bands@[34] == 258
    &&& p.band_mode_config.nrdc_nr5g_bands@[35] == 260
    &&& p.band_mode_config.nrdc_nr5g_bands@[36] == 261
    &&& !p.band_mode_config.reboot_on_band_change
    &&& p.band_mode_config.band_separator@ == ":"@
    &&& p.band_mode_config.band_command_variant@ == "per_type"@
    &&& p.mbn_config.supported
    &&& p.mbn_config.commands.list_profiles is Some
    &&& p.mbn_config.commands.list_profiles.unwrap()@ == r#"AT+QMBNCFG="List""#@
    &&& p.mbn_config.commands.query_auto_select is Some
    &&& p.mbn_config.commands.query_auto_select.unwrap()@ == r#"AT+QMBNCFG="AutoSel""#@
    &&& p.mbn_config.commands.set_auto_select is Some
    &&& p.mbn_config.commands.set_auto_select.unwrap()@ == r#"AT+QMBNCFG="AutoSel",{value}"#@
    &&& p.mbn_config.commands.query_selected is Some
    &&& p.mbn_config.commands.query_selected.unwrap()@ == r#"AT+QMBNCFG="Select""#@
    &&& p.mbn_config.commands.select_profile is Some
    &&& p.mbn_config.commands.select_profile.unwrap()@ == r#"AT+QMBNCFG="Select","{value}""#@
    &&& p.mbn_config.commands.deactivate is Some
    &&& p.mbn_config.commands.deactivate.unwrap()@ == r#"AT+QMBNCFG="Deactivate""#@
    &&& p.mbn_config.reboot_recommended
    &&& p.apn_apply_config.supported
    &&& p.apn_apply_config.steps@.len() == 4
    &&& p.apn_apply_config.steps@[0].label@ == "Deactivate MBN"@
    &&& p.apn_apply_config.steps@[0].command@ == r#"AT+QMBNCFG="Deactivate""#@
    &&& p.apn_apply_config.steps@[0].requires_mbn
    &&& p.apn_apply_config.steps@[0].timeout_secs == 10
    &&& p.apn_apply_config.steps@[1].label@ == "Select MBN profile"@
    &&& p.apn_apply_config.steps@[1].command@ == r#"AT+QMBNCFG="Select","{mbn_profile}""#@
    &&& p.apn_apply_config.steps@[1].requires_mbn
    &&& p.apn_apply_config.steps@[1].timeout_secs == 10
    &&& p.apn_apply_config.steps@[2].label@ == "Set APN on PDP context"@
    &&& p.apn_apply_config.steps@[2].command@ == r#"AT+CGDCONT={cid},"{ip_type}","{apn}""#@
    &&& !p.apn_apply_config.steps@[2].requires_mbn
    &&& p.apn_apply_config.steps@[2].timeout_secs == 10
    &&& p.apn_apply_config.steps@[3].label@ == "Disable MBN AutoSelect"@
    &&& p.apn_apply_config.steps@[3].command@ == r#"AT+QMBNCFG="AutoSel",0"#@
    &&& p.apn_apply_config.steps@[3].requires_mbn
    &&& p.apn_apply_config.steps@[3].timeout_secs == 10
    &&& p.apn_apply_config.always_reboot
    &&& p.apn_apply_config.pre_reboot_delay_ms == 500
    &&& p.apn_live_config.query is Some
    &&& p.apn_live_config.query.unwrap()@ == "AT+QICSGP={cid}"@
    &&& p.apn_live_config.write is Some
    &&& p.apn_live_config.write.unwrap()@ == r#"AT+QICSGP={cid},{context_type},"{apn}","{username}","{password}",{auth}"#@
    &&& p.dual_sim_config.supported
    &&& p.dual_sim_config.slot_count == 2
    &&& p.dual_sim_config.query_slot_cmd is Some
    &&& p.dual_sim_config.query_slot_cmd.unwrap()@ == "AT+QUIMSLOT?"@
    &&& p.dual_sim_config.query_slot_regex is Some
    &&& p.dual_sim_config.query_slot_regex.unwrap()@ == r"\+QU?IMSLOT:\s*(\d+)"@
    &&& p.dual_sim_config.set_slot_cmd is Some
    &&& p.dual_sim_config.set_slot_cmd.unwrap()@ == "AT+QUIMSLOT={slot}"@
    &&& p.dual_sim_config.sim_init_cmd is Some
    &&& p.dual_sim_config.sim_init_cmd.unwrap()@ == "AT+QINISTAT"@
    &&& p.dual_sim_config.sim_init_regex is Some
    &&& p.dual_sim_config.sim_init_regex.unwrap()@ == r"\+QINISTAT:\s*(\d+)"@
    &&& p.dual_sim_config.sim_init_complete_value == 7
    &&& p.dual_sim_config.sim_init_timeout_secs == 30
    &&& p.ca_config.supported
    &&& p.ca_config.ca_info_cmd is Some
    &&& p.ca_config.ca_info_cmd.unwrap()@ == "AT+QCAINFO"@
    &&& p.ca_config.lte_scc_regex is Some
    &&& p.ca_config.lte_scc_regex.unwrap()@ == r#"\+QCAINFO:\s*"(PCC|SCC)",(\d+),(\d+),"(LTE[^"]*)",\d+,(\d+),(-?\d+),(-?\d+),(-?\d+),(-?\d+)"#@
    &&& p.ca_config.nr5g_scc_regex is Some
    &&& p.ca_config.nr5g_scc_regex.unwrap()@ == r#"\+QCAINFO:\s*"(PCC|SCC)",(\d+),(\d+),"(NR5G[^"]*)"(?:,(.+))?"#@
    &&& p.ca_config.network_type_cmd is Some
    &&& p.ca_config.network_type_cmd.unwrap()@ == "AT+QNWINFO"@
    &&& p.ca_config.network_type_regex is Some
    &&& p.ca_config.network_type_regex.unwrap()@ == r#"\+QNWINFO:\s*"([^"]*)""#@
    &&& p.ca_config.band_prefix_mappings@.len() == 2
    &&& p.ca_config.band_prefix_mappings@[0].prefix@ == "LTE BAND "@
    &&& p.ca_config.band_prefix_mappings@[0].replacement@ == "B"@
    &&& p.ca_config.band_prefix_mappings@[1].prefix@ == "NR5G BAND "@
    &&& p.ca_config.band_prefix_mappings@[1].replacement@ == "n"@
    &&& p.ca_config.ca_parser_variant@ == "qcainfo"@
    &&& p.firmware_config.firmware_cmd is Some
    &&& p.firmware_config.firmware_cmd.unwrap()@ == "AT+QGMR"@
    &&& p.firmware_config.firmware_regex is None
    &&& p.gps_config.supported
    &&& p.gps_config.start_cmd is Some
    &&& p.gps_config.start_cmd.unwrap()@ == "AT+QGPS=1"@
    &&& p.gps_config.start_already_running_codes@.len() == 1
    &&& p.gps_config.start_already_running_codes@[0] == 504
    &&& p.gps_config.query_cmd is Some
    &&& p.gps_config.query_cmd.unwrap()@ == "AT+QGPSLOC=2"@
    &&& p.gps_config.no_fix_error_codes@.len() == 1
    &&& p.gps_config.no_fix_error_codes@[0] == 516
    &&& p.gps_config.query_regex is Some
    &&& p.gps_config.query_regex.unwrap()@ == r"\+QGPSLOC:\s*(?P<time>\d+\.\d+),(?P<lat>[+-]?\d+\.\d+),(?P<lon>[+-]?\d+\.\d+),[^,]*,(?P<alt>[+-]?\d+\.?\d*),(?P<fix>\d),[^,]*,(?P<speed>\d+\.?\d*),[^,]*,(?P<date>\d+),(?P<satellites>\d+)"@
    &&& p.gps_config.stop_cmd is Some
    &&& p.gps_config.stop_cmd.unwrap()@ == "AT+QGPSEND"@
    &&& p.gps_config.stop_already_stopped_codes@.len() == 1
    &&& p.gps_config.stop_already_stopped_codes@[0] == 505
    &&& !p.gps_config.start_tolerates_bare_error
    &&& p.gps_config.coordinate_format == GpsCoordinateFormat::Decimal
    &&& p.antenna_metrics_config.supported
    &&& p.antenna_metrics_config.rsrp_cmd is Some
    &&& p.antenna_metrics_config.rsrp_cmd.unwrap()@ == "AT+QRSRP"@
    &&& p.antenna_metrics_config.sinr_cmd is Some
    &&& p.antenna_metrics_config.sinr_cmd.unwrap()@ == "AT+QSINR"@
    &&& p.antenna_metrics_config.rsrq_cmd is Some
    &&& p.antenna_metrics_config.rsrq_cmd.unwrap()@ == "AT+QRSRQ"@
    &&& p.antenna_metrics_config.sentinel_value == -32768
    &&& p.antenna_metrics_config.rsrp_min == -140
    &&& p.antenna_metrics_config.rsrp_max == -44
    &&& p.antenna_metrics_config.rsrq_min == -20
    &&& p.antenna_metrics_config.rsrq_max == 0
    &&& p.antenna_metrics_config.sinr_min == -23
    &&& p.antenna_metrics_config.sinr_max == 40
    &&& !p.antenna_metrics_config.interleaved_rsrp_rsrq
    &&& p.signal_parse_config.variants@.len() == 4
    &&& p.signal_parse_config.variants@[0].label@ == "NR5G-NSA 3-line"@
    &&& p.signal_parse_config.variants@[0].requires_substring@ == "NR5G-NSA"@
    &&& p.signal_parse_config.variants@[0].regex@ == r#"\+QENG:\s*"LTE","[^"]*",\d+,\d+,(?P<cellid>[0-9A-Fa-f]+),\d+,\d+,(?P<band>\d+),\d+,\d+,[0-9A-Fa-f]+,(?P<rsrp>-?\d+),(?P<rsrq>-?\d+),(?P<rssi>-?\d+),(?P<sinr>-?\d+)"#@
    &&& p.signal_parse_config.variants@[0].band_prefix@ == "B"@
    &&& p.signal_parse_config.variants@[0].technology@ == "4G"@
    &&& p.signal_parse_config.variants@[1].label@ == "LTE single-line"@
    &&& p.signal_parse_config.variants@[1].requires_substring@.len() == 0
    &&& p.signal_parse_config.variants@[1].regex@ == r#"\+QENG:\s*"servingcell","[^"]*","LTE","[^"]*",\d+,\d+,(?P<cellid>[0-9A-Fa-f]+),\d+,(?P<earfcn>\d+),(?P<band>\d+),\d+,\d+,[0-9A-Fa-f]+,(?P<rsrp>-?\d+),(?P<rsrq>-?\d+),(?P<rssi>-?\d+),(?P<sinr>-?\d+)"#@
    &&& p.signal_parse_config.variants@[1].band_prefix@ == "B"@
    &&& p.signal_parse_config.variants@[1].technology@ == "4G"@
    &&& p.signal_parse_config.variants@[2].label@ == "LTE 2-line"@
    &&& p.signal_parse_config.variants@[2].requires_substring@.len() == 0
    &&& p.signal_parse_config.variants@[2].regex@ == r#"\+QENG:\s*"LTE","[^"]*",\d+,\d+,(?P<cellid>[0-9A-Fa-f]+),\d+,(?P<earfcn>\d+),(?P<band>\d+),\d+,\d+,[0-9A-Fa-f]+,(?P<rsrp>-?\d+),(?P<rsrq>-?\d+),(?P<rssi>-?\d+),(?P<sinr>-?\d+)"#@
    &&& p.signal_parse_config.variants@[2].band_prefix@ == "B"@
    &&& p.signal_parse_config.variants@[2].technology@ == "4G"@
    &&& p.signal_parse_config.variants@[3].label@ == "NR5G-SA single-line"@
    &&& p.signal_parse_config.variants@[3].requires_substring@ == "NR5G-SA"@
    &&& p.signal_parse_config.variants@[3].regex@ == r#"\+QENG:\s*"servingcell","[^"]*","NR5G-SA","[^"]*",\d+,\d+,(?P<cellid>[0-9A-Fa-f]+),[0-9A-Fa-f]+,(?:[0-9A-Fa-f]+,)*(?P<band>\d+),\d+,(?P<rsrp>-?\d+),(?P<rsrq>-?\d+),(?P<sinr>-?\d+)"#@
    &&& p.signal_parse_config.variants@[3].band_prefix@ == "n"@
    &&& p.signal_parse_config.variants@[3].technology@ == "5G"@
    &&& p.notes is Some
    &&& p.notes.unwrap()@ == "Primary target hardware. AT port is ttyUSB2. Uses QMI for data, AT for control."@
    &&& p.restart_command@ == "AT+CFUN=1,1"@
    &&& p.usbnet_detect.query_cmd is Some
    &&& p.usbnet_detect.query_cmd.unwrap()@ == r#"AT+QCFG="usbnet""#@
    &&& p.usbnet_detect.parser is Some
    &&& p.usbnet_detect.parser.unwrap()@ == "quectel_qcfg_usbnet"@
}

/// Every field of `p` is as the Quectel RM520N-GL profile sets it.
pub open spec fn rm520n_gl_profile(p: ModemProfile) -> bool {
    &&& p.identity.vendor_id@ == "2c7c"@
    &&& p.identity.product_id@ == "0801"@
    &&& p.identity.manufacturer@ == "Quectel"@
    &&& p.identity.model@ == "RM520N-GL"@
    &&& p.identity.model_variants@.len() == 2
    &&& p.identity.model_variants@[0]@ == "RM520N-GL"@
    &&& p.identity.model_variants@[1]@ == "RM520N"@
    &&& p.commands.signal_cmd is Some
    &&& p.commands.signal_cmd.unwrap()@ == r#"AT+QENG="servingcell""#@
    &&& p.commands.signal_parse_regex is Some
    &&& p.commands.signal_parse_regex.unwrap()@ == r#"\+QENG:\s*"servingcell","[^"]*","LTE","[^"]*",\d+,\d+,(?P<cellid>[0-9A-Fa-f]+),\d+,(?P<earfcn>\d+),(?P<band>\d+),\d+,\d+,[0-9A-Fa-f]+,(?P<rsrp>-?\d+),(?P<rsrq>-?\d+),(?P<rssi>-?\d+),(?P<sinr>-?\d+)"#@
    &&& p.commands.generic_signal_cmd@ == "AT+CSQ"@
    &&& p.commands.operator_name_cmd is Some
    &&& p.commands.operator_name_cmd.unwrap()@ == "AT+QSPN"@
    &&& p.commands.operator_name_regex is Some
    &&& p.commands.operator_name_regex.unwrap()@ == r#"\+QSPN:\s*"([^"]*)""#@
    &&& p.commands.generic_operator_cmd@ == "AT+COPS?"@
    &&& p.commands.generic_operator_regex@ == r#"\+COPS:\s*\d+,\d+,"([^"]*)""#@
    &&& p.commands.iccid_cmd@ == "AT+QCCID"@
    &&& p.commands.iccid_regex is Some
    &&& p.commands.iccid_regex.unwrap()@ == r"\+QCCID:\s*([0-9A-Fa-f]+)"@
    &&& p.commands.registration_cmd@ == "AT+CEREG?"@
    &&& p.port_mapping.at_port_preference@.len() == 2
    &&& p.port_mapping.at_port_preference@[0]@ == "ttyUSB2"@
    &&& p.port_mapping.at_port_preference@[1]@ == "ttyUSB3"@
    &&& p.port_mapping.at_interface_preference@.len() == 2
    &&& p.port_mapping.at_interface_preference@[0] == 2
    &&& p.port_mapping.at_interface_preference@[1] == 3
    &&& p.port_mapping.baud_rate == 115200
    &&& p.capabilities.supports_5g
    &&& p.capabilities.supports_carrier_aggregation
    &&& p.capabilities.supported_technologies@.len() == 4
    &&& p.capabilities.supported_technologies@[0]@ == "2G"@
    &&& p.capabilities.supported_technologies@[1]@ == "3G"@
    &&& p.capabilities.supported_technologies@[2]@ == "4G"@
    &&& p.capabilities.supported_technologies@[3]@ == "5G"@
    &&& p.capabilities.max_supported_bands@.len() == 58
    &&& p.capabilities.max_supported_bands@[0]@ == "B1"@
    &&& p.capabilities.max_supported_bands@[1]@ == "B2"@
    &&& p.capabilities.max_supported_bands@[2]@ == "B3"@
    &&& p.capabilities.max_supported_bands@[3]@ == "B4"@
    &&& p.capabilities.max_supported_bands@[4]@ == "B5"@
    &&& p.capabilities.max_supported_bands@[5]@ == "B7"@
    &&& p.capabilities.max_supported_bands@[6]@ == "B8"@
    &&& p.capabilities.max_supported_bands@[7]@ == "B12"@
    &&& p.capabilities.max_supported_bands@[8]@ == "B13"@
    &&& p.capabilities.max_supported_bands@[9]@ == "B14"@
    &&& p.capabilities.max_supported_bands@[10]@ == "B17"@
    &&& p.capabilities.max_supported_bands@[11]@ == "B18"@
    &&& p.capabilities.max_supported_bands@[12]@ == "B19"@
    &&& p.capabilities.max_supported_bands@[13]@ == "B20"@
    &&& p.capabilities.max_supported_bands@[14]@ == "B25"@
    &&& p.capabilities.max_supported_bands@[15]@ == "B26"@
    &&& p.capabilities.max_supported_bands@[16]@ == "B28"@
    &&& p.capabilities.max_supported_bands@[17]@ == "B29"@
    &&& p.capabilities.max_supported_bands@[18]@ == "B30"@
    &&& p.capabilities.max_supported_bands@[19]@ == "B32"@
    &&& p.capabilities.max_supported_bands@[20]@ == "B34"@
    &&& p.capabilities.max_supported_bands@[21]@ == "B38"@
    &&& p.capabilities.max_supported_bands@[22]@ == "B39"@
    &&& p.capabilities.max_supported_bands@[23]@ == "B40"@
    &&& p.capabilities.max_supported_bands@[24]@ == "B41"@
    &&& p.capabilities.max_supported_bands@[25]@ == "B42"@
    &&& p.capabilities.max_supported_bands@[26]@ == "B43"@
    &&& p.capabilities.max_supported_bands@[27]@ == "B46"@
    &&& p.capabilities.max_supported_bands@[28]@ == "B48"@
    &&& p.capabilities.max_supported_bands@[29]@ == "B66"@
    &&& p.capabilities.max_supported_bands@[30]@ == "B71"@
    &&& p.capabilities.max_supported_bands@[31]@ == "n1"@
    &&& p.capabilities.max_supported_bands@[32]@ == "n2"@
    &&& p.capabilities.max_supported_bands@[33]@ == "n3"@
    &&& p.capabilities.max_supported_bands@[34]@ == "n5"@
    &&& p.capabilities.max_supported_bands@[35]@ == "n7"@
    &&& p.capabilities.max_supported_bands@[36]@ == "n8"@
    &&& p.capabilities.max_supported_bands@[37]@ == "n12"@
    &&& p.capabilities.max_supported_bands@[38]@ == "n13"@
    &&& p.capabilities.max_supported_bands@[39]@ == "n14"@
    &&& p.capabilities.max_supported_bands@[40]@ == "n18"@
    &&& p.capabilities.max_supported_bands@[41]@ == "n20"@
    &&& p.capabilities.max_supported_bands@[42]@ == "n25"@
    &&& p.capabilities.max_supported_bands@[43]@ == "n26"@
    &&& p.capabilities.max_supported_bands@[44]@ == "n28"@
    &&& p.capabilities.max_supported_bands@[45]@ == "n29"@
    &&& p.capabilities.max_supported_bands@[46]@ == "n30"@
    &&& p.capabilities.max_supported_bands@[47]@ == "n38"@
    &&& p.capabilities.max_supported_bands@[48]@ == "n40"@
    &&& p.capabilities.max_supported_bands@[49]@ == "n48"@
    &&& p.capabilities.max_supported_bands@[50]@ == "n66"@
    &&& p.capabilities.max_supported_bands@[51]@ == "n70"@
    &&& p.capabilities.max_supported_bands@[52]@ == "n71"@
    &&& p.capabilities.max_supported_bands@[53]@ == "n75"@
    &&& p.capabilities.max_supported_bands@[54]@ == "n76"@
    &&& p.capabilities.max_supported_bands@[55]@ == "n77"@
    &&& p.capabilities.max_supported_bands@[56]@ == "n78"@
    &&& p.capabilities.max_supported_bands@[57]@ == "n79"@
    &&& p.capabilities.supported_protocols@.len() == 3
    &&& p.capabilities.supported_protocols@[0]@ == "qmi"@
    &&& p.capabilities.supported_protocols@[1]@ == "at"@
    &&& p.capabilities.supported_protocols@[2]@ == "mbim"@
    &&& p.capabilities.has_temperature_sensor
    &&& p.capabilities.has_gps
    &&& p.at_whitelist_additions.safe_commands@.len() == 31
    &&& p.at_whitelist_additions.safe_commands@[0]@ == r#"AT+QENG="servingcell""#@
    &&& p.at_whitelist_additions.safe_commands@[1]@ == r#"AT+QENG="neighbourcell""#@
    &&& p.at_whitelist_additions.safe_commands@[2]@ == "AT+QNWINFO"@
    &&& p.at_whitelist_additions.safe_commands@[3]@ == "AT+QCAINFO"@
    &&& p.at_whitelist_additions.safe_commands@[4]@ == "AT+QSPN"@
    &&& p.at_whitelist_additions.safe_commands@[5]@ == "AT+QTEMP"@
    &&& p.at_whitelist_additions.safe_commands@[6]@ == "AT+QRSRP"@
    &&& p.at_whitelist_additions.safe_commands@[7]@ == "AT+QSINR"@
    &&& p.at_whitelist_additions.safe_commands@[8]@ == "AT+QRSRQ"@
    &&& p.at_whitelist_additions.safe_commands@[9]@ == "AT+QCSQ"@
    &&& p.at_whitelist_additions.safe_commands@[10]@ == r#"AT+QNWCFG="lte_ambr""#@
    &&& p.at_whitelist_additions.safe_commands@[11]@ == r#"AT+QNWCFG="nr5g_ambr""#@
    &&& p.at_whitelist_additions.safe_commands@[12]@ == "AT+QGPSLOC=2"@
    &&& p.at_whitelist_additions.safe_commands@[13]@ == "AT+QGPS?"@
    &&& p.at_whitelist_additions.safe_commands@[14]@ == "AT+QGPSCFG?"@
    &&& p.at_whitelist_additions.safe_commands@[15]@ == "AT+QGMR"@
    &&& p.at_whitelist_additions.safe_commands@[16]@ == r#"AT+QMBNCFG="List""#@
    &&& p.at_whitelist_additions.safe_commands@[17]@ == r#"AT+QMBNCFG="AutoSel""#@
    &&& p.at_whitelist_additions.safe_commands@[18]@ == r#"AT+QMBNCFG="Select""#@
    &&& p.at_whitelist_additions.safe_commands@[19]@ == "AT+QUIMSLOT?"@
    &&& p.at_whitelist_additions.safe_commands@[20]@ == "AT+QINISTAT"@
    &&& p.at_whitelist_additions.safe_commands@[21]@ == "AT+QSIMSTAT?"@
    &&& p.at_whitelist_additions.safe_commands@[22]@ == "AT+QPINC"@
    &&& p.at_whitelist_additions.safe_commands@[23]@ == "AT+QICSGP=1"@
    &&& p.at_whitelist_additions.safe_commands@[24]@ == "AT+QICSGP=2"@
    &&& p.at_whitelist_additions.safe_commands@[25]@ == "AT+QICSGP=3"@
    &&& p.at_whitelist_additions.safe_commands@[26]@ == "AT+QICSGP=4"@
    &&& p.at_whitelist_additions.safe_commands@[27]@ == "AT+QICSGP=5"@
    &&& p.at_whitelist_additions.safe_commands@[28]@ == "AT+QICSGP=6"@
    &&& p.at_whitelist_additions.safe_commands@[29]@ == "AT+QICSGP=7"@
    &&& p.at_whitelist_additions.safe_commands@[30]@ == "AT+QICSGP=8"@
    &&& p.at_whitelist_additions.confirmation_commands@.len() == 9
    &&& p.at_whitelist_additions.confirmation_commands@[0]@ == "AT+QPOWD"@
    &&& p.at_whitelist_additions.confirmation_commands@[1]@ == "AT+QGPS"@
    &&& p.at_whitelist_additions.confirmation_commands@[2]@ == "AT+QGPSEND"@
    &&& p.at_whitelist_additions.confirmation_commands@[3]@ == "AT+QGPSCFG"@
    &&& p.at_whitelist_additions.confirmation_commands@[4]@ == "AT+QNWPREFCFG"@
    &&& p.at_whitelist_additions.confirmation_commands@[5]@ == "AT+QMBNCFG"@
    &&& p.at_whitelist_additions.confirmation_commands@[6]@ == "AT+QUIMSLOT"@
    &&& p.at_whitelist_additions.confirmation_commands@[7]@ == "AT+QSIMSTAT"@
    &&& p.at_whitelist_additions.confirmation_commands@[8]@ == "AT+QICSGP"@
    &&& p.at_whitelist_additions.blocked_prefixes@.len() == 8
    &&& p.at_whitelist_additions.blocked_prefixes@[0]@ == "AT+QFASTBOOT"@
    &&& p.at_whitelist_additions.blocked_prefixes@[1]@ == "AT+QDOWNLOAD"@
    &&& p.at_whitelist_additions.blocked_prefixes@[2]@ == "AT+QPRTPARA"@
    &&& p.at_whitelist_additions.blocked_prefixes@[3]@ == "AT+QNVW"@
    &&& p.at_whitelist_additions.blocked_prefixes@[4]@ == "AT+QNVFW"@
    &&& p.at_whitelist_additions.blocked_prefixes@[5]@ == "AT+QSIMDET"@
    &&& p.at_whitelist_additions.blocked_prefixes@[6]@ == "AT$QCPWRDN"@
    &&& p.at_whitelist_additions.blocked_prefixes@[7]@ == "AT$QCDMG"@
    &&& p.whitelist_label is Some
    &&& p.whitelist_label.unwrap()@ == "RM520N"@
    &&& p.band_mode_config.supported
    &&& p.band_mode_config.commands.query_mode is Some
    &&& p.band_mode_config.commands.query_mode.unwrap()@ == r#"AT+QNWPREFCFG="mode_pref""#@
    &&& p.band_mode_config.commands.set_mode is Some
    &&& p.band_mode_config.commands.set_mode.unwrap()@ == r#"AT+QNWPREFCFG="mode_pref",{value}"#@
    &&& p.band_mode_config.commands.query_nr5g_disable is Some
    &&& p.band_mode_config.commands.query_nr5g_disable.unwrap()@ == r#"AT+QNWPREFCFG="nr5g_disable_mode""#@
    &&& p.band_mode_config.commands.set_nr5g_disable is Some
    &&& p.band_mode_config.commands.set_nr5g_disable.unwrap()@ == r#"AT+QNWPREFCFG="nr5g_disable_mode",{value}"#@
    &&& p.band_mode_config.commands.query_lte_bands is Some
    &&& p.band_mode_config.commands.query_lte_bands.unwrap()@ == r#"AT+QNWPREFCFG="lte_band""#@
    &&& p.band_mode_config.commands.set_lte_bands is Some
    &&& p.band_mode_config.commands.set_lte_bands.unwrap()@ == r#"AT+QNWPREFCFG="lte_band",{value}"#@
    &&& p.band_mode_config.commands.query_nsa_bands is Some
    &&& p.band_mode_config.commands.query_nsa_bands.unwrap()@ == r#"AT+QNWPREFCFG="nsa_nr5g_band""#@
    &&& p.band_mode_config.commands.set_nsa_bands is Some
    &&& p.band_mode_config.commands.set_nsa_bands.unwrap()@ == r#"AT+QNWPREFCFG="nsa_nr5g_band",{value}"#@
    &&& p.band_mode_config.commands.query_sa_bands is Some
    &&& p.band_mode_config.commands.query_sa_bands.unwrap()@ == r#"AT+QNWPREFCFG="nr5g_band""#@
    &&& p.band_mode_config.commands.set_sa_bands is Some
    &&& p.band_mode_config.commands.set_sa_bands.unwrap()@ == r#"AT+QNWPREFCFG="nr5g_band",{value}"#@
    &&& p.band_mode_config.commands.query_nrdc_bands is Some
    &&& p.band_mode_config.commands.query_nrdc_bands.unwrap()@ == r#"AT+QNWPREFCFG="nrdc_nr5g_band""#@
    &&& p.band_mode_config.commands.set_nrdc_bands is Some
    &&& p.band_mode_config.commands.set_nrdc_bands.unwrap()@ == r#"AT+QNWPREFCFG="nrdc_nr5g_band",{value}"#@
    &&& p.band_mode_config.commands.query_nrdc_mode is Some
    &&& p.band_mode_config.commands.query_nrdc_mode.unwrap()@ == r#"AT+QNWPREFCFG="nrdc_mode""#@
    &&& p.band_mode_config.commands.set_nrdc_mode is Some
    &&& p.band_mode_config.commands.set_nrdc_mode.unwrap()@ == r#"AT+QNWPREFCFG="nrdc_mode",{value}"#@
    &&& p.band_mode_config.commands.query_all_bands is None
    &&& p.band_mode_config.commands.set_all_bands is None
    &&& p.band_mode_config.commands.restore_bands is Some
    &&& p.band_mode_config.commands.restore_bands.unwrap()@ == r#"AT+QNWPREFCFG="restore_band""#@
    &&& p.band_mode_config.modes@.len() == 6
    &&& p.band_mode_config.modes@[0].id@ == "auto"@
    &&& p.band_mode_config.modes@[0].label@ == "Auto"@
    &&& p.band_mode_config.modes@[0].mode_value@ == "AUTO"@
    &&& p.band_mode_config.modes@[0].nr5g_disable_value is Some
    &&& p.band_mode_config.modes@[0].nr5g_disable_value.unwrap() == 0
    &&& p.band_mode_config.modes@[0].active_sections.lte
    &&& p.band_mode_config.modes@[0].active_sections.nsa
    &&& p.band_mode_config.modes@[0].active_sections.sa
    &&& p.band_mode_config.modes@[1].id@ == "lte"@
    &&& p.band_mode_config.modes@[1].label@ == "LTE"@
    &&& p.band_mode_config.modes@[1].mode_value@ == "LTE"@
    &&& p.band_mode_config.modes@[1].nr5g_disable_value is Some
    &&& p.band_mode_config.modes@[1].nr5g_disable_value.unwrap() == 2
    &&& p.band_mode_config.modes@[1].active_sections.lte
    &&& !p.band_mode_config.modes@[1].active_sections.nsa
    &&& !p.band_mode_config.modes@[1].active_sections.sa
    &&& p.band_mode_config.modes@[2].id@ == "5g_sa"@
    &&& p.band_mode_config.modes@[2].label@ == "5G SA"@
    &&& p.band_mode_config.modes@[2].mode_value@ == "NR5G"@
    &&& p.band_mode_config.modes@[2].nr5g_disable_value is Some
    &&& p.band_mode_config.modes@[2].nr5g_disable_value.unwrap() == 2
    &&& !p.band_mode_config.modes@[2].active_sections.lte
    &&& !p.band_mode_config.modes@[2].active_sections.nsa
    &&& p.band_mode_config.modes@[2].active_sections.sa
    &&& p.band_mode_config.modes@[3].id@ == "5g_nsa"@
    &&& p.band_mode_config.modes@[3].label@ == "5G NSA"@
    &&& p.band_mode_config.modes@[3].mode_value@ == "LTE:NR5G"@
    &&& p.band_mode_config.modes@[3].nr5g_disable_value is Some
    &&& p.band_mode_config.modes@[3].nr5g_disable_value.unwrap() == 1
    &&& p.band_mode_config.modes@[3].active_sections.lte
    &&& p.band_mode_config.modes@[3].active_sections.nsa
    &&& !p.band_mode_config.modes@[3].active_sections.sa
    &&& p.band_mode_config.modes@[4].id@ == "auto_no_nsa"@
    &&& p.band_mode_config.modes@[4].label@ == "Auto (no NSA)"@
    &&& p.band_mode_config.modes@[4].mode_value@ == "AUTO"@
    &&& p.band_mode_config.modes@[4].nr5g_disable_value is Some
    &&& p.band_mode_config.modes@[4].nr5g_disable_value.unwrap() == 2
    &&& p.band_mode_config.modes@[4].active_sections.lte
    &&& !p.band_mode_config.modes@[4].active_sections.nsa
    &&& p.band_mode_config.modes@[4].active_sections.sa
    &&& p.band_mode_config.modes@[5].id@ == "auto_no_sa"@
    &&& p.band_mode_config.modes@[5].label@ == "Auto (no SA)"@
    &&& p.band_mode_config.modes@[5].mode_value@ == "AUTO"@
    &&& p.band_mode_config.modes@[5].nr5g_disable_value is Some
    &&& p.band_mode_config.modes@[5].nr5g_disable_value.unwrap() == 1
    &&& p.band_mode_config.modes@[5].active_sections.lte
    &&& p.band_mode_config.modes@[5].active_sections.nsa
    &&& !p.band_mode_config.modes@[5].active_sections.sa
    &&& p.band_mode_config.lte_bands@.len() == 31
    &&& p.band_mode_config.lte_bands@[0] == 1
    &&& p.band_mode_config.lte_bands@[1] == 2
    &&& p.band_mode_config.lte_bands@[2] == 3
    &&& p.band_mode_config.lte_bands@[3] == 4
    &&& p.band_mode_config.lte_bands@[4] == 5
    &&& p.band_mode_config.lte_bands@[5] == 7
    &&& p.band_mode_config.lte_bands@[6] == 8
    &&& p.band_mode_config.lte_bands@[7] == 12
    &&& p.band_mode_config.lte_bands@[8] == 13
    &&& p.band_mode_config.lte_bands@[9] == 14
    &&& p.band_mode_config.lte_bands@[10] == 17
    &&& p.band_mode_config.lte_bands@[11] == 18
    &&& p.band_mode_config.lte_bands@[12] == 19
    &&& p.band_mode_config.lte_bands@[13] == 20
    &&& p.band_mode_config.lte_bands@[14] == 25
    &&& p.band_mode_config.lte_bands@[15] == 26
    &&& p.band_mode_config.lte_bands@[16] == 28
    &&& p.band_mode_config.lte_bands@[17] == 29
    &&& p.band_mode_config.lte_bands@[18] == 30
    &&& p.band_mode_config.lte_bands@[19] == 32
    &&& p.band_mode_config.lte_bands@[20] == 34
    &&& p.band_mode_config.lte_bands@[21] == 38
    &&& p.band_mode_config.lte_bands@[22] == 39
    &&& p.band_mode_config.lte_bands@[23] == 40
    &&& p.band_mode_config.lte_bands@[24] == 41
    &&& p.band_mode_config.lte_bands@[25] == 42
    &&& p.band_mode_config.lte_bands@[26] == 43
    &&& p.band_mode_config.lte_bands@[27] == 46
    &&& p.band_mode_config.lte_bands@[28] == 48
    &&& p.band_mode_config.lte_bands@[29] == 66
    &&& p.band_mode_config.lte_bands@[30] == 71
    &&& p.band_mode_config.nsa_nr5g_bands@.len() == 27
    &&& p.band_mode_config.nsa_nr5g_bands@[0] == 1
    &&& p.band_mode_config.nsa_nr5g_bands@[1] == 2
    &&& p.band_mode_config.nsa_nr5g_bands@[2] == 3
    &&& p.band_mode_config.nsa_nr5g_bands@[3] == 5
    &&& p.band_mode_config.nsa_nr5g_bands@[4] == 7
    &&& p.band_mode_config.nsa_nr5g_bands@[5] == 8
    &&& p.band_mode_config.nsa_nr5g_bands@[6] == 12
    &&& p.band_mode_config.nsa_nr5g_bands@[7] == 13
    &&& p.band_mode_config.nsa_nr5g_bands@[8] == 14
    &&& p.band_mode_config.nsa_nr5g_bands@[9] == 18
    &&& p.band_mode_config.nsa_nr5g_bands@[10] == 20
    &&& p.band_mode_config.nsa_nr5g_bands@[11] == 25
    &&& p.band_mode_config.nsa_nr5g_bands@[12] == 26
    &&& p.band_mode_config.nsa_nr5g_bands@[13] == 28
    &&& p.band_mode_config.nsa_nr5g_bands@[14] == 29
    &&& p.band_mode_config.nsa_nr5g_bands@[15] == 30
    &&& p.band_mode_config.nsa_nr5g_bands@[16] == 38
    &&& p.band_mode_config.nsa_nr5g_bands@[17] == 40
    &&& p.band_mode_config.nsa_nr5g_bands@[18] == 48
    &&& p.band_mode_config.nsa_nr5g_bands@[19] == 66
    &&& p.band_mode_config.nsa_nr5g_bands@[20] == 70
    &&& p.band_mode_config.nsa_nr5g_bands@[21] == 71
    &&& p.band_mode_config.nsa_nr5g_bands@[22] == 75
    &&& p.band_mode_config.nsa_nr5g_bands@[23] == 76
    &&& p.band_mode_config.nsa_nr5g_bands@[24] == 77
    &&& p.band_mode_config.nsa_nr5g_bands@[25] == 78
    &&& p.band_mode_config.nsa_nr5g_bands@[26] == 79
    &&& p.band_mode_config.sa_nr5g_bands@.len() == 27
    &&& p.band_mode_config.sa_nr5g_bands@[0] == 1
    &&& p.band_mode_config.sa_nr5g_bands@[1] == 2
    &&& p.band_mode_config.sa_nr5g_bands@[2] == 3
    &&& p.band_mode_config.sa_nr5g_bands@[3] == 5
    &&& p.band_mode_config.sa_nr5g_bands@[4] == 7
    &&& p.band_mode_config.sa_nr5g_bands@[5] == 8
    &&& p.band_mode_config.sa_nr5g_bands@[6] == 12
    &&& p.band_mode_config.sa_nr5g_bands@[7] == 13
    &&& p.band_mode_config.sa_nr5g_bands@[8] == 14
    &&& p.band_mode_config.sa_nr5g_bands@[9] == 18
    &&& p.band_mode_config.sa_nr5g_bands@[10] == 20
    &&& p.band_mode_config.sa_nr5g_bands@[11] == 25
    &&& p.band_mode_config.sa_nr5g_bands@[12] == 26
    &&& p.band_mode_config.sa_nr5g_bands@[13] == 28
    &&& p.band_mode_config.sa_nr5g_bands@[14] == 29
    &&& p.band_mode_config.sa_nr5g_bands@[15] == 30
    &&& p.band_mode_config.sa_nr5g_bands@[16] == 38
    &&& p.band_mode_config.sa_nr5g_bands@[17] == 40
    &&& p.band_mode_config.sa_nr5g_bands@[18] == 48
    &&& p.band_mode_config.sa_nr5g_bands@[19] == 66
    &&& p.band_mode_config.sa_nr5g_bands@[20] == 70
    &&& p.band_mode_config.sa_nr5g_bands@[21] == 71
    &&& p.band_mode_config.sa_nr5g_bands@[22] == 75
    &&& p.band_mode_config.sa_nr5g_bands@[23] == 76
    &&& p.band_mode_config.sa_nr5g_bands@[24] == 77
    &&& p.band_mode_config.sa_nr5g_bands@[25] == 78
    &&& p.band_mode_config.sa_nr5g_bands@[26] == 79
    &&& p.band_mode_config.nrdc_nr5g_bands@.len() == 52
    &&& p.band_mode_config.nrdc_nr5g_bands@[0] == 1
    &&& p.band_mode_config.nrdc_nr5g_bands@[1] == 2
    &&& p.band_mode_config.nrdc_nr5g_bands@[2] == 3
    &&& p.band_mode_config.nrdc_nr5g_bands@[3] == 5
    &&& p.band_mode_config.nrdc_nr5g_bands@[4] == 7
    &&& p.band_mode_config.nrdc_nr5g_bands@[5] == 8
    &&& p.band_mode_config.nrdc_nr5g_bands@[6] == 12
    &&& p.band_mode_config.nrdc_nr5g_bands@[7] == 13
    &&& p.band_mode_config.nrdc_nr5g_bands@[8] == 14
    &&& p.band_mode_config.nrdc_nr5g_bands@[9] == 18
    &&& p.band_mode_config.nrdc_nr5g_bands@[10] == 20
    &&& p.band_mode_config.nrdc_nr5g_bands@[11] == 25
    &&& p.band_mode_config.nrdc_nr5g_bands@[12] == 26
    &&& p.band_mode_config.nrdc_nr5g_bands@[13] == 28
    &&& p.band_mode_config.nrdc_nr5g_bands@[14] == 29
    &&& p.band_mode_config.nrdc_nr5g_bands@[15] == 30
    &&& p.band_mode_config.nrdc_nr5g_bands@[16] == 34
    &&& p.band_mode_config.nrdc_nr5g_bands@[17] == 38
    &&& p.band_mode_config.nrdc_nr5g_bands@[18] == 39
    &&& p.band_mode_config.nrdc_nr5g_bands@[19] == 40
    &&& p.band_mode_config.nrdc_nr5g_bands@[20] == 41
    &&& p.band_mode_config.nrdc_nr5g_bands@[21] == 46
    &&& p.band_mode_config.nrdc_nr5g_bands@[22] == 48
    &&& p.band_mode_config.nrdc_nr5g_bands@[23] == 50
    &&& p.band_mode_config.nrdc_nr5g_bands@[24] == 51
    &&& p.band_mode_config.nrdc_nr5g_bands@[25] == 53
    &&& p.band_mode_config.nrdc_nr5g_bands@[26] == 65
    &&& p.band_mode_config.nrdc_nr5g_bands@[27] == 66
    &&& p.band_mode_config.nrdc_nr5g_bands@[28] == 70
    &&& p.band_mode_config.nrdc_nr5g_bands@[29] == 71
    &&& p.band_mode_config.nrdc_nr5g_bands@[30] == 74
    &&& p.band_mode_config.nrdc_nr5g_bands@[31] == 75
    &&& p.band_mode_config.nrdc_nr5g_bands@[32] == 76
    &&& p.band_mode_config.nrdc_nr5g_bands@[33] == 77
    &&& p.band_mode_config.nrdc_nr5g_bands@[34] == 78
    &&& p.band_mode_config.nrdc_nr5g_bands@[35] == 79
    &&& p.band_mode_config.nrdc_nr5g_bands@[36] == 80
    &&& p.band_mode_config.nrdc_nr5g_bands@[37] == 81
    &&& p.band_mode_config.nrdc_nr5g_bands@[38] == 82
    &&& p.band_mode_config.nrdc_nr5g_bands@[39] == 83
    &&& p.band_mode_config.nrdc_nr5g_bands@[40] == 84
    &&& p.band_mode_config.nrdc_nr5g_bands@[41] == 85
    &&& p.band_mode_config.nrdc_nr5g_bands@[42] == 86
    &&& p.band_mode_config.nrdc_nr5g_bands@[43] == 91
    &&& p.band_mode_config.nrdc_nr5g_bands@[44] == 92
    &&& p.band_mode_config.nrdc_nr5g_bands@[45] == 93
    &&& p.band_mode_config.nrdc_nr5g_bands@[46] == 94
    &&& p.band_mode_config.nrdc_nr5g_bands@[47] == 257
    &&& p.band_mode_config.nrdc_nr5g_bands@[48] == 258
    &&& p.band_mode_config.nrdc_nr5g_bands@[49] == 259
    &&& p.band_mode_config.nrdc_nr5g_bands@[50] == 260
    &&& p.band_mode_config.nrdc_nr5g_bands@[51] == 261
    &&& !p.band_mode_config.reboot_on_band_change
    &&& p.band_mode_config.band_separator@ == ":"@
    &&& p.band_mode_config.band_command_variant@ == "per_type"@
    &&& p.mbn_config.supported
    &&& p.mbn_config.commands.list_profiles is Some
    &&& p.mbn_config.commands.list_profiles.unwrap()@ == r#"AT+QMBNCFG="List""#@
    &&& p.mbn_config.commands.query_auto_select is Some
    &&& p.mbn_config.commands.query_auto_select.unwrap()@ == r#"AT+QMBNCFG="AutoSel""#@
    &&& p.mbn_config.commands.set_auto_select is Some
    &&& p.mbn_config.commands.set_auto_select.unwrap()@ == r#"AT+QMBNCFG="AutoSel",{value}"#@
    &&& p.mbn_config.commands.query_selected is Some
    &&& p.mbn_config.commands.query_selected.unwrap()@ == r#"AT+QMBNCFG="Select""#@
    &&& p.mbn_config.commands.select_profile is Some
    &&& p.mbn_config.commands.select_profile.unwrap()@ == r#"AT+QMBNCFG="Select","{value}""#@
    &&& p.mbn_config.commands.deactivate is Some
    &&& p.mbn_config.commands.deactivate.unwrap()@ == r#"AT+QMBNCFG="Deactivate""#@
    &&& p.mbn_config.reboot_recommended
    &&& p.apn_apply_config.supported
    &&& p.apn_apply_config.steps@.len() == 4
    &&& p.apn_apply_config.steps@[0].label@ == "Deactivate MBN"@
    &&& p.apn_apply_config.steps@[0].command@ == r#"AT+QMBNCFG="Deactivate""#@
    &&& p.apn_apply_config.steps@[0].requires_mbn
    &&& p.apn_apply_config.steps@[0].timeout_secs == 10
    &&& p.apn_apply_config.steps@[1].label@ == "Select MBN profile"@
    &&& p.apn_apply_config.steps@[1].command@ == r#"AT+QMBNCFG="Select","{mbn_profile}""#@
    &&& p.apn_apply_config.steps@[1].requires_mbn
    &&& p.apn_apply_config.steps@[1].timeout_secs == 10
    &&& p.apn_apply_config.steps@[2].label@ == "Set APN on PDP context"@
    &&& p.apn_apply_config.steps@[2].command@ == r#"AT+CGDCONT={cid},"{ip_type}","{apn}""#@
    &&& !p.apn_apply_config.steps@[2].requires_mbn
    &&& p.apn_apply_config.steps@[2].timeout_secs == 10
    &&& p.apn_apply_config.steps@[3].label@ == "Disable MBN AutoSelect"@
    &&& p.apn_apply_config.steps@[3].command@ == r#"AT+QMBNCFG="AutoSel",0"#@
    &&& p.apn_apply_config.steps@[3].requires_mbn
    &&& p.apn_apply_config.steps@[3].timeout_secs == 10
    &&& p.apn_apply_config.always_reboot
    &&& p.apn_apply_config.pre_reboot_delay_ms == 500
    &&& p.apn_live_config.query is Some
    &&& p.apn_live_config.query.unwrap()@ == "AT+QICSGP={cid}"@
    &&& p.apn_live_config.write is Some
    &&& p.apn_live_config.write.unwrap()@ == r#"AT+QICSGP={cid},{context_type},"{apn}","{username}","{password}",{auth}"#@
    &&& p.dual_sim_config.supported
    &&& p.dual_sim_config.slot_count == 2
    &&& p.dual_sim_config.query_slot_cmd is Some
    &&& p.dual_sim_config.query_slot_cmd.unwrap()@ == "AT+QUIMSLOT?"@
    &&& p.dual_sim_config.query_slot_regex is Some
    &&& p.dual_sim_config.query_slot_regex.unwrap()@ == r"\+QU?IMSLOT:\s*(\d+)"@
    &&& p.dual_sim_config.set_slot_cmd is Some
    &&& p.dual_sim_config.set_slot_cmd.unwrap()@ == "AT+QUIMSLOT={slot}"@
    &&& p.dual_sim_config.sim_init_cmd is Some
    &&& p.dual_sim_config.sim_init_cmd.unwrap()@ == "AT+QINISTAT"@
    &&& p.dual_sim_config.sim_init_regex is Some
    &&& p.dual_sim_config.sim_init_regex.unwrap()@ == r"\+QINISTAT:\s*(\d+)"@
    &&& p.dual_sim_config.sim_init_complete_value == 7
    &&& p.dual_sim_config.sim_init_timeout_secs == 30
    &&& p.ca_config.supported
    &&& p.ca_config.ca_info_cmd is Some
    &&& p.ca_config.ca_info_cmd.unwrap()@ == "AT+QCAINFO"@
    &&& p.ca_config.lte_scc_regex is Some
    &&& p.ca_config.lte_scc_regex.unwrap()@ == r#"\+QCAINFO:\s*"(PCC|SCC)",(\d+),(\d+),"(LTE[^"]*)",\d+,(\d+),(-?\d+),(-?\d+),(-?\d+),(-?\d+)"#@
    &&& p.ca_config.nr5g_scc_regex is Some
    &&& p.ca_config.nr5g_scc_regex.unwrap()@ == r#"\+QCAINFO:\s*"(PCC|SCC)",(\d+),(\d+),"(NR5G[^"]*)"(?:,(.+))?"#@
    &&& p.ca_config.network_type_cmd is Some
    &&& p.ca_config.network_type_cmd.unwrap()@ == "AT+QNWINFO"@
    &&& p.ca_config.network_type_regex is Some
    &&& p.ca_config.network_type_regex.unwrap()@ == r#"\+QNWINFO:\s*"([^"]*)""#@
    &&& p.ca_config.band_prefix_mappings@.len() == 2
    &&& p.ca_config.band_prefix_mappings@[0].prefix@ == "LTE BAND "@
    &&& p.ca_config.band_prefix_mappings@[0].replacement@ == "B"@
    &&& p.ca_config.band_prefix_mappings@[1].prefix@ == "NR5G BAND "@
    &&& p.ca_config.band_prefix_mappings@[1].replacement@ == "n"@
    &&& p.ca_config.ca_parser_variant@ == "qcainfo"@
    &&& p.firmware_config.firmware_cmd is Some
    &&& p.firmware_config.firmware_cmd.unwrap()@ == "AT+QGMR"@
    &&& p.firmware_config.firmware_regex is None
    &&& p.gps_config.supported
    &&& p.gps_config.start_cmd is Some
    &&& p.gps_config.start_cmd.unwrap()@ == "AT+QGPS=1"@
    &&& p.gps_config.start_already_running_codes@.len() == 1
    &&& p.gps_config.start_already_running_codes@[0] == 504
    &&& p.gps_config.query_cmd is Some
    &&& p.gps_config.query_cmd.unwrap()@ == "AT+QGPSLOC=2"@
    &&& p.gps_config.no_fix_error_codes@.len() == 1
    &&& p.gps_config.no_fix_error_codes@[0] == 516
    &&& p.gps_config.query_regex is Some
    &&& p.gps_config.query_regex.unwrap()@ == r"\+QGPSLOC:\s*(?P<time>\d+\.\d+),(?P<lat>[+-]?\d+\.\d+),(?P<lon>[+-]?\d+\.\d+),[^,]*,(?P<alt>[+-]?\d+\.?\d*),(?P<fix>\d),[^,]*,(?P<speed>\d+\.?\d*),[^,]*,(?P<date>\d+),(?P<satellites>\d+)"@
    &&& p.gps_config.stop_cmd is Some
    &&& p.gps_config.stop_cmd.unwrap()@ == "AT+QGPSEND"@
    &&& p.gps_config.stop_already_stopped_codes@.len() == 1
    &&& p.gps_config.stop_already_stopped_codes@[0] == 505
    &&& !p.gps_config.start_tolerates_bare_error
    &&& p.gps_config.coordinate_format == GpsCoordinateFormat::Decimal
    &&& p.antenna_metrics_config.supported
    &&& p.antenna_metrics_config.rsrp_cmd is Some
    &&& p.antenna_metrics_config.rsrp_cmd.unwrap()@ == "AT+QRSRP"@
    &&& p.antenna_metrics_config.sinr_cmd is Some
    &&& p.antenna_metrics_config.sinr_cmd.unwrap()@ == "AT+QSINR"@
    &&& p.antenna_metrics_config.rsrq_cmd is Some
    &&& p.antenna_metrics_config.rsrq_cmd.unwrap()@ == "AT+QRSRQ"@
    &&& p.antenna_metrics_config.sentinel_value == -32768
    &&& p.antenna_metrics_config.rsrp_min == -140
    &&& p.antenna_metrics_config.rsrp_max == -44
    &&& p.antenna_metrics_config.rsrq_min == -20
    &&& p.antenna_metrics_config.rsrq_max == 0
    &&& p.antenna_metrics_config.sinr_min == -23
    &&& p.antenna_metrics_config.sinr_max == 40
    &&& !p.antenna_metrics_config.interleaved_rsrp_rsrq
    &&& p.signal_parse_config.variants@.len() == 4
    &&& p.signal_parse_config.variants@[0].label@ == "NR5G-NSA 3-line"@
    &&& p.signal_parse_config.variants@[0].requires_substring@ == "NR5G-NSA"@
    &&& p.signal_parse_config.variants@[0].regex@ == r#"\+QENG:\s*"LTE","[^"]*",\d+,\d+,(?P<cellid>[0-9A-Fa-f]+),\d+,\d+,(?P<band>\d+),\d+,\d+,[0-9A-Fa-f]+,(?P<rsrp>-?\d+),(?P<rsrq>-?\d+),(?P<rssi>-?\d+),(?P<sinr>-?\d+)"#@
    &&& p.signal_parse_config.variants@[0].band_prefix@ == "B"@
    &&& p.signal_parse_config.variants@[0].technology@ == "4G"@
    &&& p.signal_parse_config.variants@[1].label@ == "LTE single-line"@
    &&& p.signal_parse_config.variants@[1].requires_substring@.len() == 0
    &&& p.signal_parse_config.variants@[1].regex@ == r#"\+QENG:\s*"servingcell","[^"]*","LTE","[^"]*",\d+,\d+,(?P<cellid>[0-9A-Fa-f]+),\d+,(?P<earfcn>\d+),(?P<band>\d+),\d+,\d+,[0-9A-Fa-f]+,(?P<rsrp>-?\d+),(?P<rsrq>-?\d+),(?P<rssi>-?\d+),(?P<sinr>-?\d+)"#@
    &&& p.signal_parse_config.variants@[1].band_prefix@ == "B"@
    &&& p.signal_parse_config.variants@[1].technology@ == "4G"@
    &&& p.signal_parse_config.variants@[2].label@ == "LTE 2-line"@
    &&& p.signal_parse_config.variants@[2].requires_substring@.len() == 0
    &&& p.signal_parse_config.variants@[2].regex@ == r#"\+QENG:\s*"LTE","[^"]*",\d+,\d+,(?P<cellid>[0-9A-Fa-f]+),\d+,(?P<earfcn>\d+),(?P<band>\d+),\d+,\d+,[0-9A-Fa-f]+,(?P<rsrp>-?\d+),(?P<rsrq>-?\d+),(?P<rssi>-?\d+),(?P<sinr>-?\d+)"#@
    &&& p.signal_parse_config.variants@[2].band_prefix@ == "B"@
    &&& p.signal_parse_config.variants@[2].technology@ == "4G"@
    &&& p.signal_parse_config.variants@[3].label@ == "NR5G-SA single-line"@
    &&& p.signal_parse_config.variants@[3].requires_substring@ == "NR5G-SA"@
    &&& p.signal_parse_config.variants@[3].regex@ == r#"\+QENG:\s*"servingcell","[^"]*","NR5G-SA","[^"]*",\d+,\d+,(?P<cellid>[0-9A-Fa-f]+),[0-9A-Fa-f]+,(?:[0-9A-Fa-f]+,)*(?P<band>\d+),\d+,(?P<rsrp>-?\d+),(?P<rsrq>-?\d+),(?P<sinr>-?\d+)"#@
    &&& p.signal_parse_config.variants@[3].band_prefix@ == "n"@
    &&& p.signal_parse_config.variants@[3].technology@ == "5G"@
    &&& p.notes is Some
    &&& p.notes.unwrap()@ == "Quectel RM520N-GL 5G Sub-6 module. Same AT command family as RM551E-GL. AT port is ttyUSB2."@
    &&& p.restart_command@ == "AT+CFUN=1,1"@
    &&& p.usbnet_detect.query_cmd is Some
    &&& p.usbnet_detect.query_cmd.unwrap()@ == r#"AT+QCFG="usbnet""#@
    &&& p.usbnet_detect.parser is Some
    &&& p.usbnet_detect.parser.unwrap()@ == "quectel_qcfg_usbnet"@
}

/// Every field of `p` is as the Quectel RM500Q-GL profile sets it.
pub open spec fn rm500q_gl_profile(p: ModemProfile) -> bool {
    &&& p.identity.vendor_id@ == "2c7c"@
    &&& p.identity.product_id@ == "0800"@
    &&& p.identity.manufacturer@ == "Quectel"@
    &&& p.identity.model@ == "RM500Q-GL"@
    &&& p.identity.model_variants@.len() == 2
    &&& p.identity.model_variants@[0]@ == "RM500Q-GL"@
    &&& p.identity.model_variants@[1]@ == "RM500Q-AE"@
    &&& p.commands.signal_cmd is Some
    &&& p.commands.signal_cmd.unwrap()@ == r#"AT+QENG="servingcell""#@
    &&& p.commands.signal_parse_regex is Some
    &&& p.commands.signal_parse_regex.unwrap()@ == r#"\+QENG:\s*"servingcell","[^"]*","LTE","[^"]*",\d+,\d+,(?P<cellid>[0-9A-Fa-f]+),\d+,(?P<earfcn>\d+),(?P<band>\d+),\d+,\d+,[0-9A-Fa-f]+,(?P<rsrp>-?\d+),(?P<rsrq>-?\d+),(?P<rssi>-?\d+),(?P<sinr>-?\d+)"#@
    &&& p.commands.generic_signal_cmd@ == "AT+CSQ"@
    &&& p.commands.operator_name_cmd is Some
    &&& p.commands.operator_name_cmd.unwrap()@ == "AT+QSPN"@
    &&& p.commands.operator_name_regex is Some
    &&& p.commands.operator_name_regex.unwrap()@ == r#"\+QSPN:\s*"([^"]*)""#@
    &&& p.commands.generic_operator_cmd@ == "AT+COPS?"@
    &&& p.commands.generic_operator_regex@ == r#"\+COPS:\s*\d+,\d+,"([^"]*)""#@
    &&& p.commands.iccid_cmd@ == "AT+QCCID"@
    &&& p.commands.iccid_regex is Some
    &&& p.commands.iccid_regex.unwrap()@ == r"\+QCCID:\s*([0-9A-Fa-f]+)"@
    &&& p.commands.registration_cmd@ == "AT+CEREG?"@
    &&& p.port_mapping.at_port_preference@.len() == 2
    &&& p.port_mapping.at_port_preference@[0]@ == "ttyUSB2"@
    &&& p.port_mapping.at_port_preference@[1]@ == "ttyUSB3"@
    &&& p.port_mapping.at_interface_preference@.len() == 2
    &&& p.port_mapping.at_interface_preference@[0] == 2
    &&& p.port_mapping.at_interface_preference@[1] == 3
    &&& p.port_mapping.baud_rate == 115200
    &&& p.capabilities.supports_5g
    &&& p.capabilities.supports_carrier_aggregation
    &&& p.capabilities.supported_technologies@.len() == 4
    &&& p.capabilities.supported_technologies@[0]@ == "2G"@
    &&& p.capabilities.supported_technologies@[1]@ == "3G"@
    &&& p.capabilities.supported_technologies@[2]@ == "4G"@
    &&& p.capabilities.supported_technologies@[3]@ == "5G"@
    &&& p.capabilities.max_supported_bands@.len() == 65
    &&& p.capabilities.max_supported_bands@[0]@ == "B1"@
    &&& p.capabilities.max_supported_bands@[1]@ == "B2"@
    &&& p.capabilities.max_supported_bands@[2]@ == "B3"@
    &&& p.capabilities.max_supported_bands@[3]@ == "B4"@
    &&& p.capabilities.max_supported_bands@[4]@ == "B5"@
    &&& p.capabilities.max_supported_bands@[5]@ == "B6"@
    &&& p.capabilities.max_supported_bands@[6]@ == "B7"@
    &&& p.capabilities.max_supported_bands@[7]@ == "B8"@
    &&& p.capabilities.max_supported_bands@[8]@ == "B9"@
    &&& p.capabilities.max_supported_bands@[9]@ == "B10"@
    &&& p.capabilities.max_supported_bands@[10]@ == "B11"@
    &&& p.capabilities.max_supported_bands@[11]@ == "B12"@
    &&& p.capabilities.max_supported_bands@[12]@ == "B13"@
    &&& p.capabilities.max_supported_bands@[13]@ == "B14"@
    &&& p.capabilities.max_supported_bands@[14]@ == "B17"@
    &&& p.capabilities.max_supported_bands@[15]@ == "B18"@
    &&& p.capabilities.max_supported_bands@[16]@ == "B19"@
    &&& p.capabilities.max_supported_bands@[17]@ == "B20"@
    &&& p.capabilities.max_supported_bands@[18]@ == "B21"@
    &&& p.capabilities.max_supported_bands@[19]@ == "B23"@
    &&& p.capabilities.max_supported_bands@[20]@ == "B24"@
    &&& p.capabilities.max_supported_bands@[21]@ == "B25"@
    &&& p.capabilities.max_supported_bands@[22]@ == "B26"@
    &&& p.capabilities.max_supported_bands@[23]@ == "B27"@
    &&& p.capabilities.max_supported_bands@[24]@ == "B28"@
    &&& p.capabilities.max_supported_bands@[25]@ == "B29"@
    &&& p.capabilities.max_supported_bands@[26]@ == "B30"@
    &&& p.capabilities.max_supported_bands@[27]@ == "B31"@
    &&& p.capabilities.max_supported_bands@[28]@ == "B32"@
    &&& p.capabilities.max_supported_bands@[29]@ == "B33"@
    &&& p.capabilities.max_supported_bands@[30]@ == "B34"@
    &&& p.capabilities.max_supported_bands@[31]@ == "B35"@
    &&& p.capabilities.max_supported_bands@[32]@ == "B36"@
    &&& p.capabilities.max_supported_bands@[33]@ == "B37"@
    &&& p.capabilities.max_supported_bands@[34]@ == "B38"@
    &&& p.capabilities.max_supported_bands@[35]@ == "B39"@
    &&& p.capabilities.max_supported_bands@[36]@ == "B40"@
    &&& p.capabilities.max_supported_bands@[37]@ == "B41"@
    &&& p.capabilities.max_supported_bands@[38]@ == "B42"@
    &&& p.capabilities.max_supported_bands@[39]@ == "B43"@
    &&& p.capabilities.max_supported_bands@[40]@ == "B46"@
    &&& p.capabilities.max_supported_bands@[41]@ == "B47"@
    &&& p.capabilities.max_supported_bands@[42]@ == "B48"@
    &&& p.capabilities.max_supported_bands@[43]@ == "B49"@
    &&& p.capabilities.max_supported_bands@[44]@ == "B66"@
    &&& p.capabilities.max_supported_bands@[45]@ == "B71"@
    &&& p.capabilities.max_supported_bands@[46]@ == "n1"@
    &&& p.capabilities.max_supported_bands@[47]@ == "n2"@
    &&& p.capabilities.max_supported_bands@[48]@ == "n3"@
    &&& p.capabilities.max_supported_bands@[49]@ == "n5"@
    &&& p.capabilities.max_supported_bands@[50]@ == "n7"@
    &&& p.capabilities.max_supported_bands@[51]@ == "n8"@
    &&& p.capabilities.max_supported_bands@[52]@ == "n12"@
    &&& p.capabilities.max_supported_bands@[53]@ == "n20"@
    &&& p.capabilities.max_supported_bands@[54]@ == "n25"@
    &&& p.capabilities.max_supported_bands@[55]@ == "n28"@
    &&& p.capabilities.max_supported_bands@[56]@ == "n38"@
    &&& p.capabilities.max_supported_bands@[57]@ == "n40"@
    &&& p.capabilities.max_supported_bands@[58]@ == "n41"@
    &&& p.capabilities.max_supported_bands@[59]@ == "n48"@
    &&& p.capabilities.max_supported_bands@[60]@ == "n66"@
    &&& p.capabilities.max_supported_bands@[61]@ == "n71"@
    &&& p.capabilities.max_supported_bands@[62]@ == "n77"@
    &&& p.capabilities.max_supported_bands@[63]@ == "n78"@
    &&& p.capabilities.max_supported_bands@[64]@ == "n79"@
    &&& p.capabilities.supported_protocols@.len() == 3
    &&& p.capabilities.supported_protocols@[0]@ == "qmi"@
    &&& p.capabilities.supported_protocols@[1]@ == "at"@
    &&& p.capabilities.supported_protocols@[2]@ == "mbim"@
    &&& p.capabilities.has_temperature_sensor
    &&& p.capabilities.has_gps
    &&& p.at_whitelist_additions.safe_commands@.len() == 29
    &&& p.at_whitelist_additions.safe_commands@[0]@ == r#"AT+QENG="servingcell""#@
    &&& p.at_whitelist_additions.safe_commands@[1]@ == r#"AT+QENG="neighbourcell""#@
    &&& p.at_whitelist_additions.safe_commands@[2]@ == "AT+QNWINFO"@
    &&& p.at_whitelist_additions.safe_commands@[3]@ == "AT+QCAINFO"@
    &&& p.at_whitelist_additions.safe_commands@[4]@ == "AT+QSPN"@
    &&& p.at_whitelist_additions.safe_commands@[5]@ == "AT+QTEMP"@
    &&& p.at_whitelist_additions.safe_commands@[6]@ == "AT+QRSRP"@
    &&& p.at_whitelist_additions.safe_commands@[7]@ == "AT+QCSQ"@
    &&& p.at_whitelist_additions.safe_commands@[8]@ == r#"AT+QNWCFG="lte_ambr""#@
    &&& p.at_whitelist_additions.safe_commands@[9]@ == r#"AT+QNWCFG="nr5g_ambr""#@
    &&& p.at_whitelist_additions.safe_commands@[10]@ == "AT+QGPSLOC=2"@
    &&& p.at_whitelist_additions.safe_commands@[11]@ == "AT+QGPS?"@
    &&& p.at_whitelist_additions.safe_commands@[12]@ == "AT+QGPSCFG?"@
    &&& p.at_whitelist_additions.safe_commands@[13]@ == "AT+QGMR"@
    &&& p.at_whitelist_additions.safe_commands@[14]@ == r#"AT+QMBNCFG="List""#@
    &&& p.at_whitelist_additions.safe_commands@[15]@ == r#"AT+QMBNCFG="AutoSel""#@
    &&& p.at_whitelist_additions.safe_commands@[16]@ == r#"AT+QMBNCFG="Select""#@
    &&& p.at_whitelist_additions.safe_commands@[17]@ == "AT+QUIMSLOT?"@
    &&& p.at_whitelist_additions.safe_commands@[18]@ == "AT+QINISTAT"@
    &&& p.at_whitelist_additions.safe_commands@[19]@ == "AT+QSIMSTAT?"@
    &&& p.at_whitelist_additions.safe_commands@[20]@ == "AT+QPINC"@
    &&& p.at_whitelist_additions.safe_commands@[21]@ == "AT+QICSGP=1"@
    &&& p.at_whitelist_additions.safe_commands@[22]@ == "AT+QICSGP=2"@
    &&& p.at_whitelist_additions.safe_commands@[23]@ == "AT+QICSGP=3"@
    &&& p.at_whitelist_additions.safe_commands@[24]@ == "AT+QICSGP=4"@
    &&& p.at_whitelist_additions.safe_commands@[25]@ == "AT+QICSGP=5"@
    &&& p.at_whitelist_additions.safe_commands@[26]@ == "AT+QICSGP=6"@
    &&& p.at_whitelist_additions.safe_commands@[27]@ == "AT+QICSGP=7"@
    &&& p.at_whitelist_additions.safe_commands@[28]@ == "AT+QICSGP=8"@
    &&& p.at_whitelist_additions.confirmation_commands@.len() == 9
    &&& p.at_whitelist_additions.confirmation_commands@[0]@ == "AT+QPOWD"@
    &&& p.at_whitelist_additions.confirmation_commands@[1]@ == "AT+QGPS"@
    &&& p.at_whitelist_additions.confirmation_commands@[2]@ == "AT+QGPSEND"@
    &&& p.at_whitelist_additions.confirmation_commands@[3]@ == "AT+QGPSCFG"@
    &&& p.at_whitelist_additions.confirmation_commands@[4]@ == "AT+QNWPREFCFG"@
    &&& p.at_whitelist_additions.confirmation_commands@[5]@ == "AT+QMBNCFG"@
    &&& p.at_whitelist_additions.confirmation_commands@[6]@ == "AT+QUIMSLOT"@
    &&& p.at_whitelist_additions.confirmation_commands@[7]@ == "AT+QSIMSTAT"@
    &&& p.at_whitelist_additions.confirmation_commands@[8]@ == "AT+QICSGP"@
    &&& p.at_whitelist_additions.blocked_prefixes@.len() == 8
    &&& p.at_whitelist_additions.blocked_prefixes@[0]@ == "AT+QFASTBOOT"@
    &&& p.at_whitelist_additions.blocked_prefixes@[1]@ == "AT+QDOWNLOAD"@
    &&& p.at_whitelist_additions.blocked_prefixes@[2]@ == "AT+QPRTPARA"@
    &&& p.at_whitelist_additions.blocked_prefixes@[3]@ == "AT+QNVW"@
    &&& p.at_whitelist_additions.blocked_prefixes@[4]@ == "AT+QNVFW"@
    &&& p.at_whitelist_additions.blocked_prefixes@[5]@ == "AT+QSIMDET"@
    &&& p.at_whitelist_additions.blocked_prefixes@[6]@ == "AT$QCPWRDN"@
    &&& p.at_whitelist_additions.blocked_prefixes@[7]@ == "AT$QCDMG"@
    &&& p.whitelist_label is Some
    &&& p.whitelist_label.unwrap()@ == "RM500Q"@
    &&& p.band_mode_config.supported
    &&& p.band_mode_config.commands.query_mode is Some
    &&& p.band_mode_config.commands.query_mode.unwrap()@ == r#"AT+QNWPREFCFG="mode_pref""#@
    &&& p.band_mode_config.commands.set_mode is Some
    &&& p.band_mode_config.commands.set_mode.unwrap()@ == r#"AT+QNWPREFCFG="mode_pref",{value}"#@
    &&& p.band_mode_config.commands.query_nr5g_disable is Some
    &&& p.band_mode_config.commands.query_nr5g_disable.unwrap()@ == r#"AT+QNWPREFCFG="nr5g_disable_mode""#@
    &&& p.band_mode_config.commands.set_nr5g_disable is Some
    &&& p.band_mode_config.commands.set_nr5g_disable.unwrap()@ == r#"AT+QNWPREFCFG="nr5g_disable_mode",{value}"#@
    &&& p.band_mode_config.commands.query_lte_bands is Some
    &&& p.band_mode_config.commands.query_lte_bands.unwrap()@ == r#"AT+QNWPREFCFG="lte_band""#@
    &&& p.band_mode_config.commands.set_lte_bands is Some
    &&& p.band_mode_config.commands.set_lte_bands.unwrap()@ == r#"AT+QNWPREFCFG="lte_band",{value}"#@
    &&& p.band_mode_config.commands.query_nsa_bands is Some
    &&& p.band_mode_config.commands.query_nsa_bands.unwrap()@ == r#"AT+QNWPREFCFG="nsa_nr5g_band""#@
    &&& p.band_mode_config.commands.set_nsa_bands is Some
    &&& p.band_mode_config.commands.set_nsa_bands.unwrap()@ == r#"AT+QNWPREFCFG="nsa_nr5g_band",{value}"#@
    &&& p.band_mode_config.commands.query_sa_bands is Some
    &&& p.band_mode_config.commands.query_sa_bands.unwrap()@ == r#"AT+QNWPREFCFG="nr5g_band""#@
    &&& p.band_mode_config.commands.set_sa_bands is Some
    &&& p.band_mode_config.commands.set_sa_bands.unwrap()@ == r#"AT+QNWPREFCFG="nr5g_band",{value}"#@
    &&& p.band_mode_config.commands.query_nrdc_bands is None
    &&& p.band_mode_config.commands.set_nrdc_bands is None
    &&& p.band_mode_config.commands.query_nrdc_mode is None
    &&& p.band_mode_config.commands.set_nrdc_mode is None
    &&& p.band_mode_config.commands.query_all_bands is None
    &&& p.band_mode_config.commands.set_all_bands is None
    &&& p.band_mode_config.commands.restore_bands is Some
    &&& p.band_mode_config.commands.restore_bands.unwrap()@ == r#"AT+QNWPREFCFG="restore_band""#@
    &&& p.band_mode_config.modes@.len() == 6
    &&& p.band_mode_config.modes@[0].id@ == "auto"@
    &&& p.band_mode_config.modes@[0].label@ == "Auto"@
    &&& p.band_mode_config.modes@[0].mode_value@ == "AUTO"@
    &&& p.band_mode_config.modes@[0].nr5g_disable_value is Some
    &&& p.band_mode_config.modes@[0].nr5g_disable_value.unwrap() == 0
    &&& p.band_mode_config.modes@[0].active_sections.lte
    &&& p.band_mode_config.modes@[0].active_sections.nsa
    &&& p.band_mode_config.modes@[0].active_sections.sa
    &&& p.band_mode_config.modes@[1].id@ == "lte"@
    &&& p.band_mode_config.modes@[1].label@ == "LTE"@
    &&& p.band_mode_config.modes@[1].mode_value@ == "LTE"@
    &&& p.band_mode_config.modes@[1].nr5g_disable_value is Some
    &&& p.band_mode_config.modes@[1].nr5g_disable_value.unwrap() == 2
    &&& p.band_mode_config.modes@[1].active_sections.lte
    &&& !p.band_mode_config.modes@[1].active_sections.nsa
    &&& !p.band_mode_config.modes@[1].active_sections.sa
    &&& p.band_mode_config.modes@[2].id@ == "5g_sa"@
    &&& p.band_mode_config.modes@[2].label@ == "5G SA"@
    &&& p.band_mode_config.modes@[2].mode_value@ == "NR5G"@
    &&& p.band_mode_config.modes@[2].nr5g_disable_value is Some
    &&& p.band_mode_config.modes@[2].nr5g_disable_value.unwrap() == 2
    &&& !p.band_mode_config.modes@[2].active_sections.lte
    &&& !p.band_mode_config.modes@[2].active_sections.nsa
    &&& p.band_mode_config.modes@[2].active_sections.sa
    &&& p.band_mode_config.modes@[3].id@ == "5g_nsa"@
    &&& p.band_mode_config.modes@[3].label@ == "5G NSA"@
    &&& p.band_mode_config.modes@[3].mode_value@ == "LTE:NR5G"@
    &&& p.band_mode_config.modes@[3].nr5g_disable_value is Some
    &&& p.band_mode_config.modes@[3].nr5g_disable_value.unwrap() == 1
    &&& p.band_mode_config.modes@[3].active_sections.lte
    &&& p.band_mode_config.modes@[3].active_sections.nsa
    &&& !p.band_mode_config.modes@[3].active_sections.sa
    &&& p.band_mode_config.modes@[4].id@ == "auto_no_nsa"@
    &&& p.band_mode_config.modes@[4].label@ == "Auto (no NSA)"@
    &&& p.band_mode_config.modes@[4].mode_value@ == "AUTO"@
    &&& p.band_mode_config.modes@[4].nr5g_disable_value is Some
    &&& p.band_mode_config.modes@[4].nr5g_disable_value.unwrap() == 2
    &&& p.band_mode_config.modes@[4].active_sections.lte
    &&& !p.band_mode_config.modes@[4].active_sections.nsa
    &&& p.band_mode_config.modes@[4].active_sections.sa
    &&& p.band_mode_config.modes@[5].id@ == "auto_no_sa"@
    &&& p.band_mode_config.modes@[5].label@ == "Auto (no SA)"@
    &&& p.band_mode_config.modes@[5].mode_value@ == "AUTO"@
    &&& p.band_mode_config.modes@[5].nr5g_disable_value is Some
    &&& p.band_mode_config.modes@[5].nr5g_disable_value.unwrap() == 1
    &&& p.band_mode_config.modes@[5].active_sections.lte
    &&& p.band_mode_config.modes@[5].active_sections.nsa
    &&& !p.band_mode_config.modes@[5].active_sections.sa
    &&& p.band_mode_config.lte_bands@.len() == 46
    &&& p.band_mode_config.lte_bands@[0] == 1
    &&& p.band_mode_config.lte_bands@[1] == 2
    &&& p.band_mode_config.lte_bands@[2] == 3
    &&& p.band_mode_config.lte_bands@[3] == 4
    &&& p.band_mode_config.lte_bands@[4] == 5
    &&& p.band_mode_config.lte_bands@[5] == 6
    &&& p.band_mode_config.lte_bands@[6] == 7
    &&& p.band_mode_config.lte_bands@[7] == 8
    &&& p.band_mode_config.lte_bands@[8] == 9
    &&& p.band_mode_config.lte_bands@[9] == 10
    &&& p.band_mode_config.lte_bands@[10] == 11
    &&& p.band_mode_config.lte_bands@[11] == 12
    &&& p.band_mode_config.lte_bands@[12] == 13
    &&& p.band_mode_config.lte_bands@[13] == 14
    &&& p.band_mode_config.lte_bands@[14] == 17
    &&& p.band_mode_config.lte_bands@[15] == 18
    &&& p.band_mode_config.lte_bands@[16] == 19
    &&& p.band_mode_config.lte_bands@[17] == 20
    &&& p.band_mode_config.lte_bands@[18] == 21
    &&& p.band_mode_config.lte_bands@[19] == 23
    &&& p.band_mode_config.lte_bands@[20] == 24
    &&& p.band_mode_config.lte_bands@[21] == 25
    &&& p.band_mode_config.lte_bands@[22] == 26
    &&& p.band_mode_config.lte_bands@[23] == 27
    &&& p.band_mode_config.lte_bands@[24] == 28
    &&& p.band_mode_config.lte_bands@[25] == 29
    &&& p.band_mode_config.lte_bands@[26] == 30
    &&& p.band_mode_config.lte_bands@[27] == 31
    &&& p.band_mode_config.lte_bands@[28] == 32
    &&& p.band_mode_config.lte_bands@[29] == 33
    &&& p.band_mode_config.lte_bands@[30] == 34
    &&& p.band_mode_config.lte_bands@[31] == 35
    &&& p.band_mode_config.lte_bands@[32] == 36
    &&& p.band_mode_config.lte_bands@[33] == 37
    &&& p.band_mode_config.lte_bands@[34] == 38
    &&& p.band_mode_config.lte_bands@[35] == 39
    &&& p.band_mode_config.lte_bands@[36] == 40
    &&& p.band_mode_config.lte_bands@[37] == 41
    &&& p.band_mode_config.lte_bands@[38] == 42
    &&& p.band_mode_config.lte_bands@[39] == 43
    &&& p.band_mode_config.lte_bands@[40] == 46
    &&& p.band_mode_config.lte_bands@[41] == 47
    &&& p.band_mode_config.lte_bands@[42] == 48
    &&& p.band_mode_config.lte_bands@[43] == 49
    &&& p.band_mode_config.lte_bands@[44] == 66
    &&& p.band_mode_config.lte_bands@[45] == 71
    &&& p.band_mode_config.nsa_nr5g_bands@.len() == 19
    &&& p.band_mode_config.nsa_nr5g_bands@[0] == 1
    &&& p.band_mode_config.nsa_nr5g_bands@[1] == 2
    &&& p.band_mode_config.nsa_nr5g_bands@[2] == 3
    &&& p.band_mode_config.nsa_nr5g_bands@[3] == 5
    &&& p.band_mode_config.nsa_nr5g_bands@[4] == 7
    &&& p.band_mode_config.nsa_nr5g_bands@[5] == 8
    &&& p.band_mode_config.nsa_nr5g_bands@[6] == 12
    &&& p.band_mode_config.nsa_nr5g_bands@[7] == 20
    &&& p.band_mode_config.nsa_nr5g_bands@[8] == 25
    &&& p.band_mode_config.nsa_nr5g_bands@[9] == 28
    &&& p.band_mode_config.nsa_nr5g_bands@[10] == 38
    &&& p.band_mode_config.nsa_nr5g_bands@[11] == 40
    &&& p.band_mode_config.nsa_nr5g_bands@[12] == 41
    &&& p.band_mode_config.nsa_nr5g_bands@[13] == 48
    &&& p.band_mode_config.nsa_nr5g_bands@[14] == 66
    &&& p.band_mode_config.nsa_nr5g_bands@[15] == 71
    &&& p.band_mode_config.nsa_nr5g_bands@[16] == 77
    &&& p.band_mode_config.nsa_nr5g_bands@[17] == 78
    &&& p.band_mode_config.nsa_nr5g_bands@[18] == 79
    &&& p.band_mode_config.sa_nr5g_bands@.len() == 19
    &&& p.band_mode_config.sa_nr5g_bands@[0] == 1
    &&& p.band_mode_config.sa_nr5g_bands@[1] == 2
    &&& p.band_mode_config.sa_nr5g_bands@[2] == 3
    &&& p.band_mode_config.sa_nr5g_bands@[3] == 5
    &&& p.band_mode_config.sa_nr5g_bands@[4] == 7
    &&& p.band_mode_config.sa_nr5g_bands@[5] == 8
    &&& p.band_mode_config.sa_nr5g_bands@[6] == 12
    &&& p.band_mode_config.sa_nr5g_bands@[7] == 20
    &&& p.band_mode_config.sa_nr5g_bands@[8] == 25
    &&& p.band_mode_config.sa_nr5g_bands@[9] == 28
    &&& p.band_mode_config.sa_nr5g_bands@[10] == 38
    &&& p.band_mode_config.sa_nr5g_bands@[11] == 40
    &&& p.band_mode_config.sa_nr5g_bands@[12] == 41
    &&& p.band_mode_config.sa_nr5g_bands@[13] == 48
    &&& p.band_mode_config.sa_nr5g_bands@[14] == 66
    &&& p.band_mode_config.sa_nr5g_bands@[15] == 71
    &&& p.band_mode_config.sa_nr5g_bands@[16] == 77
    &&& p.band_mode_config.sa_nr5g_bands@[17] == 78
    &&& p.band_mode_config.sa_nr5g_bands@[18] == 79
    &&& p.band_mode_config.nrdc_nr5g_bands@.len() == 0
    &&& !p.band_mode_config.reboot_on_band_change
    &&& p.band_mode_config.band_separator@ == ":"@
    &&& p.band_mode_config.band_command_variant@ == "per_type"@
    &&& p.mbn_config.supported
    &&& p.mbn_config.commands.list_profiles is Some
    &&& p.mbn_config.commands.list_profiles.unwrap()@ == r#"AT+QMBNCFG="List""#@
    &&& p.mbn_config.commands.query_auto_select is Some
    &&& p.mbn_config.commands.query_auto_select.unwrap()@ == r#"AT+QMBNCFG="AutoSel""#@
    &&& p.mbn_config.commands.set_auto_select is Some
    &&& p.mbn_config.commands.set_auto_select.unwrap()@ == r#"AT+QMBNCFG="AutoSel",{value}"#@
    &&& p.mbn_config.commands.query_selected is Some
    &&& p.mbn_config.commands.query_selected.unwrap()@ == r#"AT+QMBNCFG="Select""#@
    &&& p.mbn_config.commands.select_profile is Some
    &&& p.mbn_config.commands.select_profile.unwrap()@ == r#"AT+QMBNCFG="Select","{value}""#@
    &&& p.mbn_config.commands.deactivate is Some
    &&& p.mbn_config.commands.deactivate.unwrap()@ == r#"AT+QMBNCFG="Deactivate""#@
    &&& p.mbn_config.reboot_recommended
    &&& p.apn_apply_config.supported
    &&& p.apn_apply_config.steps@.len() == 4
    &&& p.apn_apply_config.steps@[0].label@ == "Deactivate MBN"@
    &&& p.apn_apply_config.steps@[0].command@ == r#"AT+QMBNCFG="Deactivate""#@
    &&& p.apn_apply_config.steps@[0].requires_mbn
    &&& p.apn_apply_config.steps@[0].timeout_secs == 10
    &&& p.apn_apply_config.steps@[1].label@ == "Select MBN profile"@
    &&& p.apn_apply_config.steps@[1].command@ == r#"AT+QMBNCFG="Select","{mbn_profile}""#@
    &&& p.apn_apply_config.steps@[1].requires_mbn
    &&& p.apn_apply_config.steps@[1].timeout_secs == 10
    &&& p.apn_apply_config.steps@[2].label@ == "Set APN on PDP context"@
    &&& p.apn_apply_config.steps@[2].command@ == r#"AT+CGDCONT={cid},"{ip_type}","{apn}""#@
    &&& !p.apn_apply_config.steps@[2].requires_mbn
    &&& p.apn_apply_config.steps@[2].timeout_secs == 10
    &&& p.apn_apply_config.steps@[3].label@ == "Disable MBN AutoSelect"@
    &&& p.apn_apply_config.steps@[3].command@ == r#"AT+QMBNCFG="AutoSel",0"#@
    &&& p.apn_apply_config.steps@[3].requires_mbn
    &&& p.apn_apply_config.steps@[3].timeout_secs == 10
    &&& p.apn_apply_config.always_reboot
    &&& p.apn_apply_config.pre_reboot_delay_ms == 500
    &&& p.apn_live_config.query is Some
    &&& p.apn_live_config.query.unwrap()@ == "AT+QICSGP={cid}"@
    &&& p.apn_live_config.write is Some
    &&& p.apn_live_config.write.unwrap()@ == r#"AT+QICSGP={cid},{context_type},"{apn}","{username}","{password}",{auth}"#@
    &&& p.dual_sim_config.supported
    &&& p.dual_sim_config.slot_count == 2
    &&& p.dual_sim_config.query_slot_cmd is Some
    &&& p.dual_sim_config.query_slot_cmd.unwrap()@ == "AT+QUIMSLOT?"@
    &&& p.dual_sim_config.query_slot_regex is Some
    &&& p.dual_sim_config.query_slot_regex.unwrap()@ == r"\+QU?IMSLOT:\s*(\d+)"@
    &&& p.dual_sim_config.set_slot_cmd is Some
    &&& p.dual_sim_config.set_slot_cmd.unwrap()@ == "AT+QUIMSLOT={slot}"@
    &&& p.dual_sim_config.sim_init_cmd is Some
    &&& p.dual_sim_config.sim_init_cmd.unwrap()@ == "AT+QINISTAT"@
    &&& p.dual_sim_config.sim_init_regex is Some
    &&& p.dual_sim_config.sim_init_regex.unwrap()@ == r"\+QINISTAT:\s*(\d+)"@
    &&& p.dual_sim_config.sim_init_complete_value == 7
    &&& p.dual_sim_config.sim_init_timeout_secs == 30
    &&& p.ca_config.supported
    &&& p.ca_config.ca_info_cmd is Some
    &&& p.ca_config.ca_info_cmd.unwrap()@ == "AT+QCAINFO"@
    &&& p.ca_config.lte_scc_regex is Some
    &&& p.ca_config.lte_scc_regex.unwrap()@ == r#"\+QCAINFO:\s*"(PCC|SCC)",(\d+),(\d+),"(LTE[^"]*)",\d+,(\d+),(-?\d+),(-?\d+),(-?\d+),(-?\d+)"#@
    &&& p.ca_config.nr5g_scc_regex is Some
    &&& p.ca_config.nr5g_scc_regex.unwrap()@ == r#"\+QCAINFO:\s*"(PCC|SCC)",(\d+),(\d+),"(NR5G[^"]*)"(?:,(.+))?"#@
    &&& p.ca_config.network_type_cmd is Some
    &&& p.ca_config.network_type_cmd.unwrap()@ == "AT+QNWINFO"@
    &&& p.ca_config.network_type_regex is Some
    &&& p.ca_config.network_type_regex.unwrap()@ == r#"\+QNWINFO:\s*"([^"]*)""#@
    &&& p.ca_config.band_prefix_mappings@.len() == 2
    &&& p.ca_config.band_prefix_mappings@[0].prefix@ == "LTE BAND "@
    &&& p.ca_config.band_prefix_mappings@[0].replacement@ == "B"@
    &&& p.ca_config.band_prefix_mappings@[1].prefix@ == "NR5G BAND "@
    &&& p.ca_config.band_prefix_mappings@[1].replacement@ == "n"@
    &&& p.ca_config.ca_parser_variant@ == "qcainfo"@
    &&& p.firmware_config.firmware_cmd is Some
    &&& p.firmware_config.firmware_cmd.unwrap()@ == "AT+QGMR"@
    &&& p.firmware_config.firmware_regex is None
    &&& p.gps_config.supported
    &&& p.gps_config.start_cmd is Some
    &&& p.gps_config.start_cmd.unwrap()@ == "AT+QGPS=1"@
    &&& p.gps_config.start_already_running_codes@.len() == 1
    &&& p.gps_config.start_already_running_codes@[0] == 504
    &&& p.gps_config.query_cmd is Some
    &&& p.gps_config.query_cmd.unwrap()@ == "AT+QGPSLOC=2"@
    &&& p.gps_config.no_fix_error_codes@.len() == 1
    &&& p.gps_config.no_fix_error_codes@[0] == 516
    &&& p.gps_config.query_regex is Some
    &&& p.gps_config.query_regex.unwrap()@ == r"\+QGPSLOC:\s*(?P<time>\d+\.\d+),(?P<lat>[+-]?\d+\.\d+),(?P<lon>[+-]?\d+\.\d+),[^,]*,(?P<alt>[+-]?\d+\.?\d*),(?P<fix>\d),[^,]*,(?P<speed>\d+\.?\d*),[^,]*,(?P<date>\d+),(?P<satellites>\d+)"@
    &&& p.gps_config.stop_cmd is Some
    &&& p.gps_config.stop_cmd.unwrap()@ == "AT+QGPSEND"@
    &&& p.gps_config.stop_already_stopped_codes@.len() == 1
    &&& p.gps_config.stop_already_stopped_codes@[0] == 505
    &&& !p.gps_config.start_tolerates_bare_error
    &&& p.gps_config.coordinate_format == GpsCoordinateFormat::Decimal
    &&& p.antenna_metrics_config.supported
    &&& p.antenna_metrics_config.rsrp_cmd is Some
    &&& p.antenna_metrics_config.rsrp_cmd.unwrap()@ == "AT+QRSRP"@
    &&& p.antenna_metrics_config.sinr_cmd is None
    &&& p.antenna_metrics_config.rsrq_cmd is None
    &&& p.antenna_metrics_config.sentinel_value == -32768
    &&& p.antenna_metrics_config.rsrp_min == -140
    &&& p.antenna_metrics_config.rsrp_max == -44
    &&& p.antenna_metrics_config.rsrq_min == -20
    &&& p.antenna_metrics_config.rsrq_max == 0
    &&& p.antenna_metrics_config.sinr_min == -23
    &&& p.antenna_metrics_config.sinr_max == 40
    &&& !p.antenna_metrics_config.interleaved_rsrp_rsrq
    &&& p.signal_parse_config.variants@.len() == 4
    &&& p.signal_parse_config.variants@[0].label@ == "NR5G-NSA 3-line"@
    &&& p.signal_parse_config.variants@[0].requires_substring@ == "NR5G-NSA"@
    &&& p.signal_parse_config.variants@[0].regex@ == r#"\+QENG:\s*"LTE","[^"]*",\d+,\d+,(?P<cellid>[0-9A-Fa-f]+),\d+,\d+,(?P<band>\d+),\d+,\d+,[0-9A-Fa-f]+,(?P<rsrp>-?\d+),(?P<rsrq>-?\d+),(?P<rssi>-?\d+),(?P<sinr>-?\d+)"#@
    &&& p.signal_parse_config.variants@[0].band_prefix@ == "B"@
    &&& p.signal_parse_config.variants@[0].technology@ == "4G"@
    &&& p.signal_parse_config.variants@[1].label@ == "LTE single-line"@
    &&& p.signal_parse_config.variants@[1].requires_substring@.len() == 0
    &&& p.signal_parse_config.variants@[1].regex@ == r#"\+QENG:\s*"servingcell","[^"]*","LTE","[^"]*",\d+,\d+,(?P<cellid>[0-9A-Fa-f]+),\d+,(?P<earfcn>\d+),(?P<band>\d+),\d+,\d+,[0-9A-Fa-f]+,(?P<rsrp>-?\d+),(?P<rsrq>-?\d+),(?P<rssi>-?\d+),(?P<sinr>-?\d+)"#@
    &&& p.signal_parse_config.variants@[1].band_prefix@ == "B"@
    &&& p.signal_parse_config.variants@[1].technology@ == "4G"@
    &&& p.signal_parse_config.variants@[2].label@ == "LTE 2-line"@
    &&& p.signal_parse_config.variants@[2].requires_substring@.len() == 0
    &&& p.signal_parse_config.variants@[2].regex@ == r#"\+QENG:\s*"LTE","[^"]*",\d+,\d+,(?P<cellid>[0-9A-Fa-f]+),\d+,(?P<earfcn>\d+),(?P<band>\d+),\d+,\d+,[0-9A-Fa-f]+,(?P<rsrp>-?\d+),(?P<rsrq>-?\d+),(?P<rssi>-?\d+),(?P<sinr>-?\d+)"#@
    &&& p.signal_parse_config.variants@[2].band_prefix@ == "B"@
    &&& p.signal_parse_config.variants@[2].technology@ == "4G"@
    &&& p.signal_parse_config.variants@[3].label@ == "NR5G-SA single-line"@
    &&& p.signal_parse_config.variants@[3].requires_substring@ == "NR5G-SA"@
    &&& p.signal_parse_config.variants@[3].regex@ == r#"\+QENG:\s*"servingcell","[^"]*","NR5G-SA","[^"]*",\d+,\d+,(?P<cellid>[0-9A-Fa-f]+),[0-9A-Fa-f]+,(?:[0-9A-Fa-f]+,)*(?P<band>\d+),\d+,(?P<rsrp>-?\d+),(?P<rsrq>-?\d+),(?P<sinr>-?\d+)"#@
    &&& p.signal_parse_config.variants@[3].band_prefix@ == "n"@
    &&& p.signal_parse_config.variants@[3].technology@ == "5G"@
    &&& p.notes is Some
    &&& p.notes.unwrap()@ == "Quectel RM500Q-GL 5G Sub-6 module. Same AT family as RM551E but no QSINR/QRSRQ. AT port is ttyUSB2."@
    &&& p.restart_command@ == "AT+CFUN=1,1"@
    &&& p.usbnet_detect.query_cmd is Some
    &&& p.usbnet_detect.query_cmd.unwrap()@ == r#"AT+QCFG="usbnet""#@
    &&& p.usbnet_detect.parser is Some
    &&& p.usbnet_detect.parser.unwrap()@ == "quectel_qcfg_usbnet"@
}

/// Every field of `p` is as the Telit FN990 profile sets it.
pub open spec fn fn990_profile(p: ModemProfile) -> bool {
    &&& p.identity.vendor_id@ == "1bc7"@
    &&& p.identity.product_id@ == "1073"@
    &&& p.identity.manufacturer@ == "Telit"@
    &&& p.identity.model@ == "FN990"@
    &&& p.identity.model_variants@.len() == 1
    &&& p.identity.model_variants@[0]@ == "FN990A"@
    &&& p.commands.signal_cmd is Some
    &&& p.commands.signal_cmd.unwrap()@ == "AT#RFSTS"@
    &&& p.commands.signal_parse_regex is None
    &&& p.commands.generic_signal_cmd@ == "AT+CSQ"@
    &&& p.commands.operator_name_cmd is None
    &&& p.commands.operator_name_regex is None
    &&& p.commands.generic_operator_cmd@ == "AT+COPS?"@
    &&& p.commands.generic_operator_regex@ == r#"\+COPS:\s*\d+,\d+,"([^"]*)""#@
    &&& p.commands.iccid_cmd@ == "AT+ICCID"@
    &&& p.commands.iccid_regex is Some
    &&& p.commands.iccid_regex.unwrap()@ == r"\+ICCID:\s*(\d+)"@
    &&& p.commands.registration_cmd@ == "AT+CEREG?"@
    &&& p.port_mapping.at_port_preference@.len() == 5
    &&& p.port_mapping.at_port_preference@[0]@ == "ttyUSB6"@
    &&& p.port_mapping.at_port_preference@[1]@ == "ttyUSB5"@
    &&& p.port_mapping.at_port_preference@[2]@ == "ttyUSB7"@
    &&& p.port_mapping.at_port_preference@[3]@ == "ttyUSB8"@
    &&& p.port_mapping.at_port_preference@[4]@ == "ttyUSB4"@
    &&& p.port_mapping.at_interface_preference@.len() == 5
    &&& p.port_mapping.at_interface_preference@[0] == 6
    &&& p.port_mapping.at_interface_preference@[1] == 5
    &&& p.port_mapping.at_interface_preference@[2] == 7
    &&& p.port_mapping.at_interface_preference@[3] == 8
    &&& p.port_mapping.at_interface_preference@[4] == 4
    &&& p.port_mapping.baud_rate == 115200
    &&& p.capabilities.supports_5g
    &&& p.capabilities.supports_carrier_aggregation
    &&& p.capabilities.supported_technologies@.len() == 4
    &&& p.capabilities.supported_technologies@[0]@ == "2G"@
    &&& p.capabilities.supported_technologies@[1]@ == "3G"@
    &&& p.capabilities.supported_technologies@[2]@ == "4G"@
    &&& p.capabilities.supported_technologies@[3]@ == "5G"@
    &&& p.capabilities.max_supported_bands@.len() == 0
    &&& p.capabilities.supported_protocols@.len() == 1
    &&& p.capabilities.supported_protocols@[0]@ == "at"@
    &&& !p.capabilities.has_temperature_sensor
    &&& p.capabilities.has_gps
    &&& p.at_whitelist_additions.safe_commands@.len() == 9
    &&& p.at_whitelist_additions.safe_commands@[0]@ == "AT#RFSTS"@
    &&& p.at_whitelist_additions.safe_commands@[1]@ == "AT+ICCID"@
    &&& p.at_whitelist_additions.safe_commands@[2]@ == "AT#LAPS"@
    &&& p.at_whitelist_additions.safe_commands@[3]@ == "AT#NRAPS"@
    &&& p.at_whitelist_additions.safe_commands@[4]@ == "AT#CAINFO?"@
    &&& p.at_whitelist_additions.safe_commands@[5]@ == "AT$GPSACP"@
    &&& p.at_whitelist_additions.safe_commands@[6]@ == "AT$GPSP?"@
    &&& p.at_whitelist_additions.safe_commands@[7]@ == "AT#BND?"@
    &&& p.at_whitelist_additions.safe_commands@[8]@ == "AT+WS46?"@
    &&& p.at_whitelist_additions.confirmation_commands@.len() == 3
    &&& p.at_whitelist_additions.confirmation_commands@[0]@ == "AT$GPSP"@
    &&& p.at_whitelist_additions.confirmation_commands@[1]@ == "AT#BND"@
    &&& p.at_whitelist_additions.confirmation_commands@[2]@ == "AT+WS46"@
    &&& p.at_whitelist_additions.blocked_prefixes@.len() == 0
    &&& p.whitelist_label is Some
    &&& p.whitelist_label.unwrap()@ == "Telit"@
    &&& p.band_mode_config.supported
    &&& p.band_mode_config.commands.query_mode is Some
    &&& p.band_mode_config.commands.query_mode.unwrap()@ == "AT+WS46?"@
    &&& p.band_mode_config.commands.set_mode is Some
    &&& p.band_mode_config.commands.set_mode.unwrap()@ == "AT+WS46={value}"@
    &&& p.band_mode_config.commands.query_nr5g_disable is None
    &&& p.band_mode_config.commands.set_nr5g_disable is None
    &&& p.band_mode_config.commands.query_lte_bands is None
    &&& p.band_mode_config.commands.set_lte_bands is None
    &&& p.band_mode_config.commands.query_nsa_bands is None
    &&& p.band_mode_config.commands.set_nsa_bands is None
    &&& p.band_mode_config.commands.query_sa_bands is None
    &&& p.band_mode_config.commands.set_sa_bands is None
    &&& p.band_mode_config.commands.query_nrdc_bands is None
    &&& p.band_mode_config.commands.set_nrdc_bands is None
    &&& p.band_mode_config.commands.query_nrdc_mode is None
    &&& p.band_mode_config.commands.set_nrdc_mode is None
    &&& p.band_mode_config.commands.query_all_bands is Some
    &&& p.band_mode_config.commands.query_all_bands.unwrap()@ == "AT#BND?"@
    &&& p.band_mode_config.commands.set_all_bands is Some
    &&& p.band_mode_config.commands.set_all_bands.unwrap()@ == "AT#BND=0,0,{lte_low},{lte_high},{nsa_low},{nsa_high},{sa_low},{sa_high}"@
    &&& p.band_mode_config.commands.restore_bands is Some
    &&& p.band_mode_config.commands.restore_bands.unwrap()@ == "AT#BND=0,0,A7E2BB0F38DF,42,1A0290828D7,7042,81A03B0A38D7,7C42"@
    &&& p.band_mode_config.modes@.len() == 3
    &&& p.band_mode_config.modes@[0].id@ == "auto"@
    &&& p.band_mode_config.modes@[0].label@ == "Auto"@
    &&& p.band_mode_config.modes@[0].mode_value@ == "37"@
    &&& p.band_mode_config.modes@[0].nr5g_disable_value is None
    &&& p.band_mode_config.modes@[0].active_sections.lte
    &&& p.band_mode_config.modes@[0].active_sections.nsa
    &&& p.band_mode_config.modes@[0].active_sections.sa
    &&& p.band_mode_config.modes@[1].id@ == "lte"@
    &&& p.band_mode_config.modes@[1].label@ == "LTE Only"@
    &&& p.band_mode_config.modes@[1].mode_value@ == "28"@
    &&& p.band_mode_config.modes@[1].nr5g_disable_value is None
    &&& p.band_mode_config.modes@[1].active_sections.lte
    &&& !p.band_mode_config.modes@[1].active_sections.nsa
    &&& !p.band_mode_config.modes@[1].active_sections.sa
    &&& p.band_mode_config.modes@[2].id@ == "lte_nr"@
    &&& p.band_mode_config.modes@[2].label@ == "LTE + NR (no SA)"@
    &&& p.band_mode_config.modes@[2].mode_value@ == "36"@
    &&& p.band_mode_config.modes@[2].nr5g_disable_value is None
    &&& p.band_mode_config.modes@[2].active_sections.lte
    &&& p.band_mode_config.modes@[2].active_sections.nsa
    &&& !p.band_mode_config.modes@[2].active_sections.sa
    &&& p.band_mode_config.lte_bands@.len() == 31
    &&& p.band_mode_config.lte_bands@[0] == 1
    &&& p.band_mode_config.lte_bands@[1] == 2
    &&& p.band_mode_config.lte_bands@[2] == 3
    &&& p.band_mode_config.lte_bands@[3] == 4
    &&& p.band_mode_config.lte_bands@[4] == 5
    &&& p.band_mode_config.lte_bands@[5] == 7
    &&& p.band_mode_config.lte_bands@[6] == 8
    &&& p.band_mode_config.lte_bands@[7] == 12
    &&& p.band_mode_config.lte_bands@[8] == 13
    &&& p.band_mode_config.lte_bands@[9] == 14
    &&& p.band_mode_config.lte_bands@[10] == 17
    &&& p.band_mode_config.lte_bands@[11] == 18
    &&& p.band_mode_config.lte_bands@[12] == 19
    &&& p.band_mode_config.lte_bands@[13] == 20
    &&& p.band_mode_config.lte_bands@[14] == 25
    &&& p.band_mode_config.lte_bands@[15] == 26
    &&& p.band_mode_config.lte_bands@[16] == 28
    &&& p.band_mode_config.lte_bands@[17] == 29
    &&& p.band_mode_config.lte_bands@[18] == 30
    &&& p.band_mode_config.lte_bands@[19] == 32
    &&& p.band_mode_config.lte_bands@[20] == 34
    &&& p.band_mode_config.lte_bands@[21] == 38
    &&& p.band_mode_config.lte_bands@[22] == 39
    &&& p.band_mode_config.lte_bands@[23] == 40
    &&& p.band_mode_config.lte_bands@[24] == 41
    &&& p.band_mode_config.lte_bands@[25] == 42
    &&& p.band_mode_config.lte_bands@[26] == 43
    &&& p.band_mode_config.lte_bands@[27] == 46
    &&& p.band_mode_config.lte_bands@[28] == 48
    &&& p.band_mode_config.lte_bands@[29] == 50
    &&& p.band_mode_config.lte_bands@[30] == 55
    &&& p.band_mode_config.nsa_nr5g_bands@.len() == 20
    &&& p.band_mode_config.nsa_nr5g_bands@[0] == 1
    &&& p.band_mode_config.nsa_nr5g_bands@[1] == 2
    &&& p.band_mode_config.nsa_nr5g_bands@[2] == 3
    &&& p.band_mode_config.nsa_nr5g_bands@[3] == 5
    &&& p.band_mode_config.nsa_nr5g_bands@[4] == 7
    &&& p.band_mode_config.nsa_nr5g_bands@[5] == 8
    &&& p.band_mode_config.nsa_nr5g_bands@[6] == 12
    &&& p.band_mode_config.nsa_nr5g_bands@[7] == 14
    &&& p.band_mode_config.nsa_nr5g_bands@[8] == 20
    &&& p.band_mode_config.nsa_nr5g_bands@[9] == 25
    &&& p.band_mode_config.nsa_nr5g_bands@[10] == 28
    &&& p.band_mode_config.nsa_nr5g_bands@[11] == 30
    &&& p.band_mode_config.nsa_nr5g_bands@[12] == 38
    &&& p.band_mode_config.nsa_nr5g_bands@[13] == 40
    &&& p.band_mode_config.nsa_nr5g_bands@[14] == 41
    &&& p.band_mode_config.nsa_nr5g_bands@[15] == 66
    &&& p.band_mode_config.nsa_nr5g_bands@[16] == 71
    &&& p.band_mode_config.nsa_nr5g_bands@[17] == 77
    &&& p.band_mode_config.nsa_nr5g_bands@[18] == 78
    &&& p.band_mode_config.nsa_nr5g_bands@[19] == 79
    &&& p.band_mode_config.sa_nr5g_bands@.len() == 27
    &&& p.band_mode_config.sa_nr5g_bands@[0] == 1
    &&& p.band_mode_config.sa_nr5g_bands@[1] == 2
    &&& p.band_mode_config.sa_nr5g_bands@[2] == 3
    &&& p.band_mode_config.sa_nr5g_bands@[3] == 5
    &&& p.band_mode_config.sa_nr5g_bands@[4] == 7
    &&& p.band_mode_config.sa_nr5g_bands@[5] == 8
    &&& p.band_mode_config.sa_nr5g_bands@[6] == 12
    &&& p.band_mode_config.sa_nr5g_bands@[7] == 13
    &&& p.band_mode_config.sa_nr5g_bands@[8] == 14
    &&& p.band_mode_config.sa_nr5g_bands@[9] == 18
    &&& p.band_mode_config.sa_nr5g_bands@[10] == 20
    &&& p.band_mode_config.sa_nr5g_bands@[11] == 25
    &&& p.band_mode_config.sa_nr5g_bands@[12] == 26
    &&& p.band_mode_config.sa_nr5g_bands@[13] == 28
    &&& p.band_mode_config.sa_nr5g_bands@[14] == 29
    &&& p.band_mode_config.sa_nr5g_bands@[15] == 30
    &&& p.band_mode_config.sa_nr5g_bands@[16] == 38
    &&& p.band_mode_config.sa_nr5g_bands@[17] == 40
    &&& p.band_mode_config.sa_nr5g_bands@[18] == 41
    &&& p.band_mode_config.sa_nr5g_bands@[19] == 48
    &&& p.band_mode_config.sa_nr5g_bands@[20] == 66
    &&& p.band_mode_config.sa_nr5g_bands@[21] == 71
    &&& p.band_mode_config.sa_nr5g_bands@[22] == 75
    &&& p.band_mode_config.sa_nr5g_bands@[23] == 76
    &&& p.band_mode_config.sa_nr5g_bands@[24] == 77
    &&& p.band_mode_config.sa_nr5g_bands@[25] == 78
    &&& p.band_mode_config.sa_nr5g_bands@[26] == 79
    &&& p.band_mode_config.nrdc_nr5g_bands@.len() == 0
    &&& !p.band_mode_config.reboot_on_band_change
    &&& p.band_mode_config.band_separator@ == ":"@
    &&& p.band_mode_config.band_command_variant@ == "telit_bnd"@
    &&& !p.apn_apply_config.supported
    &&& p.apn_apply_config.steps@.len() == 0
    &&& !p.apn_apply_config.always_reboot
    &&& p.apn_apply_config.pre_reboot_delay_ms == 0
    &&& p.apn_live_config.query is None
    &&& p.apn_live_config.write is None
    &&& !p.dual_sim_config.supported
    &&& p.dual_sim_config.slot_count == 1
    &&& p.dual_sim_config.query_slot_cmd is None
    &&& p.dual_sim_config.query_slot_regex is None
    &&& p.dual_sim_config.set_slot_cmd is None
    &&& p.dual_sim_config.sim_init_cmd is None
    &&& p.dual_sim_config.sim_init_regex is None
    &&& p.dual_sim_config.sim_init_complete_value == 0
    &&& p.dual_sim_config.sim_init_timeout_secs == 0
    &&& !p.mbn_config.supported
    &&& p.mbn_config.commands.list_profiles is None
    &&& p.mbn_config.commands.query_auto_select is None
    &&& p.mbn_config.commands.set_auto_select is None
    &&& p.mbn_config.commands.query_selected is None
    &&& p.mbn_config.commands.select_profile is None
    &&& p.mbn_config.commands.deactivate is None
    &&& !p.mbn_config.reboot_recommended
    &&& p.ca_config.supported
    &&& p.ca_config.ca_info_cmd is Some
    &&& p.ca_config.ca_info_cmd.unwrap()@ == "AT#CAINFO?"@
    &&& p.ca_config.lte_scc_regex is None
    &&& p.ca_config.nr5g_scc_regex is None
    &&& p.ca_config.network_type_cmd is None
    &&& p.ca_config.network_type_regex is None
    &&& p.ca_config.band_prefix_mappings@.len() == 0
    &&& p.ca_config.ca_parser_variant@ == "telit_cainfo"@
    &&& p.firmware_config.firmware_cmd is Some
    &&& p.firmware_config.firmware_cmd.unwrap()@ == "AT+CGMR"@
    &&& p.firmware_config.firmware_regex is None
    &&& p.gps_config.supported
    &&& p.gps_config.start_cmd is Some
    &&& p.gps_config.start_cmd.unwrap()@ == "AT$GPSP=1"@
    &&& p.gps_config.start_already_running_codes@.len() == 0
    &&& p.gps_config.start_tolerates_bare_error
    &&& p.gps_config.query_cmd is Some
    &&& p.gps_config.query_cmd.unwrap()@ == "AT$GPSACP"@
    &&& p.gps_config.no_fix_error_codes@.len() == 0
    &&& p.gps_config.query_regex is Some
    &&& p.gps_config.query_regex.unwrap()@ == r"\$GPSACP:\s*(?P<time>\d+\.\d+),(?P<lat>\d+\.\d+),(?P<ns>[NS]),(?P<lon>\d+\.\d+),(?P<ew>[EW]),[\d.]*,(?P<alt>[\d.]+),(?P<fix>\d+),[\d.]*,(?P<speed>[\d.]+),[\d.]*,(?P<date>\d+),(?P<satellites>\d+)"@
    &&& p.gps_config.stop_cmd is Some
    &&& p.gps_config.stop_cmd.unwrap()@ == "AT$GPSP=0"@
    &&& p.gps_config.stop_already_stopped_codes@.len() == 0
    &&& p.gps_config.coordinate_format == GpsCoordinateFormat::Nmea
    &&& p.antenna_metrics_config.supported
    &&& p.antenna_metrics_config.rsrp_cmd is Some
    &&& p.antenna_metrics_config.rsrp_cmd.unwrap()@ == "AT#LAPS"@
    &&& p.antenna_metrics_config.sinr_cmd is None
    &&& p.antenna_metrics_config.rsrq_cmd is None
    &&& p.antenna_metrics_config.sentinel_value == -32768
    &&& p.antenna_metrics_config.rsrp_min == -140
    &&& p.antenna_metrics_config.rsrp_max == -44
    &&& p.antenna_metrics_config.rsrq_min == -20
    &&& p.antenna_metrics_config.rsrq_max == 0
    &&& p.antenna_metrics_config.sinr_min == -23
    &&& p.antenna_metrics_config.sinr_max == 40
    &&& p.antenna_metrics_config.interleaved_rsrp_rsrq
    &&& p.signal_parse_config.variants@.len() == 2
    &&& p.signal_parse_config.variants@[0].label@ == "Telit RFSTS LTE"@
    &&& p.signal_parse_config.variants@[0].requires_substring@ == "#RFSTS:"@
    &&& p.signal_parse_config.variants@[0].regex@ == r#"#RFSTS:\s*"[^"]*",(?P<earfcn>\d+),(?P<rsrp>-?\d+),(?P<rssi>-?\d+),(?P<rsrq>-?\d+),[0-9A-Fa-f]+,[0-9A-Fa-f]+,-?\d*,\d+,\d+,\d+,(?P<cellid>[0-9A-Fa-f]+),"[^"]*","[^"]*",\d+,(?P<band>\d+)"#@
    &&& p.signal_parse_config.variants@[0].band_prefix@ == "B"@
    &&& p.signal_parse_config.variants@[0].technology@ == "4G"@
    &&& p.signal_parse_config.variants@[1].label@ == "Telit RFSTS NR SA"@
    &&& p.signal_parse_config.variants@[1].requires_substring@ == "#RFSTS:"@
    &&& p.signal_parse_config.variants@[1].regex@ == r#"#RFSTS:\s*"[^"]*",\d+,\d+,(?P<rsrp>-?\d+),(?P<rssi>-?\d+),(?P<rsrq>-?\d+),(?P<band>\d+),\d+,\d+"#@
    &&& p.signal_parse_config.variants@[1].band_prefix@ == "n"@
    &&& p.signal_parse_config.variants@[1].technology@ == "5G"@
    &&& p.notes is Some
    &&& p.notes.unwrap()@ == "Telit FN990 5G module. AT port is ttyUSB6 (interface 6). Signal via AT#RFSTS."@
    &&& p.restart_command@ == "AT#REBOOT"@
    &&& p.usbnet_detect.query_cmd is Some
    &&& p.usbnet_detect.query_cmd.unwrap()@ == "AT#USBCFG?"@
    &&& p.usbnet_detect.parser is Some
    &&& p.usbnet_detect.parser.unwrap()@ == "telit_usbcfg"@
}

/// Every field of `p` is as the generic fallback modem profile sets it.
pub open spec fn generic_modem_profile(p: ModemProfile) -> bool {
    &&& p.identity.vendor_id@ == "0000"@
    &&& p.identity.product_id@ == "0000"@
    &&& p.identity.manufacturer@ == "Generic"@
    &&& p.identity.model@ == "Unknown Modem"@
    &&& p.identity.model_variants@.len() == 0
    &&& p.commands.signal_cmd is None
    &&& p.commands.signal_parse_regex is None
    &&& p.commands.generic_signal_cmd@ == "AT+CSQ"@
    &&& p.commands.operator_name_cmd is None
    &&& p.commands.operator_name_regex is None
    &&& p.commands.generic_operator_cmd@ == "AT+COPS?"@
    &&& p.commands.generic_operator_regex@ == r#"\+COPS:\s*\d+,\d+,"([^"]*)""#@
    &&& p.commands.iccid_cmd@ == "AT+CCID"@
    &&& p.commands.iccid_regex is None
    &&& p.commands.registration_cmd@ == "AT+CEREG?"@
    &&& p.port_mapping.at_port_preference@.len() == 4
    &&& p.port_mapping.at_port_preference@[0]@ == "ttyUSB2"@
    &&& p.port_mapping.at_port_preference@[1]@ == "ttyUSB1"@
    &&& p.port_mapping.at_port_preference@[2]@ == "ttyUSB0"@
    &&& p.port_mapping.at_port_preference@[3]@ == "ttyUSB3"@
    &&& p.port_mapping.at_interface_preference@.len() == 4
    &&& p.port_mapping.at_interface_preference@[0] == 2
    &&& p.port_mapping.at_interface_preference@[1] == 3
    &&& p.port_mapping.at_interface_preference@[2] == 1
    &&& p.port_mapping.at_interface_preference@[3] == 0
    &&& p.port_mapping.baud_rate == 115200
    &&& !p.capabilities.supports_5g
    &&& !p.capabilities.supports_carrier_aggregation
    &&& p.capabilities.supported_technologies@.len() == 3
    &&& p.capabilities.supported_technologies@[0]@ == "2G"@
    &&& p.capabilities.supported_technologies@[1]@ == "3G"@
    &&& p.capabilities.supported_technologies@[2]@ == "4G"@
    &&& p.capabilities.max_supported_bands@.len() == 0
    &&& p.capabilities.supported_protocols@.len() == 1
    &&& p.capabilities.supported_protocols@[0]@ == "at"@
    &&& !p.capabilities.has_temperature_sensor
    &&& !p.capabilities.has_gps
    &&& p.at_whitelist_additions.safe_commands@.len() == 2
    &&& p.at_whitelist_additions.safe_commands@[0]@ == "AT+QUIMSLOT?"@
    &&& p.at_whitelist_additions.safe_commands@[1]@ == "AT+QINISTAT"@
    &&& p.at_whitelist_additions.confirmation_commands@.len() == 1
    &&& p.at_whitelist_additions.confirmation_commands@[0]@ == "AT+QUIMSLOT"@
    &&& p.at_whitelist_additions.blocked_prefixes@.len() == 0
    &&& p.whitelist_label is None
    &&& !p.band_mode_config.supported
    &&& p.band_mode_config.commands.query_mode is None
    &&& p.band_mode_config.commands.set_mode is None
    &&& p.band_mode_config.commands.query_nr5g_disable is None
    &&& p.band_mode_config.commands.set_nr5g_disable is None
    &&& p.band_mode_config.commands.query_lte_bands is None
    &&& p.band_mode_config.commands.set_lte_bands is None
    &&& p.band_mode_config.commands.query_nsa_bands is None
    &&& p.band_mode_config.commands.set_nsa_bands is None
    &&& p.band_mode_config.commands.query_sa_bands is None
    &&& p.band_mode_config.commands.set_sa_bands is None
    &&& p.band_mode_config.commands.query_nrdc_bands is None
    &&& p.band_mode_config.commands.set_nrdc_bands is None
    &&& p.band_mode_config.commands.query_nrdc_mode is None
    &&& p.band_mode_config.commands.set_nrdc_mode is None
    &&& p.band_mode_config.commands.query_all_bands is None
    &&& p.band_mode_config.commands.set_all_bands is None
    &&& p.band_mode_config.commands.restore_bands is None
    &&& p.band_mode_config.modes@.len() == 0
    &&& p.band_mode_config.lte_bands@.len() == 0
    &&& p.band_mode_config.nsa_nr5g_bands@.len() == 0
    &&& p.band_mode_config.sa_nr5g_bands@.len() == 0
    &&& p.band_mode_config.nrdc_nr5g_bands@.len() == 0
    &&& !p.band_mode_config.reboot_on_band_change
    &&& p.band_mode_config.band_separator@.len() == 0
    &&& p.band_mode_config.band_command_variant@.len() == 0
    &&& !p.mbn_config.supported
    &&& p.mbn_config.commands.list_profiles is None
    &&& p.mbn_config.commands.query_auto_select is None
    &&& p.mbn_config.commands.set_auto_select is None
    &&& p.mbn_config.commands.query_selected is None
    &&& p.mbn_config.commands.select_profile is None
    &&& p.mbn_config.commands.deactivate is None
    &&& !p.mbn_config.reboot_recommended
    &&& !p.apn_apply_config.supported
    &&& p.apn_apply_config.steps@.len() == 0
    &&& !p.apn_apply_config.always_reboot
    &&& p.apn_apply_config.pre_reboot_delay_ms == 0
    &&& p.apn_live_config.query is None
    &&& p.apn_live_config.write is None
    &&& p.dual_sim_config.supported
    &&& p.dual_sim_config.slot_count == 2
    &&& p.dual_sim_config.query_slot_cmd is Some
    &&& p.dual_sim_config.query_slot_cmd.unwrap()@ == "AT+QUIMSLOT?"@
    &&& p.dual_sim_config.query_slot_regex is Some
    &&& p.dual_sim_config.query_slot_regex.unwrap()@ == r"\+QU?IMSLOT:\s*(\d+)"@
    &&& p.dual_sim_config.set_slot_cmd is Some
    &&& p.dual_sim_config.set_slot_cmd.unwrap()@ == "AT+QUIMSLOT={slot}"@
    &&& p.dual_sim_config.sim_init_cmd is Some
    &&& p.dual_sim_config.sim_init_cmd.unwrap()@ == "AT+QINISTAT"@
    &&& p.dual_sim_config.sim_init_regex is Some
    &&& p.dual_sim_config.sim_init_regex.unwrap()@ == r"\+QINISTAT:\s*(\d+)"@
    &&& p.dual_sim_config.sim_init_complete_value == 7
    &&& p.dual_sim_config.sim_init_timeout_secs == 30
    &&& !p.ca_config.supported
    &&& p.ca_config.ca_info_cmd is None
    &&& p.ca_config.lte_scc_regex is None
    &&& p.ca_config.nr5g_scc_regex is None
    &&& p.ca_config.network_type_cmd is None
    &&& p.ca_config.network_type_regex is None
    &&& p.ca_config.band_prefix_mappings@.len() == 0
    &&& p.ca_config.ca_parser_variant@ == "qcainfo"@
    &&& p.firmware_config.firmware_cmd is None
    &&& p.firmware_config.firmware_regex is None
    &&& !p.gps_config.supported
    &&& p.gps_config.start_cmd is None
    &&& p.gps_config.start_already_running_codes@.len() == 0
    &&& p.gps_config.query_cmd is None
    &&& p.gps_config.no_fix_error_codes@.len() == 0
    &&& p.gps_config.query_regex is None
    &&& p.gps_config.stop_cmd is None
    &&& p.gps_config.stop_already_stopped_codes@.len() == 0
    &&& !p.gps_config.start_tolerates_bare_error
    &&& p.gps_config.coordinate_format == GpsCoordinateFormat::Decimal
    &&& !p.antenna_metrics_config.supported
    &&& p.antenna_metrics_config.rsrp_cmd is None
    &&& p.antenna_metrics_config.sinr_cmd is None
    &&& p.antenna_metrics_config.rsrq_cmd is None
    &&& p.antenna_metrics_config.sentinel_value == -32768
    &&& p.antenna_metrics_config.rsrp_min == -140
    &&& p.antenna_metrics_config.rsrp_max == -44
    &&& p.antenna_metrics_config.rsrq_min == -20
    &&& p.antenna_metrics_config.rsrq_max == 0
    &&& p.antenna_metrics_config.sinr_min == -23
    &&& p.antenna_metrics_config.sinr_max == 40
    &&& !p.antenna_metrics_config.interleaved_rsrp_rsrq
    &&& p.signal_parse_config.variants@.len() == 0
    &&& p.notes is Some
    &&& p.notes.unwrap()@ == "Generic fallback profile. Uses only standard 3GPP AT commands."@
    &&& p.restart_command@ == "AT+CFUN=1,1"@
    &&& p.usbnet_detect.query_cmd is None
    &&& p.usbnet_detect.parser is None
}

/// `p` reads and writes the live APN with the Quectel QICSGP templates.
pub open spec fn has_qicsgp_live_apn(p: ModemProfile) -> bool {
    &&& p.apn_live_config.query matches Some(q) && q@ == "AT+QICSGP={cid}"@
    &&& p.apn_live_config.write matches Some(w)
        && w@ == r#"AT+QICSGP={cid},{context_type},"{apn}","{username}","{password}",{auth}"#@
}

/// Quectel RM551E-GL — primary target hardware.
///
/// 5G Sub-6 + LTE Cat 20 module. AT port on ttyUSB2.
/// Uses AT+QENG for detailed signal info, AT+QSPN for operator name.
pub fn quectel_rm551e_gl() -> (p: ModemProfile)
    ensures
        rm551e_gl_profile(p),
        has_identity(p, "2c7c"@, "0122"@, "Quectel"@, "RM551E-GL"@),
        !is_generic_identity(p.identity),
        has_qicsgp_live_apn(p),
        p.restart_command@ == "AT+CFUN=1,1"@,
        p.usbnet_detect.parser matches Some(s) && s@ == "quectel_qcfg_usbnet"@,
        p.port_mapping.at_interface_preference@ == seq![2u32, 3],
        at_ports(p) == seq!["ttyUSB2"@, "ttyUSB3"@],
        p.port_mapping.baud_rate == 115200,
        strings_view(p.at_whitelist_additions.safe_commands@) == seq![r#"AT+QENG="servingcell""#@, r#"AT+QENG="neighbourcell""#@, "AT+QNWINFO"@, "AT+QCAINFO"@, "AT+QSPN"@, "AT+QTEMP"@, "AT+QRSRP"@, "AT+QSINR"@, "AT+QRSRQ"@, "AT+QCSQ"@, r#"AT+QNWCFG="lte_ambr""#@, r#"AT+QNWCFG="nr5g_ambr""#@, "AT+QGPSLOC=2"@, "AT+QGPS?"@, "AT+QGPSCFG?"@, "AT+QGMR"@, r#"AT+QMBNCFG="List""#@, r#"AT+QMBNCFG="AutoSel""#@, r#"AT+QMBNCFG="Select""#@, "AT+QUIMSLOT?"@, "AT+QINISTAT"@, "AT+QSIMSTAT?"@, "AT+QPINC"@, "AT+QICSGP=1"@, "AT+QICSGP=2"@, "AT+QICSGP=3"@, "AT+QICSGP=4"@, "AT+QICSGP=5"@, "AT+QICSGP=6"@, "AT+QICSGP=7"@, "AT+QICSGP=8"@],
        strings_view(p.at_whitelist_additions.confirmation_commands@) == seq!["AT+QPOWD"@, "AT+QGPS"@, "AT+QGPSEND"@, "AT+QGPSCFG"@, "AT+QNWPREFCFG"@, "AT+QMBNCFG"@, "AT+QUIMSLOT"@, "AT+QSIMSTAT"@, "AT+QICSGP"@],
        strings_view(p.at_whitelist_additions.blocked_prefixes@) == seq!["AT+QFASTBOOT"@, "AT+QDOWNLOAD"@, "AT+QPRTPARA"@, "AT+QNVW"@, "AT+QNVFW"@, "AT+QSIMDET"@, "AT$QCPWRDN"@, "AT$QCDMG"@],
        p.commands.signal_cmd matches Some(x) && x@ == r#"AT+QENG="servingcell""#@,
        p.commands.signal_parse_regex matches Some(x) && x@ == r#"\+QENG:\s*"servingcell","[^"]*","LTE","[^"]*",\d+,\d+,(?P<cellid>[0-9A-Fa-f]+),\d+,(?P<earfcn>\d+),(?P<band>\d+),\d+,\d+,[0-9A-Fa-f]+,(?P<rsrp>-?\d+),(?P<rsrq>-?\d+),(?P<rssi>-?\d+),(?P<sinr>-?\d+)"#@,
        p.commands.generic_signal_cmd@ == "AT+CSQ"@,
        p.commands.operator_name_cmd matches Some(x) && x@ == "AT+QSPN"@,
        p.commands.operator_name_regex matches Some(x) && x@ == r#"\+QSPN:\s*"([^"]*)""#@,
        p.commands.generic_operator_cmd@ == "AT+COPS?"@,
        p.commands.generic_operator_regex@ == r#"\+COPS:\s*\d+,\d+,"([^"]*)""#@,
        p.commands.iccid_cmd@ == "AT+QCCID"@,
        p.commands.iccid_regex matches Some(x) && x@ == r"\+QCCID:\s*([0-9A-Fa-f]+)"@,
        p.commands.registration_cmd@ == "AT+CEREG?"@,
        p.usbnet_detect.query_cmd matches Some(x) && x@ == r#"AT+QCFG="usbnet""#@,
{
    proof {
        reveal_strlit("2c7c");
        reveal_strlit("0000");
        assert("2c7c"@[0] != "0000"@[0]);
    }
    ModemProfile {
        identity: ModemIdentity {
            vendor_id: "2c7c".to_string(),
            product_id: "0122".to_string(),
            manufacturer: "Quectel".to_string(),
            model: "RM551E-GL".to_string(),
            model_variants: vec!["RM551E".to_string()],
        },
        commands: AtCommandSet {
            signal_cmd: Some(r#"AT+QENG="servingcell""#.to_string()),
            signal_parse_regex: Some(
                r#"\+QENG:\s*"servingcell","[^"]*","LTE","[^"]*",\d+,\d+,(?P<cellid>[0-9A-Fa-f]+),\d+,(?P<earfcn>\d+),(?P<band>\d+),\d+,\d+,[0-9A-Fa-f]+,(?P<rsrp>-?\d+),(?P<rsrq>-?\d+),(?P<rssi>-?\d+),(?P<sinr>-?\d+)"#.to_string()
            ),
            generic_signal_cmd: "AT+CSQ".to_string(),
            operator_name_cmd: Some("AT+QSPN".to_string()),
            operator_name_regex: Some(r#"\+QSPN:\s*"([^"]*)""#.to_string()),
            generic_operator_cmd: "AT+COPS?".to_string(),
            generic_operator_regex: r#"\+COPS:\s*\d+,\d+,"([^"]*)""#.to_string(),
            iccid_cmd: "AT+QCCID".to_string(),
            iccid_regex: Some(r"\+QCCID:\s*([0-9A-Fa-f]+)".to_string()),
            registration_cmd: "AT+CEREG?".to_string(),
        },
        port_mapping: PortMapping {
            at_port_preference: vec!["ttyUSB2".to_string(), "ttyUSB3".to_string()],
            at_interface_preference: vec![2, 3],
            baud_rate: 115200,
        },
        capabilities: ModemCapabilities {
            supports_5g: true,
            supports_carrier_aggregation: true,
            supported_technologies: vec![
                "2G".to_string(), "3G".to_string(), "4G".to_string(), "5G".to_string(),
            ],
            max_supported_bands: vec![
                "B1".to_string(), "B2".to_string(), "B3".to_string(), "B4".to_string(), "B5".to_string(),
                "B8".to_string(), "B12".to_string(), "B13".to_string(), "B14".to_string(), "B17".to_string(),
                "B18".to_string(), "B19".to_string(), "B20".to_string(), "B25".to_string(), "B26".to_string(),
                "B28".to_string(), "B29".to_string(), "B30".to_string(), "B32".to_string(), "B34".to_string(),
                "B39".to_string(), "B40".to_string(), "B41".to_string(), "B42".to_string(), "B43".to_string(),
                "B46".to_string(), "B48".to_string(), "B53".to_string(), "B66".to_string(), "B70".to_string(),
                "B71".to_string(),
                "n1".to_string(), "n2".to_string(), "n3".to_string(), "n5".to_string(), "n7".to_string(),
                "n8".to_string(), "n12".to_string(), "n13".to_string(), "n14".to_string(), "n18".to_string(),
                "n20".to_string(), "n25".to_string(), "n26".to_string(), "n28".to_string(), "n29".to_string(),
                "n30".to_string(), "n38".to_string(), "n40".to_string(), "n41".to_string(), "n48".to_string(),
                "n53".to_string(), "n66".to_string(), "n70".to_string(), "n71".to_string(), "n75".to_string(),
                "n77".to_string(), "n78".to_string(), "n79".to_string(), "n91".to_string(), "n92".to_string(),
                "n93".to_string(), "n94".to_string(),
                "n257".to_string(), "n258".to_string(), "n259".to_string(), "n260".to_string(), "n261".to_string(),
            ],
            supported_protocols: vec!["qmi".to_string(), "at".to_string(), "mbim".to_string()],
            has_temperature_sensor: true,
            has_gps: true,
        },
        at_whitelist_additions: ProfileAtWhitelist {
            safe_commands: vec![
                r#"AT+QENG="servingcell""#.to_string(),
                r#"AT+QENG="neighbourcell""#.to_string(),
                "AT+QNWINFO".to_string(),
                "AT+QCAINFO".to_string(),
                "AT+QSPN".to_string(),
                "AT+QTEMP".to_string(),
                "AT+QRSRP".to_string(),
                "AT+QSINR".to_string(),
                "AT+QRSRQ".to_string(),
                "AT+QCSQ".to_string(),
                r#"AT+QNWCFG="lte_ambr""#.to_string(),
                r#"AT+QNWCFG="nr5g_ambr""#.to_string(),
                "AT+QGPSLOC=2".to_string(),
                "AT+QGPS?".to_string(),
                "AT+QGPSCFG?".to_string(),
                "AT+QGMR".to_string(),
                r#"AT+QMBNCFG="List""#.to_string(),
                r#"AT+QMBNCFG="AutoSel""#.to_string(),
                r#"AT+QMBNCFG="Select""#.to_string(),
                "AT+QUIMSLOT?".to_string(),
                "AT+QINISTAT".to_string(),
                "AT+QSIMSTAT?".to_string(),
                "AT+QPINC".to_string(),
                "AT+QICSGP=1".to_string(),
                "AT+QICSGP=2".to_string(),
                "AT+QICSGP=3".to_string(),
                "AT+QICSGP=4".to_string(),
                "AT+QICSGP=5".to_string(),
                "AT+QICSGP=6".to_string(),
                "AT+QICSGP=7".to_string(),
                "AT+QICSGP=8".to_string(),
            ],
            confirmation_commands: vec![
                "AT+QPOWD".to_string(),
                "AT+QGPS".to_string(),
                "AT+QGPSEND".to_string(),
                "AT+QGPSCFG".to_string(),
                "AT+QNWPREFCFG".to_string(),
                "AT+QMBNCFG".to_string(),
                "AT+QUIMSLOT".to_string(),
                "AT+QSIMSTAT".to_string(),
                "AT+QICSGP".to_string(),
            ],
            blocked_prefixes: vec![
                "AT+QFASTBOOT".to_string(),
                "AT+QDOWNLOAD".to_string(),
                "AT+QPRTPARA".to_string(),
                "AT+QNVW".to_string(),
                "AT+QNVFW".to_string(),
                "AT+QSIMDET".to_string(),
                "AT$QCPWRDN".to_string(),
                "AT$QCDMG".to_string(),
            ],
        },
        whitelist_label: Some("RM551".to_string()),
        band_mode_config: BandModeConfig {
            supported: true,
            commands: BandModeCommands {
                query_mode: Some(r#"AT+QNWPREFCFG="mode_pref""#.to_string()),
                set_mode: Some(r#"AT+QNWPREFCFG="mode_pref",{value}"#.to_string()),
                query_nr5g_disable: Some(r#"AT+QNWPREFCFG="nr5g_disable_mode""#.to_string()),
                set_nr5g_disable: Some(r#"AT+QNWPREFCFG="nr5g_disable_mode",{value}"#.to_string()),
                query_lte_bands: Some(r#"AT+QNWPREFCFG="lte_band""#.to_string()),
                set_lte_bands: Some(r#"AT+QNWPREFCFG="lte_band",{value}"#.to_string()),
                query_nsa_bands: Some(r#"AT+QNWPREFCFG="nsa_nr5g_band""#.to_string()),
                set_nsa_bands: Some(r#"AT+QNWPREFCFG="nsa_nr5g_band",{value}"#.to_string()),
                query_sa_bands: Some(r#"AT+QNWPREFCFG="nr5g_band""#.to_string()),
                set_sa_bands: Some(r#"AT+QNWPREFCFG="nr5g_band",{value}"#.to_string()),
                query_nrdc_bands: Some(r#"AT+QNWPREFCFG="nrdc_nr5g_band""#.to_string()),
                set_nrdc_bands: Some(r#"AT+QNWPREFCFG="nrdc_nr5g_band",{value}"#.to_string()),
                query_nrdc_mode: Some(r#"AT+QNWPREFCFG="nrdc_mode""#.to_string()),
                set_nrdc_mode: Some(r#"AT+QNWPREFCFG="nrdc_mode",{value}"#.to_string()),
                query_all_bands: None,
                set_all_bands: None,
                restore_bands: Some(r#"AT+QNWPREFCFG="restore_band""#.to_string()),
            },
            modes: vec![
                NetworkModeOption {
                    id: "auto".to_string(),
                    label: "Auto".to_string(),
                    mode_value: "AUTO".to_string(),
                    nr5g_disable_value: Some(0),
                    active_sections: BandSections { lte: true, nsa: true, sa: true },
                },
                NetworkModeOption {
                    id: "lte".to_string(),
                    label: "LTE".to_string(),
                    mode_value: "LTE".to_string(),
                    nr5g_disable_value: Some(2),
                    active_sections: BandSections { lte: true, nsa: false, sa: false },
                },
                NetworkModeOption {
                    id: "5g_sa".to_string(),
                    label: "5G SA".to_string(),
                    mode_value: "NR5G".to_string(),
                    nr5g_disable_value: Some(2),
                    active_sections: BandSections { lte: false, nsa: false, sa: true },
                },
                NetworkModeOption {
                    id: "5g_nsa".to_string(),
                    label: "5G NSA".to_string(),
                    mode_value: "LTE:NR5G".to_string(),
                    nr5g_disable_value: Some(1),
                    active_sections: BandSections { lte: true, nsa: true, sa: false },
                },
                NetworkModeOption {
                    id: "auto_no_nsa".to_string(),
                    label: "Auto (no NSA)".to_string(),
                    mode_value: "AUTO".to_string(),
                    nr5g_disable_value: Some(2),
                    active_sections: BandSections { lte: true, nsa: false, sa: true },
                },
                NetworkModeOption {
                    id: "auto_no_sa".to_string(),
                    label: "Auto (no SA)".to_string(),
                    mode_value: "AUTO".to_string(),
                    nr5g_disable_value: Some(1),
                    active_sections: BandSections { lte: true, nsa: true, sa: false },
                },
            ],
            lte_bands: vec![
                1, 2, 3, 4, 5, 7, 8, 12, 13, 14, 17, 18, 19, 20, 25, 26, 28,
                29, 30, 32, 34, 38, 39, 40, 41, 42, 43, 46, 48, 53, 66, 70, 71,
            ],
            nsa_nr5g_bands: vec![
                1, 2, 3, 5, 7, 8, 12, 13, 14, 18, 20, 25, 26, 28, 29, 30, 38,
                40, 41, 48, 53, 66, 70, 71, 75, 76, 77, 78, 79, 92, 94,
                257, 258, 260, 261,
            ],
            sa_nr5g_bands: vec![
                1, 2, 3, 5, 7, 8, 12, 13, 14, 18, 20, 25, 26, 28, 29, 30, 38,
                40, 41, 48, 53, 66, 70, 71, 75, 76, 77, 78, 79, 91, 92, 93, 94,
                257, 258, 260, 261,
            ],
            nrdc_nr5g_bands: vec![
                1, 2, 3, 5, 7, 8, 12, 13, 14, 18, 20, 25, 26, 28, 29, 30, 38,
                40, 41, 48, 53, 66, 70, 71, 75, 76, 77, 78, 79, 91, 92, 93, 94,
                257, 258, 260, 261,
            ],
            reboot_on_band_change: false,
            band_separator: ":".to_string(),
            band_command_variant: "per_type".to_string(),
        },
        mbn_config: MbnConfig {
            supported: true,
            commands: MbnCommands {
                list_profiles: Some(r#"AT+QMBNCFG="List""#.to_string()),
                query_auto_select: Some(r#"AT+QMBNCFG="AutoSel""#.to_string()),
                set_auto_select: Some(r#"AT+QMBNCFG="AutoSel",{value}"#.to_string()),
                query_selected: Some(r#"AT+QMBNCFG="Select""#.to_string()),
                select_profile: Some(r#"AT+QMBNCFG="Select","{value}""#.to_string()),
                deactivate: Some(r#"AT+QMBNCFG="Deactivate""#.to_string()),
            },
            reboot_recommended: true,
        },
        apn_apply_config: ApnApplyConfig {
            supported: true,
            steps: vec![
                ApnApplyStep {
                    label: "Deactivate MBN".to_string(),
                    command: r#"AT+QMBNCFG="Deactivate""#.to_string(),
                    requires_mbn: true,
                    timeout_secs: 10,
                },
                ApnApplyStep {
                    label: "Select MBN profile".to_string(),
                    command: r#"AT+QMBNCFG="Select","{mbn_profile}""#.to_string(),
                    requires_mbn: true,
                    timeout_secs: 10,
                },
                ApnApplyStep {
                    label: "Set APN on PDP context".to_string(),
                    command: r#"AT+CGDCONT={cid},"{ip_type}","{apn}""#.to_string(),
                    requires_mbn: false,
                    timeout_secs: 10,
                },
                ApnApplyStep {
                    label: "Disable MBN AutoSelect".to_string(),
                    command: r#"AT+QMBNCFG="AutoSel",0"#.to_string(),
                    requires_mbn: true,
                    timeout_secs: 10,
                },
            ],
            always_reboot: true,
            pre_reboot_delay_ms: 500,
        },
        apn_live_config: ApnLiveConfig {
            query: Some("AT+QICSGP={cid}".to_string()),
            write: Some(
                r#"AT+QICSGP={cid},{context_type},"{apn}","{username}","{password}",{auth}"#.to_string(),
            ),
        },
        dual_sim_config: DualSimConfig {
            supported: true,
            slot_count: 2,
            query_slot_cmd: Some("AT+QUIMSLOT?".to_string()),
            query_slot_regex: Some(r"\+QU?IMSLOT:\s*(\d+)".to_string()),
            set_slot_cmd: Some("AT+QUIMSLOT={slot}".to_string()),
            sim_init_cmd: Some("AT+QINISTAT".to_string()),
            sim_init_regex: Some(r"\+QINISTAT:\s*(\d+)".to_string()),
            sim_init_complete_value: 7,
            sim_init_timeout_secs: 30,
        },
        ca_config: CarrierAggregationConfig {
            supported: true,
            ca_info_cmd: Some("AT+QCAINFO".to_string()),
            lte_scc_regex: Some(
                r#"\+QCAINFO:\s*"(PCC|SCC)",(\d+),(\d+),"(LTE[^"]*)",\d+,(\d+),(-?\d+),(-?\d+),(-?\d+),(-?\d+)"#.to_string()
            ),
            nr5g_scc_regex: Some(
                r#"\+QCAINFO:\s*"(PCC|SCC)",(\d+),(\d+),"(NR5G[^"]*)"(?:,(.+))?"#.to_string()
            ),
            network_type_cmd: Some("AT+QNWINFO".to_string()),
            network_type_regex: Some(
                r#"\+QNWINFO:\s*"([^"]*)""#.to_string()
            ),
            band_prefix_mappings: vec![
                BandPrefixMapping { prefix: "LTE BAND ".to_string(), replacement: "B".to_string() },
                BandPrefixMapping { prefix: "NR5G BAND ".to_string(), replacement: "n".to_string() },
            ],
            ca_parser_variant: "qcainfo".to_string(),
        },
        firmware_config: FirmwareVersionConfig {
            firmware_cmd: Some("AT+QGMR".to_string()),
            firmware_regex: None,
        },
        gps_config: GpsConfig {
            supported: true,
            start_cmd: Some("AT+QGPS=1".to_string()),
            start_already_running_codes: vec![504],
            query_cmd: Some("AT+QGPSLOC=2".to_string()),
            no_fix_error_codes: vec![516],
            query_regex: Some(
                r"\+QGPSLOC:\s*(?P<time>\d+\.\d+),(?P<lat>[+-]?\d+\.\d+),(?P<lon>[+-]?\d+\.\d+),[^,]*,(?P<alt>[+-]?\d+\.?\d*),(?P<fix>\d),[^,]*,(?P<speed>\d+\.?\d*),[^,]*,(?P<date>\d+),(?P<satellites>\d+)".to_string()
            ),
            stop_cmd: Some("AT+QGPSEND".to_string()),
            stop_already_stopped_codes: vec![505],
            start_tolerates_bare_error: false,
            coordinate_format: GpsCoordinateFormat::Decimal,
        },
        antenna_metrics_config: AntennaMetricsConfig {
            supported: true,
            rsrp_cmd: Some("AT+QRSRP".to_string()),
            sinr_cmd: Some("AT+QSINR".to_string()),
            rsrq_cmd: Some("AT+QRSRQ".to_string()),
            sentinel_value: -32768,
            rsrp_min: -140, rsrp_max: -44,
            rsrq_min: -20, rsrq_max: 0,
            sinr_min: -23, sinr_max: 40,
            interleaved_rsrp_rsrq: false,
        },
        signal_parse_config: SignalParseConfig {
            variants: vec![
                SignalFormatVariant {
                    label: "NR5G-NSA 3-line".to_string(),
                    requires_substring: "NR5G-NSA".to_string(),
                    regex: r#"\+QENG:\s*"LTE","[^"]*",\d+,\d+,(?P<cellid>[0-9A-Fa-f]+),\d+,\d+,(?P<band>\d+),\d+,\d+,[0-9A-Fa-f]+,(?P<rsrp>-?\d+),(?P<rsrq>-?\d+),(?P<rssi>-?\d+),(?P<sinr>-?\d+)"#.to_string(),
                    band_prefix: "B".to_string(),
                    technology: "4G".to_string(),
                },
                SignalFormatVariant {
                    label: "LTE single-line".to_string(),
                    requires_substring: String::new(),
                    regex: r#"\+QENG:\s*"servingcell","[^"]*","LTE","[^"]*",\d+,\d+,(?P<cellid>[0-9A-Fa-f]+),\d+,(?P<earfcn>\d+),(?P<band>\d+),\d+,\d+,[0-9A-Fa-f]+,(?P<rsrp>-?\d+),(?P<rsrq>-?\d+),(?P<rssi>-?\d+),(?P<sinr>-?\d+)"#.to_string(),
                    band_prefix: "B".to_string(),
                    technology: "4G".to_string(),
                },
                SignalFormatVariant {
                    label: "LTE 2-line".to_string(),
                    requires_substring: String::new(),
                    regex: r#"\+QENG:\s*"LTE","[^"]*",\d+,\d+,(?P<cellid>[0-9A-Fa-f]+),\d+,(?P<earfcn>\d+),(?P<band>\d+),\d+,\d+,[0-9A-Fa-f]+,(?P<rsrp>-?\d+),(?P<rsrq>-?\d+),(?P<rssi>-?\d+),(?P<sinr>-?\d+)"#.to_string(),
                    band_prefix: "B".to_string(),
                    technology: "4G".to_string(),
                },
                SignalFormatVariant {
                    label: "NR5G-SA single-line".to_string(),
                    requires_substring: "NR5G-SA".to_string(),
                    regex: r#"\+QENG:\s*"servingcell","[^"]*","NR5G-SA","[^"]*",\d+,\d+,(?P<cellid>[0-9A-Fa-f]+),[0-9A-Fa-f]+,(?:[0-9A-Fa-f]+,)*(?P<band>\d+),\d+,(?P<rsrp>-?\d+),(?P<rsrq>-?\d+),(?P<sinr>-?\d+)"#.to_string(),
                    band_prefix: "n".to_string(),
                    technology: "5G".to_string(),
                },
            ],
        },
        notes: Some(
            "Primary target hardware. AT port is ttyUSB2. Uses QMI for data, AT for control.".to_string(),
        ),
        restart_command: "AT+CFUN=1,1".to_string(),
        usbnet_detect: UsbNetDetectConfig {
            query_cmd: Some(r#"AT+QCFG="usbnet""#.to_string()),
            parser: Some("quectel_qcfg_usbnet".to_string()),
        },
    }
}

/// Quectel RM520N-GL — 5G Sub-6 module.
///
/// Nearly identical to RM551E-GL in AT command support. Same Quectel AT+Q*
/// family: QENG, QRSRP, QSINR, QRSRQ, QCAINFO, QNWINFO, QNWPREFCFG,
/// QMBNCFG, QGPS, QGPSLOC, QGPSEND, QSPN, QCCID, QTEMP.
/// AT port on ttyUSB2 (USB interface 2, Quectel convention).
/// Differences from RM551E: different LTE/NR band lists, PID 0801.
pub fn quectel_rm520n_gl() -> (p: ModemProfile)
    ensures
        rm520n_gl_profile(p),
        has_identity(p, "2c7c"@, "0801"@, "Quectel"@, "RM520N-GL"@),
        !is_generic_identity(p.identity),
        has_qicsgp_live_apn(p),
        p.restart_command@ == "AT+CFUN=1,1"@,
        p.usbnet_detect.parser matches Some(s) && s@ == "quectel_qcfg_usbnet"@,
        p.port_mapping.at_interface_preference@ == seq![2u32, 3],
        at_ports(p) == seq!["ttyUSB2"@, "ttyUSB3"@],
        p.port_mapping.baud_rate == 115200,
        strings_view(p.at_whitelist_additions.safe_commands@) == seq![r#"AT+QENG="servingcell""#@, r#"AT+QENG="neighbourcell""#@, "AT+QNWINFO"@, "AT+QCAINFO"@, "AT+QSPN"@, "AT+QTEMP"@, "AT+QRSRP"@, "AT+QSINR"@, "AT+QRSRQ"@, "AT+QCSQ"@, r#"AT+QNWCFG="lte_ambr""#@, r#"AT+QNWCFG="nr5g_ambr""#@, "AT+QGPSLOC=2"@, "AT+QGPS?"@, "AT+QGPSCFG?"@, "AT+QGMR"@, r#"AT+QMBNCFG="List""#@, r#"AT+QMBNCFG="AutoSel""#@, r#"AT+QMBNCFG="Select""#@, "AT+QUIMSLOT?"@, "AT+QINISTAT"@, "AT+QSIMSTAT?"@, "AT+QPINC"@, "AT+QICSGP=1"@, "AT+QICSGP=2"@, "AT+QICSGP=3"@, "AT+QICSGP=4"@, "AT+QICSGP=5"@, "AT+QICSGP=6"@, "AT+QICSGP=7"@, "AT+QICSGP=8"@],
        strings_view(p.at_whitelist_additions.confirmation_commands@) == seq!["AT+QPOWD"@, "AT+QGPS"@, "AT+QGPSEND"@, "AT+QGPSCFG"@, "AT+QNWPREFCFG"@, "AT+QMBNCFG"@, "AT+QUIMSLOT"@, "AT+QSIMSTAT"@, "AT+QICSGP"@],
        strings_view(p.at_whitelist_additions.blocked_prefixes@) == seq!["AT+QFASTBOOT"@, "AT+QDOWNLOAD"@, "AT+QPRTPARA"@, "AT+QNVW"@, "AT+QNVFW"@, "AT+QSIMDET"@, "AT$QCPWRDN"@, "AT$QCDMG"@],
        p.commands.signal_cmd matches Some(x) && x@ == r#"AT+QENG="servingcell""#@,
        p.commands.signal_parse_regex matches Some(x) && x@ == r#"\+QENG:\s*"servingcell","[^"]*","LTE","[^"]*",\d+,\d+,(?P<cellid>[0-9A-Fa-f]+),\d+,(?P<earfcn>\d+),(?P<band>\d+),\d+,\d+,[0-9A-Fa-f]+,(?P<rsrp>-?\d+),(?P<rsrq>-?\d+),(?P<rssi>-?\d+),(?P<sinr>-?\d+)"#@,
        p.commands.generic_signal_cmd@ == "AT+CSQ"@,
        p.commands.operator_name_cmd matches Some(x) && x@ == "AT+QSPN"@,
        p.commands.operator_name_regex matches Some(x) && x@ == r#"\+QSPN:\s*"([^"]*)""#@,
        p.commands.generic_operator_cmd@ == "AT+COPS?"@,
        p.commands.generic_operator_regex@ == r#"\+COPS:\s*\d+,\d+,"([^"]*)""#@,
        p.commands.iccid_cmd@ == "AT+QCCID"@,
        p.commands.iccid_regex matches Some(x) && x@ == r"\+QCCID:\s*([0-9A-Fa-f]+)"@,
        p.commands.registration_cmd@ == "AT+CEREG?"@,
        p.usbnet_detect.query_cmd matches Some(x) && x@ == r#"AT+QCFG="usbnet""#@,
{
    proof {
        reveal_strlit("2c7c");
        reveal_strlit("0000");
        assert("2c7c"@[0] != "0000"@[0]);
    }
    ModemProfile {
        identity: ModemIdentity {
            vendor_id: "2c7c".to_string(),
            product_id: "0801".to_string(),
            manufacturer: "Quectel".to_string(),
            model: "RM520N-GL".to_string(),
            model_variants: vec!["RM520N-GL".to_string(), "RM520N".to_string()],
        },
        commands: AtCommandSet {
            signal_cmd: Some(r#"AT+QENG="servingcell""#.to_string()),
            signal_parse_regex: Some(
                r#"\+QENG:\s*"servingcell","[^"]*","LTE","[^"]*",\d+,\d+,(?P<cellid>[0-9A-Fa-f]+),\d+,(?P<earfcn>\d+),(?P<band>\d+),\d+,\d+,[0-9A-Fa-f]+,(?P<rsrp>-?\d+),(?P<rsrq>-?\d+),(?P<rssi>-?\d+),(?P<sinr>-?\d+)"#.to_string()
            ),
            generic_signal_cmd: "AT+CSQ".to_string(),
            operator_name_cmd: Some("AT+QSPN".to_string()),
            operator_name_regex: Some(r#"\+QSPN:\s*"([^"]*)""#.to_string()),
            generic_operator_cmd: "AT+COPS?".to_string(),
            generic_operator_regex: r#"\+COPS:\s*\d+,\d+,"([^"]*)""#.to_string(),
            iccid_cmd: "AT+QCCID".to_string(),
            iccid_regex: Some(r"\+QCCID:\s*([0-9A-Fa-f]+)".to_string()),
            registration_cmd: "AT+CEREG?".to_string(),
        },
        port_mapping: PortMapping {
            at_port_preference: vec!["ttyUSB2".to_string(), "ttyUSB3".to_string()],
            at_interface_preference: vec![2, 3],
            baud_rate: 115200,
        },
        capabilities: ModemCapabilities {
            supports_5g: true,
            supports_carrier_aggregation: true,
            supported_technologies: vec![
                "2G".to_string(), "3G".to_string(), "4G".to_string(), "5G".to_string(),
            ],
            max_supported_bands: vec![
                "B1".to_string(), "B2".to_string(), "B3".to_string(), "B4".to_string(), "B5".to_string(),
                "B7".to_string(), "B8".to_string(), "B12".to_string(), "B13".to_string(), "B14".to_string(),
                "B17".to_string(), "B18".to_string(), "B19".to_string(), "B20".to_string(), "B25".to_string(),
                "B26".to_string(), "B28".to_string(), "B29".to_string(), "B30".to_string(), "B32".to_string(),
                "B34".to_string(), "B38".to_string(), "B39".to_string(), "B40".to_string(), "B41".to_string(),
                "B42".to_string(), "B43".to_string(), "B46".to_string(), "B48".to_string(), "B66".to_string(),
                "B71".to_string(),
                "n1".to_string(), "n2".to_string(), "n3".to_string(), "n5".to_string(), "n7".to_string(),
                "n8".to_string(), "n12".to_string(), "n13".to_string(), "n14".to_string(), "n18".to_string(),
                "n20".to_string(), "n25".to_string(), "n26".to_string(), "n28".to_string(), "n29".to_string(),
                "n30".to_string(), "n38".to_string(), "n40".to_string(), "n48".to_string(), "n66".to_string(),
                "n70".to_string(), "n71".to_string(), "n75".to_string(), "n76".to_string(), "n77".to_string(),
                "n78".to_string(), "n79".to_string(),
            ],
            supported_protocols: vec!["qmi".to_string(), "at".to_string(), "mbim".to_string()],
            has_temperature_sensor: true,
            has_gps: true,
        },
        at_whitelist_additions: ProfileAtWhitelist {
            safe_commands: vec![
                r#"AT+QENG="servingcell""#.to_string(),
                r#"AT+QENG="neighbourcell""#.to_string(),
                "AT+QNWINFO".to_string(),
                "AT+QCAINFO".to_string(),
                "AT+QSPN".to_string(),
                "AT+QTEMP".to_string(),
                "AT+QRSRP".to_string(),
                "AT+QSINR".to_string(),
                "AT+QRSRQ".to_string(),
                "AT+QCSQ".to_string(),
                r#"AT+QNWCFG="lte_ambr""#.to_string(),
                r#"AT+QNWCFG="nr5g_ambr""#.to_string(),
                "AT+QGPSLOC=2".to_string(),
                "AT+QGPS?".to_string(),
                "AT+QGPSCFG?".to_string(),
                "AT+QGMR".to_string(),
                r#"AT+QMBNCFG="List""#.to_string(),
                r#"AT+QMBNCFG="AutoSel""#.to_string(),
                r#"AT+QMBNCFG="Select""#.to_string(),
                "AT+QUIMSLOT?".to_string(),
                "AT+QINISTAT".to_string(),
                "AT+QSIMSTAT?".to_string(),
                "AT+QPINC".to_string(),
                "AT+QICSGP=1".to_string(),
                "AT+QICSGP=2".to_string(),
                "AT+QICSGP=3".to_string(),
                "AT+QICSGP=4".to_string(),
                "AT+QICSGP=5".to_string(),
                "AT+QICSGP=6".to_string(),
                "AT+QICSGP=7".to_string(),
                "AT+QICSGP=8".to_string(),
            ],
            confirmation_commands: vec![
                "AT+QPOWD".to_string(),
                "AT+QGPS".to_string(),
                "AT+QGPSEND".to_string(),
                "AT+QGPSCFG".to_string(),
                "AT+QNWPREFCFG".to_string(),
                "AT+QMBNCFG".to_string(),
                "AT+QUIMSLOT".to_string(),
                "AT+QSIMSTAT".to_string(),
                "AT+QICSGP".to_string(),
            ],
            blocked_prefixes: vec![
                "AT+QFASTBOOT".to_string(),
                "AT+QDOWNLOAD".to_string(),
                "AT+QPRTPARA".to_string(),
                "AT+QNVW".to_string(),
                "AT+QNVFW".to_string(),
                "AT+QSIMDET".to_string(),
                "AT$QCPWRDN".to_string(),
                "AT$QCDMG".to_string(),
            ],
        },
        whitelist_label: Some("RM520N".to_string()),
        band_mode_config: BandModeConfig {
            supported: true,
            commands: BandModeCommands {
                query_mode: Some(r#"AT+QNWPREFCFG="mode_pref""#.to_string()),
                set_mode: Some(r#"AT+QNWPREFCFG="mode_pref",{value}"#.to_string()),
                query_nr5g_disable: Some(r#"AT+QNWPREFCFG="nr5g_disable_mode""#.to_string()),
                set_nr5g_disable: Some(r#"AT+QNWPREFCFG="nr5g_disable_mode",{value}"#.to_string()),
                query_lte_bands: Some(r#"AT+QNWPREFCFG="lte_band""#.to_string()),
                set_lte_bands: Some(r#"AT+QNWPREFCFG="lte_band",{value}"#.to_string()),
                query_nsa_bands: Some(r#"AT+QNWPREFCFG="nsa_nr5g_band""#.to_string()),
                set_nsa_bands: Some(r#"AT+QNWPREFCFG="nsa_nr5g_band",{value}"#.to_string()),
                query_sa_bands: Some(r#"AT+QNWPREFCFG="nr5g_band""#.to_string()),
                set_sa_bands: Some(r#"AT+QNWPREFCFG="nr5g_band",{value}"#.to_string()),
                query_nrdc_bands: Some(r#"AT+QNWPREFCFG="nrdc_nr5g_band""#.to_string()),
                set_nrdc_bands: Some(r#"AT+QNWPREFCFG="nrdc_nr5g_band",{value}"#.to_string()),
                query_nrdc_mode: Some(r#"AT+QNWPREFCFG="nrdc_mode""#.to_string()),
                set_nrdc_mode: Some(r#"AT+QNWPREFCFG="nrdc_mode",{value}"#.to_string()),
                query_all_bands: None,
                set_all_bands: None,
                restore_bands: Some(r#"AT+QNWPREFCFG="restore_band""#.to_string()),
            },
            modes: vec![
                NetworkModeOption {
                    id: "auto".to_string(),
                    label: "Auto".to_string(),
                    mode_value: "AUTO".to_string(),
                    nr5g_disable_value: Some(0),
                    active_sections: BandSections { lte: true, nsa: true, sa: true },
                },
                NetworkModeOption {
                    id: "lte".to_string(),
                    label: "LTE".to_string(),
                    mode_value: "LTE".to_string(),
                    nr5g_disable_value: Some(2),
                    active_sections: BandSections { lte: true, nsa: false, sa: false },
                },
                NetworkModeOption {
                    id: "5g_sa".to_string(),
                    label: "5G SA".to_string(),
                    mode_value: "NR5G".to_string(),
                    nr5g_disable_value: Some(2),
                    active_sections: BandSections { lte: false, nsa: false, sa: true },
                },
                NetworkModeOption {
                    id: "5g_nsa".to_string(),
                    label: "5G NSA".to_string(),
                    mode_value: "LTE:NR5G".to_string(),
                    nr5g_disable_value: Some(1),
                    active_sections: BandSections { lte: true, nsa: true, sa: false },
                },
                NetworkModeOption {
                    id: "auto_no_nsa".to_string(),
                    label: "Auto (no NSA)".to_string(),
                    mode_value: "AUTO".to_string(),
                    nr5g_disable_value: Some(2),
                    active_sections: BandSections { lte: true, nsa: false, sa: true },
                },
                NetworkModeOption {
                    id: "auto_no_sa".to_string(),
                    label: "Auto (no SA)".to_string(),
                    mode_value: "AUTO".to_string(),
                    nr5g_disable_value: Some(1),
                    active_sections: BandSections { lte: true, nsa: true, sa: false },
                },
            ],
            lte_bands: vec![
                1, 2, 3, 4, 5, 7, 8, 12, 13, 14, 17, 18, 19, 20, 25, 26, 28,
                29, 30, 32, 34, 38, 39, 40, 41, 42, 43, 46, 48, 66, 71,
            ],
            nsa_nr5g_bands: vec![
                1, 2, 3, 5, 7, 8, 12, 13, 14, 18, 20, 25, 26, 28, 29, 30, 38,
                40, 48, 66, 70, 71, 75, 76, 77, 78, 79,
            ],
            sa_nr5g_bands: vec![
                1, 2, 3, 5, 7, 8, 12, 13, 14, 18, 20, 25, 26, 28, 29, 30, 38,
                40, 48, 66, 70, 71, 75, 76, 77, 78, 79,
            ],
            nrdc_nr5g_bands: vec![
                1, 2, 3, 5, 7, 8, 12, 13, 14, 18, 20, 25, 26, 28, 29, 30, 34,
                38, 39, 40, 41, 46, 48, 50, 51, 53, 65, 66, 70, 71, 74, 75, 76,
                77, 78, 79, 80, 81, 82, 83, 84, 85, 86, 91, 92, 93, 94,
                257, 258, 259, 260, 261,
            ],
            reboot_on_band_change: false,
            band_separator: ":".to_string(),
            band_command_variant: "per_type".to_string(),
        },
        mbn_config: MbnConfig {
            supported: true,
            commands: MbnCommands {
                list_profiles: Some(r#"AT+QMBNCFG="List""#.to_string()),
                query_auto_select: Some(r#"AT+QMBNCFG="AutoSel""#.to_string()),
                set_auto_select: Some(r#"AT+QMBNCFG="AutoSel",{value}"#.to_string()),
                query_selected: Some(r#"AT+QMBNCFG="Select""#.to_string()),
                select_profile: Some(r#"AT+QMBNCFG="Select","{value}""#.to_string()),
                deactivate: Some(r#"AT+QMBNCFG="Deactivate""#.to_string()),
            },
            reboot_recommended: true,
        },
        apn_apply_config: ApnApplyConfig {
            supported: true,
            steps: vec![
                ApnApplyStep {
                    label: "Deactivate MBN".to_string(),
                    command: r#"AT+QMBNCFG="Deactivate""#.to_string(),
                    requires_mbn: true,
                    timeout_secs: 10,
                },
                ApnApplyStep {
                    label: "Select MBN profile".to_string(),
                    command: r#"AT+QMBNCFG="Select","{mbn_profile}""#.to_string(),
                    requires_mbn: true,
                    timeout_secs: 10,
                },
                ApnApplyStep {
                    label: "Set APN on PDP context".to_string(),
                    command: r#"AT+CGDCONT={cid},"{ip_type}","{apn}""#.to_string(),
                    requires_mbn: false,
                    timeout_secs: 10,
                },
                ApnApplyStep {
                    label: "Disable MBN AutoSelect".to_string(),
                    command: r#"AT+QMBNCFG="AutoSel",0"#.to_string(),
                    requires_mbn: true,
                    timeout_secs: 10,
                },
            ],
            always_reboot: true,
            pre_reboot_delay_ms: 500,
        },
        apn_live_config: ApnLiveConfig {
            query: Some("AT+QICSGP={cid}".to_string()),
            write: Some(
                r#"AT+QICSGP={cid},{context_type},"{apn}","{username}","{password}",{auth}"#.to_string(),
            ),
        },
        dual_sim_config: DualSimConfig {
            supported: true,
            slot_count: 2,
            query_slot_cmd: Some("AT+QUIMSLOT?".to_string()),
            query_slot_regex: Some(r"\+QU?IMSLOT:\s*(\d+)".to_string()),
            set_slot_cmd: Some("AT+QUIMSLOT={slot}".to_string()),
            sim_init_cmd: Some("AT+QINISTAT".to_string()),
            sim_init_regex: Some(r"\+QINISTAT:\s*(\d+)".to_string()),
            sim_init_complete_value: 7,
            sim_init_timeout_secs: 30,
        },
        ca_config: CarrierAggregationConfig {
            supported: true,
            ca_info_cmd: Some("AT+QCAINFO".to_string()),
            lte_scc_regex: Some(
                r#"\+QCAINFO:\s*"(PCC|SCC)",(\d+),(\d+),"(LTE[^"]*)",\d+,(\d+),(-?\d+),(-?\d+),(-?\d+),(-?\d+)"#.to_string()
            ),
            nr5g_scc_regex: Some(
                r#"\+QCAINFO:\s*"(PCC|SCC)",(\d+),(\d+),"(NR5G[^"]*)"(?:,(.+))?"#.to_string()
            ),
            network_type_cmd: Some("AT+QNWINFO".to_string()),
            network_type_regex: Some(
                r#"\+QNWINFO:\s*"([^"]*)""#.to_string()
            ),
            band_prefix_mappings: vec![
                BandPrefixMapping { prefix: "LTE BAND ".to_string(), replacement: "B".to_string() },
                BandPrefixMapping { prefix: "NR5G BAND ".to_string(), replacement: "n".to_string() },
            ],
            ca_parser_variant: "qcainfo".to_string(),
        },
        firmware_config: FirmwareVersionConfig {
            firmware_cmd: Some("AT+QGMR".to_string()),
            firmware_regex: None,
        },
        gps_config: GpsConfig {
            supported: true,
            start_cmd: Some("AT+QGPS=1".to_string()),
            start_already_running_codes: vec![504],
            query_cmd: Some("AT+QGPSLOC=2".to_string()),
            no_fix_error_codes: vec![516],
            query_regex: Some(
                r"\+QGPSLOC:\s*(?P<time>\d+\.\d+),(?P<lat>[+-]?\d+\.\d+),(?P<lon>[+-]?\d+\.\d+),[^,]*,(?P<alt>[+-]?\d+\.?\d*),(?P<fix>\d),[^,]*,(?P<speed>\d+\.?\d*),[^,]*,(?P<date>\d+),(?P<satellites>\d+)".to_string()
            ),
            stop_cmd: Some("AT+QGPSEND".to_string()),
            stop_already_stopped_codes: vec![505],
            start_tolerates_bare_error: false,
            coordinate_format: GpsCoordinateFormat::Decimal,
        },
        antenna_metrics_config: AntennaMetricsConfig {
            supported: true,
            rsrp_cmd: Some("AT+QRSRP".to_string()),
            sinr_cmd: Some("AT+QSINR".to_string()),
            rsrq_cmd: Some("AT+QRSRQ".to_string()),
            sentinel_value: -32768,
            rsrp_min: -140, rsrp_max: -44,
            rsrq_min: -20, rsrq_max: 0,
            sinr_min: -23, sinr_max: 40,
            interleaved_rsrp_rsrq: false,
        },
        signal_parse_config: SignalParseConfig {
            variants: vec![
                SignalFormatVariant {
                    label: "NR5G-NSA 3-line".to_string(),
                    requires_substring: "NR5G-NSA".to_string(),
                    regex: r#"\+QENG:\s*"LTE","[^"]*",\d+,\d+,(?P<cellid>[0-9A-Fa-f]+),\d+,\d+,(?P<band>\d+),\d+,\d+,[0-9A-Fa-f]+,(?P<rsrp>-?\d+),(?P<rsrq>-?\d+),(?P<rssi>-?\d+),(?P<sinr>-?\d+)"#.to_string(),
                    band_prefix: "B".to_string(),
                    technology: "4G".to_string(),
                },
                SignalFormatVariant {
                    label: "LTE single-line".to_string(),
                    requires_substring: String::new(),
                    regex: r#"\+QENG:\s*"servingcell","[^"]*","LTE","[^"]*",\d+,\d+,(?P<cellid>[0-9A-Fa-f]+),\d+,(?P<earfcn>\d+),(?P<band>\d+),\d+,\d+,[0-9A-Fa-f]+,(?P<rsrp>-?\d+),(?P<rsrq>-?\d+),(?P<rssi>-?\d+),(?P<sinr>-?\d+)"#.to_string(),
                    band_prefix: "B".to_string(),
                    technology: "4G".to_string(),
                },
                SignalFormatVariant {
                    label: "LTE 2-line".to_string(),
                    requires_substring: String::new(),
                    regex: r#"\+QENG:\s*"LTE","[^"]*",\d+,\d+,(?P<cellid>[0-9A-Fa-f]+),\d+,(?P<earfcn>\d+),(?P<band>\d+),\d+,\d+,[0-9A-Fa-f]+,(?P<rsrp>-?\d+),(?P<rsrq>-?\d+),(?P<rssi>-?\d+),(?P<sinr>-?\d+)"#.to_string(),
                    band_prefix: "B".to_string(),
                    technology: "4G".to_string(),
                },
                SignalFormatVariant {
                    label: "NR5G-SA single-line".to_string(),
                    requires_substring: "NR5G-SA".to_string(),
                    regex: r#"\+QENG:\s*"servingcell","[^"]*","NR5G-SA","[^"]*",\d+,\d+,(?P<cellid>[0-9A-Fa-f]+),[0-9A-Fa-f]+,(?:[0-9A-Fa-f]+,)*(?P<band>\d+),\d+,(?P<rsrp>-?\d+),(?P<rsrq>-?\d+),(?P<sinr>-?\d+)"#.to_string(),
                    band_prefix: "n".to_string(),
                    technology: "5G".to_string(),
                },
            ],
        },
        notes: Some(
            "Quectel RM520N-GL 5G Sub-6 module. Same AT command family as RM551E-GL. AT port is ttyUSB2.".to_string(),
        ),
        restart_command: "AT+CFUN=1,1".to_string(),
        usbnet_detect: UsbNetDetectConfig {
            query_cmd: Some(r#"AT+QCFG="usbnet""#.to_string()),
            parser: Some("quectel_qcfg_usbnet".to_string()),
        },
    }
}

/// Quectel RM500Q-GL — 5G Sub-6 module (also covers RM500Q-AE variant).
///
/// Same Quectel AT command family as the RM551E-GL, but:
/// - No AT+QSINR or AT+QRSRQ (antenna metrics limited to RSRP only)
/// - No NRDC band support (sub-6 only, no mmWave)
/// - Different LTE/NR band lists
/// - AT port on ttyUSB2 (USB interface 2, Quectel convention).
pub fn quectel_rm500q_gl() -> (p: ModemProfile)
    ensures
        rm500q_gl_profile(p),
        has_identity(p, "2c7c"@, "0800"@, "Quectel"@, "RM500Q-GL"@),
        !is_generic_identity(p.identity),
        has_qicsgp_live_apn(p),
        p.restart_command@ == "AT+CFUN=1,1"@,
        p.usbnet_detect.parser matches Some(s) && s@ == "quectel_qcfg_usbnet"@,
        p.port_mapping.at_interface_preference@ == seq![2u32, 3],
        at_ports(p) == seq!["ttyUSB2"@, "ttyUSB3"@],
        p.port_mapping.baud_rate == 115200,
        strings_view(p.at_whitelist_additions.safe_commands@) == seq![r#"AT+QENG="servingcell""#@, r#"AT+QENG="neighbourcell""#@, "AT+QNWINFO"@, "AT+QCAINFO"@, "AT+QSPN"@, "AT+QTEMP"@, "AT+QRSRP"@, "AT+QCSQ"@, r#"AT+QNWCFG="lte_ambr""#@, r#"AT+QNWCFG="nr5g_ambr""#@, "AT+QGPSLOC=2"@, "AT+QGPS?"@, "AT+QGPSCFG?"@, "AT+QGMR"@, r#"AT+QMBNCFG="List""#@, r#"AT+QMBNCFG="AutoSel""#@, r#"AT+QMBNCFG="Select""#@, "AT+QUIMSLOT?"@, "AT+QINISTAT"@, "AT+QSIMSTAT?"@, "AT+QPINC"@, "AT+QICSGP=1"@, "AT+QICSGP=2"@, "AT+QICSGP=3"@, "AT+QICSGP=4"@, "AT+QICSGP=5"@, "AT+QICSGP=6"@, "AT+QICSGP=7"@, "AT+QICSGP=8"@],
        strings_view(p.at_whitelist_additions.confirmation_commands@) == seq!["AT+QPOWD"@, "AT+QGPS"@, "AT+QGPSEND"@, "AT+QGPSCFG"@, "AT+QNWPREFCFG"@, "AT+QMBNCFG"@, "AT+QUIMSLOT"@, "AT+QSIMSTAT"@, "AT+QICSGP"@],
        strings_view(p.at_whitelist_additions.blocked_prefixes@) == seq!["AT+QFASTBOOT"@, "AT+QDOWNLOAD"@, "AT+QPRTPARA"@, "AT+QNVW"@, "AT+QNVFW"@, "AT+QSIMDET"@, "AT$QCPWRDN"@, "AT$QCDMG"@],
        p.commands.signal_cmd matches Some(x) && x@ == r#"AT+QENG="servingcell""#@,
        p.commands.signal_parse_regex matches Some(x) && x@ == r#"\+QENG:\s*"servingcell","[^"]*","LTE","[^"]*",\d+,\d+,(?P<cellid>[0-9A-Fa-f]+),\d+,(?P<earfcn>\d+),(?P<band>\d+),\d+,\d+,[0-9A-Fa-f]+,(?P<rsrp>-?\d+),(?P<rsrq>-?\d+),(?P<rssi>-?\d+),(?P<sinr>-?\d+)"#@,
        p.commands.generic_signal_cmd@ == "AT+CSQ"@,
        p.commands.operator_name_cmd matches Some(x) && x@ == "AT+QSPN"@,
        p.commands.operator_name_regex matches Some(x) && x@ == r#"\+QSPN:\s*"([^"]*)""#@,
        p.commands.generic_operator_cmd@ == "AT+COPS?"@,
        p.commands.generic_operator_regex@ == r#"\+COPS:\s*\d+,\d+,"([^"]*)""#@,
        p.commands.iccid_cmd@ == "AT+QCCID"@,
        p.commands.iccid_regex matches Some(x) && x@ == r"\+QCCID:\s*([0-9A-Fa-f]+)"@,
        p.commands.registration_cmd@ == "AT+CEREG?"@,
        p.usbnet_detect.query_cmd matches Some(x) && x@ == r#"AT+QCFG="usbnet""#@,
{
    proof {
        reveal_strlit("2c7c");
        reveal_strlit("0000");
        assert("2c7c"@[0] != "0000"@[0]);
    }
    ModemProfile {
        identity: ModemIdentity {
            vendor_id: "2c7c".to_string(),
            product_id: "0800".to_string(),
            manufacturer: "Quectel".to_string(),
            model: "RM500Q-GL".to_string(),
            model_variants: vec!["RM500Q-GL".to_string(), "RM500Q-AE".to_string()],
        },
        commands: AtCommandSet {
            signal_cmd: Some(r#"AT+QENG="servingcell""#.to_string()),
            signal_parse_regex: Some(
                r#"\+QENG:\s*"servingcell","[^"]*","LTE","[^"]*",\d+,\d+,(?P<cellid>[0-9A-Fa-f]+),\d+,(?P<earfcn>\d+),(?P<band>\d+),\d+,\d+,[0-9A-Fa-f]+,(?P<rsrp>-?\d+),(?P<rsrq>-?\d+),(?P<rssi>-?\d+),(?P<sinr>-?\d+)"#.to_string()
            ),
            generic_signal_cmd: "AT+CSQ".to_string(),
            operator_name_cmd: Some("AT+QSPN".to_string()),
            operator_name_regex: Some(r#"\+QSPN:\s*"([^"]*)""#.to_string()),
            generic_operator_cmd: "AT+COPS?".to_string(),
            generic_operator_regex: r#"\+COPS:\s*\d+,\d+,"([^"]*)""#.to_string(),
            iccid_cmd: "AT+QCCID".to_string(),
            iccid_regex: Some(r"\+QCCID:\s*([0-9A-Fa-f]+)".to_string()),
            registration_cmd: "AT+CEREG?".to_string(),
        },
        port_mapping: PortMapping {
            at_port_preference: vec!["ttyUSB2".to_string(), "ttyUSB3".to_string()],
            at_interface_preference: vec![2, 3],
            baud_rate: 115200,
        },
        capabilities: ModemCapabilities {
            supports_5g: true,
            supports_carrier_aggregation: true,
            supported_technologies: vec![
                "2G".to_string(), "3G".to_string(), "4G".to_string(), "5G".to_string(),
            ],
            max_supported_bands: vec![
                "B1".to_string(), "B2".to_string(), "B3".to_string(), "B4".to_string(), "B5".to_string(),
                "B6".to_string(), "B7".to_string(), "B8".to_string(), "B9".to_string(), "B10".to_string(),
                "B11".to_string(), "B12".to_string(), "B13".to_string(), "B14".to_string(), "B17".to_string(),
                "B18".to_string(), "B19".to_string(), "B20".to_string(), "B21".to_string(), "B23".to_string(),
                "B24".to_string(), "B25".to_string(), "B26".to_string(), "B27".to_string(), "B28".to_string(),
                "B29".to_string(), "B30".to_string(), "B31".to_string(), "B32".to_string(), "B33".to_string(),
                "B34".to_string(), "B35".to_string(), "B36".to_string(), "B37".to_string(), "B38".to_string(),
                "B39".to_string(), "B40".to_string(), "B41".to_string(), "B42".to_string(), "B43".to_string(),
                "B46".to_string(), "B47".to_string(), "B48".to_string(), "B49".to_string(), "B66".to_string(),
                "B71".to_string(),
                "n1".to_string(), "n2".to_string(), "n3".to_string(), "n5".to_string(), "n7".to_string(),
                "n8".to_string(), "n12".to_string(), "n20".to_string(), "n25".to_string(), "n28".to_string(),
                "n38".to_string(), "n40".to_string(), "n41".to_string(), "n48".to_string(), "n66".to_string(),
                "n71".to_string(), "n77".to_string(), "n78".to_string(), "n79".to_string(),
            ],
            supported_protocols: vec!["qmi".to_string(), "at".to_string(), "mbim".to_string()],
            has_temperature_sensor: true,
            has_gps: true,
        },
        at_whitelist_additions: ProfileAtWhitelist {
            safe_commands: vec![
                r#"AT+QENG="servingcell""#.to_string(),
                r#"AT+QENG="neighbourcell""#.to_string(),
                "AT+QNWINFO".to_string(),
                "AT+QCAINFO".to_string(),
                "AT+QSPN".to_string(),
                "AT+QTEMP".to_string(),
                "AT+QRSRP".to_string(),
                "AT+QCSQ".to_string(),
                r#"AT+QNWCFG="lte_ambr""#.to_string(),
                r#"AT+QNWCFG="nr5g_ambr""#.to_string(),
                "AT+QGPSLOC=2".to_string(),
                "AT+QGPS?".to_string(),
                "AT+QGPSCFG?".to_string(),
                "AT+QGMR".to_string(),
                r#"AT+QMBNCFG="List""#.to_string(),
                r#"AT+QMBNCFG="AutoSel""#.to_string(),
                r#"AT+QMBNCFG="Select""#.to_string(),
                "AT+QUIMSLOT?".to_string(),
                "AT+QINISTAT".to_string(),
                "AT+QSIMSTAT?".to_string(),
                "AT+QPINC".to_string(),
                "AT+QICSGP=1".to_string(),
                "AT+QICSGP=2".to_string(),
                "AT+QICSGP=3".to_string(),
                "AT+QICSGP=4".to_string(),
                "AT+QICSGP=5".to_string(),
                "AT+QICSGP=6".to_string(),
                "AT+QICSGP=7".to_string(),
                "AT+QICSGP=8".to_string(),
            ],
            confirmation_commands: vec![
                "AT+QPOWD".to_string(),
                "AT+QGPS".to_string(),
                "AT+QGPSEND".to_string(),
                "AT+QGPSCFG".to_string(),
                "AT+QNWPREFCFG".to_string(),
                "AT+QMBNCFG".to_string(),
                "AT+QUIMSLOT".to_string(),
                "AT+QSIMSTAT".to_string(),
                "AT+QICSGP".to_string(),
            ],
            blocked_prefixes: vec![
                "AT+QFASTBOOT".to_string(),
                "AT+QDOWNLOAD".to_string(),
                "AT+QPRTPARA".to_string(),
                "AT+QNVW".to_string(),
                "AT+QNVFW".to_string(),
                "AT+QSIMDET".to_string(),
                "AT$QCPWRDN".to_string(),
                "AT$QCDMG".to_string(),
            ],
        },
        whitelist_label: Some("RM500Q".to_string()),
        band_mode_config: BandModeConfig {
            supported: true,
            commands: BandModeCommands {
                query_mode: Some(r#"AT+QNWPREFCFG="mode_pref""#.to_string()),
                set_mode: Some(r#"AT+QNWPREFCFG="mode_pref",{value}"#.to_string()),
                query_nr5g_disable: Some(r#"AT+QNWPREFCFG="nr5g_disable_mode""#.to_string()),
                set_nr5g_disable: Some(r#"AT+QNWPREFCFG="nr5g_disable_mode",{value}"#.to_string()),
                query_lte_bands: Some(r#"AT+QNWPREFCFG="lte_band""#.to_string()),
                set_lte_bands: Some(r#"AT+QNWPREFCFG="lte_band",{value}"#.to_string()),
                query_nsa_bands: Some(r#"AT+QNWPREFCFG="nsa_nr5g_band""#.to_string()),
                set_nsa_bands: Some(r#"AT+QNWPREFCFG="nsa_nr5g_band",{value}"#.to_string()),
                query_sa_bands: Some(r#"AT+QNWPREFCFG="nr5g_band""#.to_string()),
                set_sa_bands: Some(r#"AT+QNWPREFCFG="nr5g_band",{value}"#.to_string()),
                query_nrdc_bands: None,
                set_nrdc_bands: None,
                query_nrdc_mode: None,
                set_nrdc_mode: None,
                query_all_bands: None,
                set_all_bands: None,
                restore_bands: Some(r#"AT+QNWPREFCFG="restore_band""#.to_string()),
            },
            modes: vec![
                NetworkModeOption {
                    id: "auto".to_string(),
                    label: "Auto".to_string(),
                    mode_value: "AUTO".to_string(),
                    nr5g_disable_value: Some(0),
                    active_sections: BandSections { lte: true, nsa: true, sa: true },
                },
                NetworkModeOption {
                    id: "lte".to_string(),
                    label: "LTE".to_string(),
                    mode_value: "LTE".to_string(),
                    nr5g_disable_value: Some(2),
                    active_sections: BandSections { lte: true, nsa: false, sa: false },
                },
                NetworkModeOption {
                    id: "5g_sa".to_string(),
                    label: "5G SA".to_string(),
                    mode_value: "NR5G".to_string(),
                    nr5g_disable_value: Some(2),
                    active_sections: BandSections { lte: false, nsa: false, sa: true },
                },
                NetworkModeOption {
                    id: "5g_nsa".to_string(),
                    label: "5G NSA".to_string(),
                    mode_value: "LTE:NR5G".to_string(),
                    nr5g_disable_value: Some(1),
                    active_sections: BandSections { lte: true, nsa: true, sa: false },
                },
                NetworkModeOption {
                    id: "auto_no_nsa".to_string(),
                    label: "Auto (no NSA)".to_string(),
                    mode_value: "AUTO".to_string(),
                    nr5g_disable_value: Some(2),
                    active_sections: BandSections { lte: true, nsa: false, sa: true },
                },
                NetworkModeOption {
                    id: "auto_no_sa".to_string(),
                    label: "Auto (no SA)".to_string(),
                    mode_value: "AUTO".to_string(),
                    nr5g_disable_value: Some(1),
                    active_sections: BandSections { lte: true, nsa: true, sa: false },
                },
            ],
            lte_bands: vec![
                1, 2, 3, 4, 5, 6, 7, 8, 9, 10, 11, 12, 13, 14, 17, 18, 19, 20,
                21, 23, 24, 25, 26, 27, 28, 29, 30, 31, 32, 33, 34, 35, 36, 37,
                38, 39, 40, 41, 42, 43, 46, 47, 48, 49, 66, 71,
            ],
            nsa_nr5g_bands: vec![
                1, 2, 3, 5, 7, 8, 12, 20, 25, 28, 38, 40, 41, 48, 66, 71,
                77, 78, 79,
            ],
            sa_nr5g_bands: vec![
                1, 2, 3, 5, 7, 8, 12, 20, 25, 28, 38, 40, 41, 48, 66, 71,
                77, 78, 79,
            ],
            nrdc_nr5g_bands: Vec::new(),
            reboot_on_band_change: false,
            band_separator: ":".to_string(),
            band_command_variant: "per_type".to_string(),
        },
        mbn_config: MbnConfig {
            supported: true,
            commands: MbnCommands {
                list_profiles: Some(r#"AT+QMBNCFG="List""#.to_string()),
                query_auto_select: Some(r#"AT+QMBNCFG="AutoSel""#.to_string()),
                set_auto_select: Some(r#"AT+QMBNCFG="AutoSel",{value}"#.to_string()),
                query_selected: Some(r#"AT+QMBNCFG="Select""#.to_string()),
                select_profile: Some(r#"AT+QMBNCFG="Select","{value}""#.to_string()),
                deactivate: Some(r#"AT+QMBNCFG="Deactivate""#.to_string()),
            },
            reboot_recommended: true,
        },
        apn_apply_config: ApnApplyConfig {
            supported: true,
            steps: vec![
                ApnApplyStep {
                    label: "Deactivate MBN".to_string(),
                    command: r#"AT+QMBNCFG="Deactivate""#.to_string(),
                    requires_mbn: true,
                    timeout_secs: 10,
                },
                ApnApplyStep {
                    label: "Select MBN profile".to_string(),
                    command: r#"AT+QMBNCFG="Select","{mbn_profile}""#.to_string(),
                    requires_mbn: true,
                    timeout_secs: 10,
                },
                ApnApplyStep {
                    label: "Set APN on PDP context".to_string(),
                    command: r#"AT+CGDCONT={cid},"{ip_type}","{apn}""#.to_string(),
                    requires_mbn: false,
                    timeout_secs: 10,
                },
                ApnApplyStep {
                    label: "Disable MBN AutoSelect".to_string(),
                    command: r#"AT+QMBNCFG="AutoSel",0"#.to_string(),
                    requires_mbn: true,
                    timeout_secs: 10,
                },
            ],
            always_reboot: true,
            pre_reboot_delay_ms: 500,
        },
        apn_live_config: ApnLiveConfig {
            query: Some("AT+QICSGP={cid}".to_string()),
            write: Some(
                r#"AT+QICSGP={cid},{context_type},"{apn}","{username}","{password}",{auth}"#.to_string(),
            ),
        },
        dual_sim_config: DualSimConfig {
            supported: true,
            slot_count: 2,
            query_slot_cmd: Some("AT+QUIMSLOT?".to_string()),
            query_slot_regex: Some(r"\+QU?IMSLOT:\s*(\d+)".to_string()),
            set_slot_cmd: Some("AT+QUIMSLOT={slot}".to_string()),
            sim_init_cmd: Some("AT+QINISTAT".to_string()),
            sim_init_regex: Some(r"\+QINISTAT:\s*(\d+)".to_string()),
            sim_init_complete_value: 7,
            sim_init_timeout_secs: 30,
        },
        ca_config: CarrierAggregationConfig {
            supported: true,
            ca_info_cmd: Some("AT+QCAINFO".to_string()),
            lte_scc_regex: Some(
                r#"\+QCAINFO:\s*"(PCC|SCC)",(\d+),(\d+),"(LTE[^"]*)",\d+,(\d+),(-?\d+),(-?\d+),(-?\d+),(-?\d+)"#.to_string()
            ),
            nr5g_scc_regex: Some(
                r#"\+QCAINFO:\s*"(PCC|SCC)",(\d+),(\d+),"(NR5G[^"]*)"(?:,(.+))?"#.to_string()
            ),
            network_type_cmd: Some("AT+QNWINFO".to_string()),
            network_type_regex: Some(
                r#"\+QNWINFO:\s*"([^"]*)""#.to_string()
            ),
            band_prefix_mappings: vec![
                BandPrefixMapping { prefix: "LTE BAND ".to_string(), replacement: "B".to_string() },
                BandPrefixMapping { prefix: "NR5G BAND ".to_string(), replacement: "n".to_string() },
            ],
            ca_parser_variant: "qcainfo".to_string(),
        },
        firmware_config: FirmwareVersionConfig {
            firmware_cmd: Some("AT+QGMR".to_string()),
            firmware_regex: None,
        },
        gps_config: GpsConfig {
            supported: true,
            start_cmd: Some("AT+QGPS=1".to_string()),
            start_already_running_codes: vec![504],
            query_cmd: Some("AT+QGPSLOC=2".to_string()),
            no_fix_error_codes: vec![516],
            query_regex: Some(
                r"\+QGPSLOC:\s*(?P<time>\d+\.\d+),(?P<lat>[+-]?\d+\.\d+),(?P<lon>[+-]?\d+\.\d+),[^,]*,(?P<alt>[+-]?\d+\.?\d*),(?P<fix>\d),[^,]*,(?P<speed>\d+\.?\d*),[^,]*,(?P<date>\d+),(?P<satellites>\d+)".to_string()
            ),
            stop_cmd: Some("AT+QGPSEND".to_string()),
            stop_already_stopped_codes: vec![505],
            start_tolerates_bare_error: false,
            coordinate_format: GpsCoordinateFormat::Decimal,
        },
        antenna_metrics_config: AntennaMetricsConfig {
            supported: true,
            rsrp_cmd: Some("AT+QRSRP".to_string()),
            sinr_cmd: None,
            rsrq_cmd: None,
            sentinel_value: -32768,
            rsrp_min: -140, rsrp_max: -44,
            rsrq_min: -20, rsrq_max: 0,
            sinr_min: -23, sinr_max: 40,
            interleaved_rsrp_rsrq: false,
        },
        signal_parse_config: SignalParseConfig {
            variants: vec![
                SignalFormatVariant {
                    label: "NR5G-NSA 3-line".to_string(),
                    requires_substring: "NR5G-NSA".to_string(),
                    regex: r#"\+QENG:\s*"LTE","[^"]*",\d+,\d+,(?P<cellid>[0-9A-Fa-f]+),\d+,\d+,(?P<band>\d+),\d+,\d+,[0-9A-Fa-f]+,(?P<rsrp>-?\d+),(?P<rsrq>-?\d+),(?P<rssi>-?\d+),(?P<sinr>-?\d+)"#.to_string(),
                    band_prefix: "B".to_string(),
                    technology: "4G".to_string(),
                },
                SignalFormatVariant {
                    label: "LTE single-line".to_string(),
                    requires_substring: String::new(),
                    regex: r#"\+QENG:\s*"servingcell","[^"]*","LTE","[^"]*",\d+,\d+,(?P<cellid>[0-9A-Fa-f]+),\d+,(?P<earfcn>\d+),(?P<band>\d+),\d+,\d+,[0-9A-Fa-f]+,(?P<rsrp>-?\d+),(?P<rsrq>-?\d+),(?P<rssi>-?\d+),(?P<sinr>-?\d+)"#.to_string(),
                    band_prefix: "B".to_string(),
                    technology: "4G".to_string(),
                },
                SignalFormatVariant {
                    label: "LTE 2-line".to_string(),
                    requires_substring: String::new(),
                    regex: r#"\+QENG:\s*"LTE","[^"]*",\d+,\d+,(?P<cellid>[0-9A-Fa-f]+),\d+,(?P<earfcn>\d+),(?P<band>\d+),\d+,\d+,[0-9A-Fa-f]+,(?P<rsrp>-?\d+),(?P<rsrq>-?\d+),(?P<rssi>-?\d+),(?P<sinr>-?\d+)"#.to_string(),
                    band_prefix: "B".to_string(),
                    technology: "4G".to_string(),
                },
                SignalFormatVariant {
                    label: "NR5G-SA single-line".to_string(),
                    requires_substring: "NR5G-SA".to_string(),
                    regex: r#"\+QENG:\s*"servingcell","[^"]*","NR5G-SA","[^"]*",\d+,\d+,(?P<cellid>[0-9A-Fa-f]+),[0-9A-Fa-f]+,(?:[0-9A-Fa-f]+,)*(?P<band>\d+),\d+,(?P<rsrp>-?\d+),(?P<rsrq>-?\d+),(?P<sinr>-?\d+)"#.to_string(),
                    band_prefix: "n".to_string(),
                    technology: "5G".to_string(),
                },
            ],
        },
        notes: Some(
            "Quectel RM500Q-GL 5G Sub-6 module. Same AT family as RM551E but no QSINR/QRSRQ. AT port is ttyUSB2.".to_string(),
        ),
        restart_command: "AT+CFUN=1,1".to_string(),
        usbnet_detect: UsbNetDetectConfig {
            query_cmd: Some(r#"AT+QCFG="usbnet""#.to_string()),
            parser: Some("quectel_qcfg_usbnet".to_string()),
        },
    }
}

/// Telit FN990 — 5G Sub-6 module.
///
/// AT port on ttyUSB6 (bus-port 4-1.2 typically has 5 ports: ttyUSB4-8).
/// Uses standard 3GPP AT commands.
pub fn telit_fn990() -> (p: ModemProfile)
    ensures
        fn990_profile(p),
        has_identity(p, "1bc7"@, "1073"@, "Telit"@, "FN990"@),
        !is_generic_identity(p.identity),
        p.apn_live_config.query is None,
        p.apn_live_config.write is None,
        p.restart_command@ == "AT#REBOOT"@,
        p.usbnet_detect.parser matches Some(s) && s@ == "telit_usbcfg"@,
        p.port_mapping.at_interface_preference@ == seq![6u32, 5, 7, 8, 4],
        at_ports(p) == seq!["ttyUSB6"@, "ttyUSB5"@, "ttyUSB7"@, "ttyUSB8"@, "ttyUSB4"@],
        p.port_mapping.baud_rate == 115200,
        strings_view(p.at_whitelist_additions.safe_commands@) == seq!["AT#RFSTS"@, "AT+ICCID"@, "AT#LAPS"@, "AT#NRAPS"@, "AT#CAINFO?"@, "AT$GPSACP"@, "AT$GPSP?"@, "AT#BND?"@, "AT+WS46?"@],
        strings_view(p.at_whitelist_additions.confirmation_commands@) == seq!["AT$GPSP"@, "AT#BND"@, "AT+WS46"@],
        strings_view(p.at_whitelist_additions.blocked_prefixes@) == Seq::<Seq<char>>::empty(),
        p.commands.signal_cmd matches Some(x) && x@ == "AT#RFSTS"@,
        p.commands.signal_parse_regex is None,
        p.commands.generic_signal_cmd@ == "AT+CSQ"@,
        p.commands.operator_name_cmd is None,
        p.commands.operator_name_regex is None,
        p.commands.generic_operator_cmd@ == "AT+COPS?"@,
        p.commands.generic_operator_regex@ == r#"\+COPS:\s*\d+,\d+,"([^"]*)""#@,
        p.commands.iccid_cmd@ == "AT+ICCID"@,
        p.commands.iccid_regex matches Some(x) && x@ == r"\+ICCID:\s*(\d+)"@,
        p.commands.registration_cmd@ == "AT+CEREG?"@,
        p.usbnet_detect.query_cmd matches Some(x) && x@ == "AT#USBCFG?"@,
{
    proof {
        reveal_strlit("1bc7");
        reveal_strlit("0000");
        assert("1bc7"@[0] != "0000"@[0]);
    }
    ModemProfile {
        identity: ModemIdentity {
            vendor_id: "1bc7".to_string(),
            product_id: "1073".to_string(),
            manufacturer: "Telit".to_string(),
            model: "FN990".to_string(),
            model_variants: vec!["FN990A".to_string()],
        },
        commands: AtCommandSet {
            signal_cmd: Some("AT#RFSTS".to_string()),
            signal_parse_regex: None,
            generic_signal_cmd: "AT+CSQ".to_string(),
            operator_name_cmd: None,
            operator_name_regex: None,
            generic_operator_cmd: "AT+COPS?".to_string(),
            generic_operator_regex: r#"\+COPS:\s*\d+,\d+,"([^"]*)""#.to_string(),
            iccid_cmd: "AT+ICCID".to_string(),
            iccid_regex: Some(r"\+ICCID:\s*(\d+)".to_string()),
            registration_cmd: "AT+CEREG?".to_string(),
        },
        port_mapping: PortMapping {
            at_port_preference: vec![
                "ttyUSB6".to_string(),
                "ttyUSB5".to_string(),
                "ttyUSB7".to_string(),
                "ttyUSB8".to_string(),
                "ttyUSB4".to_string(),
            ],
            at_interface_preference: vec![6, 5, 7, 8, 4],
            baud_rate: 115200,
        },
        capabilities: ModemCapabilities {
            supports_5g: true,
            supports_carrier_aggregation: true,
            supported_technologies: vec!["2G".to_string(), "3G".to_string(), "4G".to_string(), "5G".to_string()],
            max_supported_bands: Vec::new(),
            supported_protocols: vec!["at".to_string()],
            has_temperature_sensor: false,
            has_gps: true,
        },
        at_whitelist_additions: ProfileAtWhitelist {
            safe_commands: vec![
                "AT#RFSTS".to_string(),
                "AT+ICCID".to_string(),
                "AT#LAPS".to_string(),
                "AT#NRAPS".to_string(),
                "AT#CAINFO?".to_string(),
                "AT$GPSACP".to_string(),
                "AT$GPSP?".to_string(),
                "AT#BND?".to_string(),
                "AT+WS46?".to_string(),
            ],
            confirmation_commands: vec![
                "AT$GPSP".to_string(),
                "AT#BND".to_string(),
                "AT+WS46".to_string(),
            ],
            blocked_prefixes: Vec::new(),
        },
        whitelist_label: Some("Telit".to_string()),
        band_mode_config: BandModeConfig {
            supported: true,
            commands: BandModeCommands {
                query_mode: Some("AT+WS46?".to_string()),
                set_mode: Some("AT+WS46={value}".to_string()),
                query_nr5g_disable: None,
                set_nr5g_disable: None,
                query_lte_bands: None,
                set_lte_bands: None,
                query_nsa_bands: None,
                set_nsa_bands: None,
                query_sa_bands: None,
                set_sa_bands: None,
                query_nrdc_bands: None,
                set_nrdc_bands: None,
                query_nrdc_mode: None,
                set_nrdc_mode: None,
                query_all_bands: Some("AT#BND?".to_string()),
                set_all_bands: Some("AT#BND=0,0,{lte_low},{lte_high},{nsa_low},{nsa_high},{sa_low},{sa_high}".to_string()),
                restore_bands: Some("AT#BND=0,0,A7E2BB0F38DF,42,1A0290828D7,7042,81A03B0A38D7,7C42".to_string()),
            },
            modes: vec![
                NetworkModeOption {
                    id: "auto".to_string(),
                    label: "Auto".to_string(),
                    mode_value: "37".to_string(),
                    nr5g_disable_value: None,
                    active_sections: BandSections { lte: true, nsa: true, sa: true },
                },
                NetworkModeOption {
                    id: "lte".to_string(),
                    label: "LTE Only".to_string(),
                    mode_value: "28".to_string(),
                    nr5g_disable_value: None,
                    active_sections: BandSections { lte: true, nsa: false, sa: false },
                },
                NetworkModeOption {
                    id: "lte_nr".to_string(),
                    label: "LTE + NR (no SA)".to_string(),
                    mode_value: "36".to_string(),
                    nr5g_disable_value: None,
                    active_sections: BandSections { lte: true, nsa: true, sa: false },
                },
            ],
            lte_bands: vec![
                1, 2, 3, 4, 5, 7, 8, 12, 13, 14, 17, 18, 19, 20, 25, 26, 28,
                29, 30, 32, 34, 38, 39, 40, 41, 42, 43, 46, 48, 50, 55,
            ],
            nsa_nr5g_bands: vec![
                1, 2, 3, 5, 7, 8, 12, 14, 20, 25, 28, 30, 38, 40, 41, 66, 71,
                77, 78, 79,
            ],
            sa_nr5g_bands: vec![
                1, 2, 3, 5, 7, 8, 12, 13, 14, 18, 20, 25, 26, 28, 29, 30, 38,
                40, 41, 48, 66, 71, 75, 76, 77, 78, 79,
            ],
            nrdc_nr5g_bands: Vec::new(),
            reboot_on_band_change: false,
            band_separator: ":".to_string(),
            band_command_variant: "telit_bnd".to_string(),
        },
        apn_apply_config: ApnApplyConfig {
            supported: false,
            steps: Vec::new(),
            always_reboot: false,
            pre_reboot_delay_ms: 0,
        },
        apn_live_config: ApnLiveConfig { query: None, write: None },
        dual_sim_config: DualSimConfig {
            supported: false,
            slot_count: 1,
            query_slot_cmd: None,
            query_slot_regex: None,
            set_slot_cmd: None,
            sim_init_cmd: None,
            sim_init_regex: None,
            sim_init_complete_value: 0,
            sim_init_timeout_secs: 0,
        },
        mbn_config: MbnConfig {
            supported: false,
            commands: MbnCommands {
            list_profiles: None,
            query_auto_select: None,
            set_auto_select: None,
            query_selected: None,
            select_profile: None,
            deactivate: None,
        },
            reboot_recommended: false,
        },
        ca_config: CarrierAggregationConfig {
            supported: true,
            ca_info_cmd: Some("AT#CAINFO?".to_string()),
            lte_scc_regex: None,
            nr5g_scc_regex: None,
            network_type_cmd: None,
            network_type_regex: None,
            band_prefix_mappings: Vec::new(),
            ca_parser_variant: "telit_cainfo".to_string(),
        },
        firmware_config: FirmwareVersionConfig {
            firmware_cmd: Some("AT+CGMR".to_string()),
            firmware_regex: None,
        },
        gps_config: GpsConfig {
            supported: true,
            start_cmd: Some("AT$GPSP=1".to_string()),
            start_already_running_codes: Vec::new(),
            start_tolerates_bare_error: true,
            query_cmd: Some("AT$GPSACP".to_string()),
            no_fix_error_codes: Vec::new(),
            query_regex: Some(
                r"\$GPSACP:\s*(?P<time>\d+\.\d+),(?P<lat>\d+\.\d+),(?P<ns>[NS]),(?P<lon>\d+\.\d+),(?P<ew>[EW]),[\d.]*,(?P<alt>[\d.]+),(?P<fix>\d+),[\d.]*,(?P<speed>[\d.]+),[\d.]*,(?P<date>\d+),(?P<satellites>\d+)".to_string()
            ),
            stop_cmd: Some("AT$GPSP=0".to_string()),
            stop_already_stopped_codes: Vec::new(),
            coordinate_format: GpsCoordinateFormat::Nmea,
        },
        antenna_metrics_config: AntennaMetricsConfig {
            supported: true,
            rsrp_cmd: Some("AT#LAPS".to_string()),
            sinr_cmd: None,
            rsrq_cmd: None,
            sentinel_value: -32768,
            rsrp_min: -140, rsrp_max: -44,
            rsrq_min: -20, rsrq_max: 0,
            sinr_min: -23, sinr_max: 40,
            interleaved_rsrp_rsrq: true,
        },
        signal_parse_config: SignalParseConfig {
            variants: vec![
                SignalFormatVariant {
                    label: "Telit RFSTS LTE".to_string(),
                    requires_substring: "#RFSTS:".to_string(),
                    regex: r#"#RFSTS:\s*"[^"]*",(?P<earfcn>\d+),(?P<rsrp>-?\d+),(?P<rssi>-?\d+),(?P<rsrq>-?\d+),[0-9A-Fa-f]+,[0-9A-Fa-f]+,-?\d*,\d+,\d+,\d+,(?P<cellid>[0-9A-Fa-f]+),"[^"]*","[^"]*",\d+,(?P<band>\d+)"#.to_string(),
                    band_prefix: "B".to_string(),
                    technology: "4G".to_string(),
                },
                SignalFormatVariant {
                    label: "Telit RFSTS NR SA".to_string(),
                    requires_substring: "#RFSTS:".to_string(),
                    regex: r#"#RFSTS:\s*"[^"]*",\d+,\d+,(?P<rsrp>-?\d+),(?P<rssi>-?\d+),(?P<rsrq>-?\d+),(?P<band>\d+),\d+,\d+"#.to_string(),
                    band_prefix: "n".to_string(),
                    technology: "5G".to_string(),
                },
            ],
        },
        notes: Some(
            "Telit FN990 5G module. AT port is ttyUSB6 (interface 6). Signal via AT#RFSTS.".to_string(),
        ),
        restart_command: "AT#REBOOT".to_string(),
        usbnet_detect: UsbNetDetectConfig {
            query_cmd: Some("AT#USBCFG?".to_string()),
            parser: Some("telit_usbcfg".to_string()),
        },
    }
}

/// Generic fallback profile using only 3GPP-standard AT commands.
///
/// Used when no specific profile matches the detected modem. Provides
/// basic functionality that should work with any AT-capable modem.
pub fn generic_modem() -> (p: ModemProfile)
    ensures
        generic_modem_profile(p),
        has_identity(p, "0000"@, "0000"@, "Generic"@, "Unknown Modem"@),
        is_generic_modem(p),
        is_generic_identity(p.identity),
        p.apn_live_config.query is None,
        p.apn_live_config.write is None,
        p.restart_command@ == "AT+CFUN=1,1"@,
        p.usbnet_detect.query_cmd is None && p.usbnet_detect.parser is None,
        p.port_mapping.at_interface_preference@ == seq![2u32, 3, 1, 0],
        at_ports(p) == seq!["ttyUSB2"@, "ttyUSB1"@, "ttyUSB0"@, "ttyUSB3"@],
        p.port_mapping.baud_rate == 115200,
        strings_view(p.at_whitelist_additions.safe_commands@) == seq!["AT+QUIMSLOT?"@, "AT+QINISTAT"@],
        strings_view(p.at_whitelist_additions.confirmation_commands@) == seq!["AT+QUIMSLOT"@],
        strings_view(p.at_whitelist_additions.blocked_prefixes@) == Seq::<Seq<char>>::empty(),
        p.commands.signal_cmd is None,
        p.commands.signal_parse_regex is None,
        p.commands.generic_signal_cmd@ == "AT+CSQ"@,
        p.commands.operator_name_cmd is None,
        p.commands.operator_name_regex is None,
        p.commands.generic_operator_cmd@ == "AT+COPS?"@,
        p.commands.generic_operator_regex@ == r#"\+COPS:\s*\d+,\d+,"([^"]*)""#@,
        p.commands.iccid_cmd@ == "AT+CCID"@,
        p.commands.iccid_regex is None,
        p.commands.registration_cmd@ == "AT+CEREG?"@,
{
    proof {
        reveal_strlit("0000");
    }
    ModemProfile {
        identity: ModemIdentity {
            vendor_id: "0000".to_string(),
            product_id: "0000".to_string(),
            manufacturer: "Generic".to_string(),
            model: "Unknown Modem".to_string(),
            model_variants: Vec::new(),
        },
        commands: AtCommandSet {
            signal_cmd: None,
            signal_parse_regex: None,
            generic_signal_cmd: "AT+CSQ".to_string(),
            operator_name_cmd: None,
            operator_name_regex: None,
            generic_operator_cmd: "AT+COPS?".to_string(),
            generic_operator_regex: r#"\+COPS:\s*\d+,\d+,"([^"]*)""#.to_string(),
            iccid_cmd: "AT+CCID".to_string(),
            iccid_regex: None,
            registration_cmd: "AT+CEREG?".to_string(),
        },
        port_mapping: PortMapping {
            at_port_preference: vec![
                "ttyUSB2".to_string(),
                "ttyUSB1".to_string(),
                "ttyUSB0".to_string(),
                "ttyUSB3".to_string(),
            ],
            at_interface_preference: vec![2, 3, 1, 0],
            baud_rate: 115200,
        },
        capabilities: ModemCapabilities {
            supports_5g: false,
            supports_carrier_aggregation: false,
            supported_technologies: vec!["2G".to_string(), "3G".to_string(), "4G".to_string()],
            max_supported_bands: Vec::new(),
            supported_protocols: vec!["at".to_string()],
            has_temperature_sensor: false,
            has_gps: false,
        },
        at_whitelist_additions: ProfileAtWhitelist {
            safe_commands: vec![
                "AT+QUIMSLOT?".to_string(),
                "AT+QINISTAT".to_string(),
            ],
            confirmation_commands: vec![
                "AT+QUIMSLOT".to_string(),
            ],
            blocked_prefixes: Vec::new(),
        },
        whitelist_label: None,
        band_mode_config: BandModeConfig {
            supported: false,
            commands: BandModeCommands {
            query_mode: None,
            set_mode: None,
            query_nr5g_disable: None,
            set_nr5g_disable: None,
            query_lte_bands: None,
            set_lte_bands: None,
            query_nsa_bands: None,
            set_nsa_bands: None,
            query_sa_bands: None,
            set_sa_bands: None,
            query_nrdc_bands: None,
            set_nrdc_bands: None,
            query_nrdc_mode: None,
            set_nrdc_mode: None,
            query_all_bands: None,
            set_all_bands: None,
            restore_bands: None,
        },
            modes: Vec::new(),
            lte_bands: Vec::new(),
            nsa_nr5g_bands: Vec::new(),
            sa_nr5g_bands: Vec::new(),
            nrdc_nr5g_bands: Vec::new(),
            reboot_on_band_change: false,
            band_separator: String::new(),
            band_command_variant: String::new(),
        },
        mbn_config: MbnConfig { supported: false, commands: MbnCommands {
            list_profiles: None,
            query_auto_select: None,
            set_auto_select: None,
            query_selected: None,
            select_profile: None,
            deactivate: None,
        }, reboot_recommended: false },
        apn_apply_config: ApnApplyConfig { supported: false, steps: Vec::new(), always_reboot: false, pre_reboot_delay_ms: 0 },
        apn_live_config: ApnLiveConfig { query: None, write: None },
        dual_sim_config: DualSimConfig {
            supported: true,
            slot_count: 2,
            query_slot_cmd: Some("AT+QUIMSLOT?".to_string()),
            query_slot_regex: Some(r"\+QU?IMSLOT:\s*(\d+)".to_string()),
            set_slot_cmd: Some("AT+QUIMSLOT={slot}".to_string()),
            sim_init_cmd: Some("AT+QINISTAT".to_string()),
            sim_init_regex: Some(r"\+QINISTAT:\s*(\d+)".to_string()),
            sim_init_complete_value: 7,
            sim_init_timeout_secs: 30,
        },
        ca_config: CarrierAggregationConfig {
            supported: false,
            ca_info_cmd: None,
            lte_scc_regex: None,
            nr5g_scc_regex: None,
            network_type_cmd: None,
            network_type_regex: None,
            band_prefix_mappings: Vec::new(),
            ca_parser_variant: "qcainfo".to_string(),
        },
        firmware_config: FirmwareVersionConfig { firmware_cmd: None, firmware_regex: None },
        gps_config: GpsConfig {
            supported: false,
            start_cmd: None,
            start_already_running_codes: Vec::new(),
            query_cmd: None,
            no_fix_error_codes: Vec::new(),
            query_regex: None,
            stop_cmd: None,
            stop_already_stopped_codes: Vec::new(),
            start_tolerates_bare_error: false,
            coordinate_format: GpsCoordinateFormat::Decimal,
        },
        antenna_metrics_config: AntennaMetricsConfig {
            supported: false,
            rsrp_cmd: None,
            sinr_cmd: None,
            rsrq_cmd: None,
            sentinel_value: -32768,
            rsrp_min: -140,
            rsrp_max: -44,
            rsrq_min: -20,
            rsrq_max: 0,
            sinr_min: -23,
            sinr_max: 40,
            interleaved_rsrp_rsrq: false,
        },
        signal_parse_config: SignalParseConfig { variants: Vec::new() },
        notes: Some("Generic fallback profile. Uses only standard 3GPP AT commands.".to_string()),
        restart_command: "AT+CFUN=1,1".to_string(),
        usbnet_detect: UsbNetDetectConfig { query_cmd: None, parser: None },
    }
}


/// All built-in modem profiles, in matching priority order.
pub fn builtin_profiles() -> (v: Vec<ModemProfile>)
    ensures
        v@.len() == 4,
        has_identity(v@[0], "2c7c"@, "0122"@, "Quectel"@, "RM551E-GL"@),
        has_identity(v@[1], "2c7c"@, "0801"@, "Quectel"@, "RM520N-GL"@),
        has_identity(v@[2], "2c7c"@, "0800"@, "Quectel"@, "RM500Q-GL"@),
        has_identity(v@[3], "1bc7"@, "1073"@, "Telit"@, "FN990"@),
        forall|i: int| 0 <= i < v@.len() ==> !is_generic_identity(#[trigger] v@[i].identity),
        rm551e_gl_profile(v@[0]),
        rm520n_gl_profile(v@[1]),
        rm500q_gl_profile(v@[2]),
        fn990_profile(v@[3]),
{
    vec![quectel_rm551e_gl(), quectel_rm520n_gl(), quectel_rm500q_gl(), telit_fn990()]
}

} // verus!
