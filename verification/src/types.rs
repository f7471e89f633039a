//! Shared data types of the modem interface: device, SIM, network, WAN and
//! configuration records exchanged between the hardware layer and its users.

use vstd::prelude::*;
use crate::text::str_eq;

verus! {

/// Network technology generation.
#[derive(Debug, Clone, Copy, PartialEq, Eq, Structural)]
pub enum Technology {
    Gen2,
    Gen3,
    Gen4,
    Gen5,
}

/// USB-net mode of a cellular modem (diagnostic only).
#[derive(Debug, Clone, Copy, PartialEq, Eq, Structural)]
pub enum UsbNetMode {
    Ecm,
    Qmi,
    Mbim,
    Rmnet,
    Ncm,
    Rndis,
    Unknown,
}

impl Default for UsbNetMode {
    fn default() -> (m: Self)
        ensures
            m == UsbNetMode::Unknown,
    {
        UsbNetMode::Unknown
    }
}

/// Device identification information.
#[derive(Debug, Clone, Default)]
pub struct DeviceInfo {
    pub imei: String,
    pub manufacturer: String,
    pub model: String,
    pub firmware_version: String,
    pub supported_protocols: Vec<String>,
}

/// Current modem connection status.
#[derive(Debug, Clone, Default)]
pub struct ModemStatus {
    pub connected: bool,
    pub technology: Option<Technology>,
    pub operator: Option<String>,
    /// Signal strength: 0-100 normalized percentage.
    pub signal_strength: i32,
    pub ip_address: Option<String>,
}

/// One-time discovery data read at modem initialization.
#[derive(Debug, Clone)]
pub struct DiscoveryInfo {
    pub device_info: DeviceInfo,
    pub sim_status: SimStatus,
}

/// Connection state without signal metrics.
#[derive(Debug, Clone, Default)]
pub struct ConnectionStatus {
    pub connected: bool,
    pub technology: Option<Technology>,
    pub operator: Option<String>,
    pub ip_address: Option<String>,
}

/// Data transfer statistics for the current session.
#[derive(Debug, Clone, Default)]
pub struct DataStats {
    pub bytes_tx: u64,
    pub bytes_rx: u64,
    pub session_uptime_secs: u64,
}

/// Network registration state.
#[derive(Debug, Clone, PartialEq, Eq, Structural)]
pub enum RegistrationState {
    NotRegistered,
    Registered { home: bool },
    Searching,
    Denied,
    Unknown,
}

impl Default for RegistrationState {
    fn default() -> (r: Self)
        ensures
            r == RegistrationState::NotRegistered,
    {
        RegistrationState::NotRegistered
    }
}

/// Authentication type for APN connection.
#[derive(Debug, Clone, Copy, PartialEq, Eq, Structural)]
pub enum AuthType {
    NoAuth,
    Pap,
    Chap,
}

impl Default for AuthType {
    fn default() -> (r: Self)
        ensures
            r == AuthType::NoAuth,
    {
        AuthType::NoAuth
    }
}

/// IP protocol version for connection.
#[derive(Debug, Clone, Copy, PartialEq, Eq, Structural)]
pub enum IpType {
    Ipv4,
    Ipv6,
    Ipv4v6,
}

impl Default for IpType {
    fn default() -> (r: Self)
        ensures
            r == IpType::Ipv4,
    {
        IpType::Ipv4
    }
}

/// Configuration for establishing a data connection.
#[derive(Debug, Clone)]
pub struct ConnectionConfig {
    /// PDP context ID (1-8).
    pub cid: u8,
    pub apn: String,
    pub username: Option<String>,
    pub password: Option<String>,
    pub auth_type: AuthType,
    pub ip_type: IpType,
}

impl Default for ConnectionConfig {
    fn default() -> (c: Self)
        ensures
            c.cid == 1,
            c.apn@ == Seq::<char>::empty(),
            c.username is None,
            c.password is None,
            c.auth_type == AuthType::NoAuth,
            c.ip_type == IpType::Ipv4,
    {
        ConnectionConfig {
            cid: 1,
            apn: String::new(),
            username: None,
            password: None,
            auth_type: AuthType::NoAuth,
            ip_type: IpType::Ipv4,
        }
    }
}

/// A saved APN connection preset.
#[derive(Debug, Clone)]
pub struct ApnProfile {
    pub id: String,
    pub name: String,
    pub modem_profile_id: String,
    pub connection: ConnectionConfig,
    pub mbn_profile: Option<String>,
    pub created_at: String,
    pub updated_at: String,
}

/// Request body for creating/updating an APN profile.
#[derive(Debug, Clone)]
pub struct ApnProfileRequest {
    pub name: String,
    pub modem_profile_id: String,
    pub connection: ConnectionConfig,
    pub mbn_profile: Option<String>,
}

/// Request body for applying an APN profile.
#[derive(Debug, Clone)]
pub struct ApnProfileApplyRequest {
    pub profile_id: String,
}

/// Result of applying an APN profile.
#[derive(Debug, Clone)]
pub struct ApnProfileApplyResult {
    pub success: bool,
    pub had_errors: bool,
    pub step_log: Vec<String>,
    pub reboot_triggered: bool,
}

/// Result of importing APN profiles.
#[derive(Debug, Clone)]
pub struct ApnProfileImportResult {
    pub imported: usize,
    pub skipped: usize,
    pub message: String,
}

/// Status of a single SIM slot.
#[derive(Debug, Clone)]
pub struct SimSlotStatus {
    pub slot: u8,
    pub active: bool,
    pub sim_status: Option<SimStatus>,
    pub assigned_profile_id: Option<String>,
    pub assigned_profile_name: Option<String>,
}

/// Full dual SIM slot information.
#[derive(Debug, Clone)]
pub struct DualSimInfo {
    pub supported: bool,
    pub dual_sim_disabled: bool,
    pub slot_count: u8,
    pub active_slot: u8,
    pub slots: Vec<SimSlotStatus>,
}

/// Request to switch SIM slot.
#[derive(Debug, Clone)]
pub struct SimSlotSwitchRequest {
    pub target_slot: u8,
    pub apply_profile: bool,
}

/// Result of a SIM slot switch operation.
#[derive(Debug, Clone)]
pub struct SimSlotSwitchResult {
    pub success: bool,
    pub rebooting: bool,
    pub message: String,
    pub steps: Vec<String>,
}

/// Persistent per-slot APN profile assignment for a single modem.
#[derive(Debug, Clone, Default)]
pub struct SimSlotConfig {
    pub slot1_profile_id: Option<String>,
    pub slot2_profile_id: Option<String>,
    pub dual_sim_disabled: bool,
}

/// All modems' SIM slot configs, keyed by "VID:PID".
#[derive(Debug, Clone, Default)]
pub struct AllSimSlotConfig {
    pub modems: std::collections::HashMap<String, SimSlotConfig>,
}

/// SIM card state.
#[derive(Debug, Clone, Copy, PartialEq, Eq, Structural)]
pub enum SimState {
    Ready,
    PinRequired,
    PukRequired,
    NotInserted,
    Error,
}

/// SIM card status information.
#[derive(Debug, Clone)]
pub struct SimStatus {
    pub present: bool,
    pub state: SimState,
    pub iccid: Option<String>,
    pub imsi: Option<String>,
    pub operator_name: Option<String>,
}

impl Default for SimStatus {
    fn default() -> (s: Self)
        ensures
            !s.present,
            s.state == SimState::NotInserted,
            s.iccid is None,
            s.imsi is None,
            s.operator_name is None,
    {
        SimStatus {
            present: false,
            state: SimState::NotInserted,
            iccid: None,
            imsi: None,
            operator_name: None,
        }
    }
}

/// PIN operation request.
#[derive(Debug, Clone)]
pub struct PinOperation {
    pub operation: PinOpType,
    pub pin: String,
    pub new_pin: Option<String>,
}

#[derive(Debug, Clone, Copy, PartialEq, Eq, Structural)]
pub enum PinOpType {
    Verify,
    Change,
    Enable,
    Disable,
}

/// Available network from scan.
#[derive(Debug, Clone)]
pub struct AvailableNetwork {
    pub operator_name: String,
    pub operator_code: String,
    pub technology: Technology,
    pub status: NetworkStatus,
}

#[derive(Debug, Clone, Copy, PartialEq, Eq, Structural)]
pub enum NetworkStatus {
    Available,
    Current,
    Forbidden,
}

/// Network selection request (`None` = automatic).
#[derive(Debug, Clone)]
pub struct NetworkSelection {
    pub operator_code: Option<String>,
    pub technology: Option<Technology>,
}

/// AT command execution request.
#[derive(Debug, Clone)]
pub struct AtCommandRequest {
    pub command: String,
    pub confirmed: bool,
}

/// Request body for airplane mode toggle.
#[derive(Debug, Clone)]
pub struct AirplaneModeRequest {
    pub enabled: bool,
}

/// AT command execution response.
#[derive(Debug, Clone)]
pub struct AtCommandResponse {
    pub command: String,
    pub response: String,
    pub success: bool,
}

/// Modem hardware availability state.
#[derive(Debug, Clone)]
pub struct ModemHealth {
    pub available: bool,
    pub state: ModemHealthState,
    pub message: Option<String>,
}

impl Default for ModemHealth {
    fn default() -> (h: Self)
        ensures
            h.available,
            h.state == ModemHealthState::Healthy,
            h.message is None,
    {
        ModemHealth { available: true, state: ModemHealthState::Healthy, message: None }
    }
}

/// Modem health states.
#[derive(Debug, Clone, Copy, PartialEq, Eq, Structural)]
pub enum ModemHealthState {
    Healthy,
    Unavailable,
    Rebooting,
    Error,
}

#[derive(Debug, Clone, Copy, PartialEq, Eq, Structural)]
pub enum ConnectionState {
    Disconnected,
    Connecting,
    Connected,
    Disconnecting,
}

#[derive(Debug, Clone, Copy, PartialEq, Eq, Structural)]
pub enum SimEventType {
    Inserted,
    Removed,
    Locked,
    Unlocked,
}

/// Speedtest execution mode.
#[derive(Debug, Clone, Copy, PartialEq, Eq, Structural)]
pub enum SpeedtestMode {
    Quick,
    Medium,
    Full,
}

/// Active phase of a speedtest run.
#[derive(Debug, Clone, Copy, PartialEq, Eq, Structural)]
pub enum SpeedtestPhase {
    Latency,
    Download,
    Upload,
}

/// AIM (Aggregated Internet Measurement) quality scores.
#[derive(Debug, Clone)]
pub struct AimScores {
    pub streaming: String,
    pub gaming: String,
    pub video_calls: String,
}

/// TCP quality stats from a Server-Timing header.
#[derive(Debug, Clone, Default)]
pub struct TcpStats {
    pub rtt_us: u64,
    pub min_rtt_us: u64,
    pub lost: u64,
    pub retrans: u64,
    pub cwnd: u64,
    pub delivery_rate_bps: u64,
}

/// Remote access tunnel configuration.
#[derive(Debug, Clone)]
pub struct TunnelConfig {
    pub enabled: bool,
    pub ports: Vec<u16>,
}

impl Default for TunnelConfig {
    fn default() -> (c: Self)
        ensures
            c.enabled,
            c.ports@ == seq![443u16, 8443u16],
    {
        TunnelConfig { enabled: true, ports: vec![443, 8443] }
    }
}

/// TLS configuration for HTTPS support.
#[derive(Debug, Clone)]
pub struct TlsConfig {
    pub enabled: bool,
    pub cert_path: String,
    pub key_path: String,
    pub https_port: u16,
    pub redirect_http: bool,
}

impl Default for TlsConfig {
    fn default() -> (c: Self)
        ensures
            c.enabled,
            c.cert_path@ == "/etc/modem-interface/tls/cert.pem"@,
            c.key_path@ == "/etc/modem-interface/tls/key.pem"@,
            c.https_port == 8443,
            c.redirect_http,
    {
        TlsConfig {
            enabled: true,
            cert_path: "/etc/modem-interface/tls/cert.pem".to_string(),
            key_path: "/etc/modem-interface/tls/key.pem".to_string(),
            https_port: 8443,
            redirect_http: true,
        }
    }
}

/// Rate limiting configuration.
#[derive(Debug, Clone)]
pub struct RateLimitConfig {
    pub enabled: bool,
    pub login_max_attempts: u32,
    pub login_window_secs: u64,
    pub setup_max_attempts: u32,
    pub setup_window_secs: u64,
    pub general_max_requests: u32,
    pub general_window_secs: u64,
}

impl Default for RateLimitConfig {
    fn default() -> (c: Self)
        ensures
            c.enabled,
            c.login_max_attempts == 5,
            c.login_window_secs == 900,
            c.setup_max_attempts == 3,
            c.setup_window_secs == 3600,
            c.general_max_requests == 100,
            c.general_window_secs == 60,
    {
        RateLimitConfig {
            enabled: true,
            login_max_attempts: 5,
            login_window_secs: 900,
            setup_max_attempts: 3,
            setup_window_secs: 3600,
            general_max_requests: 100,
            general_window_secs: 60,
        }
    }
}

/// Persistent application configuration.
#[derive(Debug, Clone)]
pub struct AppConfig {
    pub connection: ConnectionConfig,
    pub preferred_bands: Vec<String>,
    pub auto_connect: bool,
    /// Signal polling interval in seconds.
    pub signal_poll_interval: u64,
    pub tls: TlsConfig,
    pub rate_limit: RateLimitConfig,
    pub telemetry_enabled: bool,
    pub tunnel: TunnelConfig,
}

impl Default for AppConfig {
    fn default() -> (c: Self)
        ensures
            c.connection.cid == 1,
            c.connection.apn@ == Seq::<char>::empty(),
            c.preferred_bands@.len() == 0,
            !c.auto_connect,
            c.signal_poll_interval == 2,
            !c.telemetry_enabled,
            c.tunnel.enabled,
            c.tls.https_port == 8443,
    {
        AppConfig {
            connection: ConnectionConfig::default(),
            preferred_bands: Vec::new(),
            auto_connect: false,
            signal_poll_interval: 2,
            tls: TlsConfig::default(),
            rate_limit: RateLimitConfig::default(),
            telemetry_enabled: false,
            tunnel: TunnelConfig::default(),
        }
    }
}

/// Response describing the current band/mode configuration.
#[derive(Debug, Clone)]
pub struct BandConfigResponse {
    pub supported_modes: Vec<crate::profiles::NetworkModeOption>,
    pub supported_lte_bands: Vec<u32>,
    pub supported_nsa_bands: Vec<u32>,
    pub supported_sa_bands: Vec<u32>,
    pub supported_nrdc_bands: Vec<u32>,
    pub has_nrdc: bool,
    pub reboot_on_band_change: bool,
    pub has_restore: bool,
    pub active_mode_id: Option<String>,
    pub active_mode_raw: Option<String>,
    pub nr5g_disable_mode: Option<u8>,
    pub active_lte_bands: Vec<u32>,
    pub active_nsa_bands: Vec<u32>,
    pub active_sa_bands: Vec<u32>,
    pub active_nrdc_bands: Vec<u32>,
    pub nrdc_enabled: Option<bool>,
}

/// Request to apply band/mode changes.
#[derive(Debug, Clone)]
pub struct BandConfigRequest {
    pub mode_id: String,
    pub lte_bands: Vec<u32>,
    pub nsa_bands: Vec<u32>,
    pub sa_bands: Vec<u32>,
    pub nrdc_bands: Option<Vec<u32>>,
    pub nrdc_enabled: Option<bool>,
}

/// A single MBN carrier profile entry from the modem.
#[derive(Debug, Clone)]
pub struct MbnProfile {
    pub index: u32,
    pub selected: bool,
    pub activated: bool,
    pub name: String,
    pub version: String,
    pub revision: String,
}

/// Request to select an MBN profile.
#[derive(Debug, Clone)]
pub struct MbnSelectRequest {
    pub profile_name: String,
}

/// Request to toggle MBN auto-select.
#[derive(Debug, Clone)]
pub struct MbnAutoSelectRequest {
    pub enabled: bool,
}

/// Response from MBN state-changing operations.
#[derive(Debug, Clone)]
pub struct MbnActionResult {
    pub success: bool,
    pub reboot_recommended: bool,
    pub message: String,
}

/// Routing mode for the WAN manager.
#[derive(Debug, Clone, PartialEq, Eq, Structural)]
pub enum RoutingMode {
    Failover,
    LoadBalance,
}

impl Default for RoutingMode {
    fn default() -> (r: Self)
        ensures
            r == RoutingMode::Failover,
    {
        RoutingMode::Failover
    }
}

/// Type discriminator for WAN priority entries.
#[derive(Debug, Clone, PartialEq, Eq, Structural)]
pub enum WanEntryType {
    Modem,
    Ethernet,
}

impl Default for WanEntryType {
    fn default() -> (r: Self)
        ensures
            r == WanEntryType::Modem,
    {
        WanEntryType::Modem
    }
}

/// Persistent WAN manager configuration.
#[derive(Debug, Clone)]
pub struct WanConfig {
    pub enabled: bool,
    pub modem_priority: Vec<WanModemEntry>,
    pub watchdog: WatchdogConfig,
    pub failover_locked: bool,
    /// Auto-failback stabilization timer in minutes.
    pub failback_timer_mins: u32,
    pub routing_mode: RoutingMode,
}

/// Modem participation state in the WAN priority list.
#[derive(Debug, Clone, PartialEq, Eq, Structural)]
pub enum WanModemState {
    Active,
    Standby,
}

impl Default for WanModemState {
    fn default() -> (r: Self)
        ensures
            r == WanModemState::Standby,
    {
        WanModemState::Standby
    }
}

/// The participation state an `enabled` flag of an older configuration
/// stands for: enabled modems are active, the others on standby.
pub fn wan_modem_state_from_flag(enabled: bool) -> (r: WanModemState)
    ensures
        r == (if enabled { WanModemState::Active } else { WanModemState::Standby }),
{
    if enabled {
        WanModemState::Active
    } else {
        WanModemState::Standby
    }
}

/// The participation state a stored name stands for: "active" or
/// "standby"; any other name is refused.
pub fn wan_modem_state_from_name(name: &str) -> (r: Option<WanModemState>)
    ensures
        r == (if name@ == "active"@ {
            Some(WanModemState::Active)
        } else if name@ == "standby"@ {
            Some(WanModemState::Standby)
        } else {
            None::<WanModemState>
        }),
{
    if str_eq(name, "active") {
        Some(WanModemState::Active)
    } else if str_eq(name, "standby") {
        Some(WanModemState::Standby)
    } else {
        None
    }
}

/// A modem or Ethernet entry in the WAN priority list.
#[derive(Debug, Clone)]
pub struct WanModemEntry {
    pub modem_id: String,
    pub label: String,
    pub interface_name: String,
    pub network_device: String,
    pub device_path: String,
    pub state: WanModemState,
    pub metric: u32,
    pub entry_type: WanEntryType,
    pub original_bridge: Option<String>,
    pub mtu: Option<u32>,
    pub ttl: Option<u8>,
    pub hop_limit: Option<u8>,
    pub weight: Option<u32>,
    pub proto_override: Option<String>,
}

impl WanModemEntry {
    /// Returns true if this modem is in Active state.
    pub fn is_active(&self) -> (b: bool)
        ensures
            b <==> self.state == WanModemState::Active,
    {
        match self.state {
            WanModemState::Active => true,
            WanModemState::Standby => false,
        }
    }
}

/// Connectivity watchdog settings.
#[derive(Debug, Clone)]
pub struct WatchdogConfig {
    pub enabled: bool,
    pub check_interval_secs: u32,
    pub failure_threshold: u32,
    pub ping_target: String,
    pub dns_target: String,
    pub http_target: String,
    pub log_retention_days: u32,
    pub restart_on_failure: bool,
    pub restart_cooldown_mins: u32,
    pub max_restart_attempts: u32,
    pub wedge_reboot_enabled: bool,
    pub wedge_reboot_grace_mins: u32,
    pub wedge_reboot_max_per_day: u32,
    pub wedge_reboot_min_uptime_mins: u32,
}

impl Default for WatchdogConfig {
    fn default() -> (w: Self)
        ensures
            w.enabled,
            w.check_interval_secs == 30,
            w.failure_threshold == 3,
            w.ping_target@ == "8.8.8.8"@,
            w.dns_target@ == "google.com"@,
            w.http_target@ == "http://connectivitycheck.gstatic.com/generate_204"@,
            w.log_retention_days == 14,
            !w.restart_on_failure,
            w.restart_cooldown_mins == 5,
            w.max_restart_attempts == 5,
            !w.wedge_reboot_enabled,
            w.wedge_reboot_grace_mins == 10,
            w.wedge_reboot_max_per_day == 2,
            w.wedge_reboot_min_uptime_mins == 15,
    {
        WatchdogConfig {
            enabled: true,
            check_interval_secs: 30,
            failure_threshold: 3,
            ping_target: "8.8.8.8".to_string(),
            dns_target: "google.com".to_string(),
            http_target: "http://connectivitycheck.gstatic.com/generate_204".to_string(),
            log_retention_days: 14,
            restart_on_failure: false,
            restart_cooldown_mins: 5,
            max_restart_attempts: 5,
            wedge_reboot_enabled: false,
            wedge_reboot_grace_mins: 10,
            wedge_reboot_max_per_day: 2,
            wedge_reboot_min_uptime_mins: 15,
        }
    }
}

impl Default for WanConfig {
    fn default() -> (c: Self)
        ensures
            !c.enabled,
            c.modem_priority@.len() == 0,
            !c.failover_locked,
            c.failback_timer_mins == 0,
            c.routing_mode == RoutingMode::Failover,
    {
        WanConfig {
            enabled: false,
            modem_priority: Vec::new(),
            watchdog: WatchdogConfig::default(),
            failover_locked: false,
            failback_timer_mins: 0,
            routing_mode: RoutingMode::Failover,
        }
    }
}

/// Runtime WAN modem connectivity status.
#[derive(Debug, Clone, Copy, PartialEq, Eq, Structural)]
pub enum WanModemStatus {
    Online,
    Offline,
    Checking,
    Standby,
    NoSim,
}

/// Detected firewall backend on the OpenWRT system.
#[derive(Debug, Clone, PartialEq, Eq, Structural)]
pub enum FirewallBackend {
    Fw3,
    Fw4,
    Unknown,
}

impl Default for FirewallBackend {
    fn default() -> (r: Self)
        ensures
            r == FirewallBackend::Unknown,
    {
        FirewallBackend::Unknown
    }
}

/// Platform capabilities detected at startup.
#[derive(Debug, Clone)]
pub struct PlatformCapabilities {
    pub policy_routing_available: bool,
    pub policy_routing_enabled: bool,
    pub firewall_backend: FirewallBackend,
    pub mwan3_detected: bool,
    pub openwrt_version: Option<String>,
}

impl Default for PlatformCapabilities {
    fn default() -> (p: Self)
        ensures
            !p.policy_routing_available,
            !p.policy_routing_enabled,
            p.firewall_backend == FirewallBackend::Unknown,
            !p.mwan3_detected,
            p.openwrt_version is None,
    {
        PlatformCapabilities {
            policy_routing_available: false,
            policy_routing_enabled: false,
            firewall_backend: FirewallBackend::Unknown,
            mwan3_detected: false,
            openwrt_version: None,
        }
    }
}

/// Per-WAN routing table state.
#[derive(Debug, Clone)]
pub struct RoutingTableEntry {
    pub table_number: u32,
    pub rule_priority: u32,
    pub gateway: Option<String>,
    pub device: String,
    pub source_ip: String,
}

/// A failover event in the history log.
#[derive(Debug, Clone)]
pub struct FailoverEvent {
    pub timestamp: String,
    pub from_modem_id: String,
    pub from_label: String,
    pub to_modem_id: String,
    pub to_label: String,
    pub reason: String,
}

/// Result of a single health check cycle for one modem.
#[derive(Debug, Clone)]
pub struct WanHealthCheckResult {
    pub timestamp: String,
    pub ping_ok: bool,
    pub dns_ok: bool,
    pub dns_v4_ok: bool,
    pub dns_v6_ok: bool,
    pub http_ok: bool,
    pub overall_ok: bool,
}

/// Per-modem/ethernet status in the WAN manager response.
#[derive(Debug, Clone)]
pub struct WanModemStatusEntry {
    pub modem_id: String,
    pub label: String,
    pub interface_name: String,
    pub network_device: String,
    pub state: WanModemState,
    pub metric: u32,
    pub status: WanModemStatus,
    pub last_check: Option<WanHealthCheckResult>,
    pub consecutive_failures: u32,
    pub is_primary: bool,
    pub entry_type: WanEntryType,
    pub original_bridge: Option<String>,
    pub mtu: Option<u32>,
    pub ttl: Option<u8>,
    pub hop_limit: Option<u8>,
    pub operator: Option<String>,
    pub imei: Option<String>,
    pub restart_suspended: bool,
    pub restart_count: u32,
    pub wedged: bool,
    pub weight: Option<u32>,
    pub proto_override: Option<String>,
    pub usbnet_mode: Option<UsbNetMode>,
}

/// Information about an active failover override.
#[derive(Debug, Clone)]
pub struct FailoverOverrideInfo {
    pub active: bool,
    pub original_primary_id: String,
    pub original_primary_label: String,
    pub current_primary_id: String,
    pub current_primary_label: String,
    pub failover_timestamp: String,
    pub stabilization_remaining_secs: Option<u64>,
}

/// Full WAN manager state.
#[derive(Debug, Clone)]
pub struct WanStatusResponse {
    pub enabled: bool,
    pub routing_mode: RoutingMode,
    pub failover_locked: bool,
    pub modems: Vec<WanModemStatusEntry>,
    pub watchdog: WatchdogConfig,
    pub failover_history: Vec<FailoverEvent>,
    pub failback_timer_mins: u32,
    pub failover_override: Option<FailoverOverrideInfo>,
    pub platform: Option<PlatformCapabilities>,
    pub routing_tables: Option<std::collections::HashMap<String, RoutingTableEntry>>,
}

/// An available Ethernet port that can be converted to WAN.
#[derive(Debug, Clone)]
pub struct AvailableEthernetPort {
    pub port_name: String,
    pub bridge: String,
    pub link_status: String,
}

/// Scan response including modems and available Ethernet ports.
#[derive(Debug, Clone)]
pub struct WanScanResponse {
    pub status: WanStatusResponse,
    pub available_ethernet_ports: Vec<AvailableEthernetPort>,
}

/// Request to convert an Ethernet port to WAN.
#[derive(Debug, Clone)]
pub struct AddEthernetRequest {
    pub port_name: String,
    pub label: Option<String>,
}

/// A single entry in the persistent watchdog recovery log.
#[derive(Debug, Clone)]
pub struct WanWatchdogLogEntry {
    pub timestamp: String,
    pub action: String,
    pub details: String,
}

/// Watchdog log listing.
#[derive(Debug, Clone)]
pub struct WanWatchdogLogResponse {
    pub entries: Vec<WanWatchdogLogEntry>,
    pub last_recovery: Option<WanWatchdogLogEntry>,
    pub retention_days: u32,
}

} // verus!
