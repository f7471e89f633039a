//! The simulated modem used for development and testing without hardware.
//!
//! [`MockState`] is the simulated modem: its transitions (connect,
//! disconnect, reconnect, PIN entry) and the answers it gives (status, SIM
//! status, registration, AT command replies). Delays, the random signal
//! jitter and the floating-point signal figures are added outside the
//! library; time is passed in as a monotonic count of seconds.

use vstd::prelude::*;
use crate::hardware::HardwareError;
use crate::text::{
    chars_of, contains, contains_seq, decimal, has_prefix, push_all, push_decimal, starts_with,
    str_eq, string_from_chars, to_uppercase, unicode_uppercase, utf8_len, utf8_len_of,
};
use crate::types::{
    AvailableNetwork, ConnectionConfig, DataStats, DeviceInfo, ModemStatus, NetworkStatus,
    RegistrationState, SimState, SimStatus, Technology,
};

verus! {

/// The simulated modem's state.
pub struct MockState {
    pub connected: bool,
    pub sim_present: bool,
    pub sim_locked: bool,
    /// RSSI in dBm.
    pub signal_strength: i32,
    pub operator: String,
    pub ip_address: Option<String>,
    /// When the session came up, in seconds of a monotonic clock.
    pub connect_time: Option<u64>,
    pub bytes_tx: u64,
    pub bytes_rx: u64,
}

/// The mock PIN.
pub open spec fn mock_pin() -> Seq<char> {
    "1234"@
}

/// The address a simulated session gets.
pub open spec fn mock_ip() -> Seq<char> {
    "10.0.0.42"@
}

impl Default for MockState {
    fn default() -> (s: Self)
        ensures
            !s.connected,
            s.sim_present,
            !s.sim_locked,
            s.signal_strength == -75,
            s.operator@ == "Mock Carrier"@,
            s.ip_address is None,
            s.connect_time is None,
            s.bytes_tx == 0,
            s.bytes_rx == 0,
    {
        MockState {
            connected: false,
            sim_present: true,
            sim_locked: false,
            signal_strength: -75,
            operator: "Mock Carrier".to_string(),
            ip_address: None,
            connect_time: None,
            bytes_tx: 0,
            bytes_rx: 0,
        }
    }
}

/// The RSSI mapped to 0-100: -113 dBm (worst) to -51 dBm (best),
/// `((rssi + 113) * 100 / 62)` clamped.
pub open spec fn signal_percent(rssi: int) -> int {
    if rssi + 113 <= 0 {
        0
    } else if (rssi + 113) * 100 / 62 > 100 {
        100
    } else {
        (rssi + 113) * 100 / 62
    }
}

/// The CSQ value of an RSSI: `((rssi + 113) / 2)` clamped to 0-31.
pub open spec fn csq_of(rssi: int) -> int {
    if rssi + 113 <= 0 {
        0
    } else if (rssi + 113) / 2 > 31 {
        31
    } else {
        (rssi + 113) / 2
    }
}

impl MockState {
    /// A state with the session up since `now`.
    pub open spec fn session_up(self, old: MockState, now: u64) -> bool {
        &&& self.connected
        &&& self.ip_address matches Some(ip) && ip@ == mock_ip()
        &&& self.connect_time == Some(now)
        &&& self.sim_present == old.sim_present
        &&& self.sim_locked == old.sim_locked
        &&& self.signal_strength == old.signal_strength
        &&& self.operator@ == old.operator@
    }

    /// The modem's status: the normalized signal, and technology, operator
    /// and address while connected.
    pub fn get_status(&self) -> (r: ModemStatus)
        ensures
            r.connected == self.connected,
            r.signal_strength == signal_percent(self.signal_strength as int),
            0 <= r.signal_strength <= 100,
            self.connected ==> r.technology == Some(Technology::Gen4),
            !self.connected ==> r.technology is None,
            self.connected ==> (r.operator matches Some(o) && o@ == self.operator@),
            !self.connected ==> r.operator is None,
            r.ip_address == self.ip_address,
    {
        let x: i64 = self.signal_strength as i64 + 113;
        let percent: i32 = if x <= 0 {
            0
        } else if x * 100 / 62 > 100 {
            100
        } else {
            (x * 100 / 62) as i32
        };
        ModemStatus {
            connected: self.connected,
            technology: if self.connected {
                Some(Technology::Gen4)
            } else {
                None
            },
            operator: if self.connected {
                Some(self.operator.clone())
            } else {
                None
            },
            signal_strength: percent,
            ip_address: self.ip_address.clone(),
        }
    }

    /// Session counters; the uptime counts from the connect time to `now`.
    pub fn get_data_stats(&self, now: u64) -> (r: DataStats)
        ensures
            r.bytes_tx == self.bytes_tx,
            r.bytes_rx == self.bytes_rx,
            r.session_uptime_secs == match self.connect_time {
                Some(t) => if now >= t {
                    (now - t) as u64
                } else {
                    0
                },
                None => 0,
            },
    {
        let uptime = match self.connect_time {
            Some(t) => if now >= t {
                now - t
            } else {
                0
            },
            None => 0,
        };
        DataStats { bytes_tx: self.bytes_tx, bytes_rx: self.bytes_rx, session_uptime_secs: uptime }
    }

    /// Brings the data session up with `config`. Fails without a SIM, with a
    /// locked SIM, or with an empty APN, in that order of checks.
    pub fn connect(&mut self, config: &ConnectionConfig, now: u64) -> (r: Result<(), HardwareError>)
        ensures
            !old(self).sim_present ==> (r matches Err(HardwareError::SimError(m)) && m@
                == "No SIM card"@ && *final(self) == *old(self)),
            old(self).sim_present && old(self).sim_locked ==> (r matches Err(
                HardwareError::SimError(m),
            ) && m@ == "SIM PIN required"@ && *final(self) == *old(self)),
            old(self).sim_present && !old(self).sim_locked && config.apn@.len() == 0 ==> (r matches Err(
                HardwareError::CommandRejected(m),
            ) && m@ == "APN required"@ && *final(self) == *old(self)),
            old(self).sim_present && !old(self).sim_locked && config.apn@.len() > 0 ==> {
                &&& r is Ok
                &&& final(self).session_up(*old(self), now)
                &&& final(self).bytes_tx == 0
                &&& final(self).bytes_rx == 0
            },
    {
        if !self.sim_present {
            return Err(HardwareError::SimError("No SIM card".to_string()));
        }
        if self.sim_locked {
            return Err(HardwareError::SimError("SIM PIN required".to_string()));
        }
        if config.apn.as_str().is_empty() {
            return Err(HardwareError::CommandRejected("APN required".to_string()));
        }
        self.connected = true;
        self.ip_address = Some("10.0.0.42".to_string());
        self.connect_time = Some(now);
        self.bytes_tx = 0;
        self.bytes_rx = 0;
        Ok(())
    }

    /// Takes the data session down (nothing to do when already down).
    pub fn disconnect(&mut self) -> (r: Result<(), HardwareError>)
        ensures
            r is Ok,
            !final(self).connected,
            old(self).connected ==> final(self).ip_address is None && final(self).connect_time is None,
            !old(self).connected ==> *final(self) == *old(self),
            final(self).sim_present == old(self).sim_present,
            final(self).sim_locked == old(self).sim_locked,
            final(self).signal_strength == old(self).signal_strength,
            final(self).operator == old(self).operator,
            final(self).bytes_tx == old(self).bytes_tx,
            final(self).bytes_rx == old(self).bytes_rx,
    {
        if !self.connected {
            return Ok(());
        }
        self.connected = false;
        self.ip_address = None;
        self.connect_time = None;
        Ok(())
    }

    /// Brings the session back up with the saved APN (a radio cycle); the
    /// counters are kept.
    pub fn reconnect(&mut self, now: u64) -> (r: Result<(), HardwareError>)
        ensures
            r is Ok,
            final(self).session_up(*old(self), now),
            final(self).bytes_tx == old(self).bytes_tx,
            final(self).bytes_rx == old(self).bytes_rx,
    {
        self.connected = true;
        self.ip_address = Some("10.0.0.42".to_string());
        self.connect_time = Some(now);
        Ok(())
    }

    /// The SIM's status: absent, PIN-locked or ready, with the identifiers a
    /// present SIM reveals (the IMSI only once unlocked).
    pub fn get_sim_status(&self) -> (r: SimStatus)
        ensures
            r.present == self.sim_present,
            r.state == (if !self.sim_present {
                SimState::NotInserted
            } else if self.sim_locked {
                SimState::PinRequired
            } else {
                SimState::Ready
            }),
            self.sim_present ==> (r.iccid matches Some(s) && s@ == "89012345678901234567"@),
            !self.sim_present ==> r.iccid is None,
            self.sim_present && !self.sim_locked ==> (r.imsi matches Some(s) && s@
                == "310260123456789"@),
            !(self.sim_present && !self.sim_locked) ==> r.imsi is None,
            self.sim_present ==> (r.operator_name matches Some(s) && s@ == "Mock Carrier"@),
            !self.sim_present ==> r.operator_name is None,
    {
        SimStatus {
            present: self.sim_present,
            state: if !self.sim_present {
                SimState::NotInserted
            } else if self.sim_locked {
                SimState::PinRequired
            } else {
                SimState::Ready
            },
            iccid: if self.sim_present {
                Some("89012345678901234567".to_string())
            } else {
                None
            },
            imsi: if self.sim_present && !self.sim_locked {
                Some("310260123456789".to_string())
            } else {
                None
            },
            operator_name: if self.sim_present {
                Some("Mock Carrier".to_string())
            } else {
                None
            },
        }
    }

    /// Enters the SIM PIN: the mock PIN "1234" unlocks a locked SIM; an
    /// unlocked SIM accepts anything.
    pub fn verify_pin(&mut self, pin: &str) -> (r: Result<(), HardwareError>)
        ensures
            !old(self).sim_present ==> (r matches Err(HardwareError::SimError(m)) && m@
                == "No SIM card"@),
            old(self).sim_present && !old(self).sim_locked ==> r is Ok,
            old(self).sim_present && old(self).sim_locked && pin@ == mock_pin() ==> r is Ok
                && !final(self).sim_locked,
            old(self).sim_present && old(self).sim_locked && pin@ != mock_pin() ==> (r matches Err(
                HardwareError::SimError(m),
            ) && m@ == "Incorrect PIN"@),
            r is Err ==> *final(self) == *old(self),
            final(self).connected == old(self).connected,
            final(self).sim_present == old(self).sim_present,
            final(self).sim_locked == (old(self).sim_locked && !(old(self).sim_present && pin@
                == mock_pin())),
            final(self).ip_address == old(self).ip_address,
            final(self).connect_time == old(self).connect_time,
    {
        if !self.sim_present {
            return Err(HardwareError::SimError("No SIM card".to_string()));
        }
        if !self.sim_locked {
            return Ok(());
        }
        if str_eq(pin, "1234") {
            self.sim_locked = false;
            Ok(())
        } else {
            Err(HardwareError::SimError("Incorrect PIN".to_string()))
        }
    }

    /// Registration follows the data session.
    pub fn get_registration(&self) -> (r: RegistrationState)
        ensures
            self.connected ==> r == (RegistrationState::Registered { home: true }),
            !self.connected ==> r == RegistrationState::NotRegistered,
    {
        if self.connected {
            RegistrationState::Registered { home: true }
        } else {
            RegistrationState::NotRegistered
        }
    }
}

/// Changes the PIN: the old PIN must be the mock PIN and the new one 4 to 8
/// bytes long.
pub fn mock_change_pin(old_pin: &str, new_pin: &str) -> (r: Result<(), HardwareError>)
    ensures
        old_pin@ != mock_pin() ==> (r matches Err(HardwareError::SimError(m)) && m@
            == "Incorrect PIN"@),
        old_pin@ == mock_pin() && !(4 <= utf8_len(new_pin@) <= 8) ==> (r matches Err(
            HardwareError::SimError(m),
        ) && m@ == "PIN must be 4-8 digits"@),
        old_pin@ == mock_pin() && 4 <= utf8_len(new_pin@) <= 8 ==> r is Ok,
{
    if !str_eq(old_pin, "1234") {
        return Err(HardwareError::SimError("Incorrect PIN".to_string()));
    }
    let c = chars_of(new_pin);
    let n = utf8_len_of(c.as_slice());
    if n < 4 || n > 8 {
        return Err(HardwareError::SimError("PIN must be 4-8 digits".to_string()));
    }
    Ok(())
}

/// Enables or disables the PIN check: only the mock PIN is accepted.
pub fn mock_check_pin(pin: &str) -> (r: Result<(), HardwareError>)
    ensures
        pin@ == mock_pin() ==> r is Ok,
        pin@ != mock_pin() ==> (r matches Err(HardwareError::SimError(m)) && m@
            == "Incorrect PIN"@),
{
    if !str_eq(pin, "1234") {
        return Err(HardwareError::SimError("Incorrect PIN".to_string()));
    }
    Ok(())
}

/// The operators the mock network scan finds.
pub open spec fn mock_operator_codes() -> Seq<Seq<char>> {
    seq!["310260"@, "310410"@, "311480"@]
}

/// Selects a network: automatic, or one of the three scanned operators.
pub fn mock_select_network(operator_code: Option<&str>) -> (r: Result<(), HardwareError>)
    ensures
        match operator_code {
            None => r is Ok,
            Some(c) => if mock_operator_codes().contains(c@) {
                r is Ok
            } else {
                r matches Err(HardwareError::CommandRejected(m)) && m@ == "Unknown operator: "@
                    + c@
            },
        },
{
    match operator_code {
        None => Ok(()),
        Some(code) => {
            if str_eq(code, "310260") || str_eq(code, "310410") || str_eq(code, "311480") {
                proof {
                    if code@ == "310260"@ {
                        assert(mock_operator_codes()[0] == code@);
                    } else if code@ == "310410"@ {
                        assert(mock_operator_codes()[1] == code@);
                    } else {
                        assert(mock_operator_codes()[2] == code@);
                    }
                }
                Ok(())
            } else {
                proof {
                    if mock_operator_codes().contains(code@) {
                        let i = choose|i: int|
                            0 <= i < mock_operator_codes().len() && mock_operator_codes()[i]
                                == code@;
                        assert(i == 0 || i == 1 || i == 2);
                    }
                }
                let mut m = chars_of("Unknown operator: ");
                let c = chars_of(code);
                push_all(&mut m, c.as_slice());
                Err(HardwareError::CommandRejected(string_from_chars(m.as_slice())))
            }
        },
    }
}

/// The networks the mock scan finds: the current carrier and two others.
pub fn mock_scan_networks() -> (r: Vec<AvailableNetwork>)
    ensures
        r@.len() == 3,
        r@[0].operator_code@ == "310260"@ && r@[0].status == NetworkStatus::Current,
        r@[1].operator_code@ == "310410"@ && r@[1].status == NetworkStatus::Available,
        r@[2].operator_code@ == "311480"@ && r@[2].status == NetworkStatus::Available,
        r@[2].technology == Technology::Gen5,
{
    vec![
        AvailableNetwork {
            operator_name: "Mock Carrier".to_string(),
            operator_code: "310260".to_string(),
            technology: Technology::Gen4,
            status: NetworkStatus::Current,
        },
        AvailableNetwork {
            operator_name: "Test Mobile".to_string(),
            operator_code: "310410".to_string(),
            technology: Technology::Gen4,
            status: NetworkStatus::Available,
        },
        AvailableNetwork {
            operator_name: "Demo Network".to_string(),
            operator_code: "311480".to_string(),
            technology: Technology::Gen5,
            status: NetworkStatus::Available,
        },
    ]
}

/// The simulated modem's identity: a Quectel RM520N-GL.
pub fn mock_device_info() -> (r: DeviceInfo)
    ensures
        r.imei@ == "123456789012345"@,
        r.manufacturer@ == "Quectel"@,
        r.model@ == "RM520N-GL"@,
        r.firmware_version@ == "RM520NGLAAR01A07M4G_01.003.01.003"@,
        r.supported_protocols@.len() == 2,
{
    DeviceInfo {
        imei: "123456789012345".to_string(),
        manufacturer: "Quectel".to_string(),
        model: "RM520N-GL".to_string(),
        firmware_version: "RM520NGLAAR01A07M4G_01.003.01.003".to_string(),
        supported_protocols: vec!["qmi".to_string(), "at".to_string()],
    }
}

/// The mock's reply to an MBN profile command (uppercased).
pub open spec fn mock_mbn_reply(up: Seq<char>) -> Seq<char> {
    if contains(up, "\"LIST\""@) {
        "+QMBNCFG: \"List\",0,1,1,\"ROW_Commercial\",0x0A010809,202408051\n+QMBNCFG: \"List\",1,0,0,\"VoLTE-ATT\",0x0A010335,202302241\n+QMBNCFG: \"List\",2,0,0,\"Commercial-TMO\",0x0A01050F,202408301\n+QMBNCFG: \"List\",3,0,0,\"CDMAless-Verizon\",0x0A010126,202506041\n+QMBNCFG: \"List\",4,0,0,\"Commercial-Sprint\",0x0A010204,202302241\n\nOK"@
    } else if contains(up, "\"AUTOSEL\""@) && !contains(up, ","@) {
        "+QMBNCFG: \"AutoSel\",0\n\nOK"@
    } else if contains(up, "\"SELECT\""@) && !contains(up, ","@) {
        "+QMBNCFG: \"Select\",ROW_Commercial\n\nOK"@
    } else {
        "OK"@
    }
}

/// The mock's reply to a band/mode configuration command (uppercased).
pub open spec fn mock_band_reply(up: Seq<char>) -> Seq<char> {
    if contains(up, "MODE_PREF"@) && !contains(up, ","@) {
        "+QNWPREFCFG: \"mode_pref\",AUTO\n\nOK"@
    } else if contains(up, "NR5G_DISABLE_MODE"@) && !contains(up, ","@) {
        "+QNWPREFCFG: \"nr5g_disable_mode\",0\n\nOK"@
    } else if contains(up, "LTE_BAND"@) && !contains(up, ","@) {
        "+QNWPREFCFG: \"lte_band\",1:2:3:4:5:7:8:12:13:14:17:18:19:20:25:26:28:29:30:32:34:38:39:40:41:42:43:46:48:53:66:70:71\n\nOK"@
    } else if contains(up, "NSA_NR5G_BAND"@) && !contains(up, ","@) {
        "+QNWPREFCFG: \"nsa_nr5g_band\",1:2:3:5:7:8:12:13:14:18:20:25:26:28:29:30:38:40:41:48:53:66:70:71:75:76:77:78:79:92:94:257:258:260:261\n\nOK"@
    } else if contains(up, "NR5G_BAND"@) && !contains(up, "NSA"@) && !contains(up, "NRDC"@) && !contains(up, ","@) {
        "+QNWPREFCFG: \"nr5g_band\",1:2:3:5:7:8:12:13:14:18:20:25:26:28:29:30:38:40:41:48:53:66:70:71:75:76:77:78:79:91:92:93:94:257:258:260:261\n\nOK"@
    } else if contains(up, "NRDC_NR5G_BAND"@) && !contains(up, ","@) {
        "+QNWPREFCFG: \"nrdc_nr5g_band\",1:2:3:5:7:8:12:13:14:18:20:25:26:28:29:30:38:40:41:48:53:66:70:71:75:76:77:78:79:91:92:93:94:257:258:260:261\n\nOK"@
    } else if contains(up, "NRDC_MODE"@) && !contains(up, ","@) {
        "+QNWPREFCFG: \"nrdc_mode\",0\n\nOK"@
    } else {
        "OK"@
    }
}

/// The mock's reply to an AT command, given the command uppercased.
pub open spec fn mock_at_reply(s: MockState, up: Seq<char>) -> Seq<char> {
    if up == "AT"@ {
        "OK"@
    } else if up == "ATI"@ {
        "Quectel\nRM520N-GL\nRevision: RM520NGLAAR01A07M4G\n\nOK"@
    } else if up == "AT+CSQ"@ {
        "+CSQ: "@ + decimal(csq_of(s.signal_strength as int) as nat) + ",99\n\nOK"@
    } else if up == "AT+COPS?"@ {
        if s.connected {
            "+COPS: 0,0,\""@ + s.operator@ + "\",7\n\nOK"@
        } else {
            "+COPS: 0\n\nOK"@
        }
    } else if up == "AT+CREG?"@ {
        "+CREG: 0,1\n\nOK"@
    } else if up == "AT+CPIN?"@ {
        if !s.sim_present {
            "+CME ERROR: 10"@
        } else if s.sim_locked {
            "+CPIN: SIM PIN\n\nOK"@
        } else {
            "+CPIN: READY\n\nOK"@
        }
    } else if up == "AT+QUIMSLOT?"@ {
        "+QUIMSLOT: 1\n\nOK"@
    } else if up == "AT+QUIMSLOT=1"@ {
        "OK"@
    } else if up == "AT+QUIMSLOT=2"@ {
        "OK"@
    } else if up == "AT+QINISTAT"@ {
        "+QINISTAT: 7\n\nOK"@
    } else if up == "AT+QSIMSTAT?"@ {
        "+QSIMSTAT: 1,1\n\nOK"@
    } else if up == "AT+QPINC"@ {
        "+QPINC: \"SC\",3,10\n\nOK"@
    } else if up == "AT+QCFG=\"USBNET\""@ {
        "+QCFG: \"usbnet\",0\r\nOK\r\n"@
    } else if up == "AT#USBCFG?"@ {
        "#USBCFG: 3\r\nOK\r\n"@
    } else if starts_with(up, "AT+QUIMSLOT="@) {
        "OK"@
    } else if contains(up, "QMBNCFG"@) {
        mock_mbn_reply(up)
    } else if contains(up, "QNWPREFCFG"@) {
        mock_band_reply(up)
    } else {
        "OK"@
    }
}

/// `s` contains the text `p`.
fn contains_text(s: &[char], p: &str) -> (b: bool)
    ensures
        b == contains(s@, p@),
{
    let pc = chars_of(p);
    contains_seq(s, pc.as_slice())
}

fn mbn_reply(u: &[char]) -> (r: String)
    ensures
        r@ == mock_mbn_reply(u@),
{
    if contains_text(u, "\"LIST\"") {
        "+QMBNCFG: \"List\",0,1,1,\"ROW_Commercial\",0x0A010809,202408051\n+QMBNCFG: \"List\",1,0,0,\"VoLTE-ATT\",0x0A010335,202302241\n+QMBNCFG: \"List\",2,0,0,\"Commercial-TMO\",0x0A01050F,202408301\n+QMBNCFG: \"List\",3,0,0,\"CDMAless-Verizon\",0x0A010126,202506041\n+QMBNCFG: \"List\",4,0,0,\"Commercial-Sprint\",0x0A010204,202302241\n\nOK".to_string()
    } else if contains_text(u, "\"AUTOSEL\"") && !contains_text(u, ",") {
        "+QMBNCFG: \"AutoSel\",0\n\nOK".to_string()
    } else if contains_text(u, "\"SELECT\"") && !contains_text(u, ",") {
        "+QMBNCFG: \"Select\",ROW_Commercial\n\nOK".to_string()
    } else {
        "OK".to_string()
    }
}

fn band_reply(u: &[char]) -> (r: String)
    ensures
        r@ == mock_band_reply(u@),
{
    if contains_text(u, "MODE_PREF") && !contains_text(u, ",") {
        "+QNWPREFCFG: \"mode_pref\",AUTO\n\nOK".to_string()
    } else if contains_text(u, "NR5G_DISABLE_MODE") && !contains_text(u, ",") {
        "+QNWPREFCFG: \"nr5g_disable_mode\",0\n\nOK".to_string()
    } else if contains_text(u, "LTE_BAND") && !contains_text(u, ",") {
        "+QNWPREFCFG: \"lte_band\",1:2:3:4:5:7:8:12:13:14:17:18:19:20:25:26:28:29:30:32:34:38:39:40:41:42:43:46:48:53:66:70:71\n\nOK".to_string()
    } else if contains_text(u, "NSA_NR5G_BAND") && !contains_text(u, ",") {
        "+QNWPREFCFG: \"nsa_nr5g_band\",1:2:3:5:7:8:12:13:14:18:20:25:26:28:29:30:38:40:41:48:53:66:70:71:75:76:77:78:79:92:94:257:258:260:261\n\nOK".to_string()
    } else if contains_text(u, "NR5G_BAND") && !contains_text(u, "NSA") && !contains_text(u, "NRDC") && !contains_text(u, ",") {
        "+QNWPREFCFG: \"nr5g_band\",1:2:3:5:7:8:12:13:14:18:20:25:26:28:29:30:38:40:41:48:53:66:70:71:75:76:77:78:79:91:92:93:94:257:258:260:261\n\nOK".to_string()
    } else if contains_text(u, "NRDC_NR5G_BAND") && !contains_text(u, ",") {
        "+QNWPREFCFG: \"nrdc_nr5g_band\",1:2:3:5:7:8:12:13:14:18:20:25:26:28:29:30:38:40:41:48:53:66:70:71:75:76:77:78:79:91:92:93:94:257:258:260:261\n\nOK".to_string()
    } else if contains_text(u, "NRDC_MODE") && !contains_text(u, ",") {
        "+QNWPREFCFG: \"nrdc_mode\",0\n\nOK".to_string()
    } else {
        "OK".to_string()
    }
}

impl MockState {
    /// The mock's reply to an AT command (matched case-insensitively, by the
    /// command's Unicode uppercase form).
    pub fn execute_at(&self, command: &str) -> (r: String)
        ensures
            r@ == mock_at_reply(*self, unicode_uppercase(command@)),
    {
        let upper = to_uppercase(command);
        let up = upper.as_str();
        if str_eq(up, "AT") {
            "OK".to_string()
        } else if str_eq(up, "ATI") {
            "Quectel\nRM520N-GL\nRevision: RM520NGLAAR01A07M4G\n\nOK".to_string()
        } else if str_eq(up, "AT+CSQ") {
            let x: i64 = self.signal_strength as i64 + 113;
            let csq: u64 = if x <= 0 {
                0
            } else if x / 2 > 31 {
                31
            } else {
                (x / 2) as u64
            };
            let mut v = chars_of("+CSQ: ");
            push_decimal(&mut v, csq);
            let tail = chars_of(",99\n\nOK");
            push_all(&mut v, tail.as_slice());
            string_from_chars(v.as_slice())
        } else if str_eq(up, "AT+COPS?") {
            if self.connected {
                let mut v = chars_of("+COPS: 0,0,\"");
                let op = chars_of(self.operator.as_str());
                push_all(&mut v, op.as_slice());
                let tail = chars_of("\",7\n\nOK");
                push_all(&mut v, tail.as_slice());
                string_from_chars(v.as_slice())
            } else {
                "+COPS: 0\n\nOK".to_string()
            }
        } else if str_eq(up, "AT+CREG?") {
            "+CREG: 0,1\n\nOK".to_string()
        } else if str_eq(up, "AT+CPIN?") {
            if !self.sim_present {
                "+CME ERROR: 10".to_string()
            } else if self.sim_locked {
                "+CPIN: SIM PIN\n\nOK".to_string()
            } else {
                "+CPIN: READY\n\nOK".to_string()
            }
        } else if str_eq(up, "AT+QUIMSLOT?") {
            "+QUIMSLOT: 1\n\nOK".to_string()
        } else if str_eq(up, "AT+QUIMSLOT=1") {
            "OK".to_string()
        } else if str_eq(up, "AT+QUIMSLOT=2") {
            "OK".to_string()
        } else if str_eq(up, "AT+QINISTAT") {
            "+QINISTAT: 7\n\nOK".to_string()
        } else if str_eq(up, "AT+QSIMSTAT?") {
            "+QSIMSTAT: 1,1\n\nOK".to_string()
        } else if str_eq(up, "AT+QPINC") {
            "+QPINC: \"SC\",3,10\n\nOK".to_string()
        } else if str_eq(up, "AT+QCFG=\"USBNET\"") {
            "+QCFG: \"usbnet\",0\r\nOK\r\n".to_string()
        } else if str_eq(up, "AT#USBCFG?") {
            "#USBCFG: 3\r\nOK\r\n".to_string()
        } else {
            let u = chars_of(up);
            let slot = chars_of("AT+QUIMSLOT=");
            if has_prefix(u.as_slice(), slot.as_slice()) {
                "OK".to_string()
            } else if contains_text(u.as_slice(), "QMBNCFG") {
                mbn_reply(u.as_slice())
            } else if contains_text(u.as_slice(), "QNWPREFCFG") {
                band_reply(u.as_slice())
            } else {
                "OK".to_string()
            }
        }
    }
}

} // verus!
