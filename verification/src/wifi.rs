//! WiFi configuration: vendor-shaped configuration values built from
//! minimal user input.
//!
//! The init configuration mirrors, constant for constant, the default set
//! the vendor SDK's own default-config macro prescribes; any drift from the
//! targeted vendor header is a correctness bug. The station and
//! access-point configurations hold fixed-size NUL-terminated byte buffers
//! populated by a bounded copy that rejects, rather than truncates, input
//! that cannot fit together with its terminator. Lowering these values to
//! the vendor's C structs, and the vendor calls that consume them, belong
//! to the embedding application.

use vstd::prelude::*;
use vstd::string::StringSliceAdditionalSpecFns;

use crate::error::Error;

verus! {

/// Default number of static receive buffers.
pub const WIFI_STATIC_RX_BUFFER_NUM: i32 = 10;
/// Default number of dynamic receive buffers.
pub const WIFI_DYNAMIC_RX_BUFFER_NUM: i32 = 32;
/// Default transmit buffer type (dynamic).
pub const WIFI_TX_BUFFER_TYPE: i32 = 1;
/// Default number of static transmit buffers.
pub const WIFI_STATIC_TX_BUFFER_NUM: i32 = 0;
/// Default number of dynamic transmit buffers.
pub const WIFI_DYNAMIC_TX_BUFFER_NUM: i32 = 32;
/// Default channel-state-information setting (disabled).
pub const WIFI_CSI_ENABLED: i32 = 0;
/// Default AMPDU receive setting (enabled).
pub const WIFI_AMPDU_RX_ENABLED: i32 = 1;
/// Default AMPDU transmit setting (enabled).
pub const WIFI_AMPDU_TX_ENABLED: i32 = 1;
/// Default NVS-backed storage setting (enabled).
pub const WIFI_NVS_ENABLED: i32 = 1;
/// Default nano formatting setting (disabled).
pub const WIFI_NANO_FORMAT_ENABLED: i32 = 0;
/// Default transmit block-ack window.
pub const WIFI_DEFAULT_TX_BA_WIN: i32 = 6;
/// Default receive block-ack window.
pub const WIFI_DEFAULT_RX_BA_WIN: i32 = 6;
/// Default core the WiFi task is pinned to.
pub const WIFI_TASK_CORE_ID: i32 = 0;
/// Default maximum beacon length for soft-AP mode.
pub const WIFI_SOFTAP_BEACON_MAX_LEN: i32 = 752;
/// Default number of management short buffers.
pub const WIFI_MGMT_SBUF_NUM: i32 = 32;
/// Magic tag the vendor uses to validate an init configuration.
pub const WIFI_INIT_CONFIG_MAGIC: i32 = 0x1F2F3F4F;

/// Vendor scan method: fast scan.
pub const WIFI_FAST_SCAN: u32 = 0;
/// Vendor sort method: connect to the access point with the strongest
/// signal.
pub const WIFI_CONNECT_AP_BY_SIGNAL: u32 = 0;
/// Vendor auth mode: WPA2 pre-shared key.
pub const WIFI_AUTH_WPA2_PSK: u32 = 3;

/// Byte length of the SSID buffers in the vendor configuration structs.
pub const SSID_BUFFER_LEN: usize = 32;
/// Byte length of the password buffers in the vendor configuration structs.
pub const PASSWORD_BUFFER_LEN: usize = 64;
/// Byte length of a BSSID.
pub const BSSID_LEN: usize = 6;

/// Minimal user input for a station configuration: the network name and
/// its password.
pub struct Config {
    pub ssid: &'static str,
    pub password: &'static str,
}

/// A sequence of `n` zero bytes.
pub open spec fn zero_bytes(n: nat) -> Seq<u8> {
    Seq::new(n, |i: int| 0u8)
}

/// What the bounded NUL-terminating copy leaves in its destination: the
/// source bytes, then a terminator, with every byte past the terminator
/// unaltered and the length kept.
pub open spec fn copied_nul(old_bytes: Seq<u8>, src: Seq<u8>, new_bytes: Seq<u8>) -> bool {
    &&& new_bytes.len() == old_bytes.len()
    &&& forall|i: int| 0 <= i < src.len() ==> new_bytes[i] == src[i]
    &&& new_bytes[src.len() as int] == 0u8
    &&& forall|i: int| src.len() < i < old_bytes.len() ==> new_bytes[i] == old_bytes[i]
}

/// Copies `src` into `dest` followed by a terminating zero byte. Rejects
/// with [`Error::InvalidArgument`], writing nothing, whenever the source
/// together with its terminator cannot fit; never truncates.
pub fn copy_to_slice_nul(dest: &mut Vec<u8>, src: &str) -> (r: Result<(), Error>)
    ensures
        src.spec_bytes().len() >= old(dest)@.len() ==> r == Err::<(), Error>(
            Error::InvalidArgument,
        ) && final(dest)@ == old(dest)@,
        src.spec_bytes().len() < old(dest)@.len() ==> r == Ok::<(), Error>(()) && copied_nul(
            old(dest)@,
            src.spec_bytes(),
            final(dest)@,
        ),
{
    let sb: &[u8] = src.as_bytes();
    let len: usize = sb.len();
    if len >= dest.len() {
        return Err(Error::InvalidArgument);
    }
    let mut i: usize = 0;
    while i < len
        invariant
            i <= len,
            len == src.spec_bytes().len(),
            sb@ == src.spec_bytes(),
            len < old(dest)@.len(),
            dest@.len() == old(dest)@.len(),
            forall|j: int| 0 <= j < i ==> dest@[j] == src.spec_bytes()[j],
            forall|j: int| i <= j < dest@.len() ==> dest@[j] == old(dest)@[j],
        decreases len - i,
    {
        let b: u8 = sb[i];
        dest[i] = b;
        i += 1;
    }
    dest[len] = 0;
    Ok(())
}

/// A vector of `n` zero bytes.
pub(crate) fn zero_vec(n: usize) -> (v: Vec<u8>)
    ensures
        v@ =~= zero_bytes(n as nat),
{
    let mut v: Vec<u8> = Vec::new();
    while v.len() < n
        invariant
            v@.len() <= n,
            forall|i: int| 0 <= i < v@.len() ==> v@[i] == 0u8,
        decreases n - v@.len(),
    {
        v.push(0u8);
    }
    v
}

/// The vendor init configuration's numeric fields, populated from the
/// fixed default-constant set above. The vendor struct's remaining fields
/// are its ambient function tables and default event handler, which the
/// embedding application supplies from the vendor globals when it lowers
/// this value to the C struct.
#[derive(Clone, Copy, Debug, PartialEq, Eq, Structural)]
pub struct InitConfig {
    pub static_rx_buf_num: i32,
    pub dynamic_rx_buf_num: i32,
    pub tx_buf_type: i32,
    pub static_tx_buf_num: i32,
    pub dynamic_tx_buf_num: i32,
    pub csi_enable: i32,
    pub ampdu_rx_enable: i32,
    pub ampdu_tx_enable: i32,
    pub nvs_enable: i32,
    pub nano_enable: i32,
    pub tx_ba_win: i32,
    pub rx_ba_win: i32,
    pub wifi_task_core_id: i32,
    pub beacon_max_len: i32,
    pub mgmt_sbuf_num: i32,
    pub magic: i32,
}

impl InitConfig {
    /// The default-constant set, field for field.
    pub open spec fn spec_default() -> InitConfig {
        InitConfig {
            static_rx_buf_num: WIFI_STATIC_RX_BUFFER_NUM,
            dynamic_rx_buf_num: WIFI_DYNAMIC_RX_BUFFER_NUM,
            tx_buf_type: WIFI_TX_BUFFER_TYPE,
            static_tx_buf_num: WIFI_STATIC_TX_BUFFER_NUM,
            dynamic_tx_buf_num: WIFI_DYNAMIC_TX_BUFFER_NUM,
            csi_enable: WIFI_CSI_ENABLED,
            ampdu_rx_enable: WIFI_AMPDU_RX_ENABLED,
            ampdu_tx_enable: WIFI_AMPDU_TX_ENABLED,
            nvs_enable: WIFI_NVS_ENABLED,
            nano_enable: WIFI_NANO_FORMAT_ENABLED,
            tx_ba_win: WIFI_DEFAULT_TX_BA_WIN,
            rx_ba_win: WIFI_DEFAULT_RX_BA_WIN,
            wifi_task_core_id: WIFI_TASK_CORE_ID,
            beacon_max_len: WIFI_SOFTAP_BEACON_MAX_LEN,
            mgmt_sbuf_num: WIFI_MGMT_SBUF_NUM,
            magic: WIFI_INIT_CONFIG_MAGIC,
        }
    }
}

impl Default for InitConfig {
    /// Populates every field with the default-constant set the vendor's
    /// default-config macro prescribes.
    fn default() -> (c: Self)
        ensures
            c == InitConfig::spec_default(),
    {
        InitConfig {
            static_rx_buf_num: WIFI_STATIC_RX_BUFFER_NUM,
            dynamic_rx_buf_num: WIFI_DYNAMIC_RX_BUFFER_NUM,
            tx_buf_type: WIFI_TX_BUFFER_TYPE,
            static_tx_buf_num: WIFI_STATIC_TX_BUFFER_NUM,
            dynamic_tx_buf_num: WIFI_DYNAMIC_TX_BUFFER_NUM,
            csi_enable: WIFI_CSI_ENABLED,
            ampdu_rx_enable: WIFI_AMPDU_RX_ENABLED,
            ampdu_tx_enable: WIFI_AMPDU_TX_ENABLED,
            nvs_enable: WIFI_NVS_ENABLED,
            nano_enable: WIFI_NANO_FORMAT_ENABLED,
            tx_ba_win: WIFI_DEFAULT_TX_BA_WIN,
            rx_ba_win: WIFI_DEFAULT_RX_BA_WIN,
            wifi_task_core_id: WIFI_TASK_CORE_ID,
            beacon_max_len: WIFI_SOFTAP_BEACON_MAX_LEN,
            mgmt_sbuf_num: WIFI_MGMT_SBUF_NUM,
            magic: WIFI_INIT_CONFIG_MAGIC,
        }
    }
}

/// The vendor operating modes of the WiFi driver.
#[derive(Clone, Copy, Debug, PartialEq, Eq, Structural)]
pub enum WifiMode {
    Null,
    Sta,
    Ap,
    ApSta,
}

impl WifiMode {
    /// The vendor mode value.
    pub open spec fn spec_id(self) -> u32 {
        match self {
            WifiMode::Null => 0u32,
            WifiMode::Sta => 1u32,
            WifiMode::Ap => 2u32,
            WifiMode::ApSta => 3u32,
        }
    }

    /// Executable form of [`WifiMode::spec_id`].
    pub fn id(self) -> (r: u32)
        ensures
            r == self.spec_id(),
    {
        match self {
            WifiMode::Null => 0u32,
            WifiMode::Sta => 1u32,
            WifiMode::Ap => 2u32,
            WifiMode::ApSta => 3u32,
        }
    }
}

/// The vendor interface an applied configuration targets. Applying a
/// station or access-point configuration must name the matching interface.
#[derive(Clone, Copy, Debug, PartialEq, Eq, Structural)]
pub enum Interface {
    WifiSta,
    WifiAp,
    Eth,
}

impl Interface {
    /// The vendor interface value.
    pub open spec fn spec_id(self) -> u32 {
        match self {
            Interface::WifiSta => 0u32,
            Interface::WifiAp => 1u32,
            Interface::Eth => 2u32,
        }
    }

    /// Executable form of [`Interface::spec_id`].
    pub fn id(self) -> (r: u32)
        ensures
            r == self.spec_id(),
    {
        match self {
            Interface::WifiSta => 0u32,
            Interface::WifiAp => 1u32,
            Interface::Eth => 2u32,
        }
    }
}

/// The access-point half of the vendor configuration union, with its
/// fixed-size buffers held as plain byte vectors.
pub struct ApConfig {
    pub ssid: Vec<u8>,
    pub password: Vec<u8>,
    pub ssid_len: u8,
    pub channel: u8,
    pub authmode: u32,
    pub ssid_hidden: u8,
    pub max_connection: u8,
    pub beacon_interval: u16,
}

impl ApConfig {
    /// The buffers have the lengths the vendor struct fixes.
    pub open spec fn wf(self) -> bool {
        &&& self.ssid@.len() == SSID_BUFFER_LEN
        &&& self.password@.len() == PASSWORD_BUFFER_LEN
    }
}

/// The station half of the vendor configuration union: a default baseline
/// (fast scan, strongest-signal sort, an RSSI floor and a WPA2 auth-mode
/// floor) whose SSID and password are set through the bounded copy.
pub struct StaConfig {
    ssid: Vec<u8>,
    password: Vec<u8>,
    scan_method: u32,
    bssid_set: bool,
    bssid: Vec<u8>,
    channel: u8,
    listen_interval: u16,
    sort_method: u32,
    threshold_rssi: i8,
    threshold_authmode: u32,
}

/// The mathematical value of a station configuration: its buffers as byte
/// sequences beside its plain fields.
pub ghost struct StaConfigV {
    pub ssid: Seq<u8>,
    pub password: Seq<u8>,
    pub scan_method: u32,
    pub bssid_set: bool,
    pub bssid: Seq<u8>,
    pub channel: u8,
    pub listen_interval: u16,
    pub sort_method: u32,
    pub threshold_rssi: i8,
    pub threshold_authmode: u32,
}

impl View for StaConfig {
    type V = StaConfigV;

    closed spec fn view(&self) -> StaConfigV {
        StaConfigV {
            ssid: self.ssid@,
            password: self.password@,
            scan_method: self.scan_method,
            bssid_set: self.bssid_set,
            bssid: self.bssid@,
            channel: self.channel,
            listen_interval: self.listen_interval,
            sort_method: self.sort_method,
            threshold_rssi: self.threshold_rssi,
            threshold_authmode: self.threshold_authmode,
        }
    }
}

impl StaConfigV {
    /// The buffers have the lengths the vendor struct fixes.
    pub open spec fn wf(self) -> bool {
        &&& self.ssid.len() == SSID_BUFFER_LEN
        &&& self.password.len() == PASSWORD_BUFFER_LEN
        &&& self.bssid.len() == BSSID_LEN
    }

    /// Everything but the SSID buffer agrees between the two values.
    pub open spec fn frame_except_ssid(self, other: StaConfigV) -> bool {
        &&& self.password == other.password
        &&& self.scan_method == other.scan_method
        &&& self.bssid_set == other.bssid_set
        &&& self.bssid == other.bssid
        &&& self.channel == other.channel
        &&& self.listen_interval == other.listen_interval
        &&& self.sort_method == other.sort_method
        &&& self.threshold_rssi == other.threshold_rssi
        &&& self.threshold_authmode == other.threshold_authmode
    }

    /// Everything but the password buffer agrees between the two values.
    pub open spec fn frame_except_password(self, other: StaConfigV) -> bool {
        &&& self.ssid == other.ssid
        &&& self.scan_method == other.scan_method
        &&& self.bssid_set == other.bssid_set
        &&& self.bssid == other.bssid
        &&& self.channel == other.channel
        &&& self.listen_interval == other.listen_interval
        &&& self.sort_method == other.sort_method
        &&& self.threshold_rssi == other.threshold_rssi
        &&& self.threshold_authmode == other.threshold_authmode
    }

    /// The non-buffer fields hold the baseline values: fast scan,
    /// strongest-signal sort, no fixed BSSID, the RSSI floor at its lowest
    /// and the auth-mode floor at WPA2.
    pub open spec fn baseline_frame(self) -> bool {
        &&& self.scan_method == WIFI_FAST_SCAN
        &&& self.bssid_set == false
        &&& self.bssid =~= zero_bytes(BSSID_LEN as nat)
        &&& self.channel == 0u8
        &&& self.listen_interval == 0u16
        &&& self.sort_method == WIFI_CONNECT_AP_BY_SIGNAL
        &&& self.threshold_rssi == -127i8
        &&& self.threshold_authmode == WIFI_AUTH_WPA2_PSK
    }

    /// The whole default baseline: zeroed buffers over the baseline frame.
    pub open spec fn is_baseline(self) -> bool {
        &&& self.ssid =~= zero_bytes(SSID_BUFFER_LEN as nat)
        &&& self.password =~= zero_bytes(PASSWORD_BUFFER_LEN as nat)
        &&& self.baseline_frame()
    }
}

impl StaConfig {
    /// The buffers have the lengths the vendor struct fixes.
    pub open spec fn wf(self) -> bool {
        self@.wf()
    }

    /// The default baseline value.
    pub fn new() -> (s: Self)
        ensures
            s.wf(),
            s@.is_baseline(),
    {
        StaConfig {
            ssid: zero_vec(SSID_BUFFER_LEN),
            password: zero_vec(PASSWORD_BUFFER_LEN),
            scan_method: WIFI_FAST_SCAN,
            bssid_set: false,
            bssid: zero_vec(BSSID_LEN),
            channel: 0,
            listen_interval: 0,
            sort_method: WIFI_CONNECT_AP_BY_SIGNAL,
            threshold_rssi: -127,
            threshold_authmode: WIFI_AUTH_WPA2_PSK,
        }
    }

    /// Builds a station configuration from user input: the baseline with
    /// the given SSID and password copied into their buffers. Fails with
    /// [`Error::InvalidArgument`] exactly when either string, with its
    /// terminator, cannot fit its buffer.
    pub fn from(config: &Config) -> (r: Result<Self, Error>)
        ensures
            (config.ssid.spec_bytes().len() >= SSID_BUFFER_LEN
                || config.password.spec_bytes().len() >= PASSWORD_BUFFER_LEN) ==> r
                == Err::<StaConfig, Error>(Error::InvalidArgument),
            config.ssid.spec_bytes().len() < SSID_BUFFER_LEN && config.password.spec_bytes().len()
                < PASSWORD_BUFFER_LEN ==> {
                &&& r is Ok
                &&& r->Ok_0.wf()
                &&& copied_nul(
                    zero_bytes(SSID_BUFFER_LEN as nat),
                    config.ssid.spec_bytes(),
                    r->Ok_0@.ssid,
                )
                &&& copied_nul(
                    zero_bytes(PASSWORD_BUFFER_LEN as nat),
                    config.password.spec_bytes(),
                    r->Ok_0@.password,
                )
                &&& r->Ok_0@.baseline_frame()
            },
    {
        let mut retval = Self::new();
        match retval.set_ssid(config.ssid) {
            Err(e) => Err(e),
            Ok(()) => match retval.set_password(config.password) {
                Err(e) => Err(e),
                Ok(()) => Ok(retval),
            },
        }
    }

    /// Copies the given SSID, NUL-terminated, into the SSID buffer through
    /// the bounded copy; rejects without writing when it cannot fit.
    pub fn set_ssid(&mut self, ssid: &str) -> (r: Result<(), Error>)
        requires
            old(self).wf(),
        ensures
            final(self).wf(),
            old(self)@.frame_except_ssid(final(self)@),
            ssid.spec_bytes().len() >= SSID_BUFFER_LEN ==> r == Err::<(), Error>(
                Error::InvalidArgument,
            ) && final(self)@.ssid == old(self)@.ssid,
            ssid.spec_bytes().len() < SSID_BUFFER_LEN ==> r == Ok::<(), Error>(()) && copied_nul(
                old(self)@.ssid,
                ssid.spec_bytes(),
                final(self)@.ssid,
            ),
    {
        copy_to_slice_nul(&mut self.ssid, ssid)
    }

    /// Copies the given password, NUL-terminated, into the password buffer
    /// through the bounded copy; rejects without writing when it cannot
    /// fit.
    pub fn set_password(&mut self, password: &str) -> (r: Result<(), Error>)
        requires
            old(self).wf(),
        ensures
            final(self).wf(),
            old(self)@.frame_except_password(final(self)@),
            password.spec_bytes().len() >= PASSWORD_BUFFER_LEN ==> r == Err::<(), Error>(
                Error::InvalidArgument,
            ) && final(self)@.password == old(self)@.password,
            password.spec_bytes().len() < PASSWORD_BUFFER_LEN ==> r == Ok::<(), Error>(())
                && copied_nul(old(self)@.password, password.spec_bytes(), final(self)@.password),
    {
        copy_to_slice_nul(&mut self.password, password)
    }

    /// The SSID buffer.
    pub fn ssid(&self) -> (r: &Vec<u8>)
        ensures
            r@ == self@.ssid,
    {
        &self.ssid
    }

    /// The password buffer.
    pub fn password(&self) -> (r: &Vec<u8>)
        ensures
            r@ == self@.password,
    {
        &self.password
    }

    /// The scan method.
    pub fn scan_method(&self) -> (r: u32)
        ensures
            r == self@.scan_method,
    {
        self.scan_method
    }

    /// Whether a fixed BSSID is set.
    pub fn bssid_set(&self) -> (r: bool)
        ensures
            r == self@.bssid_set,
    {
        self.bssid_set
    }

    /// The fixed BSSID buffer.
    pub fn bssid(&self) -> (r: &Vec<u8>)
        ensures
            r@ == self@.bssid,
    {
        &self.bssid
    }

    /// The channel.
    pub fn channel(&self) -> (r: u8)
        ensures
            r == self@.channel,
    {
        self.channel
    }

    /// The listen interval.
    pub fn listen_interval(&self) -> (r: u16)
        ensures
            r == self@.listen_interval,
    {
        self.listen_interval
    }

    /// The sort method.
    pub fn sort_method(&self) -> (r: u32)
        ensures
            r == self@.sort_method,
    {
        self.sort_method
    }

    /// The RSSI threshold.
    pub fn threshold_rssi(&self) -> (r: i8)
        ensures
            r == self@.threshold_rssi,
    {
        self.threshold_rssi
    }

    /// The auth-mode threshold.
    pub fn threshold_authmode(&self) -> (r: u32)
        ensures
            r == self@.threshold_authmode,
    {
        self.threshold_authmode
    }
}

} // verus!
