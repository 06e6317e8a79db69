//! The client's identity: the app it presents itself as, the device it runs on, and the keys
//! of its session.

use vstd::prelude::*;
use crate::event::login::{AccountInfo, WtLoginSession};
use rand::Rng;

verus! {

/// The protocol (platform) the client presents itself as.
#[derive(Clone, Copy, Debug, PartialEq, Eq, Structural)]
pub enum Protocol {
    Windows,
    Linux,
    MacOS,
}

/// What the client tells the server about the app it runs as.
pub struct AppInfo {
    pub os: &'static str,
    pub vendor_os: &'static str,
    pub kernel: &'static str,
    pub current_version: &'static str,
    pub build_version: i32,
    pub misc_bitmap: i32,
    pub pt_version: &'static str,
    pub pt_os_version: i32,
    pub package_name: &'static str,
    pub wt_login_sdk: &'static str,
    pub package_sign: &'static str,
    pub app_id: i32,
    pub sub_app_id: i32,
    pub app_id_qr_code: i32,
    pub app_client_version: u16,
    pub main_sig_map: u32,
    pub sub_sig_map: u16,
    pub nt_login_type: u16,
}

/// The fields every protocol shares.
pub open spec fn common_app_info(a: AppInfo) -> bool {
    &&& a.misc_bitmap == 32764
    &&& a.pt_version@ == "2.0.0"@
    &&& a.package_name@ == "com.tencent.qq"@
    &&& a.wt_login_sdk@ == "nt.wtlogin.0.0.1"@
    &&& a.main_sig_map == 169742560
    &&& a.sub_sig_map == 0
}

/// `a` is the app information of `protocol`.
pub open spec fn is_app_info_of(a: AppInfo, protocol: Protocol) -> bool {
    &&& common_app_info(a)
    &&& match protocol {
        Protocol::Linux => {
            &&& a.os@ == "Linux"@
            &&& a.vendor_os@ == "linux"@
            &&& a.kernel@ == "Linux"@
            &&& a.current_version@ == "3.2.15-30366"@
            &&& a.build_version == 30366
            &&& a.pt_os_version == 19
            &&& a.package_sign@ == "V1_LNX_NQ_3.2.15-30366_RDM_B"@
            &&& a.app_id == 1600001615
            &&& a.sub_app_id == 537258424
            &&& a.app_id_qr_code == 13697054
            &&& a.app_client_version == 30366
            &&& a.nt_login_type == 1
        },
        Protocol::MacOS => {
            &&& a.os@ == "Mac"@
            &&& a.vendor_os@ == "mac"@
            &&& a.kernel@ == "Darwin"@
            &&& a.current_version@ == "6.9.23-20139"@
            &&& a.build_version == 20139
            &&& a.pt_os_version == 23
            &&& a.package_sign@ == "V1_MAC_NQ_6.9.23-20139_RDM_B"@
            &&& a.app_id == 1600001602
            &&& a.sub_app_id == 537200848
            &&& a.app_id_qr_code == 537200848
            &&& a.app_client_version == 13172
            &&& a.nt_login_type == 5
        },
        Protocol::Windows => {
            &&& a.os@ == "Windows"@
            &&& a.vendor_os@ == "win32"@
            &&& a.kernel@ == "Windows_NT"@
            &&& a.current_version@ == "9.9.2-15962"@
            &&& a.build_version == 15962
            &&& a.pt_os_version == 23
            &&& a.package_sign@ == "V1_WIN_NQ_9.9.2-15962_RDM_B"@
            &&& a.app_id == 1600001604
            &&& a.sub_app_id == 537138217
            &&& a.app_id_qr_code == 537138217
            &&& a.app_client_version == 13172
            &&& a.nt_login_type == 5
        },
    }
}

impl AppInfo {
    /// The app information of a protocol.
    pub fn get(protocol: Protocol) -> (r: AppInfo)
        ensures
            is_app_info_of(r, protocol),
    {
        match protocol {
            Protocol::Windows => AppInfo {
                os: "Windows",
                vendor_os: "win32",
                kernel: "Windows_NT",
                current_version: "9.9.2-15962",
                build_version: 15962,
                misc_bitmap: 32764,
                pt_version: "2.0.0",
                pt_os_version: 23,
                package_name: "com.tencent.qq",
                wt_login_sdk: "nt.wtlogin.0.0.1",
                package_sign: "V1_WIN_NQ_9.9.2-15962_RDM_B",
                app_id: 1600001604,
                sub_app_id: 537138217,
                app_id_qr_code: 537138217,
                app_client_version: 13172,
                main_sig_map: 169742560,
                sub_sig_map: 0,
                nt_login_type: 5,
            },
            Protocol::Linux => AppInfo {
                os: "Linux",
                vendor_os: "linux",
                kernel: "Linux",
                current_version: "3.2.15-30366",
                build_version: 30366,
                misc_bitmap: 32764,
                pt_version: "2.0.0",
                pt_os_version: 19,
                package_name: "com.tencent.qq",
                wt_login_sdk: "nt.wtlogin.0.0.1",
                package_sign: "V1_LNX_NQ_3.2.15-30366_RDM_B",
                app_id: 1600001615,
                sub_app_id: 537258424,
                app_id_qr_code: 13697054,
                app_client_version: 30366,
                main_sig_map: 169742560,
                sub_sig_map: 0,
                nt_login_type: 1,
            },
            Protocol::MacOS => AppInfo {
                os: "Mac",
                vendor_os: "mac",
                kernel: "Darwin",
                current_version: "6.9.23-20139",
                build_version: 20139,
                misc_bitmap: 32764,
                pt_version: "2.0.0",
                pt_os_version: 23,
                package_name: "com.tencent.qq",
                wt_login_sdk: "nt.wtlogin.0.0.1",
                package_sign: "V1_MAC_NQ_6.9.23-20139_RDM_B",
                app_id: 1600001602,
                sub_app_id: 537200848,
                app_id_qr_code: 537200848,
                app_client_version: 13172,
                main_sig_map: 169742560,
                sub_sig_map: 0,
                nt_login_type: 5,
            },
        }
    }
}

/// A device's UUID, as its sixteen bytes.
pub struct DeviceUuid {
    pub bytes: [u8; 16],
}

/// The bytes of a UUID.
pub trait ExtendUuid {
    /// The UUID's bytes, in order.
    fn to_bytes(&self) -> &[u8];
}

impl ExtendUuid for DeviceUuid {
    fn to_bytes(&self) -> (r: &[u8])
        ensures
            r@ == self.bytes@,
    {
        self.bytes.as_slice()
    }
}

/// `Uuid::new_v4().into_bytes()`: a random UUID. `uuid` documents it as of version 4 (the high
/// half of byte 6 is 4) and of the RFC 4122 variant (the two high bits of byte 8 are 1, 0);
/// its other bits are random.
#[verifier::external_body]
fn new_uuid_v4() -> (r: [u8; 16])
    ensures
        r@[6] / 16 == 4,
        r@[8] / 64 == 2,
{
    uuid::Uuid::new_v4().into_bytes()
}

/// `rand::thread_rng().gen::<u8>()`: a random byte.
#[verifier::external_body]
fn random_byte() -> (r: u8) {
    rand::thread_rng().gen::<u8>()
}

/// The device the client runs on.
pub struct DeviceInfo {
    pub uuid: DeviceUuid,
    pub mac_address: Vec<u8>,
    pub device_name: String,
    pub system_kernel: String,
    pub kernel_version: String,
}

impl Default for DeviceInfo {
    /// A new device: a random version 4 UUID, a random six-byte MAC address, and the name and
    /// kernel of the client's default device.
    fn default() -> (r: DeviceInfo)
        ensures
            r.uuid.bytes@[6] / 16 == 4,
            r.uuid.bytes@[8] / 64 == 2,
            r.mac_address@.len() == 6,
            r.device_name@ == "Lagrange.Mania"@,
            r.system_kernel@ == "Windows 10.0.19042"@,
            r.kernel_version@ == "10.0.19042.0"@,
    {
        let mut mac_address: Vec<u8> = Vec::new();
        let mut i: usize = 0;
        while i < 6
            invariant
                i <= 6,
                mac_address@.len() == i,
            decreases 6 - i,
        {
            mac_address.push(random_byte());
            i = i + 1;
        }
        DeviceInfo {
            uuid: DeviceUuid { bytes: new_uuid_v4() },
            mac_address,
            device_name: "Lagrange.Mania".to_string(),
            system_kernel: "Windows 10.0.19042".to_string(),
            kernel_version: "10.0.19042.0".to_string(),
        }
    }
}

/// `Utc::now().timestamp()`: the current Unix time in seconds. Nothing is promised of it: it
/// depends on the machine's clock.
#[verifier::external_body]
fn utc_now_seconds() -> (r: i64) {
    chrono::Utc::now().timestamp()
}

/// The keys of the session a login granted, and when it was granted (Unix seconds).
pub struct SessionKeys {
    pub d2_key: Vec<u8>,
    pub d2: Vec<u8>,
    pub tgt: Vec<u8>,
    pub session_date: i64,
    pub temp_password: Option<Vec<u8>>,
}

/// The account's keys and profile.
pub struct KeyStore {
    pub uin: u32,
    pub uid: Option<String>,
    pub password_md5: Vec<u8>,
    pub session: SessionKeys,
    pub info: AccountInfo,
}

/// The number of seconds a session lasts: fifteen days.
pub const SESSION_LIFETIME_SECS: i64 = 1296000;

/// Whether a session granted at `session_date` has expired at `now`: more than fifteen days
/// have passed.
pub open spec fn session_expired_at(session_date: i64, now: i64) -> bool {
    now - session_date > SESSION_LIFETIME_SECS
}

/// Whether the keys are unusable at `now`: the session expired, or a ticket is empty.
pub open spec fn keys_expired_at(ks: KeyStore, now: i64) -> bool {
    session_expired_at(ks.session.session_date, now) || ks.session.d2@.len() == 0
        || ks.session.tgt@.len() == 0
}

impl KeyStore {
    /// Whether the session has expired at `now` (see `session_expired_at`).
    pub fn is_session_expired_at(&self, now: i64) -> (r: bool)
        ensures
            r == session_expired_at(self.session.session_date, now),
    {
        (now as i128) - (self.session.session_date as i128) > (SESSION_LIFETIME_SECS as i128)
    }

    /// Whether the keys are unusable at `now` (see `keys_expired_at`).
    pub fn is_expired_at(&self, now: i64) -> (r: bool)
        ensures
            r == keys_expired_at(*self, now),
    {
        self.is_session_expired_at(now) || self.session.d2.len() == 0 || self.session.tgt.len() == 0
    }

    /// Whether the session has expired now; the time is read from the machine's clock.
    pub fn is_session_expired(&self) -> (r: bool)
        ensures
            exists|now: i64| r == session_expired_at(self.session.session_date, now),
    {
        let now = utc_now_seconds();
        self.is_session_expired_at(now)
    }

    /// Whether the keys are unusable now; the time is read from the machine's clock.
    pub fn is_expired(&self) -> (r: bool)
        ensures
            exists|now: i64| r == keys_expired_at(*self, now),
    {
        let now = utc_now_seconds();
        self.is_expired_at(now)
    }

    /// Keeps the session a login granted at `now` (see `stored_login`).
    pub fn store_login(&mut self, session: WtLoginSession, now: i64)
        ensures
            stored_login(*old(self), session, now, *final(self)),
    {
        self.uid = Some(session.uid);
        self.session.tgt = session.tgt;
        self.session.d2 = session.d2;
        self.session.d2_key = session.d2_key;
        self.session.temp_password = Some(session.temp_password);
        self.session.session_date = now;
        self.info = session.info;
    }
}

/// `after` is `before` once the session a login granted at `now` is kept: its tickets, key,
/// uid, temporary password and profile; the account number and password stay as they were.
pub open spec fn stored_login(before: KeyStore, session: WtLoginSession, now: i64, after: KeyStore) -> bool {
    &&& after.uin == before.uin
    &&& after.password_md5 == before.password_md5
    &&& after.uid == Some(session.uid)
    &&& after.session.tgt == session.tgt
    &&& after.session.d2 == session.d2
    &&& after.session.d2_key == session.d2_key
    &&& after.session.temp_password == Some(session.temp_password)
    &&& after.session.session_date == now
    &&& after.info == session.info
}

/// Keys stored from a login at some time are usable from then on for fifteen days, as long as
/// the login granted tickets that are not empty.
pub proof fn law_fresh_login_not_expired(
    before: KeyStore,
    session: WtLoginSession,
    now: i64,
    after: KeyStore,
    later: i64,
)
    requires
        stored_login(before, session, now, after),
        session.tgt@.len() > 0,
        session.d2@.len() > 0,
        now <= later <= now + SESSION_LIFETIME_SECS,
    ensures
        !keys_expired_at(after, later),
{
}

/// Expiry only comes with time: a session expired at some time is expired at every later time.
pub proof fn law_expiry_is_monotone(session_date: i64, now: i64, later: i64)
    requires
        now <= later,
        session_expired_at(session_date, now),
    ensures
        session_expired_at(session_date, later),
{
}

} // verus!
