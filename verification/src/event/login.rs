//! Logging in (`wtlogin.login`): what the server's answer means, and the session it grants.
//!
//! The answer is a set of TLVs. On success its TLV 0x119 holds a second set, encrypted with the
//! session's key: decrypting and reading it is outside work, and `WtLogin::session` reads the
//! session from it.

use vstd::prelude::*;
use crate::codec::{md5_digest, md5_of};
use crate::error::ParseEventError;

verus! {

/// The outcome of a login: 0 on success, else the server's code and message.
pub struct WtLogin {
    pub code: i32,
    pub msg: Option<String>,
}

/// The parts of a login answer the logic reads: its type, the encrypted TLV set (TLV 0x119) and
/// the message of a refusal (TLV 0x146), where present.
pub struct WtLoginAnswer {
    pub typ: u8,
    pub t119_encrypted: Option<Vec<u8>>,
    pub t146_message: Option<String>,
}

/// The account's own profile, as the login grants it (TLV 0x11a).
pub struct AccountInfo {
    pub age: u8,
    pub gender: u8,
    pub name: String,
}

/// The TLVs of the decrypted set that the session is read from, where present.
pub struct WtLoginTlvs {
    /// TLV 0x10a: the ticket-granting ticket.
    pub t10a_tgt: Option<Vec<u8>>,
    /// TLV 0x143: the D2 ticket.
    pub t143_d2: Option<Vec<u8>>,
    /// TLV 0x305: the D2 key.
    pub t305_d2_key: Option<Vec<u8>>,
    /// TLV 0x106: the temporary password.
    pub t106_temp: Option<Vec<u8>>,
    /// TLV 0x543: the account's uid.
    pub t543_uid: Option<String>,
    /// TLV 0x11a: the account's profile.
    pub t11a_info: Option<AccountInfo>,
}

/// The session a successful login grants. `tgtgt` is the MD5 digest of the D2 key.
pub struct WtLoginSession {
    pub tgtgt: Vec<u8>,
    pub tgt: Vec<u8>,
    pub d2: Vec<u8>,
    pub d2_key: Vec<u8>,
    pub temp_password: Vec<u8>,
    pub uid: String,
    pub info: AccountInfo,
}

/// What a login answer leads to: decrypting the TLV set of a success, or an outcome.
pub enum WtLoginStep {
    Decrypt(Vec<u8>),
    Done(WtLogin),
}

impl WtLogin {
    /// What a login answer means. Of type 0 (success) it asks to decrypt TLV 0x119; of any other
    /// type it is a refusal with that code and the message of TLV 0x146. A missing TLV is
    /// `MissingTlv` with its tag.
    pub fn outcome(answer: WtLoginAnswer) -> (r: Result<WtLoginStep, ParseEventError>)
        ensures
            answer.typ == 0 ==> match answer.t119_encrypted {
                Some(enc) => r == Ok::<WtLoginStep, ParseEventError>(WtLoginStep::Decrypt(enc)),
                None => r == Err::<WtLoginStep, ParseEventError>(ParseEventError::MissingTlv(0x119)),
            },
            answer.typ != 0 ==> match answer.t146_message {
                Some(m) => r == Ok::<WtLoginStep, ParseEventError>(
                    WtLoginStep::Done(WtLogin { code: answer.typ as i32, msg: Some(m) }),
                ),
                None => r == Err::<WtLoginStep, ParseEventError>(ParseEventError::MissingTlv(0x146)),
            },
    {
        if answer.typ == 0 {
            match answer.t119_encrypted {
                Some(enc) => Ok(WtLoginStep::Decrypt(enc)),
                None => Err(ParseEventError::MissingTlv(0x119)),
            }
        } else {
            match answer.t146_message {
                Some(m) => Ok(WtLoginStep::Done(WtLogin { code: answer.typ as i32, msg: Some(m) })),
                None => Err(ParseEventError::MissingTlv(0x146)),
            }
        }
    }

    /// Whether the D2 key, when the tickets before it are there, is sixteen bytes long; a key of
    /// any other length cannot be read.
    pub open spec fn d2_key_sized(tlvs: WtLoginTlvs) -> bool {
        (tlvs.t10a_tgt is Some && tlvs.t143_d2 is Some && tlvs.t305_d2_key is Some) ==> tlvs.t305_d2_key.unwrap()@.len() == 16
    }

    /// Whether the D2 key is of a length the session can be read with (see `d2_key_sized`).
    pub fn d2_key_ok(tlvs: &WtLoginTlvs) -> (r: bool)
        ensures
            r == WtLogin::d2_key_sized(*tlvs),
    {
        match (&tlvs.t10a_tgt, &tlvs.t143_d2, &tlvs.t305_d2_key) {
            (Some(_), Some(_), Some(k)) => k.len() == 16,
            _ => true,
        }
    }

    /// The tag of the first TLV the session needs that is missing, in the order the session
    /// reads them: 0x10a, 0x143, 0x305, 0x106, 0x543, 0x11a.
    pub open spec fn first_missing(tlvs: WtLoginTlvs) -> Option<u16> {
        if tlvs.t10a_tgt is None {
            Some(0x10a)
        } else if tlvs.t143_d2 is None {
            Some(0x143)
        } else if tlvs.t305_d2_key is None {
            Some(0x305)
        } else if tlvs.t106_temp is None {
            Some(0x106)
        } else if tlvs.t543_uid is None {
            Some(0x543)
        } else if tlvs.t11a_info is None {
            Some(0x11a)
        } else {
            None
        }
    }

    /// `s` is the session read from the complete TLV set `tlvs`: its tickets, D2 key (sixteen
    /// bytes) and the MD5 digest of that key, temporary password, uid and profile.
    pub open spec fn is_session_of(s: WtLoginSession, tlvs: WtLoginTlvs) -> bool {
        &&& s.tgt == tlvs.t10a_tgt.unwrap()
        &&& s.d2 == tlvs.t143_d2.unwrap()
        &&& s.d2_key == tlvs.t305_d2_key.unwrap()
        &&& s.d2_key@.len() == 16
        &&& s.tgtgt@ == md5_of(s.d2_key@)
        &&& s.temp_password == tlvs.t106_temp.unwrap()
        &&& s.uid == tlvs.t543_uid.unwrap()
        &&& s.info == tlvs.t11a_info.unwrap()
    }

    /// A successful login's outcome and session: the outcome is code 0 with no message, the
    /// session as `session` reads it; the first missing TLV fails the login as there.
    pub fn complete(tlvs: WtLoginTlvs) -> (r: Result<(WtLogin, WtLoginSession), ParseEventError>)
        requires
            WtLogin::d2_key_sized(tlvs),
        ensures
            match WtLogin::first_missing(tlvs) {
                Some(tag) => r matches Err(ParseEventError::MissingTlv(t)) && t == tag,
                None => r matches Ok((w, s)) && w.code == 0 && w.msg is None
                    && WtLogin::is_session_of(s, tlvs),
            },
    {
        match WtLogin::session(tlvs) {
            Ok(s) => Ok((WtLogin { code: 0, msg: None }, s)),
            Err(e) => Err(e),
        }
    }

    /// The session a successful login grants, read from its decrypted TLV set; the first
    /// missing TLV is `MissingTlv` with its tag (see `first_missing`).
    pub fn session(tlvs: WtLoginTlvs) -> (r: Result<WtLoginSession, ParseEventError>)
        requires
            WtLogin::d2_key_sized(tlvs),
        ensures
            match WtLogin::first_missing(tlvs) {
                Some(tag) => r == Err::<WtLoginSession, ParseEventError>(ParseEventError::MissingTlv(tag)),
                None => r matches Ok(s) && WtLogin::is_session_of(s, tlvs),
            },
    {
        let tgt = match tlvs.t10a_tgt {
            Some(t) => t,
            None => return Err(ParseEventError::MissingTlv(0x10a)),
        };
        let d2 = match tlvs.t143_d2 {
            Some(t) => t,
            None => return Err(ParseEventError::MissingTlv(0x143)),
        };
        let d2_key = match tlvs.t305_d2_key {
            Some(t) => t,
            None => return Err(ParseEventError::MissingTlv(0x305)),
        };
        let tgtgt = md5_digest(&d2_key);
        let temp_password = match tlvs.t106_temp {
            Some(t) => t,
            None => return Err(ParseEventError::MissingTlv(0x106)),
        };
        let uid = match tlvs.t543_uid {
            Some(t) => t,
            None => return Err(ParseEventError::MissingTlv(0x543)),
        };
        let info = match tlvs.t11a_info {
            Some(t) => t,
            None => return Err(ParseEventError::MissingTlv(0x11a)),
        };
        Ok(WtLoginSession { tgtgt, tgt, d2, d2_key, temp_password, uid, info })
    }
}

} // verus!
