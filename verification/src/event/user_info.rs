//! A user's profile (`OidbSvcTrpcTcp.0xfe1_2`).
//!
//! The profile lists properties by code, as bytes or as numbers; a later property with a code
//! replaces an earlier one. Three properties are themselves encoded messages: the custom status
//! (27406), the avatar (101) and the paid services (107). `FetchUserInfoEvent::nested_blobs`
//! picks their bytes out for decoding, and `FetchUserInfoEvent::parse` takes what they decode to.

use vstd::prelude::*;
use vstd::utf8::{decode_utf8, valid_utf8};
use crate::entity::{BotStatus, BotUserInfo, BusinessCustom, GenderInfo};
use crate::error::{other_error, EventError};
use crate::proto::{
    Avatar, BusinessIcon, BusinessListRecord, BusinessRecord, BytesProperty, CustomStatus,
    NumberProperty, UserInfoProperties, UserInfoResponse,
};
use crate::text::{decode_utf8_text, join2};
use crate::time::{utc_midnight, utc_midnight_seconds};

verus! {

/// A profile request's result: the profile, the account it is of, and its uid when asked by
/// uid.
pub struct FetchUserInfoEvent {
    pub user_info: BotUserInfo,
    pub uin: u32,
    pub uid: Option<String>,
}

/// The bytes of the last property with code `code`.
pub open spec fn bytes_prop(ps: Seq<BytesProperty>, code: u32) -> Option<Seq<u8>>
    decreases ps.len(),
{
    if ps.len() == 0 {
        None
    } else if ps.last().code == code {
        Some(ps.last().value@)
    } else {
        bytes_prop(ps.drop_last(), code)
    }
}

/// The value of the last number property with code `code`.
pub open spec fn number_prop(ps: Seq<NumberProperty>, code: u32) -> Option<u32>
    decreases ps.len(),
{
    if ps.len() == 0 {
        None
    } else if ps.last().number1 == code {
        Some(ps.last().number2)
    } else {
        number_prop(ps.drop_last(), code)
    }
}

/// The value of number property `code`, or 0.
pub open spec fn number_or_zero(ps: Seq<NumberProperty>, code: u32) -> u32 {
    match number_prop(ps, code) {
        Some(n) => n,
        None => 0,
    }
}

/// The text property `code` holds, when its bytes are UTF-8.
pub open spec fn text_prop(ps: Seq<BytesProperty>, code: u32) -> Option<Seq<char>> {
    match bytes_prop(ps, code) {
        Some(b) => if valid_utf8(b) {
            Some(decode_utf8(b))
        } else {
            None
        },
        None => None,
    }
}

/// The text property `code` holds, or the empty text.
pub open spec fn text_or_empty(ps: Seq<BytesProperty>, code: u32) -> Seq<char> {
    match text_prop(ps, code) {
        Some(t) => t,
        None => Seq::empty(),
    }
}

/// The birthday property (20031), when it is text, starts with the year (two bytes, high byte
/// first), the month and the day; shorter text cannot be read.
pub open spec fn birthday_readable(ps: Seq<BytesProperty>) -> bool {
    match bytes_prop(ps, 20031) {
        Some(b) => valid_utf8(b) ==> b.len() >= 4,
        None => true,
    }
}

/// The birthday as Unix time: midnight UTC of the day property 20031 spells, and the Unix epoch
/// (0) when there is no such text or no such day.
pub open spec fn birthday_of(ps: Seq<BytesProperty>) -> int {
    match bytes_prop(ps, 20031) {
        Some(b) => if valid_utf8(b) {
            let year = (b[0] as int * 256 + b[1] as int) as u16;
            let month = b[2];
            let day = b[3];
            if crate::time::is_calendar_date(year as int, month as int, day as int) {
                utc_midnight_seconds(year as int, month as int, day as int)
            } else {
                0
            }
        } else {
            0
        },
        None => 0,
    }
}

/// The status id (27372), brought below 2^28 once.
pub open spec fn status_id_of(ps: Seq<NumberProperty>) -> u32 {
    let s = number_or_zero(ps, 27372);
    if s > 268435455 {
        (s - 268435456) as u32
    } else {
        s
    }
}

/// The gender number property 20009 stands for.
pub open spec fn gender_of(ps: Seq<NumberProperty>) -> GenderInfo {
    let g = number_or_zero(ps, 20009);
    if g == 1 {
        GenderInfo::Male
    } else if g == 2 {
        GenderInfo::Female
    } else {
        GenderInfo::Unset
    }
}

/// The icon of a paid service: the text of either icon, when not empty.
pub open spec fn icon_of(icon: Option<BusinessIcon>) -> Option<String> {
    match icon {
        Some(BusinessIcon::Icon1(s)) => if s@.len() > 0 {
            Some(s)
        } else {
            None
        },
        Some(BusinessIcon::Icon2(s)) => if s@.len() > 0 {
            Some(s)
        } else {
            None
        },
        None => None,
    }
}

/// `c` is paid service `b` as the library holds it.
pub open spec fn is_business_custom(c: BusinessCustom, b: BusinessListRecord) -> bool {
    &&& c.bus_type == b.typ
    &&& c.level == b.level
    &&& c.icon == icon_of(b.icon)
    &&& c.is_pro == b.is_pro
    &&& c.is_year == b.is_year
}

/// The paid services a decoded property 107 lists (none without one).
pub open spec fn business_lists(business: Option<BusinessRecord>) -> Seq<BusinessListRecord> {
    match business {
        Some(b) => match b.body {
            Some(body) => body.lists@,
            None => Seq::empty(),
        },
        None => Seq::empty(),
    }
}

/// The link of a decoded avatar, or the empty text.
pub open spec fn avatar_url(avatar: Option<Avatar>) -> Seq<char> {
    match avatar {
        Some(a) => match a.url {
            Some(u) => u@,
            None => Seq::empty(),
        },
        None => Seq::empty(),
    }
}

/// `info` is the profile of account `uin` with properties `props`, and decoded custom status,
/// avatar and paid services `custom_status`, `avatar` and `business`.
pub open spec fn is_user_info(
    info: BotUserInfo,
    uin: u32,
    props: UserInfoProperties,
    custom_status: Option<CustomStatus>,
    avatar: Option<Avatar>,
    business: Option<BusinessRecord>,
) -> bool {
    let bp = props.bytes_properties@;
    let np = props.number_properties@;
    &&& info.uin == uin
    &&& info.nickname@ == text_or_empty(bp, 20002)
    &&& info.avatar@ == avatar_url(avatar) + "640"@
    &&& info.birthday == birthday_of(bp)
    &&& info.city@ == text_or_empty(bp, 20020)
    &&& info.country@ == text_or_empty(bp, 20003)
    &&& info.school@ == text_or_empty(bp, 20021)
    &&& info.age == number_or_zero(np, 20037)
    &&& info.register_time == number_or_zero(np, 20026) as u64
    &&& info.gender == gender_of(np)
    &&& (match info.qid {
        Some(q) => text_prop(bp, 27394) == Some(q@),
        None => text_prop(bp, 27394) is None,
    })
    &&& info.level == number_or_zero(np, 105)
    &&& info.sign@ == text_or_empty(bp, 102)
    &&& info.status.status_id == status_id_of(np)
    &&& info.status.face_id == (match custom_status {
        Some(c) => Some(c.face_id),
        None => None,
    })
    &&& info.status.msg == (match custom_status {
        Some(c) => c.msg,
        None => None,
    })
    &&& info.business@.len() == business_lists(business).len()
    &&& forall|i: int|
        0 <= i < info.business@.len() ==> is_business_custom(
            #[trigger] info.business@[i],
            business_lists(business)[i],
        )
}

/// Bytes of the profile that are themselves encoded messages, to be decoded.
pub struct UserInfoBlobs {
    /// Property 27406, when present and not empty.
    pub custom_status: Option<Vec<u8>>,
    /// Property 101.
    pub avatar: Option<Vec<u8>>,
    /// Property 107.
    pub business: Option<Vec<u8>>,
}

fn copy_bytes(v: &Vec<u8>) -> (r: Vec<u8>)
    ensures
        r@ == v@,
{
    let mut r: Vec<u8> = Vec::new();
    let mut i: usize = 0;
    while i < v.len()
        invariant
            i <= v.len(),
            r@ == v@.take(i as int),
        decreases v.len() - i,
    {
        r.push(v[i]);
        i = i + 1;
        assert(r@ =~= v@.take(i as int));
    }
    assert(v@.take(i as int) =~= v@);
    r
}

fn find_bytes(ps: &Vec<BytesProperty>, code: u32) -> (r: Option<Vec<u8>>)
    ensures
        match r {
            Some(b) => bytes_prop(ps@, code) == Some(b@),
            None => bytes_prop(ps@, code) is None,
        },
{
    let mut i: usize = ps.len();
    assert(ps@.take(i as int) =~= ps@);
    while i > 0
        invariant
            i <= ps.len(),
            bytes_prop(ps@, code) == bytes_prop(ps@.take(i as int), code),
        decreases i,
    {
        let ghost before = ps@.take(i as int);
        assert(before.drop_last() =~= ps@.take(i - 1));
        assert(before.last() == ps@[i - 1]);
        if ps[i - 1].code == code {
            return Some(copy_bytes(&ps[i - 1].value));
        }
        i = i - 1;
    }
    assert(ps@.take(0) =~= Seq::<BytesProperty>::empty());
    None
}

fn find_number(ps: &Vec<NumberProperty>, code: u32) -> (r: u32)
    ensures
        r == number_or_zero(ps@, code),
{
    let mut i: usize = ps.len();
    assert(ps@.take(i as int) =~= ps@);
    while i > 0
        invariant
            i <= ps.len(),
            number_prop(ps@, code) == number_prop(ps@.take(i as int), code),
        decreases i,
    {
        let ghost before = ps@.take(i as int);
        assert(before.drop_last() =~= ps@.take(i - 1));
        assert(before.last() == ps@[i - 1]);
        if ps[i - 1].number1 == code {
            return ps[i - 1].number2;
        }
        i = i - 1;
    }
    assert(ps@.take(0) =~= Seq::<NumberProperty>::empty());
    0
}

fn find_text(ps: &Vec<BytesProperty>, code: u32) -> (r: Option<String>)
    ensures
        match r {
            Some(t) => text_prop(ps@, code) == Some(t@),
            None => text_prop(ps@, code) is None,
        },
{
    match find_bytes(ps, code) {
        Some(b) => match decode_utf8_text(b) {
            Ok(s) => Some(s),
            Err(_) => None,
        },
        None => None,
    }
}

fn text_or_empty_of(ps: &Vec<BytesProperty>, code: u32) -> (r: String)
    ensures
        r@ == text_or_empty(ps@, code),
{
    match find_text(ps, code) {
        Some(t) => t,
        None => String::new(),
    }
}

fn read_birthday(ps: &Vec<BytesProperty>) -> (r: i64)
    requires
        birthday_readable(ps@),
    ensures
        r == birthday_of(ps@),
{
    match find_bytes(ps, 20031) {
        Some(b) => {
            if decode_utf8_text(copy_bytes(&b)).is_err() {
                return 0;
            }
            let year: u16 = (b[0] as u16) * 256 + (b[1] as u16);
            let month: u8 = b[2];
            let day: u8 = b[3];
            match utc_midnight(year, month, day) {
                Some(t) => t,
                None => 0,
            }
        },
        None => 0,
    }
}

/// Whether a profile response can be read without failing: its birthday property, if any, is
/// long enough (see `birthday_readable`).
pub open spec fn user_info_readable(response: UserInfoResponse) -> bool {
    match response.body {
        Some(body) => match body.properties {
            Some(props) => birthday_readable(props.bytes_properties@),
            None => true,
        },
        None => true,
    }
}

impl FetchUserInfoEvent {
    /// Whether a profile response can be read (see `user_info_readable`).
    pub fn readable(response: &UserInfoResponse) -> (r: bool)
        ensures
            r == user_info_readable(*response),
    {
        match &response.body {
            Some(body) => match &body.properties {
                Some(props) => match find_bytes(&props.bytes_properties, 20031) {
                    Some(b) => decode_utf8_text(copy_bytes(&b)).is_err() || b.len() >= 4,
                    None => true,
                },
                None => true,
            },
            None => true,
        }
    }
}

fn icon_text(icon: &Option<BusinessIcon>) -> (r: Option<String>)
    ensures
        r == icon_of(*icon),
{
    match icon {
        Some(BusinessIcon::Icon1(s)) => if !s.as_str().is_empty() {
            Some(s.clone())
        } else {
            None
        },
        Some(BusinessIcon::Icon2(s)) => if !s.as_str().is_empty() {
            Some(s.clone())
        } else {
            None
        },
        None => None,
    }
}

fn read_business(business: &Option<BusinessRecord>) -> (r: Vec<BusinessCustom>)
    ensures
        r@.len() == business_lists(*business).len(),
        forall|i: int|
            0 <= i < r@.len() ==> is_business_custom(#[trigger] r@[i], business_lists(*business)[i]),
{
    let mut out: Vec<BusinessCustom> = Vec::new();
    match business {
        Some(b) => match &b.body {
            Some(body) => {
                let mut i: usize = 0;
                while i < body.lists.len()
                    invariant
                        business_lists(*business) == body.lists@,
                        i <= body.lists@.len(),
                        out@.len() == i,
                        forall|j: int|
                            0 <= j < i ==> is_business_custom(#[trigger] out@[j], body.lists@[j]),
                    decreases body.lists.len() - i,
                {
                    let l = &body.lists[i];
                    out.push(
                        BusinessCustom {
                            bus_type: l.typ,
                            level: l.level,
                            icon: icon_text(&l.icon),
                            is_pro: l.is_pro,
                            is_year: l.is_year,
                        },
                    );
                    i = i + 1;
                }
            },
            None => {},
        },
        None => {},
    }
    out
}

impl FetchUserInfoEvent {
    /// The properties that are themselves encoded messages: the custom status (27406, when not
    /// empty), the avatar (101) and the paid services (107).
    pub fn nested_blobs(props: &UserInfoProperties) -> (r: UserInfoBlobs)
        ensures
            match bytes_prop(props.bytes_properties@, 27406) {
                Some(b) => if b.len() > 0 {
                    r.custom_status matches Some(c) && c@ == b
                } else {
                    r.custom_status is None
                },
                None => r.custom_status is None,
            },
            match bytes_prop(props.bytes_properties@, 101) {
                Some(b) => r.avatar matches Some(a) && a@ == b,
                None => r.avatar is None,
            },
            match bytes_prop(props.bytes_properties@, 107) {
                Some(b) => r.business matches Some(x) && x@ == b,
                None => r.business is None,
            },
    {
        let custom_status = match find_bytes(&props.bytes_properties, 27406) {
            Some(b) => if b.len() > 0 {
                Some(b)
            } else {
                None
            },
            None => None,
        };
        UserInfoBlobs {
            custom_status,
            avatar: find_bytes(&props.bytes_properties, 101),
            business: find_bytes(&props.bytes_properties, 107),
        }
    }

    /// Reads a profile, given what its custom status, avatar and paid services decode to
    /// (`None` where a property is missing or does not decode). A response without a body, or a
    /// body without properties, is an `OtherError` saying which; otherwise the profile is read
    /// as `is_user_info` states, and the event names no uid.
    pub fn parse(
        response: UserInfoResponse,
        custom_status: Option<CustomStatus>,
        avatar: Option<Avatar>,
        business: Option<BusinessRecord>,
    ) -> (r: Result<FetchUserInfoEvent, EventError>)
        requires
            user_info_readable(response),
        ensures
            match response.body {
                None => r matches Err(e) && other_error(e, "Missing response body"@),
                Some(body) => match body.properties {
                    None => r matches Err(e) && other_error(e, "Missing properties"@),
                    Some(props) => r matches Ok(ev) && ev.uin == body.uin && ev.uid is None
                        && is_user_info(ev.user_info, body.uin, props, custom_status, avatar, business),
                },
            },
    {
        let body = match response.body {
            Some(b) => b,
            None => return Err(EventError::OtherError("Missing response body".to_string())),
        };
        let props = match body.properties {
            Some(p) => p,
            None => return Err(EventError::OtherError("Missing properties".to_string())),
        };
        let bp = &props.bytes_properties;
        let np = &props.number_properties;
        let birthday = read_birthday(bp);
        let raw_status = find_number(np, 27372);
        let status_id = if raw_status > 268435455 {
            raw_status - 268435456
        } else {
            raw_status
        };
        let gender_code = find_number(np, 20009);
        let gender = if gender_code == 1 {
            GenderInfo::Male
        } else if gender_code == 2 {
            GenderInfo::Female
        } else {
            GenderInfo::Unset
        };
        let url = match &avatar {
            Some(a) => match &a.url {
                Some(u) => u.clone(),
                None => String::new(),
            },
            None => String::new(),
        };
        let (face_id, msg) = match custom_status {
            Some(c) => (Some(c.face_id), c.msg),
            None => (None, None),
        };
        let user_info = BotUserInfo {
            uin: body.uin,
            nickname: text_or_empty_of(bp, 20002),
            avatar: join2(url.as_str(), "640"),
            birthday,
            city: text_or_empty_of(bp, 20020),
            country: text_or_empty_of(bp, 20003),
            school: text_or_empty_of(bp, 20021),
            age: find_number(np, 20037),
            register_time: find_number(np, 20026) as u64,
            gender,
            qid: find_text(bp, 27394),
            level: find_number(np, 105),
            sign: text_or_empty_of(bp, 102),
            status: BotStatus { status_id, face_id, msg },
            business: read_business(&business),
        };
        Ok(FetchUserInfoEvent { user_info, uin: body.uin, uid: None })
    }
}

/// The properties a profile request asks for, in order.
pub open spec fn user_info_keys() -> Seq<u32> {
    seq![
        20002u32, 27394, 20009, 20031, 101, 103, 102, 20022, 20023, 20024, 24002, 27037, 27049,
        20011, 20016, 20021, 20003, 20004, 20005, 20006, 20020, 20026, 24007, 104, 105, 42432,
        42362, 41756, 41757, 42257, 27372, 42315, 107, 45160, 45161, 27406, 62026, 20037,
    ]
}

/// A profile request: by uid when one is given, else by account number, for the properties
/// `keys`.
pub struct UserInfoRequest {
    pub uid: Option<String>,
    pub uin: u32,
    pub keys: Vec<u32>,
}

impl FetchUserInfoEvent {
    /// The request for this profile: by the event's uid when it has one, else by its account
    /// number, for the properties of `user_info_keys`.
    pub fn build(&self) -> (r: UserInfoRequest)
        ensures
            r.uid == self.uid,
            r.uin == self.uin,
            r.keys@ == user_info_keys(),
    {
        let keys: Vec<u32> = vec![
            20002, 27394, 20009, 20031, 101, 103, 102, 20022, 20023, 20024, 24002, 27037, 27049,
            20011, 20016, 20021, 20003, 20004, 20005, 20006, 20020, 20026, 24007, 104, 105, 42432,
            42362, 41756, 41757, 42257, 27372, 42315, 107, 45160, 45161, 27406, 62026, 20037,
        ];
        assert(keys@ =~= user_info_keys());
        UserInfoRequest {
            uid: match &self.uid {
                Some(u) => Some(u.clone()),
                None => None,
            },
            uin: self.uin,
            keys,
        }
    }
}

proof fn lemma_number_prop_at(ps: Seq<NumberProperty>, code: u32, k: int)
    requires
        0 <= k < ps.len(),
        ps[k].number1 == code,
        forall|j: int| k < j < ps.len() ==> ps[j].number1 != code,
    ensures
        number_prop(ps, code) == Some(ps[k].number2),
    decreases ps.len(),
{
    if k < ps.len() - 1 {
        assert(ps.last() == ps[ps.len() - 1]);
        lemma_number_prop_at(ps.drop_last(), code, k);
    }
}

proof fn lemma_number_prop_absent(ps: Seq<NumberProperty>, code: u32)
    requires
        forall|j: int| 0 <= j < ps.len() ==> ps[j].number1 != code,
    ensures
        number_prop(ps, code) is None,
    decreases ps.len(),
{
    if ps.len() > 0 {
        assert(ps.last() == ps[ps.len() - 1]);
        lemma_number_prop_absent(ps.drop_last(), code);
    }
}

/// A profile's gender is read from its last number property 20009: 1 is male, 2 female, any
/// other value unset; without such a property the gender is unset.
pub proof fn law_gender_from_property_20009(
    info: BotUserInfo,
    uin: u32,
    props: UserInfoProperties,
    custom_status: Option<CustomStatus>,
    avatar: Option<Avatar>,
    business: Option<BusinessRecord>,
    k: int,
)
    requires
        is_user_info(info, uin, props, custom_status, avatar, business),
    ensures
        ({
            let np = props.number_properties@;
            &&& (0 <= k < np.len() && np[k].number1 == 20009 && (forall|j: int|
                k < j < np.len() ==> np[j].number1 != 20009)) ==> info.gender == (if np[k].number2 == 1 {
                GenderInfo::Male
            } else if np[k].number2 == 2 {
                GenderInfo::Female
            } else {
                GenderInfo::Unset
            })
            &&& (forall|j: int| 0 <= j < np.len() ==> np[j].number1 != 20009) ==> info.gender
                == GenderInfo::Unset
        }),
{
    let np = props.number_properties@;
    if 0 <= k < np.len() && np[k].number1 == 20009 && (forall|j: int| k < j < np.len() ==> np[j].number1 != 20009) {
        lemma_number_prop_at(np, 20009, k);
    }
    if forall|j: int| 0 <= j < np.len() ==> np[j].number1 != 20009 {
        lemma_number_prop_absent(np, 20009);
    }
}

/// A profile's age is its last number property 20037, its level its last 105 and its
/// registration time its last 20026; each is 0 without such a property.
pub proof fn law_profile_numbers_by_code(
    info: BotUserInfo,
    uin: u32,
    props: UserInfoProperties,
    custom_status: Option<CustomStatus>,
    avatar: Option<Avatar>,
    business: Option<BusinessRecord>,
    code: u32,
    k: int,
)
    requires
        is_user_info(info, uin, props, custom_status, avatar, business),
        code == 20037 || code == 105 || code == 20026,
    ensures
        ({
            let np = props.number_properties@;
            let field: int = if code == 20037 {
                info.age as int
            } else if code == 105 {
                info.level as int
            } else {
                info.register_time as int
            };
            &&& (0 <= k < np.len() && np[k].number1 == code && (forall|j: int|
                k < j < np.len() ==> np[j].number1 != code)) ==> field == np[k].number2
            &&& (forall|j: int| 0 <= j < np.len() ==> np[j].number1 != code) ==> field == 0
        }),
{
    let np = props.number_properties@;
    if 0 <= k < np.len() && np[k].number1 == code && (forall|j: int| k < j < np.len() ==> np[j].number1 != code) {
        lemma_number_prop_at(np, code, k);
    }
    if forall|j: int| 0 <= j < np.len() ==> np[j].number1 != code {
        lemma_number_prop_absent(np, code);
    }
}

proof fn lemma_bytes_prop_at(ps: Seq<BytesProperty>, code: u32, k: int)
    requires
        0 <= k < ps.len(),
        ps[k].code == code,
        forall|j: int| k < j < ps.len() ==> ps[j].code != code,
    ensures
        bytes_prop(ps, code) == Some(ps[k].value@),
    decreases ps.len(),
{
    if k < ps.len() - 1 {
        assert(ps.last() == ps[ps.len() - 1]);
        lemma_bytes_prop_at(ps.drop_last(), code, k);
    }
}

proof fn lemma_bytes_prop_absent(ps: Seq<BytesProperty>, code: u32)
    requires
        forall|j: int| 0 <= j < ps.len() ==> ps[j].code != code,
    ensures
        bytes_prop(ps, code) is None,
    decreases ps.len(),
{
    if ps.len() > 0 {
        assert(ps.last() == ps[ps.len() - 1]);
        lemma_bytes_prop_absent(ps.drop_last(), code);
    }
}

/// A profile's nickname is the text of its last bytes property 20002, its city 20020, its
/// country 20003, its school 20021 and its signature 102: the property's bytes read as UTF-8,
/// and the empty text when there is no such property or its bytes are not UTF-8.
pub proof fn law_profile_texts_by_code(
    info: BotUserInfo,
    uin: u32,
    props: UserInfoProperties,
    custom_status: Option<CustomStatus>,
    avatar: Option<Avatar>,
    business: Option<BusinessRecord>,
    code: u32,
    k: int,
)
    requires
        is_user_info(info, uin, props, custom_status, avatar, business),
        code == 20002 || code == 20020 || code == 20003 || code == 20021 || code == 102,
    ensures
        ({
            let bp = props.bytes_properties@;
            let field = if code == 20002 {
                info.nickname@
            } else if code == 20020 {
                info.city@
            } else if code == 20003 {
                info.country@
            } else if code == 20021 {
                info.school@
            } else {
                info.sign@
            };
            &&& (0 <= k < bp.len() && bp[k].code == code && (forall|j: int|
                k < j < bp.len() ==> bp[j].code != code)) ==> field == (if valid_utf8(bp[k].value@) {
                decode_utf8(bp[k].value@)
            } else {
                Seq::<char>::empty()
            })
            &&& (forall|j: int| 0 <= j < bp.len() ==> bp[j].code != code) ==> field
                == Seq::<char>::empty()
        }),
{
    let bp = props.bytes_properties@;
    if 0 <= k < bp.len() && bp[k].code == code && (forall|j: int| k < j < bp.len() ==> bp[j].code != code) {
        lemma_bytes_prop_at(bp, code, k);
    }
    if forall|j: int| 0 <= j < bp.len() ==> bp[j].code != code {
        lemma_bytes_prop_absent(bp, code);
    }
}

} // verus!
