//! Filling in the media of an incoming message: download links of images, files, voice and
//! video, and the content of forwarded messages. The downloads are outside work: for each entity
//! of the chain the logic asks for them one at a time (`chain_entity_query`) and then applies
//! the answers (`resolve_chain_entity`).

use vstd::prelude::*;
use crate::message::{
    Entity, FileEntity, FileInfo, FileUnique, ImageEntity, IndexNode, MessageChain, MessageType,
    MsgInfo, MultiMsgEntity, RecordEntity, VideoEntity,
};
use crate::text::{contains_text, occurs_in};

verus! {

/// Outside work asked for while filling in a chain's media.
pub enum ChainQuery {
    /// The link of a group image: group number, index node.
    DownloadGroupImage(u32, IndexNode),
    /// The link of a private image.
    DownloadC2CImage(IndexNode),
    /// The messages forwarded under a resource id: the chain's uid, the resource id.
    MultiMsgDownload(String, String),
    /// The link of a group file: group number, file id.
    DownloadGroupFile(u32, String),
    /// The link of a private file: its uuid, its hash, the chain's uid.
    DownloadC2CFile(Option<String>, Option<String>, String),
    /// The link of a group voice message by index node.
    DownloadGroupRecordByNode(u32, Option<IndexNode>),
    /// The link of a private voice message by index node.
    DownloadC2CRecordByNode(Option<IndexNode>),
    /// The link of a group voice message by audio uuid.
    DownloadGroupRecordByUuid(u32, String),
    /// The link of a private voice message by audio uuid.
    DownloadC2CRecordByUuid(String),
    /// The uid of an account among a group's members: account number, group number.
    Uin2Uid(u32, u32),
    /// The link of a video: uid, file name, index node, whether in a group.
    DownloadVideo(String, String, Option<IndexNode>, bool),
    /// The link of a group video by the group's own download: group, file name, index node.
    DownloadGroupVideo(u32, String, Option<IndexNode>),
}

/// The view of a `ChainQuery`, with texts as character sequences.
pub ghost enum ChainQueryView {
    DownloadGroupImage(u32, IndexNode),
    DownloadC2CImage(IndexNode),
    MultiMsgDownload(Seq<char>, Seq<char>),
    DownloadGroupFile(u32, Seq<char>),
    DownloadC2CFile(Option<Seq<char>>, Option<Seq<char>>, Seq<char>),
    DownloadGroupRecordByNode(u32, Option<IndexNode>),
    DownloadC2CRecordByNode(Option<IndexNode>),
    DownloadGroupRecordByUuid(u32, Seq<char>),
    DownloadC2CRecordByUuid(Seq<char>),
    Uin2Uid(u32, u32),
    DownloadVideo(Seq<char>, Seq<char>, Option<IndexNode>, bool),
    DownloadGroupVideo(u32, Seq<char>, Option<IndexNode>),
}

/// The view of an optional text.
pub open spec fn opt_view(o: Option<String>) -> Option<Seq<char>> {
    match o {
        Some(s) => Some(s@),
        None => None,
    }
}

/// The view of a query.
pub open spec fn chain_query_view(q: ChainQuery) -> ChainQueryView {
    match q {
        ChainQuery::DownloadGroupImage(g, n) => ChainQueryView::DownloadGroupImage(g, n),
        ChainQuery::DownloadC2CImage(n) => ChainQueryView::DownloadC2CImage(n),
        ChainQuery::MultiMsgDownload(u, r) => ChainQueryView::MultiMsgDownload(u@, r@),
        ChainQuery::DownloadGroupFile(g, f) => ChainQueryView::DownloadGroupFile(g, f@),
        ChainQuery::DownloadC2CFile(a, b, u) => ChainQueryView::DownloadC2CFile(
            opt_view(a),
            opt_view(b),
            u@,
        ),
        ChainQuery::DownloadGroupRecordByNode(g, n) => ChainQueryView::DownloadGroupRecordByNode(g, n),
        ChainQuery::DownloadC2CRecordByNode(n) => ChainQueryView::DownloadC2CRecordByNode(n),
        ChainQuery::DownloadGroupRecordByUuid(g, u) => ChainQueryView::DownloadGroupRecordByUuid(g, u@),
        ChainQuery::DownloadC2CRecordByUuid(u) => ChainQueryView::DownloadC2CRecordByUuid(u@),
        ChainQuery::Uin2Uid(a, g) => ChainQueryView::Uin2Uid(a, g),
        ChainQuery::DownloadVideo(u, f, n, b) => ChainQueryView::DownloadVideo(u@, f@, n, b),
        ChainQuery::DownloadGroupVideo(g, f, n) => ChainQueryView::DownloadGroupVideo(g, f@, n),
    }
}

/// The answer to a query.
pub enum ChainAnswer {
    /// A link or a uid; `None` when the work failed.
    Text(Option<String>),
    /// Forwarded messages; `None` when the work failed or found none.
    Chains(Option<Vec<MessageChain>>),
}

/// The text the `i`-th answer gives, if there is one and it gives one.
pub open spec fn text_answer(answers: Seq<ChainAnswer>, i: int) -> Option<String> {
    if 0 <= i < answers.len() {
        match answers[i] {
            ChainAnswer::Text(o) => o,
            _ => None,
        }
    } else {
        None
    }
}

/// The view of the text the `i`-th answer gives, or the empty text.
pub open spec fn text_answer_or_empty(answers: Seq<ChainAnswer>, i: int) -> Seq<char> {
    match text_answer(answers, i) {
        Some(s) => s@,
        None => Seq::empty(),
    }
}

/// The chains the `i`-th answer gives, if there is one and it gives them.
pub open spec fn chains_answer(answers: Seq<ChainAnswer>, i: int) -> Option<Vec<MessageChain>> {
    if 0 <= i < answers.len() {
        match answers[i] {
            ChainAnswer::Chains(o) => o,
            _ => None,
        }
    } else {
        None
    }
}

/// The index node of the first part of a media description.
pub open spec fn first_index_node(info: Option<MsgInfo>) -> Option<IndexNode> {
    match info {
        Some(i) => if i.msg_info_body@.len() > 0 {
            i.msg_info_body@[0].index
        } else {
            None
        },
        None => None,
    }
}

/// The text that marks a link already signed with its key.
pub open spec fn rkey_marker() -> Seq<char> {
    "&rkey="@
}

/// The next query for entity `e` of a chain of kind `typ`, uid `uid` and friend `friend_uin`,
/// after the answers `answers`; `None` when the entity needs nothing more.
///
/// An image whose link is not yet signed asks for its link, by the first index node of its
/// description (nothing without one). An empty forward asks for its messages. A group file (in
/// a group chain, with an id) or a private file asks for its link. A voice message asks for its
/// link by index node when it has a description, else by its audio uuid. A video in a group asks
/// for the uid of the chain's friend, then for its link with that uid (or the empty uid), then,
/// when that failed, for the group's own link; a private video asks for its link with the
/// chain's uid. Nothing is asked in a chain that is neither a group, a friend nor a temporary
/// chat, and nothing for a text.
pub open spec fn spec_entity_query(
    typ: MessageType,
    uid: Seq<char>,
    friend_uin: u32,
    e: Entity,
    answers: Seq<ChainAnswer>,
) -> Option<ChainQueryView> {
    match e {
        Entity::Text(_) => None,
        Entity::Image(img) => if answers.len() == 0 && !occurs_in(rkey_marker(), img.url@) {
            match first_index_node(img.msg_info) {
                Some(node) => match typ {
                    MessageType::Group(g) => Some(ChainQueryView::DownloadGroupImage(g, node)),
                    MessageType::Friend(_) => Some(ChainQueryView::DownloadC2CImage(node)),
                    MessageType::Temp => Some(ChainQueryView::DownloadC2CImage(node)),
                    MessageType::Other => None,
                },
                None => None,
            }
        } else {
            None
        },
        Entity::MultiMsg(m) => if answers.len() == 0 && m.chains@.len() == 0 {
            Some(ChainQueryView::MultiMsgDownload(uid, m.res_id@))
        } else {
            None
        },
        Entity::File(f) => if answers.len() == 0 {
            match f.extra {
                Some(FileUnique::Group(g)) => match (typ, g.file_id) {
                    (MessageType::Group(gu), Some(id)) => Some(
                        ChainQueryView::DownloadGroupFile(gu, id@),
                    ),
                    _ => None,
                },
                Some(FileUnique::C2C(c)) => Some(
                    ChainQueryView::DownloadC2CFile(opt_view(c.file_uuid), opt_view(c.file_hash), uid),
                ),
                None => None,
            }
        } else {
            None
        },
        Entity::Record(rec) => if answers.len() == 0 {
            if rec.msg_info is Some {
                match typ {
                    MessageType::Group(g) => Some(
                        ChainQueryView::DownloadGroupRecordByNode(g, first_index_node(rec.msg_info)),
                    ),
                    MessageType::Friend(_) => Some(
                        ChainQueryView::DownloadC2CRecordByNode(first_index_node(rec.msg_info)),
                    ),
                    MessageType::Temp => Some(
                        ChainQueryView::DownloadC2CRecordByNode(first_index_node(rec.msg_info)),
                    ),
                    MessageType::Other => None,
                }
            } else {
                match rec.audio_uuid {
                    Some(u) => match typ {
                        MessageType::Group(g) => Some(
                            ChainQueryView::DownloadGroupRecordByUuid(g, u@),
                        ),
                        MessageType::Friend(_) => Some(ChainQueryView::DownloadC2CRecordByUuid(u@)),
                        MessageType::Temp => Some(ChainQueryView::DownloadC2CRecordByUuid(u@)),
                        MessageType::Other => None,
                    },
                    None => None,
                }
            }
        } else {
            None
        },
        Entity::Video(v) => match typ {
            MessageType::Group(g) => if answers.len() == 0 {
                Some(ChainQueryView::Uin2Uid(friend_uin, g))
            } else if answers.len() == 1 {
                Some(
                    ChainQueryView::DownloadVideo(
                        text_answer_or_empty(answers, 0),
                        v.file_name@,
                        v.node,
                        true,
                    ),
                )
            } else if answers.len() == 2 && text_answer(answers, 1) is None {
                Some(ChainQueryView::DownloadGroupVideo(g, v.file_name@, v.node))
            } else {
                None
            },
            MessageType::Friend(_) => if answers.len() == 0 {
                Some(ChainQueryView::DownloadVideo(uid, v.file_name@, v.node, false))
            } else {
                None
            },
            MessageType::Temp => if answers.len() == 0 {
                Some(ChainQueryView::DownloadVideo(uid, v.file_name@, v.node, false))
            } else {
                None
            },
            MessageType::Other => None,
        },
    }
}

/// Whether a voice message asks for its link in a chain of kind `typ`.
pub open spec fn record_asks(typ: MessageType, rec: RecordEntity) -> bool {
    &&& !(typ is Other)
    &&& (rec.msg_info is Some || rec.audio_uuid is Some)
}

/// `r` is entity `e` of a chain of kind `typ` once the answers `answers` are applied.
///
/// A link that was asked for and found replaces the old one (a video in a group takes the link
/// of its first download, else of the group's own); a failed download leaves the entity as it
/// was. Forwarded messages that were found fill an empty forward. A file's link becomes what its
/// download found, `None` on failure; a file with nothing to find it by loses its link; a group
/// file that could not be asked for stays as it was.
pub open spec fn entity_resolved(typ: MessageType, e: Entity, answers: Seq<ChainAnswer>, r: Entity) -> bool {
    match e {
        Entity::Text(_) => r == e,
        Entity::Image(img) => {
            let asked = !occurs_in(rkey_marker(), img.url@) && first_index_node(img.msg_info) is Some
                && !(typ is Other);
            if asked && text_answer(answers, 0) is Some {
                r == Entity::Image(
                    ImageEntity {
                        url: text_answer(answers, 0).unwrap(),
                        msg_info: img.msg_info,
                        custom_face: img.custom_face,
                    },
                )
            } else {
                r == e
            }
        },
        Entity::MultiMsg(m) => if m.chains@.len() == 0 && chains_answer(answers, 0) is Some {
            r == Entity::MultiMsg(
                MultiMsgEntity { res_id: m.res_id, chains: chains_answer(answers, 0).unwrap() },
            )
        } else {
            r == e
        },
        Entity::File(f) => match f.extra {
            None => r == Entity::File(FileEntity { extra: None, file_url: None }),
            Some(FileUnique::Group(g)) => if typ is Group && g.file_id is Some {
                r == Entity::File(FileEntity { extra: f.extra, file_url: text_answer(answers, 0) })
            } else {
                r == e
            },
            Some(FileUnique::C2C(_)) => r == Entity::File(
                FileEntity { extra: f.extra, file_url: text_answer(answers, 0) },
            ),
        },
        Entity::Record(rec) => if record_asks(typ, rec) && text_answer(answers, 0) is Some {
            r == Entity::Record(
                RecordEntity {
                    msg_info: rec.msg_info,
                    audio_uuid: rec.audio_uuid,
                    audio_url: text_answer(answers, 0).unwrap(),
                },
            )
        } else {
            r == e
        },
        Entity::Video(v) => {
            let url = match typ {
                MessageType::Group(_) => if text_answer(answers, 1) is Some {
                    text_answer(answers, 1)
                } else {
                    text_answer(answers, 2)
                },
                MessageType::Other => None,
                _ => text_answer(answers, 0),
            };
            match url {
                Some(u) => r == Entity::Video(
                    VideoEntity { file_name: v.file_name, node: v.node, video_url: u },
                ),
                None => r == e,
            }
        },
    }
}

fn copy_text(s: &String) -> (r: String)
    ensures
        r == *s,
{
    s.clone()
}

fn copy_opt_text(o: &Option<String>) -> (r: Option<String>)
    ensures
        r == *o,
{
    match o {
        Some(s) => Some(s.clone()),
        None => None,
    }
}

fn copy_file_info(f: &FileInfo) -> (r: FileInfo)
    ensures
        r == *f,
{
    FileInfo {
        file_size: f.file_size,
        file_hash: f.file_hash.clone(),
        file_sha1: f.file_sha1.clone(),
        file_name: f.file_name.clone(),
    }
}

/// A copy of an index node.
pub fn copy_index_node(n: &IndexNode) -> (r: IndexNode)
    ensures
        r == *n,
{
    IndexNode {
        info: match &n.info {
            Some(f) => Some(copy_file_info(f)),
            None => None,
        },
        file_uuid: n.file_uuid.clone(),
        store_id: n.store_id,
        upload_time: n.upload_time,
        ttl: n.ttl,
        sub_type: n.sub_type,
    }
}

fn first_node_of(info: &Option<MsgInfo>) -> (r: Option<IndexNode>)
    ensures
        r == first_index_node(*info),
{
    match info {
        Some(i) => if i.msg_info_body.len() > 0 {
            match &i.msg_info_body[0].index {
                Some(n) => Some(copy_index_node(n)),
                None => None,
            }
        } else {
            None
        },
        None => None,
    }
}

fn text_at(answers: &Vec<ChainAnswer>, i: usize) -> (r: Option<String>)
    ensures
        r == text_answer(answers@, i as int),
{
    if i < answers.len() {
        match &answers[i] {
            ChainAnswer::Text(o) => copy_opt_text(o),
            _ => None,
        }
    } else {
        None
    }
}

fn text_or_empty_at(answers: &Vec<ChainAnswer>, i: usize) -> (r: String)
    ensures
        r@ == text_answer_or_empty(answers@, i as int),
{
    match text_at(answers, i) {
        Some(s) => s,
        None => String::new(),
    }
}

/// The next query for entity `e` of a chain of kind `typ`, uid `uid` and friend `friend_uin`,
/// after the answers `answers` (see `spec_entity_query`).
pub fn entity_query(
    typ: MessageType,
    uid: &String,
    friend_uin: u32,
    e: &Entity,
    answers: &Vec<ChainAnswer>,
) -> (r: Option<ChainQuery>)
    ensures
        match r {
            Some(q) => spec_entity_query(typ, uid@, friend_uin, *e, answers@) == Some(
                chain_query_view(q),
            ),
            None => spec_entity_query(typ, uid@, friend_uin, *e, answers@) is None,
        },
{
    let n = answers.len();
    match e {
        Entity::Text(_) => None,
        Entity::Image(img) => {
            if n != 0 || contains_text(img.url.as_str(), "&rkey=") {
                return None;
            }
            match first_node_of(&img.msg_info) {
                Some(node) => match typ {
                    MessageType::Group(g) => Some(ChainQuery::DownloadGroupImage(g, node)),
                    MessageType::Friend(_) => Some(ChainQuery::DownloadC2CImage(node)),
                    MessageType::Temp => Some(ChainQuery::DownloadC2CImage(node)),
                    MessageType::Other => None,
                },
                None => None,
            }
        },
        Entity::MultiMsg(m) => if n == 0 && m.chains.len() == 0 {
            Some(ChainQuery::MultiMsgDownload(copy_text(uid), copy_text(&m.res_id)))
        } else {
            None
        },
        Entity::File(f) => {
            if n != 0 {
                return None;
            }
            match &f.extra {
                Some(FileUnique::Group(g)) => match (typ, &g.file_id) {
                    (MessageType::Group(gu), Some(id)) => Some(
                        ChainQuery::DownloadGroupFile(gu, copy_text(id)),
                    ),
                    _ => None,
                },
                Some(FileUnique::C2C(c)) => Some(
                    ChainQuery::DownloadC2CFile(
                        copy_opt_text(&c.file_uuid),
                        copy_opt_text(&c.file_hash),
                        copy_text(uid),
                    ),
                ),
                None => None,
            }
        },
        Entity::Record(rec) => {
            if n != 0 {
                return None;
            }
            if rec.msg_info.is_some() {
                match typ {
                    MessageType::Group(g) => Some(
                        ChainQuery::DownloadGroupRecordByNode(g, first_node_of(&rec.msg_info)),
                    ),
                    MessageType::Friend(_) => Some(
                        ChainQuery::DownloadC2CRecordByNode(first_node_of(&rec.msg_info)),
                    ),
                    MessageType::Temp => Some(
                        ChainQuery::DownloadC2CRecordByNode(first_node_of(&rec.msg_info)),
                    ),
                    MessageType::Other => None,
                }
            } else {
                match &rec.audio_uuid {
                    Some(u) => match typ {
                        MessageType::Group(g) => Some(
                            ChainQuery::DownloadGroupRecordByUuid(g, copy_text(u)),
                        ),
                        MessageType::Friend(_) => Some(
                            ChainQuery::DownloadC2CRecordByUuid(copy_text(u)),
                        ),
                        MessageType::Temp => Some(ChainQuery::DownloadC2CRecordByUuid(copy_text(u))),
                        MessageType::Other => None,
                    },
                    None => None,
                }
            }
        },
        Entity::Video(v) => {
            let node = match &v.node {
                Some(x) => Some(copy_index_node(x)),
                None => None,
            };
            match typ {
                MessageType::Group(g) => if n == 0 {
                    Some(ChainQuery::Uin2Uid(friend_uin, g))
                } else if n == 1 {
                    Some(
                        ChainQuery::DownloadVideo(
                            text_or_empty_at(answers, 0),
                            copy_text(&v.file_name),
                            node,
                            true,
                        ),
                    )
                } else if n == 2 && text_at(answers, 1).is_none() {
                    Some(ChainQuery::DownloadGroupVideo(g, copy_text(&v.file_name), node))
                } else {
                    None
                },
                MessageType::Friend(_) => if n == 0 {
                    Some(ChainQuery::DownloadVideo(copy_text(uid), copy_text(&v.file_name), node, false))
                } else {
                    None
                },
                MessageType::Temp => if n == 0 {
                    Some(ChainQuery::DownloadVideo(copy_text(uid), copy_text(&v.file_name), node, false))
                } else {
                    None
                },
                MessageType::Other => None,
            }
        },
    }
}

fn first_three(answers: Vec<ChainAnswer>) -> (r: (
    Option<ChainAnswer>,
    Option<ChainAnswer>,
    Option<ChainAnswer>,
))
    ensures
        r.0 == (if answers@.len() > 0 { Some(answers@[0]) } else { None }),
        r.1 == (if answers@.len() > 1 { Some(answers@[1]) } else { None }),
        r.2 == (if answers@.len() > 2 { Some(answers@[2]) } else { None }),
{
    let mut a = answers;
    let n = a.len();
    let a2 = if n > 2 {
        Some(a.remove(2))
    } else {
        None
    };
    let a1 = if n > 1 {
        Some(a.remove(1))
    } else {
        None
    };
    let a0 = if n > 0 {
        Some(a.remove(0))
    } else {
        None
    };
    (a0, a1, a2)
}

fn text_of_answer(a: Option<ChainAnswer>) -> (r: Option<String>)
    ensures
        r == (match a {
            Some(ChainAnswer::Text(o)) => o,
            _ => None,
        }),
{
    match a {
        Some(ChainAnswer::Text(o)) => o,
        _ => None,
    }
}

/// Entity `e` of a chain of kind `typ` once the answers `answers` to its queries are applied
/// (see `entity_resolved`).
pub fn resolve_entity(typ: MessageType, e: Entity, answers: Vec<ChainAnswer>) -> (r: Entity)
    ensures
        entity_resolved(typ, e, answers@, r),
{
    let (a0, a1, a2) = first_three(answers);
    match e {
        Entity::Text(t) => Entity::Text(t),
        Entity::Image(img) => {
            let asked = !contains_text(img.url.as_str(), "&rkey=") && first_node_of(
                &img.msg_info,
            ).is_some() && !matches!(typ, MessageType::Other);
            if asked {
                match text_of_answer(a0) {
                    Some(url) => Entity::Image(
                        ImageEntity { url, msg_info: img.msg_info, custom_face: img.custom_face },
                    ),
                    None => Entity::Image(img),
                }
            } else {
                Entity::Image(img)
            }
        },
        Entity::MultiMsg(m) => {
            if m.chains.len() == 0 {
                match a0 {
                    Some(ChainAnswer::Chains(Some(chains))) => Entity::MultiMsg(
                        MultiMsgEntity { res_id: m.res_id, chains },
                    ),
                    _ => Entity::MultiMsg(m),
                }
            } else {
                Entity::MultiMsg(m)
            }
        },
        Entity::File(f) => match f.extra {
            None => Entity::File(FileEntity { extra: None, file_url: None }),
            Some(FileUnique::Group(g)) => {
                if matches!(typ, MessageType::Group(_)) && g.file_id.is_some() {
                    Entity::File(
                        FileEntity {
                            extra: Some(FileUnique::Group(g)),
                            file_url: text_of_answer(a0),
                        },
                    )
                } else {
                    Entity::File(FileEntity { extra: Some(FileUnique::Group(g)), file_url: f.file_url })
                }
            },
            Some(FileUnique::C2C(c)) => Entity::File(
                FileEntity { extra: Some(FileUnique::C2C(c)), file_url: text_of_answer(a0) },
            ),
        },
        Entity::Record(rec) => {
            let asks = !matches!(typ, MessageType::Other) && (rec.msg_info.is_some()
                || rec.audio_uuid.is_some());
            if asks {
                match text_of_answer(a0) {
                    Some(url) => Entity::Record(
                        RecordEntity {
                            msg_info: rec.msg_info,
                            audio_uuid: rec.audio_uuid,
                            audio_url: url,
                        },
                    ),
                    None => Entity::Record(rec),
                }
            } else {
                Entity::Record(rec)
            }
        },
        Entity::Video(v) => {
            let url = match typ {
                MessageType::Group(_) => {
                    let first = text_of_answer(a1);
                    if first.is_some() {
                        first
                    } else {
                        text_of_answer(a2)
                    }
                },
                MessageType::Other => None,
                _ => text_of_answer(a0),
            };
            match url {
                Some(u) => Entity::Video(
                    VideoEntity { file_name: v.file_name, node: v.node, video_url: u },
                ),
                None => Entity::Video(v),
            }
        },
    }
}

/// The next query for the `i`-th entity of `chain`, after the answers `answers`.
pub fn chain_entity_query(chain: &MessageChain, i: usize, answers: &Vec<ChainAnswer>) -> (r: Option<
    ChainQuery,
>)
    requires
        i < chain.entities@.len(),
    ensures
        match r {
            Some(q) => spec_entity_query(
                chain.typ,
                chain.uid@,
                chain.friend_uin,
                chain.entities@[i as int],
                answers@,
            ) == Some(chain_query_view(q)),
            None => spec_entity_query(
                chain.typ,
                chain.uid@,
                chain.friend_uin,
                chain.entities@[i as int],
                answers@,
            ) is None,
        },
{
    entity_query(chain.typ, &chain.uid, chain.friend_uin, &chain.entities[i], answers)
}

/// Applies the answers `answers` to the `i`-th entity of `chain`; the chain is otherwise left
/// as it was.
pub fn resolve_chain_entity(chain: &mut MessageChain, i: usize, answers: Vec<ChainAnswer>)
    requires
        i < old(chain).entities@.len(),
    ensures
        final(chain).typ == old(chain).typ,
        final(chain).uid == old(chain).uid,
        final(chain).friend_uin == old(chain).friend_uin,
        final(chain).entities@.len() == old(chain).entities@.len(),
        forall|j: int|
            0 <= j < old(chain).entities@.len() && j != i ==> final(chain).entities@[j]
                == old(chain).entities@[j],
        entity_resolved(old(chain).typ, old(chain).entities@[i as int], answers@, final(chain).entities@[i as int]),
{
    let e = chain.entities.remove(i);
    let r = resolve_entity(chain.typ, e, answers);
    chain.entities.insert(i, r);
}

/// Whether two entities are of the same kind.
pub open spec fn same_kind(a: Entity, b: Entity) -> bool {
    match (a, b) {
        (Entity::Text(_), Entity::Text(_)) => true,
        (Entity::Image(_), Entity::Image(_)) => true,
        (Entity::MultiMsg(_), Entity::MultiMsg(_)) => true,
        (Entity::File(_), Entity::File(_)) => true,
        (Entity::Record(_), Entity::Record(_)) => true,
        (Entity::Video(_), Entity::Video(_)) => true,
        _ => false,
    }
}

/// Filling in media never changes an entity's kind.
pub proof fn law_resolving_keeps_kind(typ: MessageType, e: Entity, answers: Seq<ChainAnswer>, r: Entity)
    requires
        entity_resolved(typ, e, answers, r),
    ensures
        same_kind(e, r),
{
}

/// An entity for which nothing is asked is left as it was, whatever the answers; the one
/// exception is a file with nothing to find it by, which loses its link.
pub proof fn law_unasked_entity_unchanged(
    typ: MessageType,
    uid: Seq<char>,
    friend_uin: u32,
    e: Entity,
    answers: Seq<ChainAnswer>,
    r: Entity,
)
    requires
        spec_entity_query(typ, uid, friend_uin, e, Seq::empty()) is None,
        !(e matches Entity::File(f) && f.extra is None),
        entity_resolved(typ, e, answers, r),
    ensures
        r == e,
{
}

/// An image whose link is already signed is never downloaded again and keeps its link.
pub proof fn law_signed_image_kept(
    typ: MessageType,
    uid: Seq<char>,
    friend_uin: u32,
    img: ImageEntity,
    answers: Seq<ChainAnswer>,
    r: Entity,
)
    requires
        occurs_in(rkey_marker(), img.url@),
        entity_resolved(typ, Entity::Image(img), answers, r),
    ensures
        spec_entity_query(typ, uid, friend_uin, Entity::Image(img), answers) is None,
        r == Entity::Image(img),
{
}

/// No entity asks more than three queries.
pub proof fn law_at_most_three_queries(
    typ: MessageType,
    uid: Seq<char>,
    friend_uin: u32,
    e: Entity,
    answers: Seq<ChainAnswer>,
)
    requires
        answers.len() >= 3,
    ensures
        spec_entity_query(typ, uid, friend_uin, e, answers) is None,
{
}

/// `r` is `e` with at most its link changed: an image's url, a forward's messages, a file's
/// link, a voice message's url or a video's url; everything else, and the kind, stay.
pub open spec fn only_link_changed(e: Entity, r: Entity) -> bool {
    match (e, r) {
        (Entity::Text(a), Entity::Text(b)) => a == b,
        (Entity::Image(a), Entity::Image(b)) => a.msg_info == b.msg_info && a.custom_face
            == b.custom_face,
        (Entity::MultiMsg(a), Entity::MultiMsg(b)) => a.res_id == b.res_id,
        (Entity::File(a), Entity::File(b)) => a.extra == b.extra,
        (Entity::Record(a), Entity::Record(b)) => a.msg_info == b.msg_info && a.audio_uuid
            == b.audio_uuid,
        (Entity::Video(a), Entity::Video(b)) => a.file_name == b.file_name && a.node == b.node,
        _ => false,
    }
}

/// `after` is the chain `before` with each entity resolved by its own answers, `answers[i]`
/// belonging to the `i`-th entity; the chain's kind, uid and friend stay.
pub open spec fn chain_resolved(before: MessageChain, answers: Seq<Vec<ChainAnswer>>, after: MessageChain) -> bool {
    &&& after.typ == before.typ
    &&& after.uid == before.uid
    &&& after.friend_uin == before.friend_uin
    &&& answers.len() == before.entities@.len()
    &&& after.entities@.len() == before.entities@.len()
    &&& forall|i: int|
        0 <= i < before.entities@.len() ==> entity_resolved(
            before.typ,
            #[trigger] before.entities@[i],
            answers[i]@,
            after.entities@[i],
        )
}

/// Resolves every entity of `chain` in turn, the `i`-th with `answers[i]` (see
/// `chain_resolved`).
pub fn resolve_chain(chain: &mut MessageChain, answers: Vec<Vec<ChainAnswer>>)
    requires
        answers@.len() == old(chain).entities@.len(),
    ensures
        chain_resolved(*old(chain), answers@, *final(chain)),
{
    let ghost before = *chain;
    let ghost all = answers@;
    let n = answers.len();
    let mut rest = answers;
    let mut i: usize = 0;
    assert(rest@ =~= all.subrange(0, n as int));
    while i < n
        invariant
            n == all.len(),
            n == before.entities@.len(),
            i <= n,
            rest@ =~= all.subrange(i as int, n as int),
            chain.typ == before.typ,
            chain.uid == before.uid,
            chain.friend_uin == before.friend_uin,
            chain.entities@.len() == n,
            forall|j: int|
                0 <= j < i ==> entity_resolved(
                    before.typ,
                    #[trigger] before.entities@[j],
                    all[j]@,
                    chain.entities@[j],
                ),
            forall|j: int| i <= j < n ==> #[trigger] chain.entities@[j] == before.entities@[j],
        decreases n - i,
    {
        let a = rest.remove(0);
        assert(a == all[i as int]);
        resolve_chain_entity(chain, i, a);
        i = i + 1;
    }
}

/// Resolving a whole chain keeps its kind, uid, friend and length, and changes each entity at
/// most in its link.
pub proof fn law_chain_resolution_keeps_shape(
    before: MessageChain,
    answers: Seq<Vec<ChainAnswer>>,
    after: MessageChain,
)
    requires
        chain_resolved(before, answers, after),
    ensures
        after.typ == before.typ,
        after.uid == before.uid,
        after.friend_uin == before.friend_uin,
        after.entities@.len() == before.entities@.len(),
        forall|i: int|
            0 <= i < before.entities@.len() ==> only_link_changed(
                #[trigger] before.entities@[i],
                after.entities@[i],
            ),
{
    assert forall|i: int| 0 <= i < before.entities@.len() implies only_link_changed(
        #[trigger] before.entities@[i],
        after.entities@[i],
    ) by {
        assert(entity_resolved(before.typ, before.entities@[i], answers[i]@, after.entities@[i]));
    }
}

/// A voice message with a media description, before any answer, is asked for by that
/// description's first index node (none when the description has no part): in a group chain
/// through the group's own record download, with the chain's group number; in a friend or
/// temporary chain through the private record download.
pub proof fn law_voice_by_node_follows_chain(
    typ: MessageType,
    uid: Seq<char>,
    friend_uin: u32,
    rec: RecordEntity,
    info: MsgInfo,
)
    requires
        rec.msg_info == Some(info),
    ensures
        ({
            let node = if info.msg_info_body@.len() > 0 {
                info.msg_info_body@[0].index
            } else {
                None
            };
            let q = spec_entity_query(typ, uid, friend_uin, Entity::Record(rec), Seq::empty());
            &&& typ matches MessageType::Group(g) ==> q == Some(
                ChainQueryView::DownloadGroupRecordByNode(g, node),
            )
            &&& (typ is Friend || typ is Temp) ==> q == Some(
                ChainQueryView::DownloadC2CRecordByNode(node),
            )
        }),
{
}

/// A voice message without a media description but with an audio uuid, before any answer, is
/// asked for by that uuid: in a group chain through the group's own download, with the chain's
/// group number; in a friend or temporary chain through the private download.
pub proof fn law_voice_by_uuid_follows_chain(
    typ: MessageType,
    uid: Seq<char>,
    friend_uin: u32,
    rec: RecordEntity,
    uuid: String,
)
    requires
        rec.msg_info is None,
        rec.audio_uuid == Some(uuid),
    ensures
        ({
            let q = spec_entity_query(typ, uid, friend_uin, Entity::Record(rec), Seq::empty());
            &&& typ matches MessageType::Group(g) ==> q == Some(
                ChainQueryView::DownloadGroupRecordByUuid(g, uuid@),
            )
            &&& (typ is Friend || typ is Temp) ==> q == Some(
                ChainQueryView::DownloadC2CRecordByUuid(uuid@),
            )
        }),
{
}

/// An image whose link is not yet signed and whose description starts with an index node,
/// before any answer, is asked for by that node: in a group chain through the group image
/// download with the chain's group number, in a friend or temporary chain through the private
/// one. An image whose link is already signed asks for nothing.
pub proof fn law_image_query_follows_chain(
    typ: MessageType,
    uid: Seq<char>,
    friend_uin: u32,
    img: ImageEntity,
    info: MsgInfo,
    node: IndexNode,
)
    requires
        img.msg_info == Some(info),
        info.msg_info_body@.len() > 0,
        info.msg_info_body@[0].index == Some(node),
    ensures
        ({
            let q = spec_entity_query(typ, uid, friend_uin, Entity::Image(img), Seq::empty());
            &&& occurs_in(rkey_marker(), img.url@) ==> q is None
            &&& !occurs_in(rkey_marker(), img.url@) ==> {
                &&& typ matches MessageType::Group(g) ==> q == Some(
                    ChainQueryView::DownloadGroupImage(g, node),
                )
                &&& (typ is Friend || typ is Temp) ==> q == Some(
                    ChainQueryView::DownloadC2CImage(node),
                )
            }
        }),
{
}

} // verus!
