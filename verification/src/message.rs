//! Message chains: a message and the entities (images, files, voice, video, forwarded
//! messages) it is made of.

use vstd::prelude::*;

verus! {

/// Identifies a stored media file on the server.
pub struct IndexNode {
    pub info: Option<FileInfo>,
    pub file_uuid: String,
    pub store_id: u32,
    pub upload_time: u32,
    pub ttl: u32,
    pub sub_type: u32,
}

/// Size, hashes (hex) and name of a stored media file.
pub struct FileInfo {
    pub file_size: u32,
    pub file_hash: String,
    pub file_sha1: String,
    pub file_name: String,
}

/// One part of a media message's description.
pub struct MsgInfoBody {
    pub index: Option<IndexNode>,
}

/// Description of a media message.
pub struct MsgInfo {
    pub msg_info_body: Vec<MsgInfoBody>,
}

/// Where a message was sent.
#[derive(Clone, Copy)]
pub enum MessageType {
    /// In a group.
    Group(u32),
    /// From a friend.
    Friend(u32),
    /// A temporary chat.
    Temp,
    /// Anywhere else.
    Other,
}

/// An image.
pub struct ImageEntity {
    pub url: String,
    pub msg_info: Option<MsgInfo>,
    /// The encoded custom face record the server gave for an uploaded image.
    pub custom_face: Option<Vec<u8>>,
}

/// Forwarded messages, to be downloaded by their resource id when empty.
pub struct MultiMsgEntity {
    pub res_id: String,
    pub chains: Vec<MessageChain>,
}

/// How a group file is found.
pub struct GroupFileUnique {
    pub file_id: Option<String>,
}

/// How a private file is found.
pub struct C2CFileUnique {
    pub file_uuid: Option<String>,
    pub file_hash: Option<String>,
}

/// How a file is found.
pub enum FileUnique {
    Group(GroupFileUnique),
    C2C(C2CFileUnique),
}

/// A file.
pub struct FileEntity {
    pub extra: Option<FileUnique>,
    pub file_url: Option<String>,
}

/// A voice message.
pub struct RecordEntity {
    pub msg_info: Option<MsgInfo>,
    pub audio_uuid: Option<String>,
    pub audio_url: String,
}

/// A video.
pub struct VideoEntity {
    pub file_name: String,
    pub node: Option<IndexNode>,
    pub video_url: String,
}

/// One part of a message.
pub enum Entity {
    Text(String),
    Image(ImageEntity),
    MultiMsg(MultiMsgEntity),
    File(FileEntity),
    Record(RecordEntity),
    Video(VideoEntity),
}

/// A message: where it was sent, the account (uid) it concerns, the friend's number, and its
/// parts.
pub struct MessageChain {
    pub typ: MessageType,
    pub uid: String,
    pub friend_uin: u32,
    pub entities: Vec<Entity>,
}

} // verus!
