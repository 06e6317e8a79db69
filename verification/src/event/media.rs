//! Download links of media: private images, voice messages and files.
//!
//! A link request names the stored file (by index node, or by uuid) and the chat it is in; the
//! answer gives the link's parts, which `parse` joins.

use vstd::prelude::*;
use crate::error::{other_error, EventError};
use crate::message::IndexNode;
use crate::text::{join2, u32_to_string, decimal};

verus! {

/// Where a rich-media link was served from.
pub struct DownloadInfo {
    pub domain: String,
    pub url_path: String,
}

/// The download part of a rich-media answer.
pub struct RichMediaDownload {
    pub info: Option<DownloadInfo>,
    pub r_key_param: String,
}

/// A rich-media answer (`Ntv2RichMediaResp`).
pub struct RichMediaResponse {
    pub download: Option<RichMediaDownload>,
}

/// A rich-media link request, with what sets it apart: the request id, the scene (request
/// type, business type, scene type), the chat (a private chat with a uid, or a group), the
/// stored file, and the command it is sent under.
pub struct RichMediaDownloadRequest {
    pub request_id: u32,
    pub command: u32,
    pub request_type: u32,
    pub business_type: u32,
    pub scene_type: u32,
    pub c2c_target_uid: Option<String>,
    pub group_uin: Option<u32>,
    pub node: IndexNode,
    pub oidb_command: u32,
    pub oidb_sub_command: u32,
}

/// The link a rich-media answer gives: "https://", the domain, the path and the key.
pub open spec fn rich_media_url(d: RichMediaDownload, info: DownloadInfo) -> Seq<char> {
    "https://"@ + info.domain@ + info.url_path@ + d.r_key_param@
}

/// The link a rich-media answer gives, or the `OtherError` naming what it lacks
/// (`missing_download`, `missing_info`).
pub open spec fn rich_media_outcome(
    resp: RichMediaResponse,
    missing_download: Seq<char>,
    missing_info: Seq<char>,
    r: Result<String, EventError>,
) -> bool {
    match resp.download {
        None => r matches Err(e) && other_error(e, missing_download),
        Some(d) => match d.info {
            None => r matches Err(e) && other_error(e, missing_info),
            Some(info) => r matches Ok(url) && url@ == rich_media_url(d, info),
        },
    }
}

fn read_rich_media(resp: RichMediaResponse, missing_download: &str, missing_info: &str) -> (r: Result<
    String,
    EventError,
>)
    ensures
        rich_media_outcome(resp, missing_download@, missing_info@, r),
{
    let d = match resp.download {
        Some(d) => d,
        None => return Err(EventError::OtherError(missing_download.to_string())),
    };
    let info = match &d.info {
        Some(i) => i,
        None => return Err(EventError::OtherError(missing_info.to_string())),
    };
    let a = join2("https://", info.domain.as_str());
    let b = join2(a.as_str(), info.url_path.as_str());
    Ok(join2(b.as_str(), d.r_key_param.as_str()))
}

/// An index node that names a stored file only by its uuid.
pub open spec fn node_of_uuid(file_uuid: String) -> IndexNode {
    IndexNode { info: None, file_uuid, store_id: 0, upload_time: 0, ttl: 0, sub_type: 0 }
}

/// The node a request names: the one given, else one naming the file by its uuid.
pub open spec fn node_or_uuid(node: Option<IndexNode>, file_uuid: String) -> IndexNode {
    match node {
        Some(n) => n,
        None => node_of_uuid(file_uuid),
    }
}

fn copy_node(n: &IndexNode) -> (r: IndexNode)
    ensures
        r == *n,
{
    crate::business::chain_media::copy_index_node(n)
}

fn pick_node(node: &Option<IndexNode>, file_uuid: &String) -> (r: IndexNode)
    ensures
        r == node_or_uuid(*node, *file_uuid),
{
    match node {
        Some(n) => copy_node(n),
        None => IndexNode {
            info: None,
            file_uuid: file_uuid.clone(),
            store_id: 0,
            upload_time: 0,
            ttl: 0,
            sub_type: 0,
        },
    }
}

/// The link of a private image (`OidbSvcTrpcTcp.0x11c5_200`).
pub struct ImageC2CDownloadEvent {
    pub self_uid: String,
    pub index_node: IndexNode,
    pub image_url: String,
}

impl ImageC2CDownloadEvent {
    /// The request: scene 2/1/1 in a private chat with the bot's own uid, for the event's node.
    pub fn build(&self) -> (r: RichMediaDownloadRequest)
        ensures
            r.request_id == 1 && r.command == 200,
            r.request_type == 2 && r.business_type == 1 && r.scene_type == 1,
            r.c2c_target_uid == Some(self.self_uid) && r.group_uin is None,
            r.node == self.index_node,
            r.oidb_command == 0x11c5 && r.oidb_sub_command == 200,
    {
        RichMediaDownloadRequest {
            request_id: 1,
            command: 200,
            request_type: 2,
            business_type: 1,
            scene_type: 1,
            c2c_target_uid: Some(self.self_uid.clone()),
            group_uin: None,
            node: copy_node(&self.index_node),
            oidb_command: 0x11c5,
            oidb_sub_command: 200,
        }
    }

    /// The link the answer gives (see `rich_media_outcome`).
    pub fn parse(resp: RichMediaResponse) -> (r: Result<String, EventError>)
        ensures
            rich_media_outcome(resp, "Missing DownloadResp"@, "Missing DownloadInfo"@, r),
    {
        read_rich_media(resp, "Missing DownloadResp", "Missing DownloadInfo")
    }
}

/// The link of a private voice message (`OidbSvcTrpcTcp.0x126d_200`).
pub struct RecordC2CDownloadEvent {
    pub self_uid: String,
    pub node: Option<IndexNode>,
    pub file_uuid: String,
    pub audio_url: String,
}

impl RecordC2CDownloadEvent {
    /// The request: scene 1/3/1 in a private chat with the bot's own uid, for the event's node,
    /// else the file named by its uuid.
    pub fn build(&self) -> (r: RichMediaDownloadRequest)
        ensures
            r.request_id == 1 && r.command == 200,
            r.request_type == 1 && r.business_type == 3 && r.scene_type == 1,
            r.c2c_target_uid == Some(self.self_uid) && r.group_uin is None,
            r.node == node_or_uuid(self.node, self.file_uuid),
            r.oidb_command == 0x126d && r.oidb_sub_command == 200,
    {
        RichMediaDownloadRequest {
            request_id: 1,
            command: 200,
            request_type: 1,
            business_type: 3,
            scene_type: 1,
            c2c_target_uid: Some(self.self_uid.clone()),
            group_uin: None,
            node: pick_node(&self.node, &self.file_uuid),
            oidb_command: 0x126d,
            oidb_sub_command: 200,
        }
    }

    /// The link the answer gives (see `rich_media_outcome`).
    pub fn parse(resp: RichMediaResponse) -> (r: Result<String, EventError>)
        ensures
            rich_media_outcome(
                resp,
                "Missing Ntv2RichMediaResp download response"@,
                "Missing Ntv2RichMediaResp download info"@,
                r,
            ),
    {
        read_rich_media(
            resp,
            "Missing Ntv2RichMediaResp download response",
            "Missing Ntv2RichMediaResp download info",
        )
    }
}

/// The link of a group voice message (`OidbSvcTrpcTcp.0x126e_200`).
pub struct RecordGroupDownloadEvent {
    pub group_uin: u32,
    pub node: Option<IndexNode>,
    pub file_uuid: String,
    pub audio_url: String,
}

impl RecordGroupDownloadEvent {
    /// The request: scene 1/3/2 in the event's group, for its node, else the file named by its
    /// uuid.
    pub fn build(&self) -> (r: RichMediaDownloadRequest)
        ensures
            r.request_id == 4 && r.command == 200,
            r.request_type == 1 && r.business_type == 3 && r.scene_type == 2,
            r.c2c_target_uid is None && r.group_uin == Some(self.group_uin),
            r.node == node_or_uuid(self.node, self.file_uuid),
            r.oidb_command == 0x126e && r.oidb_sub_command == 200,
    {
        RichMediaDownloadRequest {
            request_id: 4,
            command: 200,
            request_type: 1,
            business_type: 3,
            scene_type: 2,
            c2c_target_uid: None,
            group_uin: Some(self.group_uin),
            node: pick_node(&self.node, &self.file_uuid),
            oidb_command: 0x126e,
            oidb_sub_command: 200,
        }
    }

    /// The link the answer gives (see `rich_media_outcome`).
    pub fn parse(resp: RichMediaResponse) -> (r: Result<String, EventError>)
        ensures
            rich_media_outcome(
                resp,
                "Missing Ntv2RichMediaResp download response"@,
                "Missing Ntv2RichMediaResp download info"@,
                r,
            ),
    {
        read_rich_media(
            resp,
            "Missing Ntv2RichMediaResp download response",
            "Missing Ntv2RichMediaResp download info",
        )
    }
}

/// Where a private file is served from.
pub struct FileDownloadResult {
    pub sso_url: String,
    pub sso_port: u32,
    pub url: String,
}

/// The body of a private file answer.
pub struct FileDownloadBody {
    pub result: Option<FileDownloadResult>,
}

/// A private file answer (`OidbSvcTrpcTcp.0xe37_1200` response).
pub struct FileDownloadResponse {
    pub body: Option<FileDownloadBody>,
}

/// A private file link request (`OidbSvcTrpcTcp.0xe37_1200`): who receives the file, and its
/// uuid and hash, with the request's fixed fields.
pub struct FileDownloadRequest {
    pub sub_command: u32,
    pub field2: u32,
    pub receiver_uid: String,
    pub file_uuid: String,
    pub typ: u32,
    pub file_hash: String,
    pub t2: u32,
    pub field101: u32,
    pub field102: u32,
    pub field200: u32,
    pub field99999: Vec<u8>,
    pub oidb_command: u32,
    pub oidb_sub_command: u32,
}

/// The link of a private file (`OidbSvcTrpcTcp.0xe37_1200`).
pub struct FileC2CDownloadEvent {
    pub sender_uid: Option<String>,
    pub receiver_uid: Option<String>,
    pub file_uuid: Option<String>,
    pub file_hash: Option<String>,
    pub file_url: String,
}

impl FileC2CDownloadEvent {
    /// The request, for the event's receiver, file uuid and hash, all three of which must be
    /// known.
    pub fn build(&self) -> (r: FileDownloadRequest)
        requires
            self.receiver_uid is Some,
            self.file_uuid is Some,
            self.file_hash is Some,
        ensures
            r.receiver_uid == self.receiver_uid.unwrap(),
            r.file_uuid == self.file_uuid.unwrap(),
            r.file_hash == self.file_hash.unwrap(),
            r.sub_command == 1200 && r.field2 == 1 && r.typ == 2 && r.t2 == 0,
            r.field101 == 3 && r.field102 == 103 && r.field200 == 1,
            r.field99999@ == seq![0xC0u8, 0x85u8, 0x2Cu8, 0x01u8],
            r.oidb_command == 0xe37 && r.oidb_sub_command == 1200,
    {
        let field99999: Vec<u8> = vec![0xC0, 0x85, 0x2C, 0x01];
        assert(field99999@ =~= seq![0xC0u8, 0x85u8, 0x2Cu8, 0x01u8]);
        FileDownloadRequest {
            sub_command: 1200,
            field2: 1,
            receiver_uid: self.receiver_uid.as_ref().unwrap().clone(),
            file_uuid: self.file_uuid.as_ref().unwrap().clone(),
            typ: 2,
            file_hash: self.file_hash.as_ref().unwrap().clone(),
            t2: 0,
            field101: 3,
            field102: 103,
            field200: 1,
            field99999,
            oidb_command: 0xe37,
            oidb_sub_command: 1200,
        }
    }

    /// The link the answer gives: "https://", the server, ":", its port in decimal, the path
    /// and "&isthumb=0"; an answer without body or result is an `OtherError` naming it.
    pub fn parse(resp: FileDownloadResponse) -> (r: Result<String, EventError>)
        ensures
            match resp.body {
                None => r matches Err(e) && other_error(
                    e,
                    "Missing OidbSvcTrpcTcp0xE371200responseBody"@,
                ),
                Some(b) => match b.result {
                    None => r matches Err(e) && other_error(
                        e,
                        "Missing OidbSvcTrpcTcp0xE371200result"@,
                    ),
                    Some(res) => r matches Ok(url) && url@ == "https://"@ + res.sso_url@ + ":"@
                        + decimal(res.sso_port as nat) + res.url@ + "&isthumb=0"@,
                },
            },
    {
        let body = match resp.body {
            Some(b) => b,
            None => return Err(
                EventError::OtherError("Missing OidbSvcTrpcTcp0xE371200responseBody".to_string()),
            ),
        };
        let res = match body.result {
            Some(r) => r,
            None => return Err(
                EventError::OtherError("Missing OidbSvcTrpcTcp0xE371200result".to_string()),
            ),
        };
        let a = join2("https://", res.sso_url.as_str());
        let b = join2(a.as_str(), ":");
        let port = u32_to_string(res.sso_port);
        let c = join2(b.as_str(), port.as_str());
        let d = join2(c.as_str(), res.url.as_str());
        Ok(join2(d.as_str(), "&isthumb=0"))
    }
}

} // verus!
