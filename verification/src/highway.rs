//! Uploading a group image: the request that announces it, and what the server's answer asks
//! to upload. Reading the image, hashing it and sending it over the highway are outside work.

use vstd::prelude::*;
use crate::codec::{
    hex_bytes, hex_decode, hex_encode, hex_error_debug, hex_lower, is_hex_text, md5_digest, md5_of,
    sha1_digest, sha1_of,
};
use crate::error::{generic_error, ManiaError};
use crate::message::{ImageEntity, IndexNode, MsgInfo};
use crate::text::join2;

verus! {

/// The request that announces a group image to the server.
pub struct ImageGroupUploadArgs {
    pub group_uin: u32,
    pub size: u32,
    pub name: String,
    pub md5: Vec<u8>,
    pub sha1: Vec<u8>,
    pub pic_type: u32,
    pub sub_type: u32,
    pub summary: String,
    pub width: u32,
    pub height: u32,
}

/// The name of an uploaded image: its path when it has one, else its SHA-1 in hex, a dot and
/// the name of its format.
pub open spec fn image_name(file_path: Option<String>, sha1: Seq<u8>, format_name: Seq<char>) -> Seq<char> {
    match file_path {
        Some(p) => p@,
        None => hex_lower(sha1) + "."@ + format_name,
    }
}

/// The summary of an uploaded image: its own, else "[图片]".
pub open spec fn image_summary(summary: Option<String>) -> Seq<char> {
    match summary {
        Some(s) => s@,
        None => "[图片]"@,
    }
}

/// The request announcing image data of `size` bytes to group `group_uin`, with digests `md5`
/// and `sha1`, its format (code and name), its dimensions, sub type, path and summary (see
/// `image_name` and `image_summary`).
pub fn image_group_upload_args(
    group_uin: u32,
    size: u32,
    file_path: Option<String>,
    md5: Vec<u8>,
    sha1: Vec<u8>,
    format_code: u32,
    format_name: &str,
    width: u32,
    height: u32,
    sub_type: u32,
    summary: Option<String>,
) -> (r: ImageGroupUploadArgs)
    ensures
        r.group_uin == group_uin,
        r.size == size,
        r.name@ == image_name(file_path, sha1@, format_name@),
        r.md5@ == md5@,
        r.sha1@ == sha1@,
        r.pic_type == format_code,
        r.sub_type == sub_type,
        r.summary@ == image_summary(summary),
        r.width == width,
        r.height == height,
{
    let name = match file_path {
        Some(p) => p,
        None => {
            let hex = hex_encode(&sha1);
            let dotted = join2(hex.as_str(), ".");
            join2(dotted.as_str(), format_name)
        },
    };
    let summary = match summary {
        Some(s) => s,
        None => "[图片]".to_string(),
    };
    ImageGroupUploadArgs {
        group_uin,
        size,
        name,
        md5,
        sha1,
        pic_type: format_code,
        sub_type,
        summary,
        width,
        height,
    }
}

/// What to send over the highway: the stored file, the upload key, and the digests the server
/// expects.
pub struct HighwayUpload {
    pub file_uuid: String,
    pub u_key: String,
    pub sha1: Vec<u8>,
    pub md5: Vec<u8>,
}

/// The stored file the server's answer describes first, if it describes one.
pub open spec fn first_node(info: MsgInfo) -> Option<IndexNode> {
    if info.msg_info_body@.len() > 0 {
        info.msg_info_body@[0].index
    } else {
        None
    }
}

/// What the server's answer to an image announcement (upload key `u_key`, description
/// `msg_info`) asks to upload. Without a key nothing is uploaded. With one, the first part of
/// the description must name a stored file with its hashes, each valid hex text; otherwise the
/// answer is refused with a `GenericError` saying what is missing or what did not decode.
pub open spec fn upload_planned(u_key: Option<String>, msg_info: MsgInfo, r: Result<Option<HighwayUpload>, ManiaError>) -> bool {
    match u_key {
        None => r matches Ok(None),
        Some(k) => if msg_info.msg_info_body@.len() == 0 {
            r matches Err(e) && generic_error(e, "No index node in response"@)
        } else {
            match msg_info.msg_info_body@[0].index {
                None => r matches Err(e) && generic_error(e, "No index in response"@),
                Some(node) => match node.info {
                    None => r matches Err(e) && generic_error(e, "No info in response"@),
                    Some(info) => if !is_hex_text(info.file_sha1@) {
                        r matches Err(e) && generic_error(
                            e,
                            "Hex decode error: "@ + hex_error_debug(info.file_sha1@),
                        )
                    } else if !is_hex_text(info.file_hash@) {
                        r matches Err(e) && generic_error(
                            e,
                            "Hex decode error: "@ + hex_error_debug(info.file_hash@),
                        )
                    } else {
                        r matches Ok(Some(up)) && up.file_uuid == node.file_uuid && up.u_key == k
                            && up.sha1@ == hex_bytes(info.file_sha1@) && up.md5@ == hex_bytes(
                            info.file_hash@,
                        )
                    },
                },
            }
        },
    }
}

/// What the server's answer to a group image announcement asks to upload (see
/// `upload_planned`).
pub fn plan_group_image_upload(u_key: Option<String>, msg_info: &MsgInfo) -> (r: Result<
    Option<HighwayUpload>,
    ManiaError,
>)
    ensures
        upload_planned(u_key, *msg_info, r),
{
    let k = match u_key {
        Some(k) => k,
        None => return Ok(None),
    };
    if msg_info.msg_info_body.len() == 0 {
        return Err(ManiaError::GenericError("No index node in response".to_string()));
    }
    let node = match &msg_info.msg_info_body[0].index {
        Some(n) => n,
        None => return Err(ManiaError::GenericError("No index in response".to_string())),
    };
    let info = match &node.info {
        Some(i) => i,
        None => return Err(ManiaError::GenericError("No info in response".to_string())),
    };
    let sha1 = match hex_decode(&info.file_sha1) {
        Ok(b) => b,
        Err(m) => return Err(ManiaError::GenericError(join2("Hex decode error: ", m.as_str()))),
    };
    let md5 = match hex_decode(&info.file_hash) {
        Ok(b) => b,
        Err(m) => return Err(ManiaError::GenericError(join2("Hex decode error: ", m.as_str()))),
    };
    Ok(Some(HighwayUpload { file_uuid: node.file_uuid.clone(), u_key: k, sha1, md5 }))
}

/// Where the bytes of an image to upload come from.
pub enum ImageSource {
    /// The file at this path (its size is the file's).
    File(String),
    /// The image's own stream.
    Stream,
}

/// Where to read an image to upload from: its file when it has a path, else its stream; an
/// image with neither is a `GenericError`.
pub fn image_source(file_path: &Option<String>, has_stream: bool) -> (r: Result<ImageSource, ManiaError>)
    ensures
        match file_path {
            Some(p) => r matches Ok(ImageSource::File(q)) && q == p,
            None => if has_stream {
                r matches Ok(ImageSource::Stream)
            } else {
                r matches Err(e) && generic_error(e, "No image stream or file path"@)
            },
        },
{
    match file_path {
        Some(p) => Ok(ImageSource::File(p.clone())),
        None => if has_stream {
            Ok(ImageSource::Stream)
        } else {
            Err(ManiaError::GenericError("No image stream or file path".to_string()))
        },
    }
}

/// The SHA-1 and the MD5 digests of an image's bytes.
pub fn image_digests(data: &Vec<u8>) -> (r: (Vec<u8>, Vec<u8>))
    ensures
        r.0@ == sha1_of(data@),
        r.1@ == md5_of(data@),
        r.0@.len() == 20,
        r.1@.len() == 16,
{
    (sha1_digest(data), md5_digest(data))
}

/// The request announcing the image `data` (`size` bytes as the image states it) to group
/// `group_uin`: its digests are computed from the bytes, the rest is as for
/// `image_group_upload_args`.
pub fn group_image_upload_args(
    group_uin: u32,
    size: u32,
    file_path: Option<String>,
    data: &Vec<u8>,
    format_code: u32,
    format_name: &str,
    width: u32,
    height: u32,
    sub_type: u32,
    summary: Option<String>,
) -> (r: ImageGroupUploadArgs)
    ensures
        r.group_uin == group_uin,
        r.size == size,
        r.name@ == image_name(file_path, sha1_of(data@), format_name@),
        r.md5@ == md5_of(data@),
        r.sha1@ == sha1_of(data@),
        r.pic_type == format_code,
        r.sub_type == sub_type,
        r.summary@ == image_summary(summary),
        r.width == width,
        r.height == height,
{
    let (sha1, md5) = image_digests(data);
    image_group_upload_args(
        group_uin,
        size,
        file_path,
        md5,
        sha1,
        format_code,
        format_name,
        width,
        height,
        sub_type,
        summary,
    )
}

/// Keeps what the server answered to an uploaded image: its description and custom face; the
/// image's link stays.
pub fn finish_image_upload(image: &mut ImageEntity, msg_info: MsgInfo, custom_face: Option<Vec<u8>>)
    ensures
        final(image).url == old(image).url,
        final(image).msg_info == Some(msg_info),
        final(image).custom_face == custom_face,
{
    image.msg_info = Some(msg_info);
    image.custom_face = custom_face;
}

} // verus!
