use mania::error::ManiaError;
use mania::highway::{image_group_upload_args, plan_group_image_upload};
use mania::message::{FileInfo, IndexNode, MsgInfo, MsgInfoBody};
use mania::text::{chars_of, contains_text, join2, parse_u32, same_text, u32_to_string};

#[test]
fn parse_u32_reads_decimal() {
    assert_eq!(parse_u32("0"), Some(0));
    assert_eq!(parse_u32("12345"), Some(12345));
    assert_eq!(parse_u32("4294967295"), Some(u32::MAX));
}

#[test]
fn parse_u32_refuses_non_numbers() {
    assert_eq!(parse_u32(""), None);
    assert_eq!(parse_u32("12a"), None);
    assert_eq!(parse_u32("4294967296"), None);
    assert_eq!(parse_u32("-1"), None);
}

#[test]
fn decimal_round_trip() {
    for n in [0u32, 7, 10, 99, 100, 123456789, u32::MAX] {
        let s = u32_to_string(n);
        assert_eq!(s, n.to_string());
        assert_eq!(parse_u32(&s), Some(n));
    }
}

#[test]
fn text_helpers() {
    assert!(contains_text("https://x/y?a=1&rkey=abc", "&rkey="));
    assert!(!contains_text("https://x/y?a=1", "&rkey="));
    assert!(contains_text("abc", ""));
    assert!(!contains_text("ab", "abc"));
    assert_eq!(join2("ab", "cd"), "abcd");
    assert!(same_text("héllo", "héllo"));
    assert!(!same_text("hello", "hell"));
    assert_eq!(chars_of("añb"), vec!['a', 'ñ', 'b']);
}

#[test]
fn upload_args_name_from_sha1_and_format() {
    let args = image_group_upload_args(
        42,
        1000,
        None,
        vec![1, 2],
        vec![0xde, 0xad, 0x01],
        1001,
        "png",
        64,
        32,
        0,
        None,
    );
    assert_eq!(args.name, "dead01.png");
    assert_eq!(args.summary, "[图片]");
    assert_eq!(args.group_uin, 42);
    assert_eq!(args.size, 1000);
    assert_eq!(args.pic_type, 1001);
    assert_eq!(args.width, 64);
    assert_eq!(args.height, 32);
    assert_eq!(args.sha1, vec![0xde, 0xad, 0x01]);
    assert_eq!(args.md5, vec![1, 2]);
}

#[test]
fn upload_args_keep_path_and_summary() {
    let args = image_group_upload_args(
        1,
        2,
        Some("/tmp/cat.jpg".to_string()),
        vec![],
        vec![0xff],
        1000,
        "jpg",
        1,
        1,
        7,
        Some("a cat".to_string()),
    );
    assert_eq!(args.name, "/tmp/cat.jpg");
    assert_eq!(args.summary, "a cat");
    assert_eq!(args.sub_type, 7);
}

fn node_with(sha1: &str, hash: &str) -> IndexNode {
    IndexNode {
        info: Some(FileInfo {
            file_size: 10,
            file_hash: hash.to_string(),
            file_sha1: sha1.to_string(),
            file_name: "x.png".to_string(),
        }),
        file_uuid: "uuid-1".to_string(),
        store_id: 1,
        upload_time: 2,
        ttl: 3,
        sub_type: 0,
    }
}

fn generic_message(e: ManiaError) -> String {
    match e {
        ManiaError::GenericError(m) => m,
        _ => panic!("expected a generic error"),
    }
}

#[test]
fn upload_plan_without_key_uploads_nothing() {
    let info = MsgInfo { msg_info_body: vec![] };
    assert!(matches!(plan_group_image_upload(None, &info), Ok(None)));
}

#[test]
fn upload_plan_reads_hashes() {
    let info = MsgInfo { msg_info_body: vec![MsgInfoBody { index: Some(node_with("0aFF", "10")) }] };
    let plan = plan_group_image_upload(Some("key".to_string()), &info).unwrap().unwrap();
    assert_eq!(plan.sha1, vec![0x0a, 0xff]);
    assert_eq!(plan.md5, vec![0x10]);
    assert_eq!(plan.file_uuid, "uuid-1");
    assert_eq!(plan.u_key, "key");
}

#[test]
fn upload_plan_errors() {
    let empty = MsgInfo { msg_info_body: vec![] };
    assert_eq!(
        generic_message(plan_group_image_upload(Some("k".into()), &empty).err().unwrap()),
        "No index node in response"
    );
    let no_index = MsgInfo { msg_info_body: vec![MsgInfoBody { index: None }] };
    assert_eq!(
        generic_message(plan_group_image_upload(Some("k".into()), &no_index).err().unwrap()),
        "No index in response"
    );
    let mut node = node_with("00", "00");
    node.info = None;
    let no_info = MsgInfo { msg_info_body: vec![MsgInfoBody { index: Some(node) }] };
    assert_eq!(
        generic_message(plan_group_image_upload(Some("k".into()), &no_info).err().unwrap()),
        "No info in response"
    );
    let odd = MsgInfo { msg_info_body: vec![MsgInfoBody { index: Some(node_with("abc", "00")) }] };
    assert_eq!(
        generic_message(plan_group_image_upload(Some("k".into()), &odd).err().unwrap()),
        "Hex decode error: OddLength"
    );
    let bad = MsgInfo { msg_info_body: vec![MsgInfoBody { index: Some(node_with("00", "zz")) }] };
    assert_eq!(
        generic_message(plan_group_image_upload(Some("k".into()), &bad).err().unwrap()),
        "Hex decode error: InvalidHexCharacter { c: 'z', index: 0 }"
    );
}

#[test]
fn parse_u32_accepts_plus_sign() {
    assert_eq!(parse_u32("+5"), Some(5));
    assert_eq!(parse_u32("+"), None);
    assert_eq!(parse_u32("++5"), None);
}

#[test]
fn hex_written_reads_back() {
    let sha1 = vec![0x00, 0x7f, 0x80, 0xff, 0x12];
    let args = image_group_upload_args(1, 1, None, vec![], sha1.clone(), 0, "gif", 1, 1, 0, None);
    let hex = args.name.strip_suffix(".gif").unwrap().to_string();
    assert_eq!(hex, "007f80ff12");
    let info = MsgInfo { msg_info_body: vec![MsgInfoBody { index: Some(node_with(&hex, &hex)) }] };
    let plan = plan_group_image_upload(Some("k".into()), &info).unwrap().unwrap();
    assert_eq!(plan.sha1, sha1);
    assert_eq!(plan.md5, sha1);
}
