use agent_server::media::{
    best_image_target, file_matches_message, image_suffixes, native_group_id,
    native_message_body, safe_attachment_name, video_matches_message, converted_format, ImageQuality,
    converted_image_answer, file_answer, image_answer, labelled, video_answer, voice_answer, voice_chat_sql,
    voice_data_sql, video_size, VideoPart,
};
use agent_server::media_paths::{attachment_path, is_thumb_of, thumb_dir, thumb_path, video_dir, video_file};
use agent_server::wechat_db::media_db_candidates;

#[test]
fn native_group_body_preserves_sender_identity() {
    assert_eq!(native_message_body("123@chatroom", "sender", "account", "sender:\n<msg/>".into()), Some("<msg/>".into()));
    assert_eq!(native_message_body("123@chatroom", "sender", "account", "<msg/>".into()), Some("<msg/>".into()));
    assert_eq!(native_message_body("123@chatroom", "sender", "account", "other:\n<msg/>".into()), None);
    assert_eq!(native_message_body("peer", "other", "account", "<msg/>".into()), None);
    assert_eq!(native_message_body("peer", "account", "account", "<msg/>".into()), Some("<msg/>".into()));
    assert_eq!(native_message_body("filehelper", "account", "account", "<msg/>".into()), Some("<msg/>".into()));
    assert_eq!(native_message_body("filehelper", "filehelper", "account", "<msg/>".into()), None);
    assert!(!native_group_id("group@chatroom"));
    assert!(!native_group_id("123@chatroom/other"));
    assert!(native_group_id("123@chatroom"));
}

#[test]
fn full_resolution_never_selects_a_thumbnail_or_mid_size() {
    assert_eq!(image_suffixes(ImageQuality::Full), &["_h"]);
    assert_eq!(image_suffixes(ImageQuality::Standard), &[""]);
    assert_eq!(image_suffixes(ImageQuality::Thumbnail), &["_t"]);
    assert_eq!(image_suffixes(ImageQuality::Best), &["_h", "", "_t"]);
    assert_eq!(ImageQuality::default(), ImageQuality::Best);
}

#[test]
fn advertised_image_variants_determine_best_target() {
    assert_eq!(best_image_target("<img cdnmidimgurl=\"mid\" />"), "standard");
    assert_eq!(best_image_target("<img cdnmidimgurl=\"mid\" cdnbigimgurl=\"big\" />"), "full");
    assert_eq!(best_image_target("<img cdnmidimgurl=\"mid\" hdlength=\"123\" />"), "full");
    assert_eq!(best_image_target("<img cdnbigimgurl=\"\" cdnthumburl=\"thumb\" />"), "thumbnail");
}

#[test]
fn quality_names() {
    assert_eq!(ImageQuality::from_name("thumbnail"), Some(ImageQuality::Thumbnail));
    assert_eq!(ImageQuality::from_name("standard"), Some(ImageQuality::Standard));
    assert_eq!(ImageQuality::from_name("best"), Some(ImageQuality::Best));
    assert_eq!(ImageQuality::from_name("anything"), None);
}

#[test]
fn incomplete_or_wrong_file_is_not_returned() {
    let content = "<totallen>3</totallen><md5>900150983cd24fb0d6963f7d28e17f72</md5>";
    assert!(file_matches_message(b"abc", content));
    assert!(!file_matches_message(b"ab", content));
    assert!(!file_matches_message(b"xyz", content));
    assert!(!file_matches_message(b"abc", "<totallen>3</totallen>"));
}

#[test]
fn incomplete_or_wrong_video_is_not_returned() {
    let content = "<msg><videomsg length=\"3\" md5=\"900150983cd24fb0d6963f7d28e17f72\" /></msg>";
    assert!(video_matches_message(b"abc", content));
    assert!(!video_matches_message(b"ab", content));
    assert!(!video_matches_message(b"xyz", content));
    assert!(!video_matches_message(b"abc", "<msg><videomsg length=\"3\" /></msg>"));
    assert!(video_matches_message(
        b"abc",
        "<msg><videomsg rawlength=\"9\" rawmd5=\"00000000000000000000000000000000\" length=\"3\" md5=\"900150983cd24fb0d6963f7d28e17f72\" /></msg>"
    ));
}

#[test]
fn attachment_title_is_a_single_filename() {
    assert!(safe_attachment_name("test image.png"));
    for name in ["", ".", "..", "../file", "/etc/passwd", "folder\\file", "a\0b"] {
        assert!(!safe_attachment_name(name));
    }
}

#[test]
fn quality_rejects_unknown_values() {
    assert_eq!(ImageQuality::from_name("thumbnail").unwrap(), ImageQuality::Thumbnail);
    assert_eq!(ImageQuality::from_name("standard").unwrap(), ImageQuality::Standard);
    assert_eq!(ImageQuality::from_name("best").unwrap(), ImageQuality::Best);
    assert!(ImageQuality::from_name("anything").is_none());
}

#[test]
fn converter_format_line_or_mode_default() {
    assert_eq!(converted_format("silk2mp3", "noise\nFORMAT:wav\r\nmore"), "wav");
    assert_eq!(converted_format("img", "FORMAT:png"), "png");
    assert_eq!(converted_format("silk2mp3", ""), "mp3");
    assert_eq!(converted_format("img", "nothing here"), "jpeg");
    assert_eq!(converted_format("img", "a\nFORMAT:gif\r"), "gif\r");
}

#[test]
fn answers_carry_base64_data_and_message_file_names() {
    let img = image_answer(5, b"hi", "png", "png");
    assert_eq!(img.media_type, "image");
    assert_eq!(img.data.as_deref(), Some("aGk="));
    assert_eq!(img.format, "png");
    assert_eq!(img.filename, "msg_5.png");
    assert!(img.quality.is_none());
    let conv = converted_image_answer(5, b"hi", "jpeg");
    assert_eq!(conv.format, "jpeg");
    assert_eq!(conv.filename, "msg_5.jpg");
    assert_eq!(converted_image_answer(5, b"hi", "png").filename, "msg_5.png");
    let cover = video_answer(7, b"abc", VideoPart::Cover);
    assert_eq!(cover.media_type, "video");
    assert_eq!(cover.data.as_deref(), Some("YWJj"));
    assert_eq!(cover.format, "jpeg");
    assert_eq!(cover.filename, "msg_7_cover.jpg");
    assert_eq!(video_answer(7, b"abc", VideoPart::Movie).filename, "msg_7.mp4");
    assert_eq!(video_answer(7, b"abc", VideoPart::Thumb).filename, "msg_7_thumb.jpg");
    let file = file_answer("a.pdf".into(), "pdf".into(), b"x");
    assert_eq!((file.media_type.as_str(), file.format.as_str(), file.filename.as_str()), ("file", "pdf", "a.pdf"));
    assert_eq!(file.data.as_deref(), Some("eA=="));
    let mp3 = voice_answer(3, b"x", true);
    assert_eq!((mp3.format.as_str(), mp3.filename.as_str()), ("mp3", "msg_3.mp3"));
    let silk = voice_answer(3, b"x", false);
    assert_eq!((silk.format.as_str(), silk.filename.as_str()), ("silk", "msg_3.silk"));
    assert_eq!(labelled(img, "full").quality.as_deref(), Some("full"));
}

#[test]
fn voice_queries_and_databases() {
    assert_eq!(voice_chat_sql("a'b"), "SELECT rowid FROM Name2Id WHERE user_name = 'a''b';");
    assert_eq!(
        voice_data_sql(4, 9),
        "SELECT hex(voice_data) as hex_data FROM VoiceInfo\n                 WHERE chat_name_id = 4 AND local_id = 9\n                 LIMIT 1;"
    );
    let keys = vec![
        ("media_1.db".to_string(), "k1".to_string()),
        ("message_0.db".to_string(), "m".to_string()),
        ("media_0.db".to_string(), "k0".to_string()),
    ];
    assert_eq!(
        media_db_candidates(&keys),
        vec![("media_0.db".to_string(), "k0".to_string()), ("media_1.db".to_string(), "k1".to_string())]
    );
}

#[test]
fn cached_media_paths() {
    assert_eq!(
        thumb_dir("/b", "abc", 0).as_deref(),
        Some("/b/cache/1970-01/Message/900150983cd24fb0d6963f7d28e17f72/Thumb")
    );
    assert_eq!(
        thumb_path("/b", "abc", 5, 0).as_deref(),
        Some("/b/cache/1970-01/Message/900150983cd24fb0d6963f7d28e17f72/Thumb/5_0_thumb.jpg")
    );
    assert!(is_thumb_of("5_123_thumb.jpg", 5));
    assert!(!is_thumb_of("15_123_thumb.jpg", 5));
    assert_eq!(video_dir("/b", 0).as_deref(), Some("/b/msg/video/1970-01"));
    assert_eq!(video_file("/d", "h", ".mp4"), "/d/h.mp4");
    assert_eq!(attachment_path("/b", 0, "x.pdf"), "/b/msg/file/1970-01/x.pdf");
}

#[test]
fn stated_video_size_ignores_raw_length() {
    assert_eq!(video_size("<msg><videomsg rawlength=\"9\" length=\"3\" /></msg>"), Some(3));
    assert_eq!(video_size("<msg><videomsg rawlength=\"9\" /></msg>"), None);
    assert_eq!(video_size("<msg><videomsg length=\"x\" /></msg>"), None);
}
