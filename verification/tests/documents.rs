use agent_server::hex::{hex_decode, hex_encode};
use agent_server::keys::extracted_keys;
use agent_server::media::{best_image_step, BestStep, ImageQuality};
use agent_server::media_queue::reply_queued;
use agent_server::media::{image_answer, is_thumb_dat, image_sources, video_parts, video_suffix, ImageSource, VideoPart};
use agent_server::voice::{job_dir, job_status_fields, request_hash};

#[test]
fn extracted_keys_read_the_keys_object() {
    let mut keys = extracted_keys(r#"{"keys": {"session.db": "ab12", "_image_xor": 7}, "other": 1}"#);
    keys.sort();
    assert_eq!(
        keys,
        vec![("_image_xor".to_string(), String::new()), ("session.db".to_string(), "ab12".to_string())]
    );
    assert!(extracted_keys("not json").is_empty());
    assert!(extracted_keys(r#"{"keys": [1, 2]}"#).is_empty());
    assert!(extracted_keys(r#"["keys"]"#).is_empty());
}

#[test]
fn job_status_document_fields() {
    let doc = br#"{"accountId": "wxid_a", "status": "sending", "chunks": [{"status": "verified", "path": "chunk-1.wav"}, 3, {"path": "chunk-2.wav"}]}"#;
    let f = job_status_fields(doc).unwrap();
    assert_eq!(f.account_id.as_deref(), Some("wxid_a"));
    assert_eq!(f.status.as_deref(), Some("sending"));
    assert_eq!(f.chunk_statuses, vec![Some("verified".to_string()), None, None]);
    assert_eq!(f.chunk_paths, vec![Some("chunk-1.wav".to_string()), None, Some("chunk-2.wav".to_string())]);
    let bare = job_status_fields(br#"{"status": 5}"#).unwrap();
    assert_eq!(bare.status, None);
    assert!(bare.chunk_statuses.is_empty());
    let err = job_status_fields(b"{").err().unwrap();
    assert!(err.starts_with("Voice job status is unavailable: "));
}

#[test]
fn helper_reply_is_queued_only_for_the_queued_status() {
    assert!(reply_queued("{\"status\": \"queued\"}\n"));
    assert!(!reply_queued(r#"{"status": "busy"}"#));
    assert!(!reply_queued(r#"{"status": 1}"#));
    assert!(!reply_queued("queued"));
}

#[test]
fn best_copy_steps() {
    assert_eq!(best_image_step(0, false), BestStep::Read(ImageQuality::Full));
    assert_eq!(best_image_step(1, false), BestStep::Read(ImageQuality::Standard));
    assert_eq!(best_image_step(1, true), BestStep::Answer(0));
    assert_eq!(best_image_step(2, false), BestStep::Read(ImageQuality::Thumbnail));
    assert_eq!(best_image_step(3, true), BestStep::Answer(2));
    assert_eq!(best_image_step(3, false), BestStep::Pending);
}

#[test]
fn hex_decoding_gives_the_bytes_back() {
    assert_eq!(hex_decode("0aFF"), Some(vec![0x0a, 0xff]));
    assert_eq!(hex_decode(""), Some(vec![]));
    let bytes = vec![0u8, 1, 0x7f, 0x80, 0xab, 0xff];
    assert_eq!(hex_decode(&hex_encode(&bytes)), Some(bytes.clone()));
    assert_eq!(hex_decode(&hex_encode(&bytes).to_uppercase()), Some(bytes));
}

#[test]
fn other_chat_or_audio_gives_another_request_hash() {
    let h = request_hash("chat_a", b"audio");
    assert_eq!(h.len(), 64);
    assert_eq!(h, request_hash("chat_a", b"audio"));
    assert_ne!(h, request_hash("chat_b", b"audio"));
    assert_ne!(h, request_hash("chat_a", b"other"));
    assert_ne!(request_hash("ab", b"c"), request_hash("a", b"bc"));
}

#[test]
fn job_ids_are_uuids_in_any_accepted_form() {
    let id = "550e8400-e29b-41d4-a716-446655440000";
    assert_eq!(job_dir(id), Ok(format!("/data/voice-jobs/{id}")));
    assert!(job_dir("550E8400E29B41D4A716446655440000").is_ok());
    assert!(job_dir("{550e8400-e29b-41d4-a716-446655440000}").is_ok());
    assert!(job_dir("URN:uuid:550e8400-e29b-41d4-a716-446655440000").is_ok());
    assert_eq!(job_dir("550e8400-e29b-41d4-a716-44665544000g"), Err("Invalid voice job ID".to_string()));
    assert!(job_dir("550e8400e29b-41d4-a716-446655440000-").is_err());
    assert!(job_dir("../etc").is_err());
}

#[test]
fn base64_groups_and_padding() {
    assert_eq!(image_answer(1, b"hiya", "png", "png").data.as_deref(), Some("aGl5YQ=="));
    assert_eq!(image_answer(1, b"hiy", "png", "png").data.as_deref(), Some("aGl5"));
    assert_eq!(image_answer(1, b"", "png", "png").data.as_deref(), Some(""));
    assert_eq!(image_answer(1, &[0xff, 0xfe], "png", "png").data.as_deref(), Some("//4="));
}

#[test]
fn copy_lookup_orders() {
    assert_eq!(
        image_sources(ImageQuality::Thumbnail, true),
        vec![ImageSource::CachedThumbnail, ImageSource::ResourceDb, ImageSource::Hardlink]
    );
    assert_eq!(image_sources(ImageQuality::Full, true), vec![ImageSource::ResourceDb, ImageSource::Hardlink]);
    assert_eq!(image_sources(ImageQuality::Legacy, false), vec![ImageSource::CachedThumbnail]);
    assert!(image_sources(ImageQuality::Standard, false).is_empty());
    assert_eq!(video_parts(ImageQuality::Full, true), vec![VideoPart::Movie]);
    assert_eq!(video_parts(ImageQuality::Thumbnail, true), vec![VideoPart::Cover, VideoPart::Thumb]);
    assert_eq!(video_parts(ImageQuality::Legacy, false), vec![VideoPart::Movie]);
    assert_eq!(video_suffix(VideoPart::Thumb), "_thumb.jpg");
    assert!(is_thumb_dat("abc_t.dat"));
    assert!(!is_thumb_dat("abc_h.dat"));
}
