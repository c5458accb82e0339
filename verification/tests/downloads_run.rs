use agent_server::router::file_downloads::{
    decoded_len, file_run_start, file_run_step, output_path, removable_output, tool_args,
    FileFailure, FileRun, FileRunAction, FileRunEvent, Operation, RunTarget,
};
use agent_server::router::image_downloads::{
    ImageRun, ImageTarget, image_run_start, image_run_step, image_tool_args, is_full_image, thumbnail_path, ImageFailure,
    ImageRunAction, ImageRunEvent,
};

fn op() -> Operation {
    Operation {
        id: "op1".into(),
        idempotency_key: "k".into(),
        chat_id: "123@chatroom".into(),
        chat_name: "群".into(),
        local_id: 7,
        server_id: None,
        expected_filename: "a.pdf".into(),
        sent_at: None,
        state: "queued".into(),
        attempts: 0,
        error_code: None,
        size_bytes: None,
        created_at: String::new(),
        updated_at: String::new(),
        completed_at: None,
    }
}

#[test]
fn file_run_goes_through_the_tool() {
    let s = file_run_start("op1".into(), "pdf".into());
    let (s, a) = file_run_step(s, FileRunEvent::Claimed { rows: 1 });
    assert!(matches!(a, FileRunAction::Load));
    let (s, a) = file_run_step(s, FileRunEvent::Loaded { operation: Some(op()) });
    assert!(matches!(a, FileRunAction::Locate));
    let (s, a) = file_run_step(s, FileRunEvent::Located { media_type: "pending".into(), decoded_len: 0 });
    assert!(matches!(a, FileRunAction::CheckSession));
    let (s, a) = file_run_step(s, FileRunEvent::SessionSeen { present: true, logged_in: true, linux_user: "wechat".into() });
    assert!(matches!(a, FileRunAction::Trigger));
    match &s {
        FileRun::Triggering { target, linux_user } => {
            assert_eq!(linux_user, "wechat");
            let path = output_path(linux_user, &target.id, &target.extension);
            assert_eq!(path, "/home/wechat/Downloads/agent-file-op1.pdf");
            assert!(removable_output(&path, linux_user));
            assert_eq!(
                tool_args(target, &path),
                vec!["--chat-id", "123@chatroom", "--chat-name", "群", "--local-id", "7", "--filename", "a.pdf", "--output", "/home/wechat/Downloads/agent-file-op1.pdf"]
            );
        }
        _ => panic!(),
    }
    let (s, a) = file_run_step(s, FileRunEvent::ToolExited { exit_code: 0, error_code: None });
    assert!(matches!(a, FileRunAction::Validate));
    let (s, a) = file_run_step(s, FileRunEvent::OutputSeen { is_file: true, len: 10 });
    assert!(matches!(a, FileRunAction::Ready { in_output: true, size: 10 }));
    assert!(matches!(s, FileRun::Done));
}

#[test]
fn file_run_failures() {
    let s = file_run_start("op1".into(), "pdf".into());
    let (_, a) = file_run_step(s, FileRunEvent::Claimed { rows: 0 });
    assert!(matches!(a, FileRunAction::Stop));
    let s = FileRun::CheckingSession { target: RunTarget { id: "i".into(), extension: "zip".into(), chat_id: "c".into(), chat_name: "n".into(), local_id: 1, expected_filename: "f.zip".into() } };
    let (_, a) = file_run_step(s, FileRunEvent::SessionSeen { present: true, logged_in: false, linux_user: String::new() });
    match a {
        FileRunAction::Fail(f) => assert_eq!(f.code(), "SOURCE_LOGIN_REQUIRED"),
        _ => panic!(),
    }
    assert_eq!(FileFailure::Tool(None).code(), "FILE_DOWNLOAD_UI_FAILED");
    assert_eq!(FileFailure::Tool(Some("X".into())).code(), "X");
    // A cached file answers at once.
    let s = FileRun::Locating { target: RunTarget { id: "i".into(), extension: "zip".into(), chat_id: "c".into(), chat_name: "n".into(), local_id: 1, expected_filename: "f.zip".into() } };
    let (_, a) = file_run_step(s, FileRunEvent::Located { media_type: "file".into(), decoded_len: 3 });
    assert!(matches!(a, FileRunAction::Ready { in_output: false, size: 3 }));
    assert_eq!(decoded_len(&Some("YWJj".into())), 3);
    assert_eq!(decoded_len(&Some("!!".into())), 0);
    assert_eq!(decoded_len(&None), 0);
}

#[test]
fn image_run_checks_latest_and_thumbnail() {
    let s = image_run_start("img1".into());
    let (s, _) = image_run_step(s, ImageRunEvent::Claimed { rows: 1 });
    let (s, a) = image_run_step(s, ImageRunEvent::Loaded { operation: None });
    assert!(matches!(a, ImageRunAction::Stop));
    let _ = s;
    let s = image_run_start("img1".into());
    let (s, _) = image_run_step(s, ImageRunEvent::Claimed { rows: 1 });
    let (s, a) = image_run_step(
        s,
        ImageRunEvent::Loaded {
            operation: Some(agent_server::router::image_downloads::Operation {
                id: "img1".into(),
                idempotency_key: "k".into(),
                chat_id: "c".into(),
                local_id: 42,
                state: "queued".into(),
                attempts: 0,
                error_code: None,
                size_bytes: None,
                created_at: String::new(),
                updated_at: String::new(),
                completed_at: None,
            }),
        },
    );
    assert!(matches!(a, ImageRunAction::Locate));
    let (s, a) = image_run_step(s, ImageRunEvent::Located { full_image: false, decoded_len: 3, data: Some("YWJj".into()) });
    assert!(matches!(a, ImageRunAction::CheckSession));
    let (s, a) = image_run_step(s, ImageRunEvent::SessionSeen { present: true, account: Some("wxid".into()) });
    assert!(matches!(a, ImageRunAction::FindChat));
    let (s, a) = image_run_step(s, ImageRunEvent::ChatFound { name: Some("群".into()) });
    assert!(matches!(a, ImageRunAction::CheckLatest));
    let (s, a) = image_run_step(s, ImageRunEvent::LatestSeen { latest: Some(42) });
    assert!(matches!(a, ImageRunAction::FindCache));
    let (s, a) = image_run_step(s, ImageRunEvent::CacheFound { target: Some(("/d".into(), "stem".into())) });
    match a {
        ImageRunAction::WriteThumbnail { bytes } => assert_eq!(bytes, b"abc".to_vec()),
        _ => panic!(),
    }
    let (s, a) = image_run_step(s, ImageRunEvent::ThumbnailWritten { ok: true });
    match a {
        ImageRunAction::Trigger { chat_name, image_dir, stem } => {
            assert_eq!(chat_name, "群");
            assert_eq!(image_dir, "/d");
            assert_eq!(stem, "stem");
        }
        _ => panic!(),
    }
    let (s, a) = image_run_step(s, ImageRunEvent::ToolExited { exit_code: 1, error_code: None });
    match a {
        ImageRunAction::Fail(f) => assert_eq!(f.code(), "IMAGE_DOWNLOAD_UI_FAILED"),
        _ => panic!(),
    }
    let _ = s;
    assert_eq!(ImageFailure::NotLatestImage.code(), "IMAGE_NOT_LATEST_IMAGE");
    assert_eq!(thumbnail_path("img1"), "/tmp/agent-image-img1.jpg");
    assert_eq!(
        image_tool_args("c", "n", -3, "/t.jpg", "/d", "s"),
        vec!["--chat-id", "c", "--chat-name", "n", "--local-id", "-3", "--thumbnail", "/t.jpg", "--image-dir", "/d", "--stem", "s"]
    );
    assert!(is_full_image("image", "a.jpg"));
    assert!(!is_full_image("image", "a_thumb.jpg"));
    assert!(!is_full_image("file", "a.jpg"));
}

#[test]
fn image_run_refuses_an_older_image() {
    let s = ImageRun::CheckingLatest {
        target: ImageTarget { id: "i".into(), chat_id: "c".into(), local_id: 41 },
        thumbnail: None,
        account: "a".into(),
        chat_name: "n".into(),
    };
    let (_, a) = image_run_step(s, ImageRunEvent::LatestSeen { latest: Some(42) });
    match a {
        ImageRunAction::Fail(f) => assert_eq!(f.code(), "IMAGE_NOT_LATEST_IMAGE"),
        _ => panic!(),
    }
}
