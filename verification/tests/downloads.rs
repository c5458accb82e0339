use agent_server::router::file_downloads::{self, same_identity, validate, Operation};
use agent_server::router::image_downloads::{self, is_latest_image, is_resettable_error};
use agent_server::router::{HTTP_BODY_LIMIT_BYTES, MAX_UPLOAD_BASE64_BYTES, MAX_UPLOAD_BYTES, MIB};

fn request(filename: &str) -> file_downloads::CreateRequest {
    file_downloads::CreateRequest {
        idempotency_key: "groupbot-media-1".into(),
        chat_id: "123@chatroom".into(),
        chat_name: "测试群".into(),
        local_id: 12,
        server_id: Some("9001".into()),
        expected_filename: filename.into(),
        sent_at: None,
    }
}

#[test]
fn validates_supported_file_names() {
    assert_eq!(validate(&request("资料.zip")), Ok("zip".into()));
    assert_eq!(validate(&request("报告.DOCX")), Ok("docx".into()));
    assert_eq!(
        validate(&request("../资料.zip")),
        Err("FILE_DOWNLOAD_FILENAME_INVALID")
    );
    assert_eq!(validate(&request("程序.exe")), Err("FILE_TYPE_UNSUPPORTED"));
}

#[test]
fn idempotency_identity_includes_message_and_filename() {
    let input = request("资料.zip");
    let operation = Operation {
        id: "operation-1".into(),
        idempotency_key: input.idempotency_key.clone(),
        chat_id: input.chat_id.clone(),
        chat_name: input.chat_name.clone(),
        local_id: input.local_id,
        server_id: input.server_id.clone(),
        expected_filename: input.expected_filename.clone(),
        sent_at: None,
        state: "queued".into(),
        attempts: 0,
        error_code: None,
        size_bytes: None,
        created_at: "2026-09-08 00:00:00".into(),
        updated_at: "2026-09-08 00:00:00".into(),
        completed_at: None,
    };
    assert!(same_identity(&input, &operation));
    assert!(!same_identity(&request("另一个.zip"), &operation));
}

#[test]
fn file_request_field_errors_in_order() {
    let mut r = request("a.pdf");
    r.idempotency_key = String::new();
    assert_eq!(validate(&r), Err("FILE_DOWNLOAD_IDEMPOTENCY_KEY_INVALID"));
    let mut r = request("a.pdf");
    r.idempotency_key = "k".repeat(201);
    assert_eq!(validate(&r), Err("FILE_DOWNLOAD_IDEMPOTENCY_KEY_INVALID"));
    let mut r = request("a.pdf");
    r.chat_name = "  \t".into();
    assert_eq!(validate(&r), Err("FILE_DOWNLOAD_MESSAGE_ID_INVALID"));
    let mut r = request("a.pdf");
    r.chat_name = "a\u{7}b".into();
    assert_eq!(validate(&r), Err("FILE_DOWNLOAD_MESSAGE_ID_INVALID"));
    let mut r = request("a.pdf");
    r.local_id = -1;
    assert_eq!(validate(&r), Err("FILE_DOWNLOAD_MESSAGE_ID_INVALID"));
    // 67 three-byte characters exceed 200 bytes although they are 67 characters.
    let mut r = request("a.pdf");
    r.chat_id = "群".repeat(67);
    assert_eq!(validate(&r), Err("FILE_DOWNLOAD_MESSAGE_ID_INVALID"));
}

#[test]
fn file_name_edge_cases() {
    assert_eq!(validate(&request(".")), Err("FILE_DOWNLOAD_FILENAME_INVALID"));
    assert_eq!(validate(&request("..")), Err("FILE_DOWNLOAD_FILENAME_INVALID"));
    assert_eq!(validate(&request("")), Err("FILE_DOWNLOAD_FILENAME_INVALID"));
    assert_eq!(validate(&request("dir/a.pdf")), Err("FILE_DOWNLOAD_FILENAME_INVALID"));
    assert_eq!(validate(&request("a\nb.pdf")), Err("FILE_DOWNLOAD_FILENAME_INVALID"));
    assert_eq!(validate(&request(".zip")), Err("FILE_TYPE_UNSUPPORTED"));
    assert_eq!(validate(&request("zip")), Err("FILE_TYPE_UNSUPPORTED"));
    assert_eq!(validate(&request("a.tar.ZIP")), Ok("zip".into()));
    assert_eq!(validate(&request("x.Xlsx")), Ok("xlsx".into()));
    assert_eq!(validate(&request("y.pdf")), Ok("pdf".into()));
    let long = format!("{}.pdf", "a".repeat(237));
    assert_eq!(validate(&request(&long)), Err("FILE_DOWNLOAD_FILENAME_INVALID"));
    let fits = format!("{}.pdf", "a".repeat(236));
    assert_eq!(validate(&request(&fits)), Ok("pdf".into()));
}

fn image_request() -> image_downloads::CreateRequest {
    image_downloads::CreateRequest {
        idempotency_key: "groupbot-image-1".into(),
        chat_id: "123@chatroom".into(),
        local_id: 42,
    }
}

#[test]
fn validates_message_identity() {
    assert_eq!(image_downloads::validate(&image_request()), Ok(()));
    let mut invalid = image_request();
    invalid.chat_id = "bad\nchat".into();
    assert_eq!(
        image_downloads::validate(&invalid),
        Err("IMAGE_DOWNLOAD_MESSAGE_ID_INVALID")
    );
}

#[test]
fn image_request_key_and_identity() {
    let mut r = image_request();
    r.idempotency_key = String::new();
    assert_eq!(
        image_downloads::validate(&r),
        Err("IMAGE_DOWNLOAD_IDEMPOTENCY_KEY_INVALID")
    );
    let op = image_downloads::Operation {
        id: "op".into(),
        idempotency_key: "groupbot-image-1".into(),
        chat_id: "123@chatroom".into(),
        local_id: 42,
        state: "queued".into(),
        attempts: 0,
        error_code: None,
        size_bytes: None,
        created_at: String::new(),
        updated_at: String::new(),
        completed_at: None,
    };
    assert!(image_downloads::same_identity(&image_request(), &op));
    let mut other = image_request();
    other.local_id = 43;
    assert!(!image_downloads::same_identity(&other, &op));
}

#[test]
fn allows_latest_image_when_a_newer_non_image_message_exists() {
    assert!(is_latest_image(42, Some(42)));
}

#[test]
fn rejects_an_older_image() {
    assert!(!is_latest_image(41, Some(42)));
    assert!(!is_latest_image(41, None));
}

#[test]
fn resets_operations_failed_by_fixed_runtime_errors() {
    assert!(is_resettable_error("IMAGE_NOT_LATEST_MESSAGE"));
    assert!(is_resettable_error("IMAGE_DOWNLOAD_UI_FAILED"));
    assert!(!is_resettable_error("IMAGE_CARD_NOT_FOUND"));
}

#[test]
fn body_limit_accounts_for_base64_expansion() {
    let encoded_100_mib = (100 * MIB).div_ceil(3) * 4;
    assert!(HTTP_BODY_LIMIT_BYTES > encoded_100_mib + MIB / 2);
    assert_eq!(MAX_UPLOAD_BYTES, 128 * MIB);
}

#[test]
fn base64_limit_is_the_encoded_upload_limit() {
    assert_eq!(MAX_UPLOAD_BASE64_BYTES, MAX_UPLOAD_BYTES.div_ceil(3) * 4);
    assert_eq!(HTTP_BODY_LIMIT_BYTES, MAX_UPLOAD_BASE64_BYTES + MIB);
}
