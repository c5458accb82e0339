use agent_server::router::messages::check_send;
use agent_server::types::{A11yNode, Bounds};
use agent_server::voice::{request_hash, JobFields, OpenedChat};
use agent_server::voice_flow::{
    cleanup_files, voice_create_step, voice_job_start, voice_job_step, VoiceAnswer, VoiceCreate,
    VoiceCreateAction, VoiceCreateEvent, VoiceError, VoiceJob, VoiceJobAction, VoiceJobEvent,
    WorkerMode,
};

const JOB: &str = "550e8400-e29b-41d4-a716-446655440000";
const DIR: &str = "/data/voice-jobs/550e8400-e29b-41d4-a716-446655440000";

fn step(s: VoiceCreate, e: VoiceCreateEvent) -> (VoiceCreate, VoiceCreateAction) {
    assert!(s.accepts(&e), "stage {:?} does not wait for this event", s);
    voice_create_step(s, e)
}

fn begin(account: Option<&str>, key: &str) -> (VoiceCreate, VoiceCreateAction) {
    step(
        VoiceCreate::Start,
        VoiceCreateEvent::Begin { account: account.map(|a| a.to_string()), key: key.to_string() },
    )
}

fn field(s: VoiceCreate, name: &str) -> (VoiceCreate, VoiceCreateAction) {
    step(s, VoiceCreateEvent::Field(Ok(Some(name.to_string()))))
}

/// A form with a chat id and audio, read up to the lookup of the key.
fn filled_form(chat: &str, audio: &[u8]) -> (VoiceCreate, VoiceCreateAction) {
    let (s, _) = begin(Some("wxid_me"), "key-1");
    let (s, a) = field(s, "chatId");
    assert!(matches!(a, VoiceCreateAction::ReadText));
    let (s, a) = step(s, VoiceCreateEvent::Text(Ok(chat.to_string())));
    assert!(matches!(a, VoiceCreateAction::ReadField));
    let (s, a) = field(s, "audio");
    assert!(matches!(a, VoiceCreateAction::ReadBytes));
    let (s, a) = step(s, VoiceCreateEvent::Bytes(Ok(audio.to_vec())));
    assert!(matches!(a, VoiceCreateAction::ReadField));
    step(s, VoiceCreateEvent::Field(Ok(None)))
}

fn refusal(a: &VoiceCreateAction) -> (u16, String) {
    match a {
        VoiceCreateAction::Respond { code, answer: VoiceAnswer::Error(e), .. } => (*code, e.message()),
        other => panic!("expected a refusal, got {:?}", other),
    }
}

#[test]
fn voice_request_needs_login_and_key() {
    let (s, a) = begin(None, "key-1");
    assert!(matches!(s, VoiceCreate::Done));
    assert_eq!(refusal(&a), (409, "NOT_LOGGED_IN".to_string()));
    let (_, a) = begin(Some("wxid_me"), "");
    assert_eq!(refusal(&a), (400, "A valid Idempotency-Key is required".to_string()));
    let (_, a) = begin(Some("wxid_me"), "bad\nkey");
    assert_eq!(refusal(&a), (400, "A valid Idempotency-Key is required".to_string()));
}

#[test]
fn voice_form_is_checked() {
    let (s, _) = begin(Some("wxid_me"), "key-1");
    let (_, a) = field(s, "other");
    assert_eq!(refusal(&a), (400, "Unexpected or duplicate form field".to_string()));

    let (s, _) = begin(Some("wxid_me"), "key-1");
    let (s, _) = field(s, "chatId");
    let (s, _) = step(s, VoiceCreateEvent::Text(Ok("wxid_a".into())));
    let (_, a) = field(s, "chatId");
    assert_eq!(refusal(&a), (400, "Unexpected or duplicate form field".to_string()));

    let (s, _) = begin(Some("wxid_me"), "key-1");
    let (s, _) = field(s, "audio");
    let (_, a) = step(s, VoiceCreateEvent::Bytes(Ok(Vec::new())));
    assert_eq!(refusal(&a), (413, "Audio is empty or exceeds 128 MiB".to_string()));

    let (s, _) = begin(Some("wxid_me"), "key-1");
    let (_, a) = step(s, VoiceCreateEvent::Field(Err("malformed".into())));
    assert_eq!(refusal(&a), (400, "malformed".to_string()));

    let (s, _) = begin(Some("wxid_me"), "key-1");
    let (_, a) = step(s, VoiceCreateEvent::Field(Ok(None)));
    assert_eq!(refusal(&a), (400, "Invalid destination chat".to_string()));

    let (_, a) = filled_form("gh_official", b"abc");
    assert_eq!(refusal(&a), (400, "Invalid destination chat".to_string()));

    let (s, _) = begin(Some("wxid_me"), "key-1");
    let (s, _) = field(s, "chatId");
    let (s, _) = step(s, VoiceCreateEvent::Text(Ok("wxid_a".into())));
    let (_, a) = step(s, VoiceCreateEvent::Field(Ok(None)));
    assert_eq!(refusal(&a), (400, "Audio file is required".to_string()));
}

#[test]
fn new_voice_job_is_queued_and_started() {
    let (s, a) = filled_form("wxid_a", b"abc");
    match &a {
        VoiceCreateAction::LookUp { account, key } => {
            assert_eq!(account, "wxid_me");
            assert_eq!(key, "key-1");
        }
        other => panic!("{:?}", other),
    }
    let (s, a) = step(s, VoiceCreateEvent::Looked { found: Ok(None), new_job_id: JOB.into() });
    match &a {
        VoiceCreateAction::Prepare { dir, audio } => {
            assert_eq!(dir, DIR);
            assert_eq!(audio, b"abc");
        }
        other => panic!("{:?}", other),
    }
    let (s, a) = step(s, VoiceCreateEvent::Prepared(Ok(())));
    assert!(matches!(&a, VoiceCreateAction::WriteStatus { job_id, chat_id, account }
        if job_id == JOB && chat_id == "wxid_a" && account == "wxid_me"));
    let (s, a) = step(s, VoiceCreateEvent::Written(Ok(())));
    match &a {
        VoiceCreateAction::Insert { job_id, account, key, hash } => {
            assert_eq!(job_id, JOB);
            assert_eq!(account, "wxid_me");
            assert_eq!(key, "key-1");
            assert_eq!(hash, &request_hash("wxid_a", b"abc"));
        }
        other => panic!("{:?}", other),
    }
    let (s, a) = step(s, VoiceCreateEvent::Inserted(Ok(1)));
    assert!(matches!(s, VoiceCreate::Done));
    match a {
        VoiceCreateAction::Respond {
            code: 202,
            answer: VoiceAnswer::Queued { job_id, chat_id, account },
            remove_dir: None,
            spawn: true,
        } => {
            assert_eq!(job_id, JOB);
            assert_eq!(chat_id, "wxid_a");
            assert_eq!(account, "wxid_me");
        }
        other => panic!("{:?}", other),
    }
}

#[test]
fn repeated_voice_request_answers_stored_job() {
    let (s, _) = filled_form("wxid_a", b"abc");
    let same = request_hash("wxid_a", b"abc");
    let (s, a) = step(
        s,
        VoiceCreateEvent::Looked { found: Ok(Some(("old-job".into(), same))), new_job_id: JOB.into() },
    );
    assert!(matches!(&a, VoiceCreateAction::ReadStored { job_id } if job_id == "old-job"));
    let (_, a) = step(s, VoiceCreateEvent::StatusRead(Ok(())));
    assert!(matches!(
        a,
        VoiceCreateAction::Respond { code: 200, answer: VoiceAnswer::StoredStatus, spawn: false, .. }
    ));

    let (s, _) = filled_form("wxid_a", b"abc");
    let (s, _) = step(
        s,
        VoiceCreateEvent::Looked {
            found: Ok(Some(("old-job".into(), request_hash("wxid_a", b"abc")))),
            new_job_id: JOB.into(),
        },
    );
    let (_, a) = step(s, VoiceCreateEvent::StatusRead(Err("Voice job was not found".into())));
    assert_eq!(refusal(&a), (500, "Voice job was not found".to_string()));
}

#[test]
fn reused_key_with_other_audio_conflicts() {
    let (s, _) = filled_form("wxid_a", b"abc");
    let (_, a) = step(
        s,
        VoiceCreateEvent::Looked {
            found: Ok(Some(("old-job".into(), request_hash("wxid_a", b"xyz")))),
            new_job_id: JOB.into(),
        },
    );
    assert_eq!(
        refusal(&a),
        (409, "Idempotency-Key was used with different audio or destination".to_string())
    );
    let (s, _) = filled_form("wxid_a", b"abc");
    let (_, a) = step(s, VoiceCreateEvent::Looked { found: Err("disk I/O error".into()), new_job_id: JOB.into() });
    assert_eq!(refusal(&a), (500, "disk I/O error".to_string()));
    let (s, _) = filled_form("wxid_a", b"abc");
    let (_, a) = step(s, VoiceCreateEvent::Looked { found: Ok(None), new_job_id: "not-a-uuid".into() });
    assert_eq!(refusal(&a), (500, "Invalid voice job ID".to_string()));
}

fn inserting() -> VoiceCreate {
    let (s, _) = filled_form("wxid_a", b"abc");
    let (s, _) = step(s, VoiceCreateEvent::Looked { found: Ok(None), new_job_id: JOB.into() });
    let (s, _) = step(s, VoiceCreateEvent::Prepared(Ok(())));
    let (s, _) = step(s, VoiceCreateEvent::Written(Ok(())));
    s
}

#[test]
fn lost_insert_race_answers_the_holder() {
    let (s, a) = step(inserting(), VoiceCreateEvent::Inserted(Ok(0)));
    match &a {
        VoiceCreateAction::LookUpAgain { dir, account, key } => {
            assert_eq!(dir, DIR);
            assert_eq!(account, "wxid_me");
            assert_eq!(key, "key-1");
        }
        other => panic!("{:?}", other),
    }
    let (s, a) = step(
        s,
        VoiceCreateEvent::LookedAgain(Ok(("winner".into(), request_hash("wxid_a", b"abc")))),
    );
    assert!(matches!(&a, VoiceCreateAction::ReadStored { job_id } if job_id == "winner"));
    let (_, a) = step(s, VoiceCreateEvent::StatusRead(Err("Voice job was not found".into())));
    assert_eq!(refusal(&a), (200, "Voice job status unavailable".to_string()));

    let (s, _) = step(inserting(), VoiceCreateEvent::Inserted(Ok(0)));
    let (_, a) = step(s, VoiceCreateEvent::LookedAgain(Ok(("winner".into(), "other".into()))));
    assert_eq!(refusal(&a).0, 409);

    let (_, a) = step(inserting(), VoiceCreateEvent::Inserted(Err("locked".into())));
    match a {
        VoiceCreateAction::Respond { code: 500, answer: VoiceAnswer::Error(VoiceError::Other(m)), remove_dir: Some(d), spawn: false } => {
            assert_eq!(m, "locked");
            assert_eq!(d, DIR);
        }
        other => panic!("{:?}", other),
    }
}

#[test]
fn failed_status_write_removes_the_job_directory() {
    let (s, _) = filled_form("wxid_a", b"abc");
    let (s, _) = step(s, VoiceCreateEvent::Looked { found: Ok(None), new_job_id: JOB.into() });
    let (s, _) = step(s, VoiceCreateEvent::Prepared(Ok(())));
    let (_, a) = step(s, VoiceCreateEvent::Written(Err("No space left on device".into())));
    match a {
        VoiceCreateAction::Respond { code: 500, remove_dir: Some(d), spawn: false, .. } => assert_eq!(d, DIR),
        other => panic!("{:?}", other),
    }
}

fn job_step(s: VoiceJob, e: VoiceJobEvent) -> (VoiceJob, VoiceJobAction) {
    assert!(s.accepts(&e), "stage {:?} does not wait for this event", s);
    voice_job_step(s, e)
}

fn fields(status: &str, chunks: &[(&str, &str)]) -> JobFields {
    JobFields {
        account_id: Some("wxid_me".into()),
        status: Some(status.into()),
        chunk_statuses: chunks.iter().map(|(s, _)| Some(s.to_string())).collect(),
        chunk_paths: chunks.iter().map(|(_, p)| Some(p.to_string())).collect(),
    }
}

fn chat_list() -> A11yNode {
    let item = A11yNode {
        role: "list-item".into(),
        name: "A".into(),
        bounds: Some(Bounds { x: 10, y: 20, width: 100, height: 40 }),
        children: None,
        parent_index: None,
        window: None,
        states: None,
    };
    let list = A11yNode {
        role: "list".into(),
        name: "Chats".into(),
        bounds: None,
        children: Some(vec![item]),
        parent_index: None,
        window: None,
        states: None,
    };
    A11yNode {
        role: "frame".into(),
        name: String::new(),
        bounds: None,
        children: Some(vec![list]),
        parent_index: None,
        window: None,
        states: None,
    }
}

#[test]
fn voice_job_run_sends_and_cleans_up() {
    let (s, a) = voice_job_start(JOB.into(), "wxid_a".into(), "wxid_me".into());
    assert!(matches!(&a, VoiceJobAction::RunWorker { mode: WorkerMode::Prepare, dir } if dir == DIR));
    let (s, a) = job_step(s, VoiceJobEvent::Worker(Ok(())));
    assert!(matches!(&a, VoiceJobAction::Guard { dir } if dir == DIR));
    let (s, a) = job_step(
        s,
        VoiceJobEvent::Guarded { cancel_requested: false, logged_in: Some("wxid_me".into()) },
    );
    assert!(matches!(a, VoiceJobAction::ReadTree));
    let (s, a) = job_step(s, VoiceJobEvent::Tree(Ok(chat_list())));
    assert!(matches!(&a, VoiceJobAction::OpenChat { chat_id, center: (60, 40) } if chat_id == "wxid_a"));
    let opened = OpenedChat { ok: true, error: None, username: Some("wxid_a".into()) };
    let (s, a) = job_step(s, VoiceJobEvent::Opened(opened));
    assert!(matches!(&a, VoiceJobAction::RunWorker { mode: WorkerMode::Send, dir } if dir == DIR));
    let (s, a) = job_step(s, VoiceJobEvent::Worker(Ok(())));
    assert!(matches!(a, VoiceJobAction::ReadStatus));
    let done = fields("completed", &[("verified", "chunk-1.wav"), ("verified", "../x.wav")]);
    let (s, a) = job_step(s, VoiceJobEvent::Status(Ok(done)));
    assert!(matches!(s, VoiceJob::Done));
    match a {
        VoiceJobAction::Cleanup { files } => assert_eq!(
            files,
            vec![format!("{DIR}/input"), format!("{DIR}/source.wav"), format!("{DIR}/chunk-1.wav")]
        ),
        other => panic!("{:?}", other),
    }
}

fn checking() -> VoiceJob {
    let (s, _) = voice_job_start(JOB.into(), "wxid_a".into(), "wxid_me".into());
    job_step(s, VoiceJobEvent::Worker(Ok(()))).0
}

fn recorded(s: VoiceJob, current: &str, chunks: &[(&str, &str)], cancel: bool) -> VoiceJobAction {
    job_step(
        s,
        VoiceJobEvent::StoppedStatus { fields: Ok(fields(current, chunks)), cancel_requested: cancel },
    )
    .1
}

#[test]
fn stopped_voice_job_records_why() {
    let (s, a) = job_step(
        checking(),
        VoiceJobEvent::Guarded { cancel_requested: true, logged_in: Some("wxid_me".into()) },
    );
    assert!(matches!(a, VoiceJobAction::ReadStoppedStatus));
    match recorded(s, "preparing", &[], true) {
        VoiceJobAction::Record { status, error } => {
            assert_eq!(status, "cancelled");
            assert_eq!(error, "Voice job cancelled before recording");
        }
        other => panic!("{:?}", other),
    }

    let (s, _) = job_step(
        checking(),
        VoiceJobEvent::Guarded { cancel_requested: false, logged_in: Some("wxid_other".into()) },
    );
    match recorded(s, "preparing", &[], false) {
        VoiceJobAction::Record { status, error } => {
            assert_eq!(status, "failed");
            assert_eq!(error, "The logged-in account changed before recording");
        }
        other => panic!("{:?}", other),
    }

    let (s, _) = voice_job_start(JOB.into(), "wxid_a".into(), "wxid_me".into());
    let (s, _) = job_step(s, VoiceJobEvent::Worker(Err("ffmpeg failed".into())));
    match recorded(s, "sending", &[("send_clicked", "chunk-1.wav")], true) {
        VoiceJobAction::Record { status, error } => {
            assert_eq!(status, "needs_review");
            assert_eq!(error, "ffmpeg failed");
        }
        other => panic!("{:?}", other),
    }

    let (s, _) = voice_job_start(JOB.into(), "wxid_a".into(), "wxid_me".into());
    let (s, _) = job_step(s, VoiceJobEvent::Worker(Err("late".into())));
    assert!(matches!(recorded(s, "completed", &[], false), VoiceJobAction::Finish));

    let (s, a) = voice_job_start("bad-id".into(), "wxid_a".into(), "wxid_me".into());
    assert!(matches!(&s, VoiceJob::Stopping { error } if error == "Invalid voice job ID"));
    assert!(matches!(a, VoiceJobAction::ReadStoppedStatus));
}

#[test]
fn voice_job_sends_only_to_the_opened_destination() {
    let (s, _) = job_step(
        checking(),
        VoiceJobEvent::Guarded { cancel_requested: false, logged_in: Some("wxid_me".into()) },
    );
    let (s, _) = job_step(s, VoiceJobEvent::Tree(Ok(chat_list())));
    let other = OpenedChat { ok: true, error: None, username: Some("wxid_b".into()) };
    let (s, a) = job_step(s, VoiceJobEvent::Opened(other));
    assert!(matches!(a, VoiceJobAction::ReadStoppedStatus));
    assert!(
        matches!(&s, VoiceJob::Stopping { error } if error == "Chat selection returned a different destination")
    );

    let (s, _) = job_step(
        checking(),
        VoiceJobEvent::Guarded { cancel_requested: false, logged_in: Some("wxid_me".into()) },
    );
    let empty = A11yNode {
        role: "frame".into(),
        name: String::new(),
        bounds: None,
        children: None,
        parent_index: None,
        window: None,
        states: None,
    };
    let (s, _) = job_step(s, VoiceJobEvent::Tree(Ok(empty)));
    assert!(matches!(&s, VoiceJob::Stopping { error } if error == "Chat list click target is unavailable"));
}

#[test]
fn only_completed_jobs_are_cleaned_up() {
    let f = fields("sending", &[("verified", "chunk-1.wav")]);
    assert!(cleanup_files(DIR, &f).is_empty());
    let f = fields("completed", &[("verified", "chunk-2.wav"), ("pending", "chunk-3.mp3")]);
    assert_eq!(
        cleanup_files(DIR, &f),
        vec![format!("{DIR}/input"), format!("{DIR}/source.wav"), format!("{DIR}/chunk-2.wav")]
    );
}

#[test]
fn send_checks_run_in_order() {
    assert_eq!(
        check_send(false, None, None, false, false).err(),
        Some("No text, image, or file provided".to_string())
    );
    assert_eq!(check_send(true, None, None, false, false).err(), Some("No session available".to_string()));
    assert_eq!(check_send(true, None, None, true, false).err(), Some("NOT_LOGGED_IN".to_string()));
    let ok = check_send(true, None, None, true, true).unwrap();
    assert!(ok.image.is_none() && ok.file.is_none());
    // An image that does not decode is left out; a file that does not decode refuses.
    let r = check_send(false, Some("!!"), Some("aGk="), true, true).unwrap();
    assert!(r.image.is_none());
    assert_eq!(r.file, Some(b"hi".to_vec()));
    let err = check_send(false, Some("aGk="), Some("!!"), true, true).err().unwrap();
    assert!(err.starts_with("Failed to decode base64 file data: "));
    // The session is checked before any upload.
    assert_eq!(check_send(false, Some("!!"), None, true, false).err(), Some("NOT_LOGGED_IN".to_string()));
}
