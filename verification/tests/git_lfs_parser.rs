use git_lfs_synology::git_lfs::custom_transfer_agent::AgentError;
use git_lfs_synology::git_lfs::git_lfs_parser::{
    complete_download, complete_upload, error_init, Event, EventJson, EventType, Frame,
    GitLfsProgressReporter, Line, ParserState, ProtocolError,
};
use git_lfs_synology::git_lfs::{CustomTransferAgent, GitLfsParser};
use git_lfs_synology::synology_api::ProgressReporter;

struct Scripted {
    calls: Vec<String>,
    init: Result<(), AgentError>,
    upload: Result<(), AgentError>,
    download: Result<String, AgentError>,
}

impl Scripted {
    fn ok() -> Scripted {
        Scripted {
            calls: vec![],
            init: Ok(()),
            upload: Ok(()),
            download: Ok("./.git/lfs/objects/de/ad/deadbeef".to_string()),
        }
    }
}

fn describe(kind: &str, event: &Event) -> String {
    format!("{} {:?} {:?} {:?} {:?}", kind, event.event, event.oid, event.path, event.size)
}

impl CustomTransferAgent for Scripted {
    fn download(&mut self, event: &Event) -> Result<String, AgentError> {
        self.calls.push(describe("download", event));
        self.download.clone()
    }

    fn init(&mut self, event: &Event) -> Result<(), AgentError> {
        self.calls.push(describe("init", event));
        self.init.clone()
    }

    fn terminate(&mut self) -> Result<(), AgentError> {
        self.calls.push("terminate".to_string());
        Ok(())
    }

    fn upload(&mut self, event: &Event) -> Result<(), AgentError> {
        self.calls.push(describe("upload", event));
        self.upload.clone()
    }
}

fn event(kind: &str, oid: Option<&str>, path: Option<&str>, size: Option<usize>) -> Line {
    Line::Event(EventJson {
        event: kind.to_string(),
        oid: oid.map(|s| s.to_string()),
        path: path.map(|s| s.to_string()),
        size,
        error: None,
    })
}

fn complete(frame: &Frame) -> (Option<String>, Option<String>, Option<(u32, String)>) {
    match frame {
        Frame::Complete(json) => {
            assert_eq!(json.event, "complete");
            assert_eq!(json.size, None);
            (
                json.oid.clone(),
                json.path.clone(),
                json.error.as_ref().map(|e| (e.code, e.message.clone())),
            )
        }
        other => panic!("no complete frame: {:?}", other),
    }
}

fn ready(agent: &mut Scripted) -> GitLfsParser {
    let mut parser = GitLfsParser::new();
    let frames = parser.listen(agent, event("init", None, None, None)).unwrap();
    assert_eq!(frames.len(), 1);
    assert!(matches!(frames[0], Frame::Acknowledge));
    assert_eq!(parser.state(), ParserState::Ready);
    parser
}

#[test]
fn parse_decodes_the_four_kinds() {
    let parser = GitLfsParser::new();
    for (name, kind) in [
        ("download", EventType::Download),
        ("init", EventType::Init),
        ("terminate", EventType::Terminate),
        ("upload", EventType::Upload),
    ] {
        let json = EventJson {
            event: name.to_string(),
            oid: Some("abc".to_string()),
            path: Some("/tmp/x".to_string()),
            size: Some(1024),
            error: None,
        };
        let parsed = parser.parse(&json).unwrap();
        assert_eq!(parsed.event, kind);
        assert_eq!(parsed.oid, Some("abc".to_string()));
        assert_eq!(parsed.path, Some("/tmp/x".to_string()));
        assert_eq!(parsed.size, Some(1024));
    }
}

#[test]
fn parse_refuses_other_names() {
    let parser = GitLfsParser::new();
    for name in ["", "Init", "progress", "complete", "uploads", " init"] {
        let json = EventJson { event: name.to_string(), oid: None, path: None, size: None, error: None };
        assert_eq!(parser.parse(&json).err(), Some(ProtocolError::UnknownEvent), "{}", name);
    }
}

#[test]
fn new_parser_expects_init() {
    assert_eq!(GitLfsParser::new().state(), ParserState::ExpectInit);
}

#[test]
fn init_is_acknowledged() {
    let mut agent = Scripted::ok();
    let parser = ready(&mut agent);
    assert_eq!(parser.state(), ParserState::Ready);
    assert_eq!(agent.calls, vec!["init Init None None None".to_string()]);
}

#[test]
fn failed_init_is_reported_with_code_1_and_ends_the_session() {
    let mut agent = Scripted::ok();
    agent.init = Err(AgentError { code: 77, message: "No user logged in".to_string() });
    let mut parser = GitLfsParser::new();
    let frames = parser.listen(&mut agent, event("init", None, None, None)).unwrap();
    assert_eq!(frames.len(), 1);
    match &frames[0] {
        Frame::InitError(json) => {
            assert_eq!(json.error.code, 1);
            assert_eq!(json.error.message, "No user logged in");
        }
        other => panic!("no init error: {:?}", other),
    }
    assert_eq!(parser.state(), ParserState::Ended);
    let next = parser.listen(&mut agent, event("upload", Some("abc"), Some("/tmp/x"), Some(1)));
    assert_eq!(next.err(), Some(ProtocolError::Ended));
    assert_eq!(agent.calls.len(), 1);
}

#[test]
fn first_event_must_be_init() {
    for first in [
        event("upload", Some("abc"), Some("/tmp/x"), Some(1)),
        event("download", Some("abc"), None, Some(1)),
        event("terminate", None, None, None),
    ] {
        let mut agent = Scripted::ok();
        let mut parser = GitLfsParser::new();
        assert_eq!(parser.listen(&mut agent, first).err(), Some(ProtocolError::ExpectedInit));
        assert_eq!(parser.state(), ParserState::Ended);
        assert!(agent.calls.is_empty());
    }
    let mut agent = Scripted::ok();
    let mut parser = GitLfsParser::new();
    assert_eq!(
        parser.listen(&mut agent, event("hello", None, None, None)).err(),
        Some(ProtocolError::UnknownEvent)
    );
    let mut parser = GitLfsParser::new();
    assert_eq!(parser.listen(&mut agent, Line::Malformed).err(), Some(ProtocolError::MalformedLine));
    let mut parser = GitLfsParser::new();
    assert_eq!(parser.listen(&mut agent, Line::Closed).err(), Some(ProtocolError::ExpectedInit));
    assert!(agent.calls.is_empty());
}

#[test]
fn upload_is_answered_by_one_complete_frame() {
    let mut agent = Scripted::ok();
    let mut parser = ready(&mut agent);
    let frames = parser
        .listen(&mut agent, event("upload", Some("abcdef"), Some("/tmp/x"), Some(1024)))
        .unwrap();
    assert_eq!(frames.len(), 1);
    assert_eq!(complete(&frames[0]), (Some("abcdef".to_string()), None, None));
    assert_eq!(parser.state(), ParserState::Ready);
    assert_eq!(agent.calls[1], "upload Upload Some(\"abcdef\") Some(\"/tmp/x\") Some(1024)");
}

#[test]
fn download_is_answered_with_the_local_path() {
    let mut agent = Scripted::ok();
    let mut parser = ready(&mut agent);
    let frames = parser.listen(&mut agent, event("download", Some("deadbeef"), None, Some(5))).unwrap();
    assert_eq!(frames.len(), 1);
    assert_eq!(
        complete(&frames[0]),
        (Some("deadbeef".to_string()), Some("./.git/lfs/objects/de/ad/deadbeef".to_string()), None)
    );
    assert_eq!(parser.state(), ParserState::Ready);
}

#[test]
fn failed_transfers_are_reported_and_the_session_goes_on() {
    let mut agent = Scripted::ok();
    agent.upload = Err(AgentError { code: 0, message: "File already exists".to_string() });
    agent.download = Err(AgentError { code: 5, message: "No such file or directory".to_string() });
    let mut parser = ready(&mut agent);
    let frames = parser.listen(&mut agent, event("upload", Some("a"), Some("/tmp/x"), Some(1))).unwrap();
    assert_eq!(frames.len(), 1);
    assert_eq!(
        complete(&frames[0]),
        (Some("a".to_string()), None, Some((1, "File already exists".to_string())))
    );
    let frames = parser.listen(&mut agent, event("download", Some("b"), None, Some(1))).unwrap();
    assert_eq!(frames.len(), 1);
    assert_eq!(
        complete(&frames[0]),
        (Some("b".to_string()), None, Some((5, "No such file or directory".to_string())))
    );
    assert_eq!(parser.state(), ParserState::Ready);
    agent.upload = Ok(());
    let frames = parser.listen(&mut agent, event("upload", Some("c"), Some("/tmp/y"), Some(1))).unwrap();
    assert_eq!(complete(&frames[0]), (Some("c".to_string()), None, None));
}

#[test]
fn events_without_place_are_reported_and_the_session_goes_on() {
    let mut agent = Scripted::ok();
    let mut parser = ready(&mut agent);
    for line in [event("init", Some("x"), None, None), event("hello", Some("x"), None, None)] {
        let frames = parser.listen(&mut agent, line).unwrap();
        assert_eq!(frames.len(), 1);
        assert_eq!(
            complete(&frames[0]),
            (Some("x".to_string()), None, Some((1, "Event type not supported in context.".to_string())))
        );
        assert_eq!(parser.state(), ParserState::Ready);
    }
    assert_eq!(agent.calls.len(), 1);
}

#[test]
fn terminate_writes_nothing_and_ends() {
    let mut agent = Scripted::ok();
    let mut parser = ready(&mut agent);
    let frames = parser.listen(&mut agent, event("terminate", None, None, None)).unwrap();
    assert!(frames.is_empty());
    assert_eq!(parser.state(), ParserState::Ended);
    assert_eq!(agent.calls.last().unwrap(), "terminate");
    assert_eq!(
        parser.listen(&mut agent, event("terminate", None, None, None)).err(),
        Some(ProtocolError::Ended)
    );
    assert_eq!(agent.calls.len(), 2);
}

#[test]
fn closed_stream_is_a_terminate() {
    let mut agent = Scripted::ok();
    let mut parser = ready(&mut agent);
    let frames = parser.listen(&mut agent, Line::Closed).unwrap();
    assert!(frames.is_empty());
    assert_eq!(parser.state(), ParserState::Ended);
    assert_eq!(agent.calls.last().unwrap(), "terminate");
}

#[test]
fn malformed_line_after_init_ends_the_session() {
    let mut agent = Scripted::ok();
    let mut parser = ready(&mut agent);
    assert_eq!(parser.listen(&mut agent, Line::Malformed).err(), Some(ProtocolError::MalformedLine));
    assert_eq!(parser.state(), ParserState::Ended);
    assert_eq!(agent.calls.len(), 1);
}

#[test]
fn session_emits_one_complete_per_transfer() {
    let mut agent = Scripted::ok();
    let mut parser = GitLfsParser::new();
    let lines = vec![
        event("init", None, None, None),
        event("upload", Some("a"), Some("/tmp/a"), Some(1)),
        event("download", Some("b"), None, Some(2)),
        event("upload", Some("c"), Some("/tmp/c"), Some(3)),
        event("terminate", None, None, None),
    ];
    let mut completes: Vec<Option<String>> = vec![];
    let mut written = 0;
    for line in lines {
        for frame in parser.listen(&mut agent, line).unwrap() {
            written += 1;
            if let Frame::Complete(json) = frame {
                completes.push(json.oid);
            }
        }
    }
    assert_eq!(written, 4);
    assert_eq!(
        completes,
        vec![Some("a".to_string()), Some("b".to_string()), Some("c".to_string())]
    );
    assert_eq!(parser.state(), ParserState::Ended);
}

#[test]
fn frames_for_the_driver() {
    let error = error_init(1, "reason");
    assert_eq!(error.error.code, 1);
    assert_eq!(error.error.message, "reason");
    let upload = complete_upload("abc");
    assert_eq!(upload.event, "complete");
    assert_eq!(upload.oid, Some("abc".to_string()));
    assert_eq!(upload.path, None);
    assert_eq!(upload.size, None);
    assert!(upload.error.is_none());
    let download = complete_download("abc", "./x");
    assert_eq!(download.event, "complete");
    assert_eq!(download.oid, Some("abc".to_string()));
    assert_eq!(download.path, Some("./x".to_string()));
    assert!(download.error.is_none());
}

#[test]
fn replies_for_each_answer() {
    assert!(matches!(GitLfsParser::init_reply(Ok(())), Frame::Acknowledge));
    let failed = GitLfsParser::init_reply(Err(AgentError { code: 9, message: "m".to_string() }));
    assert!(matches!(&failed, Frame::InitError(json) if json.error.code == 1 && json.error.message == "m"));
    assert_eq!(
        complete(&GitLfsParser::upload_reply(None, Ok(()))),
        (None, None, None)
    );
    assert_eq!(
        complete(&GitLfsParser::download_reply(
            Some("o".to_string()),
            Err(AgentError { code: u32::MAX, message: "m".to_string() })
        )),
        (Some("o".to_string()), None, Some((u32::MAX, "m".to_string())))
    );
    assert_eq!(
        complete(&GitLfsParser::unsupported_reply(None)),
        (None, None, Some((1, "Event type not supported in context.".to_string())))
    );
}

fn progress(reporter: &GitLfsProgressReporter) -> (String, String, usize, usize) {
    match reporter.progress() {
        Frame::Progress(json) => (json.event, json.oid, json.bytes_so_far, json.bytes_since_last),
        other => panic!("no progress frame: {:?}", other),
    }
}

#[test]
fn progress_accumulates() {
    let mut reporter = GitLfsProgressReporter::new(100, "abc".to_string());
    assert_eq!(progress(&reporter), ("progress".to_string(), "abc".to_string(), 0, 0));
    reporter.update(10).unwrap();
    assert_eq!(progress(&reporter), ("progress".to_string(), "abc".to_string(), 10, 10));
    reporter.update(0).unwrap();
    assert_eq!(progress(&reporter), ("progress".to_string(), "abc".to_string(), 10, 0));
    reporter.update(90).unwrap();
    assert_eq!(progress(&reporter), ("progress".to_string(), "abc".to_string(), 100, 90));
}

#[test]
fn progress_never_falls() {
    let mut reporter = GitLfsProgressReporter::new(0, "abc".to_string());
    let mut last = 0;
    for bytes in [1usize, usize::MAX - 5, 3, 7, usize::MAX, 0] {
        reporter.update(bytes).unwrap();
        let (_, _, so_far, since_last) = progress(&reporter);
        assert!(so_far >= last);
        assert_eq!(since_last, bytes);
        last = so_far;
    }
    assert_eq!(last, usize::MAX);
}
