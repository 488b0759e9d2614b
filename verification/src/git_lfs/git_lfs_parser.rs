//! The driver of the line protocol: events in, frames out.

use vstd::prelude::*;

use crate::git_lfs::custom_transfer_agent::{
    answered, asked, AgentAnswer, AgentCall, AgentError, CustomTransferAgent,
};
use crate::synology_api::progress_reporter::{ProgressError, ProgressReporter};
use crate::text::{clone_opt, opt_view, str_eq};

verus! {

/// The kinds of event that Git sends.
#[derive(Clone, Copy, Debug, PartialEq, Eq, Structural)]
pub enum EventType {
    Download,
    Init,
    Terminate,
    Upload,
}

/// One line of the protocol as it stands on the wire: an event of Git, or a
/// `complete` frame of the agent.
#[derive(Clone, Debug)]
pub struct EventJson {
    pub event: String,
    pub oid: Option<String>,
    pub path: Option<String>,
    pub size: Option<usize>,
    pub error: Option<ErrorJsonInner>,
}

/// An event of Git, its kind decoded.
#[derive(Debug)]
pub struct Event {
    pub event: EventType,
    pub oid: Option<String>,
    pub path: Option<String>,
    pub size: Option<usize>,
}

/// The frame that reports a failed `init`.
#[derive(Clone, Debug)]
pub struct ErrorJson {
    pub error: ErrorJsonInner,
}

/// A failure as it stands in a frame.
#[derive(Clone, Debug)]
pub struct ErrorJsonInner {
    pub code: u32,
    pub message: String,
}

/// An event as the characters it holds.
pub struct EventView {
    pub event: EventType,
    pub oid: Option<Seq<char>>,
    pub path: Option<Seq<char>>,
    pub size: Option<usize>,
}

impl View for Event {
    type V = EventView;

    open spec fn view(&self) -> EventView {
        EventView {
            event: self.event,
            oid: opt_view(self.oid),
            path: opt_view(self.path),
            size: self.size,
        }
    }
}

/// A frame as the characters it holds.
pub enum FrameView {
    /// The empty object that acknowledges `init`.
    Acknowledge,
    /// `init` failed.
    InitError { code: u32, message: Seq<char> },
    /// One object is done, with the local path of a download and with the
    /// failure where there was one.
    Complete { oid: Option<Seq<char>>, path: Option<Seq<char>>, error: Option<(u32, Seq<char>)> },
    /// A transfer has moved on.
    Progress { oid: Seq<char>, bytes_so_far: usize, bytes_since_last: usize },
}

/// One line that the agent writes to Git.
#[derive(Clone, Debug)]
pub enum Frame {
    /// The empty object that acknowledges `init`.
    Acknowledge,
    /// `init` failed.
    InitError(ErrorJson),
    /// One object is done.
    Complete(EventJson),
    /// A transfer has moved on.
    Progress(ProgressJson),
}

/// The record of a transfer's progress as it stands on the wire.
#[derive(Clone, Debug)]
pub struct ProgressJson {
    pub event: String,
    pub oid: String,
    pub bytes_so_far: usize,
    pub bytes_since_last: usize,
}

/// The failure of a frame as characters.
pub open spec fn error_view(error: Option<ErrorJsonInner>) -> Option<(u32, Seq<char>)> {
    match error {
        Some(e) => Some((e.code, e.message@)),
        None => None,
    }
}

impl Frame {
    /// Whether the frame is well formed: a `complete` frame says `complete`,
    /// a progress frame says `progress`.
    pub open spec fn wf(self) -> bool {
        match self {
            Frame::Complete(json) => json.event@ == "complete"@ && json.size is None,
            Frame::Progress(json) => json.event@ == "progress"@,
            _ => true,
        }
    }
}

impl View for Frame {
    type V = FrameView;

    open spec fn view(&self) -> FrameView {
        match *self {
            Frame::Acknowledge => FrameView::Acknowledge,
            Frame::InitError(json) => FrameView::InitError {
                code: json.error.code,
                message: json.error.message@,
            },
            Frame::Complete(json) => FrameView::Complete {
                oid: opt_view(json.oid),
                path: opt_view(json.path),
                error: error_view(json.error),
            },
            Frame::Progress(json) => FrameView::Progress {
                oid: json.oid@,
                bytes_so_far: json.bytes_so_far,
                bytes_since_last: json.bytes_since_last,
            },
        }
    }
}

/// The frame that reports a failed `init`.
pub fn error_init(code: u32, message: &str) -> (r: ErrorJson)
    ensures
        r.error.code == code,
        r.error.message@ == message@,
{
    ErrorJson { error: ErrorJsonInner { code, message: message.to_string() } }
}

/// The frame that reports a finished upload.
pub fn complete_upload(oid: &str) -> (r: EventJson)
    ensures
        Frame::Complete(r).wf(),
        Frame::Complete(r)@ == (FrameView::Complete { oid: Some(oid@), path: None, error: None }),
{
    EventJson {
        event: "complete".to_string(),
        oid: Some(oid.to_string()),
        path: None,
        size: None,
        error: None,
    }
}

/// The frame that reports a finished download and where the object stands.
pub fn complete_download(oid: &str, path: &str) -> (r: EventJson)
    ensures
        Frame::Complete(r).wf(),
        Frame::Complete(r)@ == (FrameView::Complete {
            oid: Some(oid@),
            path: Some(path@),
            error: None,
        }),
{
    EventJson {
        event: "complete".to_string(),
        oid: Some(oid.to_string()),
        path: Some(path.to_string()),
        size: None,
        error: None,
    }
}

/// The sum of two counts, held at the largest number there is.
pub open spec fn saturating_sum(a: usize, b: usize) -> usize {
    if a + b <= usize::MAX {
        (a + b) as usize
    } else {
        usize::MAX
    }
}

/// The progress of one object's transfer: what has moved so far and what
/// moved with the last report.
pub struct GitLfsProgressReporter {
    total_bytes: usize,
    bytes_so_far: usize,
    bytes_since_last: usize,
    oid: String,
    event: String,
    history: Ghost<Seq<usize>>,
}

/// The progress of a transfer as plain values.
pub struct ProgressView {
    pub total_bytes: usize,
    pub bytes_so_far: usize,
    pub bytes_since_last: usize,
    pub oid: Seq<char>,
    pub event: Seq<char>,
}

impl View for GitLfsProgressReporter {
    type V = ProgressView;

    closed spec fn view(&self) -> ProgressView {
        ProgressView {
            total_bytes: self.total_bytes,
            bytes_so_far: self.bytes_so_far,
            bytes_since_last: self.bytes_since_last,
            oid: self.oid@,
            event: self.event@,
        }
    }
}

impl GitLfsProgressReporter {
    /// The progress of a transfer of `total_bytes` bytes that has not begun.
    pub fn new(total_bytes: usize, oid: String) -> (r: GitLfsProgressReporter)
        ensures
            r@ == (ProgressView {
                total_bytes,
                bytes_so_far: 0,
                bytes_since_last: 0,
                oid: oid@,
                event: "progress"@,
            }),
            r.reported() == Some(Seq::<usize>::empty()),
    {
        GitLfsProgressReporter {
            total_bytes,
            oid,
            bytes_so_far: 0,
            bytes_since_last: 0,
            event: "progress".to_string(),
            history: Ghost(Seq::empty()),
        }
    }

    /// The frame that tells Git where the transfer stands.
    pub fn progress(&self) -> (r: Frame)
        ensures
            r.wf(),
            r@ == (FrameView::Progress {
                oid: self@.oid,
                bytes_so_far: self@.bytes_so_far,
                bytes_since_last: self@.bytes_since_last,
            }),
    {
        Frame::Progress(
            ProgressJson {
                event: "progress".to_string(),
                oid: self.oid.clone(),
                bytes_so_far: self.bytes_so_far,
                bytes_since_last: self.bytes_since_last,
            },
        )
    }
}

impl ProgressReporter for GitLfsProgressReporter {
    closed spec fn reported(&self) -> Option<Seq<usize>> {
        Some(self.history@)
    }

    /// Adds `bytes_since_last` to what has moved so far. The count never
    /// falls; it stays at the largest number there is once it has reached it.
    fn update(&mut self, bytes_since_last: usize) -> (r: Result<(), ProgressError>)
        ensures
            r is Ok,
            final(self)@ == (ProgressView {
                bytes_so_far: saturating_sum(old(self)@.bytes_so_far, bytes_since_last),
                bytes_since_last,
                ..old(self)@
            }),
            final(self)@.bytes_so_far >= old(self)@.bytes_so_far,
    {
        self.bytes_since_last = bytes_since_last;
        self.bytes_so_far = self.bytes_so_far.saturating_add(bytes_since_last);
        self.history = Ghost(self.history@.push(bytes_since_last));
        Ok(())
    }
}

/// Why the driver gave up on the stream.
#[derive(Clone, Copy, Debug, PartialEq, Eq, Structural)]
pub enum ProtocolError {
    /// A line was no event.
    MalformedLine,
    /// An event named a kind that the protocol does not have.
    UnknownEvent,
    /// The first event was not `init`, or the stream ended before it.
    ExpectedInit,
    /// The session has ended.
    Ended,
}

/// Where the driver stands in a session.
#[derive(Clone, Copy, Debug, PartialEq, Eq, Structural)]
pub enum ParserState {
    /// Nothing was read yet; the first event must be `init`.
    ExpectInit,
    /// `init` succeeded; transfers are taken.
    Ready,
    /// The session is over.
    Ended,
}

/// What reading the next line gave.
#[derive(Debug)]
pub enum Line {
    /// The stream is closed.
    Closed,
    /// A line that is no event.
    Malformed,
    /// An event.
    Event(EventJson),
}

/// The kind that a name on the wire stands for.
pub open spec fn spec_event_type(name: Seq<char>) -> Option<EventType> {
    if name == "download"@ {
        Some(EventType::Download)
    } else if name == "init"@ {
        Some(EventType::Init)
    } else if name == "terminate"@ {
        Some(EventType::Terminate)
    } else if name == "upload"@ {
        Some(EventType::Upload)
    } else {
        None
    }
}

/// The code that a failure carries in a frame: its own, or 1 where its own is 0.
pub open spec fn frame_code(code: u32) -> u32 {
    if code == 0 {
        1
    } else {
        code
    }
}

/// The frame that answers `init`.
pub open spec fn spec_init_reply(result: Result<(), AgentError>) -> FrameView {
    match result {
        Ok(_) => FrameView::Acknowledge,
        Err(e) => FrameView::InitError { code: 1, message: e.message@ },
    }
}

/// The frame that answers an upload.
pub open spec fn spec_upload_reply(oid: Option<Seq<char>>, result: Result<(), AgentError>) -> FrameView {
    match result {
        Ok(_) => FrameView::Complete { oid, path: None, error: None },
        Err(e) => FrameView::Complete {
            oid,
            path: None,
            error: Some((frame_code(e.code), e.message@)),
        },
    }
}

/// The frame that answers a download.
pub open spec fn spec_download_reply(oid: Option<Seq<char>>, result: Result<String, AgentError>) -> FrameView {
    match result {
        Ok(path) => FrameView::Complete { oid, path: Some(path@), error: None },
        Err(e) => FrameView::Complete {
            oid,
            path: None,
            error: Some((frame_code(e.code), e.message@)),
        },
    }
}

/// The frame that answers an event that has no place after `init`.
pub open spec fn spec_unsupported_reply(oid: Option<Seq<char>>) -> FrameView {
    FrameView::Complete {
        oid,
        path: None,
        error: Some((1, "Event type not supported in context."@)),
    }
}

/// Whether a frame reports, for the object `oid`, that it is done.
pub open spec fn is_complete_for(frame: FrameView, oid: Option<Seq<char>>) -> bool {
    frame matches FrameView::Complete { oid: o, .. } && o == oid
}

/// Whether the driver gave up on the stream for the reason `e`.
pub open spec fn gives_up(reply: Result<Vec<Frame>, ProtocolError>, e: ProtocolError) -> bool {
    reply matches Err(x) && x == e
}

/// Whether the driver goes on and writes nothing.
pub open spec fn writes_nothing(reply: Result<Vec<Frame>, ProtocolError>) -> bool {
    reply matches Ok(frames) && frames@.len() == 0
}

/// The frame that the driver writes, where it writes exactly one.
pub open spec fn written_frame(reply: Result<Vec<Frame>, ProtocolError>) -> Option<Frame> {
    match reply {
        Ok(frames) => if frames@.len() == 1 {
            Some(frames@[0])
        } else {
            None
        },
        Err(_) => None,
    }
}

/// What one call of `listen` does, whatever the agent answers: the state
/// before, the line, the state after and what is written.
pub open spec fn listen_post(
    before: ParserState,
    line: Line,
    after: ParserState,
    reply: Result<Vec<Frame>, ProtocolError>,
) -> bool {
    match before {
        ParserState::Ended => after == ParserState::Ended && gives_up(reply, ProtocolError::Ended),
        ParserState::ExpectInit => match line {
            Line::Closed => after == ParserState::Ended && gives_up(
                reply,
                ProtocolError::ExpectedInit,
            ),
            Line::Malformed => after == ParserState::Ended && gives_up(
                reply,
                ProtocolError::MalformedLine,
            ),
            Line::Event(json) => match spec_event_type(json.event@) {
                Some(EventType::Init) => written_frame(reply) matches Some(frame) && frame.wf()
                    && (exists|result: Result<(), AgentError>|
                    #![trigger spec_init_reply(result)]
                    frame@ == spec_init_reply(result) && after == (if result is Ok {
                        ParserState::Ready
                    } else {
                        ParserState::Ended
                    })),
                Some(_) => after == ParserState::Ended && gives_up(
                    reply,
                    ProtocolError::ExpectedInit,
                ),
                None => after == ParserState::Ended && gives_up(reply, ProtocolError::UnknownEvent),
            },
        },
        ParserState::Ready => match line {
            Line::Closed => after == ParserState::Ended && writes_nothing(reply),
            Line::Malformed => after == ParserState::Ended && gives_up(
                reply,
                ProtocolError::MalformedLine,
            ),
            Line::Event(json) => match spec_event_type(json.event@) {
                Some(EventType::Terminate) => after == ParserState::Ended && writes_nothing(reply),
                Some(EventType::Upload) => written_frame(reply) matches Some(frame) && after
                    == ParserState::Ready && frame.wf() && (exists|result: Result<(), AgentError>|
                    #![trigger spec_upload_reply(opt_view(json.oid), result)]
                    frame@ == spec_upload_reply(opt_view(json.oid), result)),
                Some(EventType::Download) => written_frame(reply) matches Some(frame) && after
                    == ParserState::Ready && frame.wf() && (exists|result: Result<String, AgentError>|
                    #![trigger spec_download_reply(opt_view(json.oid), result)]
                    frame@ == spec_download_reply(opt_view(json.oid), result)),
                _ => written_frame(reply) matches Some(frame) && after == ParserState::Ready
                    && frame.wf() && frame@ == spec_unsupported_reply(opt_view(json.oid)),
            },
        },
    }
}

/// An event of the wire as the driver hands it to the agent.
pub open spec fn event_view(json: EventJson, kind: EventType) -> EventView {
    EventView { event: kind, oid: opt_view(json.oid), path: opt_view(json.path), size: json.size }
}

/// What one call of `listen` asks of the agent: `init` for the first event,
/// the transfer for an upload or a download, the end for `terminate` and
/// for the end of the stream, and nothing for anything else.
pub open spec fn listen_asks(before: ParserState, line: Line) -> Option<AgentCall> {
    match (before, line) {
        (ParserState::ExpectInit, Line::Event(json)) => match spec_event_type(json.event@) {
            Some(EventType::Init) => Some(AgentCall::Init(event_view(json, EventType::Init))),
            _ => None,
        },
        (ParserState::Ready, Line::Closed) => Some(AgentCall::Terminate),
        (ParserState::Ready, Line::Event(json)) => match spec_event_type(json.event@) {
            Some(EventType::Terminate) => Some(AgentCall::Terminate),
            Some(EventType::Upload) => Some(AgentCall::Upload(event_view(json, EventType::Upload))),
            Some(EventType::Download) => Some(
                AgentCall::Download(event_view(json, EventType::Download)),
            ),
            _ => None,
        },
        _ => None,
    }
}

/// The record of an agent that keeps one, after one call of `listen`.
pub open spec fn record_after(
    record: Option<Seq<AgentCall>>,
    before: ParserState,
    line: Line,
) -> Option<Seq<AgentCall>> {
    match listen_asks(before, line) {
        Some(call) => asked(record, call),
        None => record,
    }
}

/// Whether what the driver wrote, and where it went on to, is what it owes
/// for this answer of the agent to this call: the reply to `init`, to the
/// upload or to the download, made of that very answer, and nothing for
/// `terminate`.
pub open spec fn reports(
    call: AgentCall,
    answer: AgentAnswer,
    after: ParserState,
    reply: Result<Vec<Frame>, ProtocolError>,
) -> bool {
    match (call, answer) {
        (AgentCall::Init(_), AgentAnswer::Done(result)) => written_frame(reply) matches Some(frame)
            && frame@ == spec_init_reply(result) && after == (if result is Ok {
            ParserState::Ready
        } else {
            ParserState::Ended
        }),
        (AgentCall::Upload(event), AgentAnswer::Done(result)) => written_frame(reply) matches Some(
            frame,
        ) && frame@ == spec_upload_reply(event.oid, result),
        (AgentCall::Download(event), AgentAnswer::Path(result)) => written_frame(reply) matches Some(
            frame,
        ) && frame@ == spec_download_reply(event.oid, result),
        (AgentCall::Terminate, AgentAnswer::Done(_)) => writes_nothing(reply),
        _ => false,
    }
}

/// What one call of `listen` does with the agent's answer, for an agent
/// that keeps a record of its answers: where the agent was asked, the record
/// has grown by one answer, and what was written reports that answer.
pub open spec fn listen_reports(
    before: ParserState,
    line: Line,
    answers_before: Option<Seq<AgentAnswer>>,
    answers_after: Option<Seq<AgentAnswer>>,
    after: ParserState,
    reply: Result<Vec<Frame>, ProtocolError>,
) -> bool {
    match listen_asks(before, line) {
        None => answers_after == answers_before,
        Some(call) => match answers_before {
            None => answers_after is None,
            Some(record) => answers_after matches Some(now) && now.len() == record.len() + 1 && now
                == record.push(now.last()) && reports(call, now.last(), after, reply),
        },
    }
}

/// The driver of one session.
#[derive(Debug)]
pub struct GitLfsParser {
    state: ParserState,
}

impl View for GitLfsParser {
    type V = ParserState;

    closed spec fn view(&self) -> ParserState {
        self.state
    }
}

fn complete_failed(oid: Option<String>, code: u32, message: String) -> (r: Frame)
    ensures
        r.wf(),
        r@ == (FrameView::Complete {
            oid: opt_view(oid),
            path: None,
            error: Some((frame_code(code), message@)),
        }),
{
    let code: u32 = if code == 0 {
        1
    } else {
        code
    };
    Frame::Complete(
        EventJson {
            event: "complete".to_string(),
            oid,
            path: None,
            size: None,
            error: Some(ErrorJsonInner { code, message }),
        },
    )
}

fn complete_done(oid: Option<String>, path: Option<String>) -> (r: Frame)
    ensures
        r.wf(),
        r@ == (FrameView::Complete { oid: opt_view(oid), path: opt_view(path), error: None }),
{
    Frame::Complete(
        EventJson { event: "complete".to_string(), oid, path, size: None, error: None },
    )
}

impl GitLfsParser {
    /// A driver that has read nothing yet.
    pub fn new() -> (r: GitLfsParser)
        ensures
            r@ == ParserState::ExpectInit,
    {
        GitLfsParser { state: ParserState::ExpectInit }
    }

    /// Where the driver stands.
    pub fn state(&self) -> (r: ParserState)
        ensures
            r == self@,
    {
        self.state
    }

    /// Decodes the kind of an event. A name that the protocol does not have
    /// is refused.
    pub fn parse(&self, event: &EventJson) -> (r: Result<Event, ProtocolError>)
        ensures
            match spec_event_type(event.event@) {
                Some(kind) => r matches Ok(decoded) && decoded@ == (EventView {
                    event: kind,
                    oid: opt_view(event.oid),
                    path: opt_view(event.path),
                    size: event.size,
                }),
                None => r matches Err(e) && e == ProtocolError::UnknownEvent,
            },
    {
        let name = event.event.as_str();
        let kind = if str_eq(name, "download") {
            EventType::Download
        } else if str_eq(name, "init") {
            EventType::Init
        } else if str_eq(name, "terminate") {
            EventType::Terminate
        } else if str_eq(name, "upload") {
            EventType::Upload
        } else {
            return Err(ProtocolError::UnknownEvent);
        };
        Ok(
            Event {
                event: kind,
                oid: clone_opt(&event.oid),
                path: clone_opt(&event.path),
                size: event.size,
            },
        )
    }

    /// The frame that answers `init`: the acknowledgement, or the failure with code 1.
    pub fn init_reply(result: Result<(), AgentError>) -> (r: Frame)
        ensures
            r.wf(),
            r@ == spec_init_reply(result),
    {
        match result {
            Ok(_) => Frame::Acknowledge,
            Err(e) => Frame::InitError(error_init(1, e.message.as_str())),
        }
    }

    /// The frame that answers an upload: `complete` for the object, with the
    /// failure where there was one.
    pub fn upload_reply(oid: Option<String>, result: Result<(), AgentError>) -> (r: Frame)
        ensures
            r.wf(),
            r@ == spec_upload_reply(opt_view(oid), result),
    {
        match result {
            Ok(_) => complete_done(oid, None),
            Err(e) => complete_failed(oid, e.code, e.message),
        }
    }

    /// The frame that answers a download: `complete` for the object, with the
    /// local path, or with the failure where there was one.
    pub fn download_reply(oid: Option<String>, result: Result<String, AgentError>) -> (r: Frame)
        ensures
            r.wf(),
            r@ == spec_download_reply(opt_view(oid), result),
    {
        match result {
            Ok(path) => complete_done(oid, Some(path)),
            Err(e) => complete_failed(oid, e.code, e.message),
        }
    }

    /// The frame that answers an event that has no place after `init`.
    pub fn unsupported_reply(oid: Option<String>) -> (r: Frame)
        ensures
            r.wf(),
            r@ == spec_unsupported_reply(opt_view(oid)),
    {
        complete_failed(oid, 1, "Event type not supported in context.".to_string())
    }

    /// Takes the next line of the stream, hands its event to the agent and
    /// gives the frames to write.
    ///
    /// The first event must be `init`; its failure ends the session. After it
    /// every upload and every download is answered by one `complete` frame,
    /// whether the agent succeeded or not, and the session goes on.
    /// `terminate`, or the end of the stream, ends the session without a frame.
    /// The frame is made of what the agent answered to this very event.
    pub fn listen<T: CustomTransferAgent>(&mut self, custom_transfer_agent: &mut T, line: Line) -> (r:
        Result<Vec<Frame>, ProtocolError>)
        ensures
            listen_post(old(self)@, line, final(self)@, r),
            final(custom_transfer_agent).calls() == record_after(
                old(custom_transfer_agent).calls(),
                old(self)@,
                line,
            ),
            listen_reports(
                old(self)@,
                line,
                old(custom_transfer_agent).answers(),
                final(custom_transfer_agent).answers(),
                final(self)@,
                r,
            ),
    {
        match self.state {
            ParserState::Ended => Err(ProtocolError::Ended),
            ParserState::ExpectInit => {
                self.state = ParserState::Ended;
                let json = match line {
                    Line::Closed => {
                        return Err(ProtocolError::ExpectedInit);
                    },
                    Line::Malformed => {
                        return Err(ProtocolError::MalformedLine);
                    },
                    Line::Event(json) => json,
                };
                let event = match self.parse(&json) {
                    Ok(event) => event,
                    Err(e) => {
                        return Err(e);
                    },
                };
                match event.event {
                    EventType::Init => {
                        let result = custom_transfer_agent.init(&event);
                        if result.is_ok() {
                            self.state = ParserState::Ready;
                        }
                        let frame = Self::init_reply(result);
                        let mut frames: Vec<Frame> = Vec::new();
                        frames.push(frame);
                        assert(frames@[0]@ == spec_init_reply(result));
                        Ok(frames)
                    },
                    _ => Err(ProtocolError::ExpectedInit),
                }
            },
            ParserState::Ready => {
                let json = match line {
                    Line::Closed => {
                        self.state = ParserState::Ended;
                        let _ = custom_transfer_agent.terminate();
                        return Ok(Vec::new());
                    },
                    Line::Malformed => {
                        self.state = ParserState::Ended;
                        return Err(ProtocolError::MalformedLine);
                    },
                    Line::Event(json) => json,
                };
                let mut frames: Vec<Frame> = Vec::new();
                match self.parse(&json) {
                    Ok(event) => match event.event {
                        EventType::Terminate => {
                            self.state = ParserState::Ended;
                            let _ = custom_transfer_agent.terminate();
                        },
                        EventType::Upload => {
                            let result = custom_transfer_agent.upload(&event);
                            let frame = Self::upload_reply(clone_opt(&json.oid), result);
                            frames.push(frame);
                            assert(frames@[0]@ == spec_upload_reply(opt_view(json.oid), result));
                        },
                        EventType::Download => {
                            let result = custom_transfer_agent.download(&event);
                            let frame = Self::download_reply(clone_opt(&json.oid), result);
                            frames.push(frame);
                            assert(frames@[0]@ == spec_download_reply(opt_view(json.oid), result));
                        },
                        EventType::Init => {
                            frames.push(Self::unsupported_reply(clone_opt(&json.oid)));
                        },
                    },
                    Err(_) => {
                        frames.push(Self::unsupported_reply(clone_opt(&json.oid)));
                    },
                }
                Ok(frames)
            },
        }
    }
}

/// Whether a line is an event of the given kind.
pub open spec fn is_event(line: Line, kind: EventType) -> bool {
    line matches Line::Event(json) && spec_event_type(json.event@) == Some(kind)
}

/// The object that a line speaks of.
pub open spec fn line_oid(line: Line) -> Option<Seq<char>> {
    match line {
        Line::Event(json) => opt_view(json.oid),
        _ => None,
    }
}

/// Whether the `i`-th line of a run was taken by one call of `listen`.
pub open spec fn is_step(
    lines: Seq<Line>,
    states: Seq<ParserState>,
    replies: Seq<Result<Vec<Frame>, ProtocolError>>,
    i: int,
) -> bool {
    listen_post(states[i], lines[i], states[i + 1], replies[i])
}

/// Whether `states` and `replies` record a run of the driver over `lines`
/// from its first state on: each line taken by one call of `listen`.
pub open spec fn is_run(
    lines: Seq<Line>,
    states: Seq<ParserState>,
    replies: Seq<Result<Vec<Frame>, ProtocolError>>,
) -> bool {
    &&& states.len() == lines.len() + 1
    &&& replies.len() == lines.len()
    &&& states[0] == ParserState::ExpectInit
    &&& forall|i: int| 0 <= i < lines.len() ==> #[trigger] is_step(lines, states, replies, i)
}

/// Whether the lines are a session as Git drives it: `init`, then uploads
/// and downloads, then `terminate`.
pub open spec fn is_session(lines: Seq<Line>) -> bool {
    &&& lines.len() >= 2
    &&& is_event(lines[0], EventType::Init)
    &&& is_event(lines[lines.len() - 1], EventType::Terminate)
    &&& forall|i: int|
        0 < i < lines.len() - 1 ==> is_event(#[trigger] lines[i], EventType::Upload) || is_event(
            lines[i],
            EventType::Download,
        )
}

proof fn lemma_run_state(
    lines: Seq<Line>,
    states: Seq<ParserState>,
    replies: Seq<Result<Vec<Frame>, ProtocolError>>,
    i: int,
)
    requires
        is_run(lines, states, replies),
        is_session(lines),
        1 <= i < lines.len(),
    ensures
        written_frame(replies[0]) matches Some(first) && (states[i] == if first@ is Acknowledge {
            ParserState::Ready
        } else {
            ParserState::Ended
        }),
    decreases i,
{
    assert(is_step(lines, states, replies, 0));
    if i > 1 {
        lemma_run_state(lines, states, replies, i - 1);
        assert(is_step(lines, states, replies, i - 1));
    }
}

/// Over a session that Git drives, the driver answers `init` with one frame.
/// Where that frame is the acknowledgement, it then writes exactly one
/// `complete` frame for each upload and each download, for the object of
/// that event, writes nothing for `terminate` and ends. Where `init` failed,
/// it writes nothing more.
pub proof fn lemma_one_complete_per_transfer(
    lines: Seq<Line>,
    states: Seq<ParserState>,
    replies: Seq<Result<Vec<Frame>, ProtocolError>>,
)
    requires
        is_run(lines, states, replies),
        is_session(lines),
    ensures
        written_frame(replies[0]) is Some,
        written_frame(replies[0])->0@ is Acknowledge ==> {
            &&& forall|i: int|
                0 < i < lines.len() - 1 ==> (written_frame(#[trigger] replies[i]) matches Some(frame)
                    && is_complete_for(frame@, line_oid(lines[i])))
            &&& writes_nothing(replies[lines.len() - 1])
            &&& states[lines.len() as int] == ParserState::Ended
        },
        !(written_frame(replies[0])->0@ is Acknowledge) ==> forall|i: int|
            0 < i < lines.len() ==> gives_up(#[trigger] replies[i], ProtocolError::Ended),
{
    let n = lines.len() as int;
    assert(is_step(lines, states, replies, 0));
    if written_frame(replies[0])->0@ is Acknowledge {
        assert forall|i: int| 0 < i < n - 1 implies (written_frame(#[trigger] replies[i]) matches Some(
            frame,
        ) && is_complete_for(frame@, line_oid(lines[i]))) by {
            lemma_run_state(lines, states, replies, i);
            assert(is_step(lines, states, replies, i));
        }
        lemma_run_state(lines, states, replies, n - 1);
        assert(is_step(lines, states, replies, n - 1));
    } else {
        assert forall|i: int| 0 < i < n implies gives_up(
            #[trigger] replies[i],
            ProtocolError::Ended,
        ) by {
            lemma_run_state(lines, states, replies, i);
            assert(is_step(lines, states, replies, i));
        }
    }
}

} // verus!
