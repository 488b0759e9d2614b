//! The frames as the lines that are written to Git: one JSON object each.

use vstd::prelude::*;
use vstd::string::*;

use crate::git_lfs::git_lfs_parser::{Frame, FrameView};
use crate::text::{clone_opt, decimal, opt_view, u64_to_string};

verus! {

/// `serde_json::Error`: why a value could not be written as JSON.
#[verifier::external_type_specification]
#[verifier::external_body]
pub struct ExJsonError(serde_json::Error);

/// Why a frame could not be written as a line.
#[derive(Clone, Copy, Debug, PartialEq, Eq, Structural)]
pub enum WireError {
    /// A text of the frame could not be written as JSON.
    NotEncoded,
}

/// The lower-case hexadecimal digit for a value below sixteen.
pub open spec fn hex_lower(n: u32) -> char
    recommends
        n < 16,
{
    if n < 10 {
        (0x30 + n) as u8 as char
    } else {
        (0x61 + (n - 10)) as u8 as char
    }
}

/// One character as it stands inside a JSON string: the quote and the
/// backslash behind a backslash, the control characters as their escapes,
/// every other character as it is.
pub open spec fn json_escaped_char(c: char) -> Seq<char> {
    let code = c as u32;
    if code == 0x22 {
        seq!['\\', '"']
    } else if code == 0x5c {
        seq!['\\', '\\']
    } else if code == 0x08 {
        seq!['\\', 'b']
    } else if code == 0x09 {
        seq!['\\', 't']
    } else if code == 0x0a {
        seq!['\\', 'n']
    } else if code == 0x0c {
        seq!['\\', 'f']
    } else if code == 0x0d {
        seq!['\\', 'r']
    } else if code < 0x20 {
        seq!['\\', 'u', '0', '0', hex_lower(code / 16), hex_lower(code % 16)]
    } else {
        seq![c]
    }
}

/// A text as it stands inside a JSON string.
pub open spec fn json_escaped(text: Seq<char>) -> Seq<char>
    decreases text.len(),
{
    if text.len() == 0 {
        Seq::empty()
    } else {
        json_escaped(text.drop_last()) + json_escaped_char(text.last())
    }
}

/// A text as a JSON string: escaped, between quotes.
pub open spec fn json_string(text: Seq<char>) -> Seq<char> {
    seq!['"'] + json_escaped(text) + seq!['"']
}

/// Calls `serde_json::to_string` on a string. The contract claims two
/// things of it. It returns a text: serializing a `str` can fail only where
/// the writer fails, and `to_string` writes into a `Vec<u8>`, which does
/// not. And the text is what the serializer's escape table shows: the
/// string between quotes, each character escaped as `json_escaped_char` says.
#[verifier::external_body]
pub(crate) fn json_quote(text: &str) -> (r: Result<String, serde_json::Error>)
    ensures
        r is Ok,
        r matches Ok(quoted) ==> quoted@ == json_string(text@),
{
    serde_json::to_string(text)
}

/// A text of a frame, or nothing where the frame has none there.
pub open spec fn text_or_empty(text: Option<Seq<char>>) -> Seq<char> {
    match text {
        Some(t) => t,
        None => Seq::empty(),
    }
}

/// A member of a JSON object that is written only where it has a value.
pub open spec fn opt_member(name: Seq<char>, value: Option<Seq<char>>) -> Seq<char> {
    match value {
        Some(v) => name + v,
        None => Seq::empty(),
    }
}

/// The failure of a frame as a JSON object, its text already a JSON string.
pub open spec fn error_object(code: u32, message: Seq<char>) -> Seq<char> {
    "{\"code\":"@ + decimal(code as nat) + ",\"message\":"@ + message + "}"@
}

/// The line of a frame whose texts are given as JSON strings.
pub open spec fn line_with(
    frame: FrameView,
    oid: Option<Seq<char>>,
    path: Option<Seq<char>>,
    message: Option<Seq<char>>,
) -> Seq<char> {
    match frame {
        FrameView::Acknowledge => "{ }"@,
        FrameView::InitError { code, .. } => "{\"error\":"@ + error_object(
            code,
            text_or_empty(message),
        ) + "}"@,
        FrameView::Complete { error, .. } => "{\"event\":\"complete\""@ + opt_member(
            ",\"oid\":"@,
            oid,
        ) + opt_member(",\"path\":"@, path) + opt_member(
            ",\"error\":"@,
            match error {
                Some((code, _)) => Some(error_object(code, text_or_empty(message))),
                None => None,
            },
        ) + "}"@,
        FrameView::Progress { bytes_so_far, bytes_since_last, .. } => "{\"event\":\"progress\",\"oid\":"@
            + text_or_empty(oid) + ",\"bytesSoFar\":"@ + decimal(bytes_so_far as nat)
            + ",\"bytesSinceLast\":"@ + decimal(bytes_since_last as nat) + "}"@,
    }
}

/// An optional text as a JSON string.
pub open spec fn opt_json_string(text: Option<Seq<char>>) -> Option<Seq<char>> {
    match text {
        Some(t) => Some(json_string(t)),
        None => None,
    }
}

/// The object that a frame speaks of.
pub open spec fn frame_oid(frame: FrameView) -> Option<Seq<char>> {
    match frame {
        FrameView::Complete { oid, .. } => oid,
        FrameView::Progress { oid, .. } => Some(oid),
        _ => None,
    }
}

/// The local path that a frame tells.
pub open spec fn frame_path(frame: FrameView) -> Option<Seq<char>> {
    match frame {
        FrameView::Complete { path, .. } => path,
        _ => None,
    }
}

/// The text of the failure that a frame tells.
pub open spec fn frame_message(frame: FrameView) -> Option<Seq<char>> {
    match frame {
        FrameView::InitError { message, .. } => Some(message),
        FrameView::Complete { error: Some((_, message)), .. } => Some(message),
        _ => None,
    }
}

/// The line that a frame is written as. The acknowledgement is `{ }`; a
/// failed `init` is an object with the member `error`; `complete` and
/// `progress` are objects with the member `event`, and `complete` has the
/// members `oid`, `path` and `error` only where the frame has them.
pub open spec fn line_of(frame: FrameView) -> Seq<char> {
    line_with(
        frame,
        opt_json_string(frame_oid(frame)),
        opt_json_string(frame_path(frame)),
        opt_json_string(frame_message(frame)),
    )
}

fn append_opt(line: &mut String, name: &str, value: &Option<String>)
    ensures
        final(line)@ == old(line)@ + opt_member(name@, opt_view(*value)),
{
    match value {
        Some(v) => {
            line.append(name);
            line.append(v.as_str());
            assert(line@ =~= old(line)@ + opt_member(name@, opt_view(*value)));
        },
        None => {
            assert(line@ =~= old(line)@ + opt_member(name@, opt_view(*value)));
        },
    }
}

fn error_text(code: u32, message: &Option<String>) -> (r: String)
    ensures
        r@ == error_object(code, text_or_empty(opt_view(*message))),
{
    let mut object = String::from_str("{\"code\":");
    object.append(u64_to_string(code as u64).as_str());
    object.append(",\"message\":");
    match message {
        Some(m) => {
            object.append(m.as_str());
        },
        None => {
            assert(object@ + Seq::<char>::empty() =~= object@);
        },
    }
    object.append("}");
    object
}

fn quote_opt(text: &Option<String>) -> (r: Result<Option<String>, WireError>)
    ensures
        r matches Ok(quoted) && opt_view(quoted) == opt_json_string(opt_view(*text)),
{
    match text {
        None => Ok(None),
        Some(t) => match json_quote(t.as_str()) {
            Ok(quoted) => Ok(Some(quoted)),
            Err(_) => Err(WireError::NotEncoded),
        },
    }
}

impl Frame {
    /// The line of the frame, with its texts given as JSON strings.
    pub fn to_line_with(&self, oid: &Option<String>, path: &Option<String>, message: &Option<String>) -> (r:
        String)
        ensures
            r@ == line_with(self@, opt_view(*oid), opt_view(*path), opt_view(*message)),
    {
        match self {
            Frame::Acknowledge => String::from_str("{ }"),
            Frame::InitError(json) => {
                let mut line = String::from_str("{\"error\":");
                line.append(error_text(json.error.code, message).as_str());
                line.append("}");
                line
            },
            Frame::Complete(json) => {
                let mut line = String::from_str("{\"event\":\"complete\"");
                append_opt(&mut line, ",\"oid\":", oid);
                append_opt(&mut line, ",\"path\":", path);
                let failure = match &json.error {
                    Some(e) => Some(error_text(e.code, message)),
                    None => None,
                };
                append_opt(&mut line, ",\"error\":", &failure);
                line.append("}");
                line
            },
            Frame::Progress(json) => {
                let mut line = String::from_str("{\"event\":\"progress\",\"oid\":");
                match oid {
                    Some(o) => {
                        line.append(o.as_str());
                    },
                    None => {
                        assert(line@ + Seq::<char>::empty() =~= line@);
                    },
                }
                line.append(",\"bytesSoFar\":");
                line.append(u64_to_string(json.bytes_so_far as u64).as_str());
                line.append(",\"bytesSinceLast\":");
                line.append(u64_to_string(json.bytes_since_last as u64).as_str());
                line.append("}");
                line
            },
        }
    }

    /// The line that the frame is written as. Every frame has one.
    pub fn to_line(&self) -> (r: Result<String, WireError>)
        ensures
            r matches Ok(line) && line@ == line_of(self@),
    {
        let none: Option<String> = None;
        let (oid, path, message) = match self {
            Frame::Acknowledge => (none, None, None),
            Frame::InitError(json) => (none, None, Some(json.error.message.clone())),
            Frame::Complete(json) => (
                clone_opt(&json.oid),
                clone_opt(&json.path),
                match &json.error {
                    Some(e) => Some(e.message.clone()),
                    None => None,
                },
            ),
            Frame::Progress(json) => (Some(json.oid.clone()), None, None),
        };
        assert(opt_view(oid) == frame_oid(self@));
        assert(opt_view(path) == frame_path(self@));
        assert(opt_view(message) == frame_message(self@));
        let oid = match quote_opt(&oid) {
            Ok(quoted) => quoted,
            Err(e) => {
                return Err(e);
            },
        };
        let path = match quote_opt(&path) {
            Ok(quoted) => quoted,
            Err(e) => {
                return Err(e);
            },
        };
        let message = match quote_opt(&message) {
            Ok(quoted) => quoted,
            Err(e) => {
                return Err(e);
            },
        };
        Ok(self.to_line_with(&oid, &path, &message))
    }
}

/// Whether a character stands in a JSON string as it is.
pub open spec fn is_plain(c: char) -> bool {
    c as u32 >= 0x20 && c as u32 != 0x22 && c as u32 != 0x5c
}

/// A text of plain characters stands in a JSON string as it is, between quotes.
pub proof fn lemma_json_string_plain(text: Seq<char>)
    requires
        forall|i: int| 0 <= i < text.len() ==> is_plain(#[trigger] text[i]),
    ensures
        json_escaped(text) == text,
        json_string(text) == seq!['"'] + text + seq!['"'],
    decreases text.len(),
{
    if text.len() > 0 {
        lemma_json_string_plain(text.drop_last());
        assert(is_plain(text[text.len() - 1]));
        assert(text.drop_last() + seq![text.last()] =~= text);
    } else {
        assert(json_escaped(text) =~= text);
    }
}

/// The line of a finished upload is the object with the members `event` and
/// `oid`; that of a finished download has the member `path` behind them.
pub proof fn lemma_complete_lines(oid: Seq<char>, path: Seq<char>)
    ensures
        line_of(FrameView::Complete { oid: Some(oid), path: None, error: None })
            == "{\"event\":\"complete\""@ + (",\"oid\":"@ + json_string(oid)) + "}"@,
        line_of(FrameView::Complete { oid: Some(oid), path: Some(path), error: None })
            == "{\"event\":\"complete\""@ + (",\"oid\":"@ + json_string(oid)) + (",\"path\":"@
            + json_string(path)) + "}"@,
{
    let head = "{\"event\":\"complete\""@;
    let member = ",\"oid\":"@ + json_string(oid);
    assert(head + member + Seq::<char>::empty() + Seq::<char>::empty() + "}"@ =~= head + member
        + "}"@);
    assert(head + member + (",\"path\":"@ + json_string(path)) + Seq::<char>::empty() + "}"@
        =~= head + member + (",\"path\":"@ + json_string(path)) + "}"@);
}

} // verus!
