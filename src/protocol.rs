//! The line protocol that plugins speak on their standard output.

use vstd::prelude::*;

use crate::text::text_is;
use crate::json::{json_member, json_parses, member, parse_json, JsonMember, MemberView};

verus! {

/// The operating mode handed to a plugin.
#[derive(Clone, Copy, Debug, PartialEq, Eq, Structural)]
pub enum Purpose {
    Collect,
    Export,
}

impl Purpose {
    /// The value of the plugin's `PURPOSE` variable.
    pub open spec fn text(self) -> Seq<char> {
        match self {
            Purpose::Collect => "collect"@,
            Purpose::Export => "export"@,
        }
    }

    pub fn as_str(&self) -> (r: &'static str)
        ensures
            r@ == self.text(),
    {
        match self {
            Purpose::Collect => "collect",
            Purpose::Export => "export",
        }
    }
}

/// A change to one progress bar.
#[derive(Clone, Debug)]
pub enum ProgressMessage {
    SetMax { max: usize, status: Option<String> },
    SetProgress { progress: usize, status: Option<String> },
    SetStatus { status: String },
    Reset,
}

/// A protocol message: one decoded line of plugin output.
#[derive(Clone, Debug)]
pub enum Message {
    Starting,
    Progress { message: ProgressMessage },
    Done,
}

/// The text of an optional string.
pub open spec fn opt_text(s: Option<String>) -> Option<Seq<char>> {
    match s {
        Some(t) => Some(t@),
        None => None,
    }
}

/// What a progress message says, with its strings as character sequences.
pub enum ProgressMessageView {
    SetMax { max: usize, status: Option<Seq<char>> },
    SetProgress { progress: usize, status: Option<Seq<char>> },
    SetStatus { status: Seq<char> },
    Reset,
}

pub enum MessageView {
    Starting,
    Progress(ProgressMessageView),
    Done,
}

impl View for ProgressMessage {
    type V = ProgressMessageView;

    open spec fn view(&self) -> ProgressMessageView {
        match self {
            ProgressMessage::SetMax { max, status } => ProgressMessageView::SetMax {
                max: *max,
                status: opt_text(*status),
            },
            ProgressMessage::SetProgress { progress, status } => ProgressMessageView::SetProgress {
                progress: *progress,
                status: opt_text(*status),
            },
            ProgressMessage::SetStatus { status } => ProgressMessageView::SetStatus {
                status: status@,
            },
            ProgressMessage::Reset => ProgressMessageView::Reset,
        }
    }
}

impl View for Message {
    type V = MessageView;

    open spec fn view(&self) -> MessageView {
        match self {
            Message::Starting => MessageView::Starting,
            Message::Progress { message } => MessageView::Progress(message@),
            Message::Done => MessageView::Done,
        }
    }
}

/// A field of a message, other than its `type`.
#[derive(Clone, Copy, Debug, PartialEq, Eq, Structural)]
pub enum Field {
    Value,
    Progress,
    Status,
}

impl Field {
    /// The key of the field in a message line.
    pub open spec fn key(self) -> Seq<char> {
        match self {
            Field::Value => "value"@,
            Field::Progress => "progress"@,
            Field::Status => "status"@,
        }
    }

    pub fn as_str(&self) -> (r: &'static str)
        ensures
            r@ == self.key(),
    {
        match self {
            Field::Value => "value",
            Field::Progress => "progress",
            Field::Status => "status",
        }
    }
}

/// Why a line is not a protocol message.
#[derive(Clone, Debug)]
pub enum DecodeCause {
    /// The line is not JSON text; the parser's message.
    Syntax(String),
    /// The line has no string member `type`.
    MissingType,
    /// The `type` names no message.
    UnknownType(String),
    MissingField(Field),
    /// The field holds a value of the wrong kind or out of range.
    InvalidField(Field),
}

pub enum CauseView {
    Syntax,
    MissingType,
    UnknownType(Seq<char>),
    MissingField(Field),
    InvalidField(Field),
}

impl View for DecodeCause {
    type V = CauseView;

    open spec fn view(&self) -> CauseView {
        match self {
            DecodeCause::Syntax(_) => CauseView::Syntax,
            DecodeCause::MissingType => CauseView::MissingType,
            DecodeCause::UnknownType(t) => CauseView::UnknownType(t@),
            DecodeCause::MissingField(f) => CauseView::MissingField(*f),
            DecodeCause::InvalidField(f) => CauseView::InvalidField(*f),
        }
    }
}

/// A failure to obtain the next message of a plugin's output.
#[derive(Clone, Debug)]
pub enum Error {
    /// Reading the output failed; the reader's message.
    IoError(String),
    /// A line was read but is not a message; it is kept with the cause.
    DeserializationError(String, DecodeCause),
}

/// A required count: a non-negative integer that fits in `usize`.
pub open spec fn count_of(m: MemberView, f: Field) -> Result<usize, CauseView> {
    match m {
        MemberView::Absent => Err(CauseView::MissingField(f)),
        MemberView::Number(Some(n)) => if n <= usize::MAX {
            Ok(n as usize)
        } else {
            Err(CauseView::InvalidField(f))
        },
        _ => Err(CauseView::InvalidField(f)),
    }
}

/// An optional text: absent and `null` both mean none.
pub open spec fn optional_text(m: MemberView, f: Field) -> Result<Option<Seq<char>>, CauseView> {
    match m {
        MemberView::Absent => Ok(None),
        MemberView::Null => Ok(None),
        MemberView::Text(s) => Ok(Some(s)),
        _ => Err(CauseView::InvalidField(f)),
    }
}

/// A required text.
pub open spec fn required_text(m: MemberView, f: Field) -> Result<Seq<char>, CauseView> {
    match m {
        MemberView::Absent => Err(CauseView::MissingField(f)),
        MemberView::Text(s) => Ok(s),
        _ => Err(CauseView::InvalidField(f)),
    }
}

/// The message that an object with these members stands for.
pub open spec fn message_of(kind: MemberView, value: MemberView, progress: MemberView, status: MemberView) -> Result<MessageView, CauseView> {
    match kind {
        MemberView::Text(t) => if t == "Starting"@ {
            Ok(MessageView::Starting)
        } else if t == "Done"@ {
            Ok(MessageView::Done)
        } else if t == "Reset"@ {
            Ok(MessageView::Progress(ProgressMessageView::Reset))
        } else if t == "SetStatus"@ {
            match required_text(status, Field::Status) {
                Ok(s) => Ok(MessageView::Progress(ProgressMessageView::SetStatus { status: s })),
                Err(c) => Err(c),
            }
        } else if t == "SetMax"@ {
            match (count_of(value, Field::Value), optional_text(status, Field::Status)) {
                (Ok(n), Ok(s)) => Ok(MessageView::Progress(ProgressMessageView::SetMax { max: n, status: s })),
                (Err(c), _) => Err(c),
                (_, Err(c)) => Err(c),
            }
        } else if t == "SetProgress"@ {
            match (count_of(progress, Field::Progress), optional_text(status, Field::Status)) {
                (Ok(n), Ok(s)) => Ok(MessageView::Progress(ProgressMessageView::SetProgress { progress: n, status: s })),
                (Err(c), _) => Err(c),
                (_, Err(c)) => Err(c),
            }
        } else {
            Err(CauseView::UnknownType(t))
        },
        _ => Err(CauseView::MissingType),
    }
}

/// What a line of plugin output decodes to.
pub open spec fn decoded(line: Seq<char>) -> Result<MessageView, CauseView> {
    if json_parses(line) {
        message_of(
            json_member(line, "type"@),
            json_member(line, "value"@),
            json_member(line, "progress"@),
            json_member(line, "status"@),
        )
    } else {
        Err(CauseView::Syntax)
    }
}

fn count_field(m: &JsonMember, f: Field) -> (r: Result<usize, DecodeCause>)
    ensures
        match (r, count_of(m@, f)) {
            (Ok(a), Ok(b)) => a == b,
            (Err(a), Err(b)) => a@ == b,
            _ => false,
        },
{
    match m {
        JsonMember::Absent => Err(DecodeCause::MissingField(f)),
        JsonMember::Number(Some(n)) => if *n <= usize::MAX as u64 {
            Ok(*n as usize)
        } else {
            Err(DecodeCause::InvalidField(f))
        },
        _ => Err(DecodeCause::InvalidField(f)),
    }
}

fn optional_text_field(m: &JsonMember, f: Field) -> (r: Result<Option<String>, DecodeCause>)
    ensures
        match (r, optional_text(m@, f)) {
            (Ok(a), Ok(b)) => opt_text(a) == b,
            (Err(a), Err(b)) => a@ == b,
            _ => false,
        },
{
    match m {
        JsonMember::Absent => Ok(None),
        JsonMember::Null => Ok(None),
        JsonMember::Text(s) => Ok(Some(s.clone())),
        _ => Err(DecodeCause::InvalidField(f)),
    }
}

fn required_text_field(m: &JsonMember, f: Field) -> (r: Result<String, DecodeCause>)
    ensures
        match (r, required_text(m@, f)) {
            (Ok(a), Ok(b)) => a@ == b,
            (Err(a), Err(b)) => a@ == b,
            _ => false,
        },
{
    match m {
        JsonMember::Absent => Err(DecodeCause::MissingField(f)),
        JsonMember::Text(s) => Ok(s.clone()),
        _ => Err(DecodeCause::InvalidField(f)),
    }
}

/// Builds the message that an object with these members stands for.
pub fn message_from_members(kind: &JsonMember, value: &JsonMember, progress: &JsonMember, status: &JsonMember) -> (r: Result<Message, DecodeCause>)
    ensures
        match (r, message_of(kind@, value@, progress@, status@)) {
            (Ok(a), Ok(b)) => a@ == b,
            (Err(a), Err(b)) => a@ == b,
            _ => false,
        },
{
    match kind {
        JsonMember::Text(t) => if text_is(t, "Starting") {
            Ok(Message::Starting)
        } else if text_is(t, "Done") {
            Ok(Message::Done)
        } else if text_is(t, "Reset") {
            Ok(Message::Progress { message: ProgressMessage::Reset })
        } else if text_is(t, "SetStatus") {
            match required_text_field(status, Field::Status) {
                Ok(s) => Ok(Message::Progress { message: ProgressMessage::SetStatus { status: s } }),
                Err(c) => Err(c),
            }
        } else if text_is(t, "SetMax") {
            let n = count_field(value, Field::Value);
            let s = optional_text_field(status, Field::Status);
            match (n, s) {
                (Ok(n), Ok(s)) => Ok(Message::Progress { message: ProgressMessage::SetMax { max: n, status: s } }),
                (Err(c), _) => Err(c),
                (_, Err(c)) => Err(c),
            }
        } else if text_is(t, "SetProgress") {
            let n = count_field(progress, Field::Progress);
            let s = optional_text_field(status, Field::Status);
            match (n, s) {
                (Ok(n), Ok(s)) => Ok(Message::Progress { message: ProgressMessage::SetProgress { progress: n, status: s } }),
                (Err(c), _) => Err(c),
                (_, Err(c)) => Err(c),
            }
        } else {
            Err(DecodeCause::UnknownType(t.clone()))
        },
        _ => Err(DecodeCause::MissingType),
    }
}

/// Decodes one line of plugin output. A line that is not a message gives a
/// `DeserializationError` that keeps the line.
pub fn decode_line(line: &str) -> (r: Result<Message, Error>)
    ensures
        r is Ok <==> decoded(line@) is Ok,
        r matches Ok(m) ==> decoded(line@) == Ok::<MessageView, CauseView>(m@),
        r matches Err(e) ==> (e matches Error::DeserializationError(l, c) && l@ == line@
            && decoded(line@) == Err::<MessageView, CauseView>(c@)),
{
    match parse_json(line) {
        Err(e) => Err(Error::DeserializationError(String::from_str(line), DecodeCause::Syntax(e))),
        Ok(doc) => {
            let kind = member(&doc, "type");
            let value = member(&doc, "value");
            let progress = member(&doc, "progress");
            let status = member(&doc, "status");
            match message_from_members(&kind, &value, &progress, &status) {
                Ok(m) => Ok(m),
                Err(c) => Err(Error::DeserializationError(String::from_str(line), c)),
            }
        },
    }
}

impl CauseView {
    /// A sentence describing the cause.
    pub open spec fn description(self) -> Seq<char> {
        match self {
            CauseView::Syntax => Seq::empty(),
            CauseView::MissingType => "missing field `type`"@,
            CauseView::UnknownType(t) => "unknown message type `"@ + t + "`"@,
            CauseView::MissingField(f) => "missing field `"@ + f.key() + "`"@,
            CauseView::InvalidField(f) => "invalid value for field `"@ + f.key() + "`"@,
        }
    }
}

impl DecodeCause {
    /// A sentence describing the cause: the parser's own message for text
    /// that is not JSON.
    pub fn describe(&self) -> (r: String)
        ensures
            r@ == (match self {
                DecodeCause::Syntax(m) => m@,
                _ => self@.description(),
            }),
    {
        match self {
            DecodeCause::Syntax(m) => m.clone(),
            DecodeCause::MissingType => String::from_str("missing field `type`"),
            DecodeCause::UnknownType(t) => String::from_str("unknown message type `").concat(t.as_str()).concat("`"),
            DecodeCause::MissingField(f) => String::from_str("missing field `").concat(f.as_str()).concat("`"),
            DecodeCause::InvalidField(f) => String::from_str("invalid value for field `").concat(f.as_str()).concat("`"),
        }
    }
}

impl Error {
    /// A sentence describing the failure.
    pub fn describe(&self) -> (r: String)
        ensures
            r@ == (match self {
                Error::IoError(m) => "Error reading from protocol stream: "@ + m@,
                Error::DeserializationError(l, c) => "Error deserializing message `"@ + l@ + "`: "@ + (match c {
                    DecodeCause::Syntax(m) => m@,
                    _ => c@.description(),
                }),
            }),
    {
        match self {
            Error::IoError(m) => String::from_str("Error reading from protocol stream: ").concat(m.as_str()),
            Error::DeserializationError(l, c) => {
                let cause = c.describe();
                String::from_str("Error deserializing message `").concat(l.as_str()).concat("`: ").concat(cause.as_str())
            },
        }
    }
}

} // verus!
