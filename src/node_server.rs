//! The converter session: a long-running helper process that turns markup
//! into SVG, one newline-terminated JSON request and one response at a time.
//!
//! The session is a state machine. `paint` starts an exchange and `resume`
//! takes the outcome of each action; the caller performs the actions (spawn
//! the helper, read its startup line, write a request and read the answer)
//! and holds a lock around the whole exchange.
use crate::content_id::hex_digit_spec;
use crate::error::SvgearError;
use crate::painter::{PaintParams, PaintType};
use crate::text::{contains_spec, contains_text, is_trim_of, trim, utf8_to_string};
use vstd::prelude::*;

verus! {

/// The phrase that the helper writes on its first line of standard error
/// once it is ready.
pub const READY_MESSAGE: &'static str = "Running in stdio mode";

/// How a character appears inside a JSON string literal: the quote and the
/// backslash are escaped with a backslash; ASCII control characters use the
/// short escapes `\b \t \n \f \r` where one exists and `\u00XX` (lower-case
/// hex) otherwise; every other character stands for itself.
pub open spec fn json_escape_char(c: char) -> Seq<char> {
    let v = c as u32;
    if c == '"' {
        seq!['\\', '"']
    } else if c == '\\' {
        seq!['\\', '\\']
    } else if v == 8 {
        seq!['\\', 'b']
    } else if v == 9 {
        seq!['\\', 't']
    } else if v == 10 {
        seq!['\\', 'n']
    } else if v == 12 {
        seq!['\\', 'f']
    } else if v == 13 {
        seq!['\\', 'r']
    } else if v < 0x20 {
        seq!['\\', 'u', '0', '0', hex_digit_spec((v / 16) as u8), hex_digit_spec((v % 16) as u8)]
    } else {
        seq![c]
    }
}

/// The escaped characters of a text, in order.
pub open spec fn json_escaped(s: Seq<char>) -> Seq<char>
    decreases s.len(),
{
    if s.len() == 0 {
        Seq::empty()
    } else {
        json_escaped(s.drop_last()) + json_escape_char(s.last())
    }
}

/// The JSON string literal for a text: its escaped characters in quotes.
pub open spec fn json_string_of(s: Seq<char>) -> Seq<char> {
    seq!['"'] + json_escaped(s) + seq!['"']
}

/// Relies on `serde_json::to_string` on a `str`, which writes a quote, the
/// text with each byte looked up in its `ESCAPE` table (quote, backslash and
/// bytes below 0x20 are escaped as `json_escape_char` says; multi-byte
/// characters pass through), and a closing quote. For a `str` the serializer fails only when its writer fails
/// (`serialize_str` maps I/O errors alone), and `to_string` writes into a
/// `Vec<u8>`, which does not fail; so a result always comes back.
#[verifier::external_body]
fn json_string(s: &str) -> (r: Option<String>)
    ensures
        r is Some,
        r matches Some(j) ==> j@ == json_string_of(s@),
{
    serde_json::to_string(s).ok()
}

/// The helper process as the session knows it.
#[derive(Debug, Clone, Copy, PartialEq, Eq, Structural)]
pub enum ProcessState {
    /// No helper is running; the next exchange spawns one.
    NotStarted,
    /// The helper signalled readiness and serves requests.
    Running,
    /// The channel broke; every later exchange fails until a new session is made.
    Poisoned,
}

/// Where the current exchange stands.
#[derive(Debug, Clone)]
pub enum Phase {
    /// No exchange is in flight.
    Idle,
    /// The helper is being spawned; the request line waits.
    Spawning(String),
    /// The helper's startup line is awaited; the request line waits.
    AwaitingAck(String),
    /// The request was written; its response is awaited.
    AwaitingResponse,
}

/// What the caller is to do next.
#[derive(Debug)]
pub enum ConverterAction {
    /// Spawn the helper executable at this path, with argument `stdio` and
    /// piped standard streams.
    Spawn(String),
    /// Read one line from the helper's standard error.
    ReadAck,
    /// Write this line to the helper's standard input, flush, and read one
    /// chunk from its standard output.
    Exchange(String),
    /// The exchange is over with this outcome; on a startup failure the caller
    /// discards the process it spawned.
    Finish(Result<String, SvgearError>),
    /// The event does not fit the session's state; nothing changed.
    Refused,
}

/// The outcome of the caller's last action.
#[derive(Debug, Clone)]
pub enum ConverterEvent {
    /// The helper was spawned.
    Spawned,
    /// The helper could not be spawned; the text says why.
    SpawnFailed(String),
    /// The helper's first line of standard error.
    AckLine(String),
    /// No startup line could be read.
    AckMissing,
    /// The chunk read from the helper's standard output.
    Received(Vec<u8>),
    /// Writing the request or reading the response failed; the text says why.
    PipeFailed(String),
}

/// A converter session bound to one helper executable.
pub struct NodeServer {
    script_path: String,
    process: ProcessState,
    phase: Phase,
}

/// The method name that the helper expects for a kind of markup.
pub open spec fn method_name(ty: PaintType) -> Seq<char> {
    if ty == PaintType::Mermaid {
        "mermaid"@
    } else {
        "mathjax"@
    }
}

/// The request line for a kind of markup whose text encodes to the JSON
/// literal `content_json`: `{"method":...,"inline":...,"content":...}` and a
/// newline. `inline` is true for inline TeX only.
pub open spec fn request_line_spec(ty: PaintType, content_json: Seq<char>) -> Seq<char> {
    "{\"method\":\""@ + method_name(ty) + "\",\"inline\":"@ + (if ty == PaintType::InlineTeX {
        "true"@
    } else {
        "false"@
    }) + ",\"content\":"@ + content_json + "}\n"@
}

/// The SVG text that a response chunk carries: its UTF-8 text, trimmed;
/// a chunk that is not UTF-8 is a protocol error.
pub open spec fn decode_effect(bytes: Seq<u8>, r: Result<String, SvgearError>) -> bool {
    if vstd::utf8::valid_utf8(bytes) {
        r matches Ok(s) && is_trim_of(s@, vstd::utf8::decode_utf8(bytes))
    } else {
        r matches Err(SvgearError::Protocol(_))
    }
}

/// What `paint` does to a session `old`, giving action `a` and session `new`.
/// A request is taken only when no exchange is in flight. A poisoned session
/// fails with an I/O error; otherwise the request is encoded and written
/// (after spawning the helper, if none runs).
pub open spec fn paint_effect(old: NodeServer, params: PaintParams, a: ConverterAction, new: NodeServer) -> bool {
    if !(old.phase() is Idle) {
        a is Refused && new == old
    } else if old.process() == ProcessState::Poisoned {
        a matches ConverterAction::Finish(Err(SvgearError::Io(_))) && new == old
    } else {
        let line = request_line_spec(params.ty, json_string_of(params.content@));
        &&& new.script_path() == old.script_path()
        &&& new.process() == old.process()
        &&& if old.process() == ProcessState::Running {
            &&& a matches ConverterAction::Exchange(l) && l@ == line
            &&& new.phase() is AwaitingResponse
        } else {
            &&& a matches ConverterAction::Spawn(p) && p@ == old.script_path()@
            &&& new.phase() matches Phase::Spawning(l) && l@ == line
        }
    }
}

/// What `resume` does to a session `old` on event `e`.
pub open spec fn resume_effect(old: NodeServer, e: ConverterEvent, a: ConverterAction, new: NodeServer) -> bool {
    let same_path = new.script_path() == old.script_path();
    match (old.phase(), e) {
        (Phase::Spawning(line), ConverterEvent::Spawned) => {
            &&& a is ReadAck
            &&& same_path && new.process() == old.process()
            &&& new.phase() matches Phase::AwaitingAck(l) && l == line
        },
        (Phase::Spawning(_), ConverterEvent::SpawnFailed(msg)) => {
            &&& a matches ConverterAction::Finish(Err(SvgearError::ProcessStartup(m))) && m == msg
            &&& same_path && new.process() == ProcessState::NotStarted && new.phase() is Idle
        },
        (Phase::AwaitingAck(line), ConverterEvent::AckLine(text)) => {
            &&& same_path
            &&& if contains_spec(text@, READY_MESSAGE@) {
                &&& a matches ConverterAction::Exchange(l) && l == line
                &&& new.process() == ProcessState::Running
                &&& new.phase() is AwaitingResponse
            } else {
                &&& a matches ConverterAction::Finish(Err(SvgearError::ProcessStartup(_)))
                &&& new.process() == ProcessState::NotStarted
                &&& new.phase() is Idle
            }
        },
        (Phase::AwaitingAck(_), ConverterEvent::AckMissing) => {
            &&& a matches ConverterAction::Finish(Err(SvgearError::ProcessStartup(_)))
            &&& same_path && new.process() == ProcessState::NotStarted && new.phase() is Idle
        },
        (Phase::AwaitingResponse, ConverterEvent::Received(bytes)) => {
            &&& a matches ConverterAction::Finish(r) && decode_effect(bytes@, r)
            &&& same_path && new.process() == old.process() && new.phase() is Idle
        },
        (Phase::AwaitingResponse, ConverterEvent::PipeFailed(msg)) => {
            &&& a matches ConverterAction::Finish(Err(SvgearError::Io(m))) && m == msg
            &&& same_path && new.process() == ProcessState::Poisoned && new.phase() is Idle
        },
        _ => a is Refused && new == old,
    }
}

/// One exchange at a time: while an exchange is in flight the session
/// refuses new requests and stays as it is; a request line is handed out only
/// as the session starts awaiting its response; and once a response is
/// awaited, the only way on is to finish the exchange, which leaves the
/// session idle. So each response pairs with the request written just before it.
pub proof fn lemma_single_flight(
    old: NodeServer,
    params: PaintParams,
    e: ConverterEvent,
    a: ConverterAction,
    new: NodeServer,
)
    ensures
        !(old.phase() is Idle) && paint_effect(old, params, a, new) ==> a is Refused && new == old,
        paint_effect(old, params, a, new) && a is Exchange ==> new.phase() is AwaitingResponse,
        resume_effect(old, e, a, new) && a is Exchange ==> new.phase() is AwaitingResponse,
        old.phase() is AwaitingResponse && resume_effect(old, e, a, new) ==> (a is Finish
            && new.phase() is Idle) || (a is Refused && new == old),
{
}

/// Frames the request line for a kind of markup whose text is already
/// encoded as the JSON literal `content_json`.
pub fn frame_request(ty: PaintType, content_json: &str) -> (r: String)
    ensures
        r@ == request_line_spec(ty, content_json@),
{
    let mut line = "{\"method\":\"".to_owned();
    if ty == PaintType::Mermaid {
        line.append("mermaid");
    } else {
        line.append("mathjax");
    }
    line.append("\",\"inline\":");
    if ty == PaintType::InlineTeX {
        line.append("true");
    } else {
        line.append("false");
    }
    line.append(",\"content\":");
    line.append(content_json);
    line.append("}\n");
    line
}

/// Frames the request line for a paint request.
pub fn encode_request(params: &PaintParams) -> (r: String)
    ensures
        r@ == request_line_spec(params.ty, json_string_of(params.content@)),
{
    let content_json = json_string(params.content.as_str()).unwrap();
    frame_request(params.ty, content_json.as_str())
}

/// Turns a response chunk into SVG text: decodes it as UTF-8 and trims it.
pub fn decode_response(bytes: Vec<u8>) -> (r: Result<String, SvgearError>)
    ensures
        decode_effect(bytes@, r),
{
    match utf8_to_string(bytes) {
        Some(text) => Ok(trim(text.as_str()).to_owned()),
        None => Err(SvgearError::Protocol("Response is not valid UTF-8".to_owned())),
    }
}

impl NodeServer {
    pub closed spec fn script_path(&self) -> String {
        self.script_path
    }

    pub closed spec fn process(&self) -> ProcessState {
        self.process
    }

    pub closed spec fn phase(&self) -> Phase {
        self.phase
    }

    /// A fresh session for the helper executable at `script_path`: no
    /// helper runs yet and nothing is in flight.
    pub fn new(script_path: String) -> (r: NodeServer)
        ensures
            r.script_path() == script_path,
            r.process() == ProcessState::NotStarted,
            r.phase() is Idle,
    {
        NodeServer { script_path, process: ProcessState::NotStarted, phase: Phase::Idle }
    }

    /// Whether a helper process is running for this session.
    pub fn is_running(&self) -> (r: bool)
        ensures
            r == (self.process() == ProcessState::Running),
    {
        self.process == ProcessState::Running
    }

    /// Whether an exchange is in flight.
    pub fn is_busy(&self) -> (r: bool)
        ensures
            r == !(self.phase() is Idle),
    {
        !matches!(self.phase, Phase::Idle)
    }

    /// Takes a paint request and returns the first action of its exchange.
    pub fn paint(&mut self, params: PaintParams) -> (a: ConverterAction)
        ensures
            paint_effect(*old(self), params, a, *final(self)),
    {
        if !matches!(self.phase, Phase::Idle) {
            return ConverterAction::Refused;
        }
        if self.process == ProcessState::Poisoned {
            return ConverterAction::Finish(
                Err(SvgearError::Io("Converter session is broken".to_owned())),
            );
        }
        let line = encode_request(&params);
        if self.process == ProcessState::Running {
            self.phase = Phase::AwaitingResponse;
            ConverterAction::Exchange(line)
        } else {
            self.phase = Phase::Spawning(line);
            ConverterAction::Spawn(self.script_path.clone())
        }
    }

    /// Takes the outcome of the last action and returns the next action.
    pub fn resume(&mut self, event: ConverterEvent) -> (a: ConverterAction)
        ensures
            resume_effect(*old(self), event, a, *final(self)),
    {
        match (&self.phase, event) {
            (Phase::Spawning(line), ConverterEvent::Spawned) => {
                let line = line.clone();
                self.phase = Phase::AwaitingAck(line);
                ConverterAction::ReadAck
            },
            (Phase::Spawning(_), ConverterEvent::SpawnFailed(msg)) => {
                self.phase = Phase::Idle;
                self.process = ProcessState::NotStarted;
                ConverterAction::Finish(Err(SvgearError::ProcessStartup(msg)))
            },
            (Phase::AwaitingAck(line), ConverterEvent::AckLine(text)) => {
                let line = line.clone();
                self.phase = Phase::Idle;
                if contains_text(text.as_str(), READY_MESSAGE) {
                    self.process = ProcessState::Running;
                    self.phase = Phase::AwaitingResponse;
                    ConverterAction::Exchange(line)
                } else {
                    self.process = ProcessState::NotStarted;
                    let mut msg = "Unexpected output from converter: ".to_owned();
                    msg.append(text.as_str());
                    ConverterAction::Finish(Err(SvgearError::ProcessStartup(msg)))
                }
            },
            (Phase::AwaitingAck(_), ConverterEvent::AckMissing) => {
                self.phase = Phase::Idle;
                self.process = ProcessState::NotStarted;
                ConverterAction::Finish(
                    Err(SvgearError::ProcessStartup("Converter wrote no startup line".to_owned())),
                )
            },
            (Phase::AwaitingResponse, ConverterEvent::Received(bytes)) => {
                self.phase = Phase::Idle;
                ConverterAction::Finish(decode_response(bytes))
            },
            (Phase::AwaitingResponse, ConverterEvent::PipeFailed(msg)) => {
                self.phase = Phase::Idle;
                self.process = ProcessState::Poisoned;
                ConverterAction::Finish(Err(SvgearError::Io(msg)))
            },
            _ => ConverterAction::Refused,
        }
    }
}

} // verus!
