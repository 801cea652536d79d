//! Message and command vocabulary exchanged between program and console.
//!
//! Commands are opaque to the core: they are appended to the log and passed
//! through to the console verbatim. Requests carry a tag and an input kind;
//! responses carry the tag they answer and a payload of that kind.

use vstd::prelude::*;
use vstd::string::StringExecFns;

verus! {

/// A point in time as a Unix-epoch second count plus nanoseconds.
#[derive(Clone, Copy, Debug, PartialEq, Eq, Structural)]
pub struct Timestamp {
    pub seconds: i64,
    pub nanos: u32,
}

/// `a` is at or before `b`, comparing seconds first and nanoseconds second.
pub open spec fn ts_le(a: Timestamp, b: Timestamp) -> bool {
    a.seconds < b.seconds || (a.seconds == b.seconds && a.nanos <= b.nanos)
}

impl Timestamp {
    pub fn new(seconds: i64, nanos: u32) -> (r: Timestamp)
        ensures
            r == (Timestamp { seconds, nanos }),
    {
        Timestamp { seconds, nanos }
    }

    /// True when `self` is at or past `other`.
    pub fn reached(&self, other: &Timestamp) -> (r: bool)
        ensures
            r == ts_le(*other, *self),
    {
        self.seconds > other.seconds || (self.seconds == other.seconds && self.nanos
            >= other.nanos)
    }
}

/// A display-setting update carried by a command.
#[derive(Debug, PartialEq)]
pub enum Setting {
    /// Font family, size (an opaque bit pattern chosen by the embedder) and
    /// style flags.
    Font { family: String, size_bits: u32, style: u32 },
    TextAlign(u32),
    TextColor(u32),
    BackColor(u32),
    HighlightColor(u32),
}

impl Clone for Setting {
    fn clone(&self) -> (r: Self)
        ensures
            r == *self,
    {
        match self {
            Setting::Font { family, size_bits, style } => Setting::Font {
                family: family.clone(),
                size_bits: *size_bits,
                style: *style,
            },
            Setting::TextAlign(v) => Setting::TextAlign(*v),
            Setting::TextColor(v) => Setting::TextColor(*v),
            Setting::BackColor(v) => Setting::BackColor(*v),
            Setting::HighlightColor(v) => Setting::HighlightColor(*v),
        }
    }
}

/// One immutable display directive of the program's append-only log.
#[derive(Debug, PartialEq)]
pub enum ProgramCommand {
    Print(String),
    PrintLine(String),
    NewLine,
    DrawLine,
    DeleteLine(u32),
    UpdateSetting(Setting),
}

impl Clone for ProgramCommand {
    fn clone(&self) -> (r: Self)
        ensures
            r == *self,
    {
        match self {
            ProgramCommand::Print(s) => ProgramCommand::Print(s.clone()),
            ProgramCommand::PrintLine(s) => ProgramCommand::PrintLine(s.clone()),
            ProgramCommand::NewLine => ProgramCommand::NewLine,
            ProgramCommand::DrawLine => ProgramCommand::DrawLine,
            ProgramCommand::DeleteLine(n) => ProgramCommand::DeleteLine(*n),
            ProgramCommand::UpdateSetting(s) => ProgramCommand::UpdateSetting(s.clone()),
        }
    }
}

/// The kind of answer an input request expects.
#[derive(Clone, Copy, Debug, PartialEq, Eq, Structural)]
pub enum InputKind {
    Int,
    Str,
}

/// A typed answer supplied by the console.
#[derive(Debug, PartialEq)]
pub enum InputValue {
    Int(i32),
    Str(String),
}

/// A program-originated input request. The tag is stamped when the wait
/// begins; the optional expiry is a wall-clock deadline.
#[derive(Clone, Copy, Debug, PartialEq)]
pub struct ProgramRequest {
    pub tag: u32,
    pub input: InputKind,
    pub expire: Option<Timestamp>,
}

impl ProgramRequest {
    /// A request for an input of the given kind, not yet stamped with a tag.
    pub fn new(input: InputKind, expire: Option<Timestamp>) -> (r: ProgramRequest)
        ensures
            r == (ProgramRequest { tag: 0u32, input, expire }),
    {
        ProgramRequest { tag: 0, input, expire }
    }
}

/// A console-originated answer to the request carrying the same tag.
#[derive(Debug, PartialEq)]
pub struct ConsoleResponse {
    pub tag: u32,
    pub payload: InputValue,
}

/// A console-originated state-management request.
#[derive(Debug, PartialEq)]
pub enum ConsoleRequest {
    /// Ask for the command-log slice from the given offset to the end.
    GetState(u32),
    /// Rebind this session to the context published under the name.
    LoadState(String),
    /// Publish the bound context under the name; fails if taken.
    ShareState(String),
    /// Publish the bound context under the name, displacing any prior entry.
    ShareStateOverwrite(String),
    /// Remove the name from the registry.
    DeleteState(String),
}

/// One console-to-program envelope.
#[derive(Debug, PartialEq)]
pub enum ConsoleMessage {
    Req(ConsoleRequest),
    Res(ConsoleResponse),
    Empty,
}

/// A program-originated reply to a console request.
#[derive(Debug, PartialEq)]
pub enum ProgramResponse {
    OkGetState(Vec<ProgramCommand>),
    OkLoadState,
    OkShareState(String),
    Error { reason: String, req_type: String },
}

/// One program-to-console envelope.
#[derive(Debug, PartialEq)]
pub enum ProgramMessage {
    Req(ProgramRequest),
    Res(ProgramResponse),
    AcceptRes(u32),
}

/// The reason reported when catch-up is requested past the end of an exited
/// program's log.
pub open spec fn reason_program_exited() -> Seq<char> {
    "program exited"@
}

/// The reason reported when `LoadState` names an absent entry.
pub open spec fn reason_not_exist(name: Seq<char>) -> Seq<char> {
    "state ["@ + name + "] not exist"@
}

/// The reason reported when `ShareState` names a taken entry.
pub open spec fn reason_already_exist(name: Seq<char>) -> Seq<char> {
    "state ["@ + name + "] already exist"@
}

/// Builds the `LoadState` miss reason for the given name.
pub fn make_reason_not_exist(name: &str) -> (r: String)
    ensures
        r@ == reason_not_exist(name@),
{
    let mut s = String::from_str("state [");
    s.append(name);
    s.append("] not exist");
    s
}

/// Builds the `ShareState` conflict reason for the given name.
pub fn make_reason_already_exist(name: &str) -> (r: String)
    ensures
        r@ == reason_already_exist(name@),
{
    let mut s = String::from_str("state [");
    s.append(name);
    s.append("] already exist");
    s
}

} // verus!
