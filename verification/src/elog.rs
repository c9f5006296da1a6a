//! Severity levels and the text of what is reported to the server's log.
use vstd::prelude::*;
use vstd::std_specs::convert::FromSpecImpl;
use vstd::string::StringSliceAdditionalSpecFns;
use vstd::string::StrSliceExecFns;

verus! {

/// The severity of a report, in the server's order from least to most severe.
#[derive(Clone, Copy, Debug, PartialEq, Eq, Structural)]
pub enum Level {
    Debug5,
    Debug4,
    Debug3,
    Debug2,
    Debug1,
    Log,
    LogServerOnly,
    Info,
    Notice,
    Warning,
    Error,
    Fatal,
    Panic,
}

impl Level {
    /// The number that the server knows the level by.
    pub open spec fn code(self) -> i32 {
        match self {
            Level::Debug5 => 10,
            Level::Debug4 => 11,
            Level::Debug3 => 12,
            Level::Debug2 => 13,
            Level::Debug1 => 14,
            Level::Log => 15,
            Level::LogServerOnly => 16,
            Level::Info => 17,
            Level::Notice => 18,
            Level::Warning => 19,
            Level::Error => 20,
            Level::Fatal => 21,
            Level::Panic => 22,
        }
    }

    /// Whether a report at this level ends the running statement: the server
    /// does not return from reporting it, but jumps to the innermost handler.
    pub open spec fn raises(self) -> bool {
        self.code() >= Level::Error.code()
    }

    pub fn is_raised(self) -> (raised: bool)
        ensures
            raised == self.raises(),
    {
        match self {
            Level::Error | Level::Fatal | Level::Panic => true,
            _ => false,
        }
    }
}

impl FromSpecImpl<Level> for i32 {
    open spec fn obeys_from_spec() -> bool {
        true
    }

    open spec fn from_spec(level: Level) -> i32 {
        level.code()
    }
}

impl From<Level> for i32 {
    fn from(level: Level) -> (code: i32) {
        match level {
            Level::Debug5 => 10,
            Level::Debug4 => 11,
            Level::Debug3 => 12,
            Level::Debug2 => 13,
            Level::Debug1 => 14,
            Level::Log => 15,
            Level::LogServerOnly => 16,
            Level::Info => 17,
            Level::Notice => 18,
            Level::Warning => 19,
            Level::Error => 20,
            Level::Fatal => 21,
            Level::Panic => 22,
        }
    }
}

/// The codes keep the order of the levels apart: no two levels share one.
pub proof fn lemma_code_is_injective(a: Level, b: Level)
    requires
        a.code() == b.code(),
    ensures
        a == b,
{
}

/// An error on its way to the server: a level and the message text.
#[derive(Debug, PartialEq, Eq)]
pub struct ErrorReport {
    pub level: Level,
    pub message: String,
}

/// An `ErrorReport` with its message as a sequence of characters.
pub ghost struct ErrorReportView {
    pub level: Level,
    pub message: Seq<char>,
}

impl View for ErrorReport {
    type V = ErrorReportView;

    open spec fn view(&self) -> ErrorReportView {
        ErrorReportView { level: self.level, message: self.message@ }
    }
}

/// What is logged in place of a message that a C string cannot hold.
pub const UNPRINTABLE_MESSAGE: &'static str =
    "failed to convert msg to a CString, check extension code for incompatible `CString` messages";

/// The bytes that reach the server for a message: the message itself, or the
/// stand-in when a zero byte inside it would cut a C string short; in both
/// cases closed by the terminating zero.
pub open spec fn spec_c_message(message: Seq<u8>) -> Seq<u8> {
    if message.contains(0u8) {
        UNPRINTABLE_MESSAGE.spec_bytes().push(0u8)
    } else {
        message.push(0u8)
    }
}

/// Turns a message into a zero-terminated byte string for the server.
pub fn c_message(message: &str) -> (bytes: Vec<u8>)
    ensures
        bytes@ == spec_c_message(message.spec_bytes()),
{
    let mut bytes = message.as_bytes_vec();
    let mut i: usize = 0;
    while i < bytes.len()
        invariant
            i <= bytes.len(),
            bytes@ == message.spec_bytes(),
            forall|j: int| 0 <= j < i ==> bytes@[j] != 0u8,
        decreases bytes.len() - i,
    {
        if bytes[i] == 0 {
            let mut stand_in = UNPRINTABLE_MESSAGE.as_bytes_vec();
            stand_in.push(0);
            return stand_in;
        }
        i += 1;
    }
    bytes.push(0);
    bytes
}

/// What to do with a message once the server has said whether anyone will
/// see it.
#[derive(Debug, PartialEq, Eq)]
pub enum LogStep {
    /// The level is filtered out: nothing is formatted or sent.
    Skip,
    /// Send these bytes as the message and finish the report.
    Send(Vec<u8>),
}

/// Decides what follows the server's answer to the start of a report.
/// `wanted` is that answer.
pub fn log_step(wanted: bool, message: &str) -> (step: LogStep)
    ensures
        match step {
            LogStep::Skip => !wanted,
            LogStep::Send(bytes) => wanted && bytes@ == spec_c_message(message.spec_bytes()),
        },
{
    if wanted {
        LogStep::Send(c_message(message))
    } else {
        LogStep::Skip
    }
}

} // verus!
