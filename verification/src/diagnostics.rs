//! Judging what the driver reports, and the wording of failures.

use crate::native::{compile_status_parameter, link_status_parameter, status_true};
use crate::shader::{SourceType, Stage};
use crate::text::{text_from_utf8, utf8_error_text};
use vstd::prelude::*;
use vstd::utf8::{decode_utf8, valid_utf8};

verus! {

/// The step of a build that a status belongs to.
#[derive(Clone, Copy, Debug, PartialEq, Eq, Structural)]
pub enum Phase {
    /// Compiling a shader object.
    Compile,
    /// Linking a program object.
    Link,
}

impl Phase {
    /// The status parameter that the driver is asked for.
    pub open spec fn spec_status_parameter(self) -> u32 {
        match self {
            Phase::Compile => 0x8B81,
            Phase::Link => 0x8B82,
        }
    }

    /// The status parameter to ask the driver for, as the bindings define it.
    pub fn status_parameter(&self) -> (parameter: u32)
        ensures
            parameter == self.spec_status_parameter(),
    {
        match self {
            Phase::Compile => compile_status_parameter(),
            Phase::Link => link_status_parameter(),
        }
    }

    /// The verb of this phase in a message.
    pub open spec fn spec_verb(self) -> Seq<char> {
        match self {
            Phase::Compile => "compile"@,
            Phase::Link => "link"@,
        }
    }

    /// The verb of this phase in a message.
    pub fn verb(&self) -> (s: &'static str)
        ensures
            s@ == self.spec_verb(),
    {
        match self {
            Phase::Compile => "compile",
            Phase::Link => "link",
        }
    }

    /// What the log of this phase is called in a message.
    pub open spec fn spec_log_name(self) -> Seq<char> {
        match self {
            Phase::Compile => "compilation"@,
            Phase::Link => "link"@,
        }
    }

    /// What the log of this phase is called in a message.
    pub fn log_name(&self) -> (s: &'static str)
        ensures
            s@ == self.spec_log_name(),
    {
        match self {
            Phase::Compile => "compilation",
            Phase::Link => "link",
        }
    }
}

impl SourceType {
    /// The phase whose status tells whether an object of this kind is good:
    /// a shader is compiled, a program is linked.
    pub open spec fn spec_phase(self) -> Phase {
        match self {
            SourceType::Program => Phase::Link,
            SourceType::VertexShader => Phase::Compile,
            SourceType::FragmentShader => Phase::Compile,
        }
    }

    /// The phase whose status tells whether an object of this kind is good.
    pub fn phase(&self) -> (phase: Phase)
        ensures
            phase == self.spec_phase(),
    {
        match self {
            SourceType::Program => Phase::Link,
            SourceType::VertexShader => Phase::Compile,
            SourceType::FragmentShader => Phase::Compile,
        }
    }
}

/// Size of the buffer that the driver is given for an info log. The driver
/// ends the log with a NUL, so at most one byte less is text.
pub const INFO_LOG_CAPACITY: usize = 1024;

/// The part of an info log buffer that is read as text: its first
/// `INFO_LOG_CAPACITY - 1` bytes, or all of a shorter buffer.
pub open spec fn log_text(buffer: Seq<u8>) -> Seq<u8> {
    if buffer.len() >= INFO_LOG_CAPACITY {
        buffer.take(INFO_LOG_CAPACITY - 1)
    } else {
        buffer
    }
}

/// A status was true as the driver counts it.
pub open spec fn spec_status_is_success(status: i32) -> bool {
    status == 1
}

/// Whether `status` is true as the driver counts it.
pub fn status_is_success(status: i32) -> (b: bool)
    ensures
        b == spec_status_is_success(status),
{
    status == status_true()
}

/// Why an object of a build is not usable.
#[derive(Debug, PartialEq, Eq)]
pub enum CheckError {
    /// The driver reported failure; `log` is what it wrote about it.
    Failed { phase: Phase, source_type: SourceType, log: String },
    /// The driver reported failure and its log is not UTF-8; `reason` says
    /// where the bytes go wrong.
    UnreadableLog { phase: Phase, reason: String },
}

impl CheckError {
    /// The message of this error.
    pub open spec fn spec_message(self) -> Seq<char> {
        match self {
            CheckError::Failed { phase, source_type, log } => "failed to "@ + phase.spec_verb()
                + " shader code: type="@ + source_type.label() + ", log="@ + log@,
            CheckError::UnreadableLog { phase, reason } => "failed to convert to "@
                + phase.spec_log_name() + " log from buffer: "@ + reason@,
        }
    }

    /// The message of this error.
    pub fn message(&self) -> (text: String)
        ensures
            text@ == self.spec_message(),
    {
        match self {
            CheckError::Failed { phase, source_type, log } => {
                let mut text = String::from_str("failed to ");
                text.append(phase.verb());
                text.append(" shader code: type=");
                text.append(source_type.name());
                text.append(", log=");
                text.append(log.as_str());
                text
            },
            CheckError::UnreadableLog { phase, reason } => {
                let mut text = String::from_str("failed to convert to ");
                text.append(phase.log_name());
                text.append(" log from buffer: ");
                text.append(reason.as_str());
                text
            },
        }
    }
}

/// The error for an object of kind `source_type` whose status was not true,
/// given the driver's log as text, or the reason why it is no text.
pub fn failure(source_type: SourceType, log: Result<String, String>) -> (e: CheckError)
    ensures
        match log {
            Ok(text) => e == (CheckError::Failed {
                phase: source_type.spec_phase(),
                source_type,
                log: text,
            }),
            Err(reason) => e == (CheckError::UnreadableLog {
                phase: source_type.spec_phase(),
                reason,
            }),
        },
{
    let phase = source_type.phase();
    match log {
        Ok(text) => CheckError::Failed { phase, source_type, log: text },
        Err(reason) => CheckError::UnreadableLog { phase, reason },
    }
}

/// Judges the status that the driver reported for an object of kind
/// `source_type`.
///
/// A true status is success, and `info_log` is not looked at. Otherwise
/// `info_log` is the buffer that the driver wrote its log into; its text goes
/// into the error.
pub fn check_compile_errors(source_type: SourceType, status: i32, info_log: Vec<u8>) -> (r: Result<
    (),
    CheckError,
>)
    ensures
        r is Ok <==> spec_status_is_success(status),
        r matches Err(e) ==> {
            if valid_utf8(log_text(info_log@)) {
                &&& e matches CheckError::Failed { phase, source_type: kind, log }
                &&& phase == source_type.spec_phase()
                &&& kind == source_type
                &&& log@ == decode_utf8(log_text(info_log@))
            } else {
                &&& e matches CheckError::UnreadableLog { phase, reason }
                &&& phase == source_type.spec_phase()
                &&& reason@ == utf8_error_text(log_text(info_log@))
            }
        },
{
    if status_is_success(status) {
        return Ok(());
    }
    let mut bytes = info_log;
    if bytes.len() >= INFO_LOG_CAPACITY {
        bytes.truncate(INFO_LOG_CAPACITY - 1);
    }
    Err(failure(source_type, text_from_utf8(bytes)))
}

/// The message for a shader file that cannot be opened.
pub fn open_failure(path: &str) -> (text: String)
    ensures
        text@ == "failed to open file: "@ + path@,
{
    let mut text = String::from_str("failed to open file: ");
    text.append(path);
    text
}

/// The words for a stage in a message about its file.
pub open spec fn stage_words(stage: Stage) -> Seq<char> {
    match stage {
        Stage::Vertex => "vertex"@,
        Stage::Fragment => "fragment"@,
    }
}

/// The message for a shader file that cannot be read as text.
pub fn read_failure(stage: Stage, path: &str) -> (text: String)
    ensures
        text@ == "failed to read "@ + stage_words(stage) + " shader ("@ + path@ + ")"@,
{
    let mut text = String::from_str("failed to read ");
    match stage {
        Stage::Vertex => text.append("vertex"),
        Stage::Fragment => text.append("fragment"),
    }
    text.append(" shader (");
    text.append(path);
    text.append(")");
    text
}

} // verus!
