//! Build results of the shader stages and of the program they are linked
//! into: when a build counts as failed, and how its failure is reported.

use vstd::prelude::*;
use vstd::utf8::{decode_utf8, valid_utf8};
use crate::text::{decode_lossy, utf8_lossy};

verus! {

/// A programmable stage of the pipeline.
#[derive(Clone, Copy, Debug, PartialEq, Eq, Structural)]
pub enum ShaderStage {
    Vertex,
    Fragment,
}

/// Something the graphics driver builds and reports a status for.
#[derive(Clone, Copy, Debug, PartialEq, Eq, Structural)]
pub enum Target {
    /// One stage, compiled from its source text.
    Shader(ShaderStage),
    /// The program, linked from both stages.
    Program,
}

/// Size in bytes of the buffer a build log is read into. A log never
/// reaches the program with more bytes than this.
pub const INFO_LOG_CAPACITY: usize = 1024;

/// A build succeeded exactly when the driver reports a status other than 0.
pub open spec fn succeeded(status: i32) -> bool {
    status != 0
}

/// Tells whether a reported compile or link status means success.
pub fn status_ok(status: i32) -> (ok: bool)
    ensures
        ok == succeeded(status),
{
    status != 0
}

/// The part of a log that fits the log buffer: its first
/// [`INFO_LOG_CAPACITY`] bytes, or all of it if it is shorter.
pub open spec fn bounded(log: Seq<u8>) -> Seq<u8> {
    if log.len() <= INFO_LOG_CAPACITY {
        log
    } else {
        log.take(INFO_LOG_CAPACITY as int)
    }
}

/// Cuts a log down to what fits the log buffer.
pub fn bound_log(log: Vec<u8>) -> (kept: Vec<u8>)
    ensures
        kept@ == bounded(log@),
{
    let mut kept = log;
    kept.truncate(INFO_LOG_CAPACITY);
    kept
}

/// The words a failure report begins with.
pub open spec fn heading(target: Target) -> Seq<char> {
    match target {
        Target::Shader(ShaderStage::Vertex) => "Vertex Shared Compile Error: "@,
        Target::Shader(ShaderStage::Fragment) => "Fragment Shader Compile Error: "@,
        Target::Program => "Program Link Error: "@,
    }
}

/// A report: the heading of the failed build, followed by `text`.
pub open spec fn headed(target: Target, text: Seq<char>) -> Seq<char> {
    heading(target) + text
}

/// The full report of a failed build: the heading of its target, followed
/// by the driver's log, decoded lossily.
pub open spec fn report(target: Target, log: Seq<u8>) -> Seq<char> {
    headed(target, utf8_lossy(log))
}

/// Puts the heading of a failed build of `target` in front of `text`.
pub fn write_report(target: Target, text: &str) -> (message: String)
    ensures
        message@ == headed(target, text@),
{
    let mut message = match target {
        Target::Shader(ShaderStage::Vertex) => String::from_str("Vertex Shared Compile Error: "),
        Target::Shader(ShaderStage::Fragment) => String::from_str(
            "Fragment Shader Compile Error: ",
        ),
        Target::Program => String::from_str("Program Link Error: "),
    };
    message.append(text);
    message
}

/// Words the report of a failed build of `target` with the driver's `log`.
/// A log that is well-formed UTF-8 stands in the report letter for letter.
pub fn diagnostic_message(target: Target, log: &Vec<u8>) -> (message: String)
    ensures
        message@ == report(target, log@),
        valid_utf8(log@) ==> message@ == headed(target, decode_utf8(log@)),
{
    let text = decode_lossy(log.as_slice());
    write_report(target, text.as_str())
}

} // verus!
