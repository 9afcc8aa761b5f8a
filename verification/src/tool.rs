//! What the `git_*`, `gh_pr_*` and `browser_*` tools share: their error
//! and metadata types, output truncation, and the decoding of a child
//! process's output.
use vstd::prelude::*;
use vstd::utf8::{valid_utf8, decode_utf8};
use crate::text::{trim, trim_str, truncate_chars, truncated};

verus! {

/// Tool output is cut after this many characters.
pub const MAX_OUTPUT_CHARS: usize = 20_000;

#[derive(Debug, Clone, Copy, PartialEq, Eq, Structural)]
pub enum ToolErrorKind {
    InvalidArguments,
    Custom,
}

/// A tool failure: its kind and message.
#[derive(Debug, Clone)]
pub struct ToolError {
    pub kind: ToolErrorKind,
    pub message: String,
}

pub fn invalid_arguments(message: String) -> (e: ToolError)
    ensures
        e.kind == ToolErrorKind::InvalidArguments,
        e.message@ == message@,
{
    ToolError { kind: ToolErrorKind::InvalidArguments, message }
}

pub fn custom_error(message: String) -> (e: ToolError)
    ensures
        e.kind == ToolErrorKind::Custom,
        e.message@ == message@,
{
    ToolError { kind: ToolErrorKind::Custom, message }
}

#[derive(Debug, Clone, Copy, PartialEq, Eq, Structural)]
pub enum ToolKind {
    Git,
    Browser,
}

#[derive(Debug, Clone, Copy, PartialEq, Eq, Structural)]
pub enum ToolNamespace {
    GrokBuild,
}

#[derive(Debug, Clone, Copy, PartialEq, Eq, Structural)]
pub enum ToolScope {
    Read,
    Write,
}

/// Whether a tool only reads, and the scope it is granted.
#[derive(Debug, Clone, Copy, PartialEq, Eq, Structural)]
pub struct ToolCapabilities {
    pub is_read_only: bool,
    pub tool_scope: ToolScope,
}

pub fn read_only_capabilities() -> (c: ToolCapabilities)
    ensures
        c == (ToolCapabilities { is_read_only: true, tool_scope: ToolScope::Read }),
{
    ToolCapabilities { is_read_only: true, tool_scope: ToolScope::Read }
}

pub fn write_capabilities() -> (c: ToolCapabilities)
    ensures
        c == (ToolCapabilities { is_read_only: false, tool_scope: ToolScope::Write }),
{
    ToolCapabilities { is_read_only: false, tool_scope: ToolScope::Write }
}

/// Cuts tool output to [`MAX_OUTPUT_CHARS`] characters.
pub fn truncate(s: String) -> (t: String)
    ensures
        t@ == truncated(s@, MAX_OUTPUT_CHARS as nat),
{
    truncate_chars(s, MAX_OUTPUT_CHARS)
}

/// The text `String::from_utf8_lossy` makes of some bytes.
pub uninterp spec fn utf8_lossy(bytes: Seq<u8>) -> Seq<char>;

/// `String::from_utf8_lossy(bytes).into_owned()`: valid UTF-8 is decoded
/// as it is; invalid sequences become U+FFFD (not stated).
#[verifier::external_body]
pub fn from_utf8_lossy(bytes: &[u8]) -> (s: String)
    ensures
        s@ == utf8_lossy(bytes@),
        valid_utf8(bytes@) ==> s@ == decode_utf8(bytes@),
{
    String::from_utf8_lossy(bytes).into_owned()
}

} // verus!
