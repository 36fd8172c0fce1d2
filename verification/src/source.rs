//! Source positions: spans as the host numbers them, the places its source map gives for
//! them, and the text `path:line` that an annotation carries.

use vstd::prelude::*;
use swc_core::common::{BytePos, Span};
use crate::path::{forward_slashes, normalized, relative_path, relative_to};
use crate::text::{decimal, push_decimal, string_of, text_of};

verus! {

/// The first of the byte positions that the host keeps for spans it makes up itself.
pub const RESERVED_FROM: u32 = 0xFFFE_FFFF;

/// A byte range of some source text, as the host numbers it.
#[derive(Clone, Copy, Debug, PartialEq, Eq)]
pub struct SourceSpan {
    pub lo: u32,
    pub hi: u32,
}

/// Where the host's source map places a byte position: a file and a line counted from one.
#[derive(Clone, Debug, PartialEq, Eq)]
pub struct SourceLocation {
    pub file: String,
    pub line: usize,
}

pub struct SourceLocationView {
    pub file: Seq<char>,
    pub line: nat,
}

impl View for SourceLocation {
    type V = SourceLocationView;

    open spec fn view(&self) -> SourceLocationView {
        SourceLocationView { file: self.file@, line: self.line as nat }
    }
}

/// Asks the host's own test, `Span::is_dummy` of `swc_core::common`, on the span from `lo`
/// to `hi`. Its source reads: both ends zero, or the start at or above the first reserved
/// position, which is `u32::MAX - 2^16`.
#[verifier::external_body]
fn span_is_dummy(lo: u32, hi: u32) -> (dummy: bool)
    ensures
        dummy == (lo == 0 && hi == 0 || lo >= RESERVED_FROM),
{
    Span { lo: BytePos(lo), hi: BytePos(hi) }.is_dummy()
}

impl SourceSpan {
    /// A span that stands for no place in the user's source text: the all-zero span, or one
    /// that starts among the reserved positions.
    pub open spec fn is_synthetic(self) -> bool {
        self.lo == 0 && self.hi == 0 || self.lo >= RESERVED_FROM
    }

    /// Whether the host counts this span as a dummy.
    pub fn is_dummy(&self) -> (dummy: bool)
        ensures
            dummy == self.is_synthetic(),
    {
        span_is_dummy(self.lo, self.hi)
    }
}

/// The path under which a file is reported: relative to the working directory where there
/// is one, and with forward slashes in either case.
pub open spec fn reported_path(working_directory: Option<Seq<char>>, file: Seq<char>) -> Seq<char> {
    match working_directory {
        Some(dir) => relative_to(dir, file),
        None => forward_slashes(file),
    }
}

/// `path:line` for the place `at`.
pub open spec fn source_text(working_directory: Option<Seq<char>>, at: SourceLocationView) -> Seq<
    char,
> {
    reported_path(working_directory, at.file) + seq![':'] + decimal(at.line)
}

/// What a span resolves to: nothing where it is synthetic, else `path:line` for the place
/// `at` that the host gives for its start.
pub open spec fn resolved(
    span: SourceSpan,
    at: SourceLocationView,
    working_directory: Option<Seq<char>>,
) -> Option<Seq<char>> {
    if span.is_synthetic() {
        None
    } else {
        Some(source_text(working_directory, at))
    }
}

/// Resolves `span`, whose start the host places at `at`, to the text `path:line`.
pub fn resolve(span: SourceSpan, at: &SourceLocation, working_directory: &Option<String>) -> (value:
    Option<String>)
    ensures
        text_of(value) == resolved(span, at@, text_of(*working_directory)),
{
    if span.is_dummy() {
        return None;
    }
    let mut text = match working_directory {
        Some(dir) => relative_path(dir.as_str(), at.file.as_str()),
        None => {
            let chars = normalized(at.file.as_str());
            string_of(&chars, 0, chars.len())
        },
    };
    text.push(':');
    push_decimal(&mut text, at.line);
    Some(text)
}

} // verus!
