use vstd::prelude::*;
use vstd::string::*;
use crate::span::Span;

verus! {

/// Why a file could not be read.
#[derive(Clone, Copy, Debug, PartialEq, Eq, Structural)]
pub enum IoErrorKind {
    /// No file exists at the path.
    NotFound,
    /// The file exists and may not be read.
    PermissionDenied,
    /// The file's contents are not text.
    InvalidData,
    /// Any other failure to open or read.
    Other,
}

/// A failed attempt to read a file: its kind, and the cause in words.
#[derive(Debug, PartialEq, Eq)]
pub struct IoFailure {
    pub kind: IoErrorKind,
    pub message: String,
}

/// The mathematical value of an [`IoFailure`].
pub struct IoFailureView {
    pub kind: IoErrorKind,
    pub message: Seq<char>,
}

impl View for IoFailure {
    type V = IoFailureView;

    open spec fn view(&self) -> IoFailureView {
        IoFailureView { kind: self.kind, message: self.message@ }
    }
}

/// What can go wrong while one annotation is expanded.
#[derive(Debug, PartialEq, Eq)]
pub enum AttrError {
    /// The referenced file could not be read.
    IoError(IoFailure),
    /// The string literal at this span cannot name a file.
    Path(Span),
    /// The value at this span is not a string literal.
    Syntax(Span),
}

/// The mathematical value of an [`AttrError`].
pub enum AttrErrorView {
    IoError(IoFailureView),
    Path(Span),
    Syntax(Span),
}

impl View for AttrError {
    type V = AttrErrorView;

    open spec fn view(&self) -> AttrErrorView {
        match *self {
            AttrError::IoError(e) => AttrErrorView::IoError(e@),
            AttrError::Path(sp) => AttrErrorView::Path(sp),
            AttrError::Syntax(sp) => AttrErrorView::Syntax(sp),
        }
    }
}

impl AttrError {
    /// Wraps a failed read.
    pub fn from_error(e: IoFailure) -> (err: AttrError)
        ensures
            err == AttrError::IoError(e),
    {
        AttrError::IoError(e)
    }
}

/// The category of a diagnostic.
#[derive(Clone, Copy, Debug, PartialEq, Eq, Structural)]
pub enum ErrorKind {
    Syntax,
    Path,
    Io,
}

/// A report to the user: an error of some category, the span it points at,
/// and a message.
#[derive(Debug, PartialEq, Eq)]
pub struct Diagnostic {
    pub kind: ErrorKind,
    pub span: Span,
    pub message: String,
}

/// The mathematical value of a [`Diagnostic`].
pub struct DiagnosticView {
    pub kind: ErrorKind,
    pub span: Span,
    pub message: Seq<char>,
}

impl View for Diagnostic {
    type V = DiagnosticView;

    open spec fn view(&self) -> DiagnosticView {
        DiagnosticView { kind: self.kind, span: self.span, message: self.message@ }
    }
}

/// The message for a value that is not a string literal.
pub open spec fn syntax_message() -> Seq<char> {
    "invalid use of the file-reference annotation; expected a string literal"@
}

/// The message for a string literal that cannot name a file.
pub open spec fn path_message() -> Seq<char> {
    "invalid path in file-reference annotation"@
}

/// What the message for a failed read starts with; the cause follows it.
pub open spec fn io_message_prefix() -> Seq<char> {
    "couldn't read doc file: "@
}

/// The diagnostic that `err` is reported as, where `sp` is the span of the
/// annotation that was being expanded.
pub open spec fn diagnostic_for(err: AttrErrorView, sp: Span) -> DiagnosticView {
    match err {
        AttrErrorView::Syntax(at) => DiagnosticView {
            kind: ErrorKind::Syntax,
            span: at,
            message: syntax_message(),
        },
        AttrErrorView::Path(at) => DiagnosticView {
            kind: ErrorKind::Path,
            span: at,
            message: path_message(),
        },
        AttrErrorView::IoError(e) => DiagnosticView {
            kind: ErrorKind::Io,
            span: sp,
            message: io_message_prefix() + e.message,
        },
    }
}

/// Turns `err` into the diagnostic it is reported as: a syntax or path error
/// points at the offending literal, a failed read at `sp`, the annotation, and
/// its message ends with the cause.
pub fn report(err: &AttrError, sp: Span) -> (diagnostic: Diagnostic)
    ensures
        diagnostic@ == diagnostic_for(err@, sp),
{
    match err {
        AttrError::Syntax(at) => Diagnostic {
            kind: ErrorKind::Syntax,
            span: *at,
            message: String::from_str(
                "invalid use of the file-reference annotation; expected a string literal",
            ),
        },
        AttrError::Path(at) => Diagnostic {
            kind: ErrorKind::Path,
            span: *at,
            message: String::from_str("invalid path in file-reference annotation"),
        },
        AttrError::IoError(e) => Diagnostic {
            kind: ErrorKind::Io,
            span: sp,
            message: String::from_str("couldn't read doc file: ").concat(e.message.as_str()),
        },
    }
}

} // verus!
