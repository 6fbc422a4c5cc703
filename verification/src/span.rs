use vstd::prelude::*;

verus! {

/// A half-open byte range `lo..hi` in the text of one source file.
#[derive(Clone, Copy, Debug, PartialEq, Eq, Structural)]
pub struct Span {
    pub lo: u32,
    pub hi: u32,
}

impl Span {
    /// The span of what was not written in any source file.
    pub open spec fn dummy_spec() -> Span {
        Span { lo: 0, hi: 0 }
    }

    /// The span from `lo` up to, not including, `hi`.
    pub fn new(lo: u32, hi: u32) -> (sp: Span)
        ensures
            sp == (Span { lo, hi }),
    {
        Span { lo, hi }
    }

    /// The span of what was not written in any source file.
    #[verifier::when_used_as_spec(dummy_spec)]
    pub fn dummy() -> (sp: Span)
        ensures
            sp == Span::dummy_spec(),
    {
        Span { lo: 0, hi: 0 }
    }
}

/// A place in the source: the file, and a span of its text.
#[derive(Debug, PartialEq, Eq)]
pub struct SourceLocation {
    pub file: String,
    pub span: Span,
}

/// The mathematical value of a [`SourceLocation`].
pub struct SourceLocationView {
    pub file: Seq<char>,
    pub span: Span,
}

impl View for SourceLocation {
    type V = SourceLocationView;

    open spec fn view(&self) -> SourceLocationView {
        SourceLocationView { file: self.file@, span: self.span }
    }
}

} // verus!
