use vstd::prelude::*;

verus! {

/// A source location range used to anchor a diagnostic to the offending
/// code. `lo` and `hi` are byte offsets into the source text.
#[derive(Clone, Copy, Debug, PartialEq, Eq, Structural)]
pub struct Span {
    pub lo: usize,
    pub hi: usize,
}

/// One syntactic function definition encountered during the host's
/// traversal of the syntax tree.
///
/// The two variants are a closed distinction: a named function carries the
/// identifier a naming rule inspects, while an anonymous (closure-like)
/// construct has no identifier and is categorically exempt from naming
/// checks.
pub enum FunctionDeclarationNode {
    NamedFunction { identifier: String, span: Span },
    AnonymousFunction { span: Span },
}

impl FunctionDeclarationNode {
    /// The source location of the whole declaration, whichever variant it is.
    pub open spec fn spec_span(&self) -> Span {
        match *self {
            FunctionDeclarationNode::NamedFunction { identifier: _, span } => span,
            FunctionDeclarationNode::AnonymousFunction { span } => span,
        }
    }

    /// The source location of the whole declaration, whichever variant it is.
    pub fn span(&self) -> (s: Span)
        ensures
            s == self.spec_span(),
    {
        match self {
            FunctionDeclarationNode::NamedFunction { identifier: _, span } => *span,
            FunctionDeclarationNode::AnonymousFunction { span } => *span,
        }
    }
}

} // verus!
