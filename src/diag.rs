use vstd::prelude::*;

verus! {

#[derive(Debug, Clone, Copy, PartialEq, Eq, Structural)]
pub enum DiagnosticKind {
    Parse,
    UnknownSymbol,
    Type,
    UnitMismatch,
    Domain,
    Overflow,
    Circular,
    Internal,
}

/// A message about a cell, with an optional byte span into its text.
#[derive(Debug, Clone)]
pub struct Diagnostic {
    pub message: String,
    pub span: Option<(usize, usize)>,
    pub kind: DiagnosticKind,
}

impl Diagnostic {
    pub fn parse(message: &str, span: Option<(usize, usize)>) -> (r: Diagnostic)
        ensures
            r.message@ == message@,
            r.span == span,
            r.kind == DiagnosticKind::Parse,
    {
        Diagnostic { message: String::from_str(message), span, kind: DiagnosticKind::Parse }
    }
}

} // verus!
