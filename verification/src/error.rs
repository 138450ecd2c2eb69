//! Errors reported while reading or evaluating an XPath expression.

use vstd::prelude::*;

verus! {

/// The category of an error.
#[derive(PartialEq, Eq, Structural, Clone, Copy, Debug)]
pub enum XPathErrorKind {
    /// The expression does not follow the XPath grammar.
    SyntaxError,
    /// The expression uses a part of XPath that is not implemented.
    Unimplemented,
    /// An error raised while a function is applied to its arguments.
    DynamicError,
    /// A state that the parser never lets the evaluator reach.
    CantOccur,
}

/// An error with its category and a human-readable message.
#[derive(Debug)]
pub struct XPathError {
    pub kind: XPathErrorKind,
    pub message: String,
}

/// An error of kind `kind` whose message is `message`.
pub fn new_error(kind: XPathErrorKind, message: &str) -> (e: XPathError)
    ensures
        e.kind == kind,
        e.message@ == message@,
{
    XPathError { kind, message: String::from_str(message) }
}

/// An error of kind `kind` whose message is `context`, a colon and `description`.
pub fn error_in_context(kind: XPathErrorKind, context: &str, description: &str) -> (e: XPathError)
    ensures
        e.kind == kind,
        e.message@ == context@ + ": "@ + description@,
{
    let mut message = String::from_str(context);
    message.append(": ");
    message.append(description);
    XPathError { kind, message }
}

/// The leading text of an error of each kind.
pub open spec fn kind_text(k: XPathErrorKind) -> Seq<char> {
    match k {
        XPathErrorKind::SyntaxError => "Syntax Error in XPath"@,
        XPathErrorKind::Unimplemented => "Unimplemented"@,
        XPathErrorKind::DynamicError => "Dynamic Error"@,
        XPathErrorKind::CantOccur => "Can't Occur"@,
    }
}

impl XPathError {
    /// The text of the error: its category, a colon and its message.
    pub fn to_string(&self) -> (s: String)
        ensures
            s@ == kind_text(self.kind) + ": "@ + self.message@,
    {
        let mut s = match self.kind {
            XPathErrorKind::SyntaxError => String::from_str("Syntax Error in XPath"),
            XPathErrorKind::Unimplemented => String::from_str("Unimplemented"),
            XPathErrorKind::DynamicError => String::from_str("Dynamic Error"),
            XPathErrorKind::CantOccur => String::from_str("Can't Occur"),
        };
        s.append(": ");
        s.append(self.message.as_str());
        s
    }
}

} // verus!
