//! The tokens that a FLUID (`.fl`) file is read into, as the generator
//! consumes them.
use vstd::prelude::*;

verus! {

/// What a token stands for.
#[derive(Debug, Clone)]
pub enum TokenType {
    /// Anything at file level that the generator passes over.
    Global,
    /// A `decl {...}` block: verbatim code for the top of the output.
    Decl,
    /// A widget class: becomes a struct and its `impl`.
    Class,
    /// A constructor function of the current class.
    Function,
    /// A widget: its type name and its property list (keys and values
    /// in one flat list, as they stand in the file).
    Member(String, Vec<String>),
    /// An opening (`true`) or closing (`false`) brace, with the stack of
    /// enclosing parents at that point.
    Scope(bool, Vec<String>),
    /// A comment.
    Comment,
}

/// One token: its identifier text and what it is.
#[derive(Debug, Clone)]
pub struct Token {
    pub ident: String,
    pub typ: TokenType,
}

} // verus!
