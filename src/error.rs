use vstd::prelude::*;

verus! {

/// What can go wrong while compiling a schema or reading a generated value.
#[derive(Debug, PartialEq)]
pub enum XsdError {
    /// The schema text is not a schema document.
    SchemaParseError(String),
    /// A type or base name is neither built in nor registered.
    UnknownType(String),
    /// A `ref` names a declaration that the schema never makes.
    UnresolvedReference(String),
    /// A construct that is recognized but not supported (the node's kind).
    UnimplementedConstruct(String),
    /// A string that is none of an enumeration's literals.
    InvalidValue(String),
    /// A name registered twice with two different representations.
    ConflictingRegistration(String),
}

/// The mathematical counterpart of [`XsdError`].
pub enum XsdErrorView {
    SchemaParseError(Seq<char>),
    UnknownType(Seq<char>),
    UnresolvedReference(Seq<char>),
    UnimplementedConstruct(Seq<char>),
    InvalidValue(Seq<char>),
    ConflictingRegistration(Seq<char>),
}

impl View for XsdError {
    type V = XsdErrorView;

    open spec fn view(&self) -> XsdErrorView {
        match self {
            XsdError::SchemaParseError(s) => XsdErrorView::SchemaParseError(s@),
            XsdError::UnknownType(s) => XsdErrorView::UnknownType(s@),
            XsdError::UnresolvedReference(s) => XsdErrorView::UnresolvedReference(s@),
            XsdError::UnimplementedConstruct(s) => XsdErrorView::UnimplementedConstruct(s@),
            XsdError::InvalidValue(s) => XsdErrorView::InvalidValue(s@),
            XsdError::ConflictingRegistration(s) => XsdErrorView::ConflictingRegistration(s@),
        }
    }
}

} // verus!
