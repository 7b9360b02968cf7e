//! The result envelope of a call and the errors of dispatch and construction.

use vstd::prelude::*;

verus! {

/// What a handler hands back: content items under exactly one tag.
#[derive(Debug, Clone, PartialEq)]
pub enum ToolResult {
    Success(Vec<String>),
    Failure(Vec<String>),
}

/// The mathematical value of a `ToolResult`: the tag and the texts in order.
pub enum Envelope {
    Success(Seq<Seq<char>>),
    Failure(Seq<Seq<char>>),
}

/// The texts of a list of content items, in order.
pub open spec fn texts(items: Seq<String>) -> Seq<Seq<char>> {
    Seq::new(items.len(), |i: int| items[i]@)
}

impl View for ToolResult {
    type V = Envelope;

    open spec fn view(&self) -> Envelope {
        match self {
            ToolResult::Success(items) => Envelope::Success(texts(items@)),
            ToolResult::Failure(items) => Envelope::Failure(texts(items@)),
        }
    }
}

impl ToolResult {
    /// Wraps a handler's bare text as a success with that one item.
    pub fn from_text(text: String) -> (r: ToolResult)
        ensures
            r@ == Envelope::Success(seq![text@]),
    {
        let r = ToolResult::Success(vec![text]);
        assert(r@->Success_0 =~= seq![text@]);
        r
    }

    /// A failure that carries the one diagnostic `text`.
    pub fn failure_text(text: String) -> (r: ToolResult)
        ensures
            r@ == Envelope::Failure(seq![text@]),
    {
        let r = ToolResult::Failure(vec![text]);
        assert(r@->Failure_0 =~= seq![text@]);
        r
    }

    /// Whether the tag is `Failure`.
    pub fn is_error(&self) -> (b: bool)
        ensures
            b == (self@ is Failure),
    {
        match self {
            ToolResult::Success(_) => false,
            ToolResult::Failure(_) => true,
        }
    }

    /// The content items, whatever the tag.
    pub fn content(&self) -> (items: &Vec<String>)
        ensures
            match self@ {
                Envelope::Success(t) => texts(items@) == t,
                Envelope::Failure(t) => texts(items@) == t,
            },
    {
        match self {
            ToolResult::Success(items) => items,
            ToolResult::Failure(items) => items,
        }
    }
}

/// Why a call was refused before any handler ran.
#[derive(Debug, Clone, Copy, PartialEq, Eq, Structural)]
pub enum DispatchError {
    /// No tool is registered under the name.
    UnknownTool,
    /// A required field is missing or has another type than declared.
    InvalidParameters,
}

impl DispatchError {
    /// The text of the error.
    pub open spec fn spec_message(&self) -> Seq<char> {
        match self {
            DispatchError::UnknownTool => "unknown tool"@,
            DispatchError::InvalidParameters => "invalid parameters"@,
        }
    }

    /// The text of the error.
    pub fn message(&self) -> (s: String)
        ensures
            s@ == self.spec_message(),
    {
        match self {
            DispatchError::UnknownTool => String::from_str("unknown tool"),
            DispatchError::InvalidParameters => String::from_str("invalid parameters"),
        }
    }
}

/// Why a set of tools could not be put together.
#[derive(Debug, Clone, Copy, PartialEq, Eq, Structural)]
pub enum ConstructionError {
    /// A tool of that name is registered already.
    DuplicateName,
}

} // verus!
