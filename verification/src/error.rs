//! Errors of the host and how they are described.
use vstd::prelude::*;

verus! {

/// What an error means to the owner of a stream.
#[derive(Copy, Clone, Debug, PartialEq, Eq, Structural)]
pub enum ErrorKind {
    /// The device is gone, or there is no device to use.
    DeviceNotAvailable,
    /// The stream still exists but what it was built on has changed.
    StreamInvalidated,
    /// The stream has moved to another device and goes on.
    DeviceChanged,
    /// The system could not provide a resource, such as a thread.
    ResourceExhausted,
    /// The audio backend refused an operation.
    BackendError,
}

/// An error as it is handed to callers and to error callbacks.
#[derive(Debug, PartialEq, Eq)]
pub struct Error {
    /// What the error means.
    pub kind: ErrorKind,
    /// What went wrong, in words.
    pub message: String,
    /// What was being attempted, where that was recorded.
    pub context: Option<String>,
}

impl Clone for Error {
    fn clone(&self) -> (error: Error)
        ensures
            error@ == self@,
    {
        Error {
            kind: self.kind,
            message: self.message.clone(),
            context: match &self.context {
                Some(text) => Some(text.clone()),
                None => None,
            },
        }
    }
}

/// The mathematical content of an [`Error`].
pub struct ErrorView {
    pub kind: ErrorKind,
    pub message: Seq<char>,
    pub context: Option<Seq<char>>,
}

impl View for Error {
    type V = ErrorView;

    open spec fn view(&self) -> ErrorView {
        ErrorView {
            kind: self.kind,
            message: self.message@,
            context: match self.context {
                Some(text) => Some(text@),
                None => None,
            },
        }
    }
}

impl ErrorView {
    /// The error of the given kind and message to which no context has been added.
    pub open spec fn plain(kind: ErrorKind, message: Seq<char>) -> ErrorView {
        ErrorView { kind, message, context: None }
    }

    /// The same error, recorded as having come up while `text` was being attempted.
    pub open spec fn in_context(self, text: Seq<char>) -> ErrorView {
        ErrorView { context: Some(text), ..self }
    }
}

impl Error {
    /// An error of the given kind, described by `message`.
    pub fn with_message(kind: ErrorKind, message: &str) -> (error: Error)
        ensures
            error@ == ErrorView::plain(kind, message@),
    {
        Error { kind, message: message.to_owned(), context: None }
    }

    /// An error of the given kind whose message is `prefix` followed by `cause`.
    pub fn with_cause(kind: ErrorKind, prefix: &str, cause: &str) -> (error: Error)
        ensures
            error@ == ErrorView::plain(kind, prefix@ + cause@),
    {
        Error { kind, message: prefix.to_owned().concat(cause), context: None }
    }

    /// Records that the error came up while `text` was being attempted. A context that was
    /// recorded before is replaced.
    pub fn context(self, text: &str) -> (error: Error)
        ensures
            error@ == self@.in_context(text@),
    {
        Error { kind: self.kind, message: self.message, context: Some(text.to_owned()) }
    }
}

/// A new error has the kind and the message that it was given, and no context.
pub proof fn law_new_errors_say_what_they_were_given(kind: ErrorKind, message: &str, error: Error)
    requires
        call_ensures(Error::with_message, (kind, message), error),
    ensures
        error.kind == kind,
        error.message@ == message@,
        error.context is None,
{
}

/// The cause of an error stands at the end of its message, whole.
pub proof fn law_causes_are_named(kind: ErrorKind, prefix: &str, cause: &str, error: Error)
    requires
        call_ensures(Error::with_cause, (kind, prefix, cause), error),
    ensures
        error.kind == kind,
        error.message@.len() == prefix@.len() + cause@.len(),
        error.message@.take(prefix@.len() as int) == prefix@,
        error.message@.skip(prefix@.len() as int) == cause@,
        error.context is None,
{
    assert((prefix@ + cause@).take(prefix@.len() as int) =~= prefix@);
    assert((prefix@ + cause@).skip(prefix@.len() as int) =~= cause@);
}

/// Adding context to an error changes neither what it means nor its message. The context that was
/// added last is the one that it has.
pub proof fn law_context_adds_to_an_error(before: Error, text: &str, after: Error)
    requires
        call_ensures(Error::context, (before, text), after),
    ensures
        after.kind == before.kind,
        after.message@ == before.message@,
        after.context matches Some(context) && context@ == text@,
{
}

/// A clone of an error says the same as the error.
pub proof fn law_clones_say_the_same(error: Error, clone: Error)
    requires
        call_ensures(<Error as Clone>::clone, (&error,), clone),
    ensures
        clone.kind == error.kind,
        clone.message@ == error.message@,
        clone.context is Some <==> error.context is Some,
        clone.context is Some ==> clone.context->Some_0@ == error.context->Some_0@,
{
}

/// Errors are the same to their readers if and only if kind, message and context are.
pub proof fn law_errors_are_told_apart(one: Error, other: Error)
    ensures
        one@ == other@ <==> {
            &&& one.kind == other.kind
            &&& one.message@ == other.message@
            &&& one.context is Some <==> other.context is Some
            &&& one.context is Some ==> one.context->Some_0@ == other.context->Some_0@
        },
{
}

} // verus!
