//! What is known of a panic inside a request's pipeline.

use vstd::prelude::*;

verus! {

/// tokio's error for a task that did not run to completion, carried as an
/// opaque value.
#[verifier::external_type_specification]
#[verifier::external_body]
pub struct ExJoinError(tokio::task::JoinError);

/// The text that tokio's `Display` gives a task error. It depends on the
/// error value alone: the task's id and, for a panic, its payload.
pub uninterp spec fn join_text(error: tokio::task::JoinError) -> Seq<char>;

/// Relies on `Display` of `tokio::task::JoinError`: the text that tokio gives
/// a task that panicked or was cancelled.
#[verifier::external_body]
fn join_error_text(error: &tokio::task::JoinError) -> (r: String)
    ensures
        r@ == join_text(*error),
{
    error.to_string()
}

/// Data captured from a panic: its message and, where known, its location.
#[derive(Clone, Debug)]
pub struct PanicData {
    message: String,
    location: Option<String>,
}

impl PanicData {
    /// The panic message.
    pub closed spec fn message_text(&self) -> Seq<char> {
        self.message@
    }

    /// The location (`file:line`), where known.
    pub closed spec fn location_text(&self) -> Option<Seq<char>> {
        match self.location {
            Some(l) => Some(l@),
            None => None,
        }
    }

    /// The text that describes the panic: `Panic: <message>`, followed by
    /// ` at <location>` where the location is known.
    pub open spec fn text(&self) -> Seq<char> {
        match self.location_text() {
            Some(l) => "Panic: "@ + self.message_text() + " at "@ + l,
            None => "Panic: "@ + self.message_text(),
        }
    }

    /// Panic data with the given message and no location.
    pub fn from_message(message: &str) -> (r: PanicData)
        ensures
            r.message_text() == message@,
            r.location_text() is None,
    {
        PanicData { message: message.to_owned(), location: None }
    }

    /// Panic data from a task that did not run to completion, with tokio's
    /// text for it as the message and no location.
    pub fn from_join_error(error: tokio::task::JoinError) -> (r: PanicData)
        ensures
            r.message_text() == join_text(error),
            r.location_text() is None,
    {
        PanicData { message: join_error_text(&error), location: None }
    }

    /// The panic message.
    pub fn get_message(&self) -> (r: &String)
        ensures
            r@ == self.message_text(),
    {
        &self.message
    }

    /// The location of the panic, where known.
    pub fn get_location(&self) -> (r: Option<&String>)
        ensures
            r is Some <==> self.location_text() is Some,
            r matches Some(l) ==> self.location_text() == Some(l@),
    {
        match &self.location {
            Some(l) => Some(l),
            None => None,
        }
    }

    /// Records where the panic happened.
    pub fn set_location(&mut self, location: &str)
        ensures
            final(self).location_text() == Some(location@),
            final(self).message_text() == old(self).message_text(),
    {
        self.location = Some(location.to_owned());
    }

    /// Describes the panic in words, for an error handler.
    pub fn describe(&self) -> (r: String)
        ensures
            r@ == self.text(),
    {
        let mut r = String::from_str("Panic: ");
        r.append(self.message.as_str());
        match &self.location {
            Some(l) => {
                r.append(" at ");
                r.append(l.as_str());
            },
            None => {},
        }
        r
    }
}

impl Default for PanicData {
    /// An empty message and no location.
    fn default() -> (r: PanicData)
        ensures
            r.message_text() == Seq::<char>::empty(),
            r.location_text() is None,
    {
        PanicData { message: String::new(), location: None }
    }
}

} // verus!
