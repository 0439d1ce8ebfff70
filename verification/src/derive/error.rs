//! The errors the derive and export macros report, with their messages.

use vstd::prelude::*;
use vstd::string::StringExecFns;

verus! {

/// An error of the derive macros: the message shown to the user. (Where the
/// macros point in the source is not part of this model.)
#[derive(Debug)]
pub struct OCamlInteropError {
    pub message: String,
}

impl View for OCamlInteropError {
    type V = Seq<char>;

    open spec fn view(&self) -> Seq<char> {
        self.message@
    }
}

/// The message of an error about the attribute `name`, where one is named.
pub open spec fn attribute_message(name: Option<Seq<char>>, message: Seq<char>) -> Seq<char> {
    match name {
        Some(n) => "Attribute '"@ + n + "': "@ + message,
        None => message,
    }
}

/// The message of a validation error, after its context where there is one.
pub open spec fn validation_message(message: Seq<char>, context: Option<Seq<char>>) -> Seq<char> {
    match context {
        Some(c) => c + ": "@ + message,
        None => message,
    }
}

impl OCamlInteropError {
    /// An error with the given message.
    pub fn new(message: String) -> (e: Self)
        ensures
            e@ == message@,
    {
        OCamlInteropError { message }
    }

    /// An error with the given message, about a given item.
    pub fn new_spanned(message: String) -> (e: Self)
        ensures
            e@ == message@,
    {
        Self::new(message)
    }

    /// An error about a type.
    pub fn type_error_spanned(message: String) -> (e: Self)
        ensures
            e@ == message@,
    {
        Self::new_spanned(message)
    }

    /// An error about an attribute: `Attribute '<name>': <message>`, or the
    /// message alone when no attribute is named.
    pub fn attribute_error_spanned(name: Option<String>, message: String) -> (e: Self)
        ensures
            e@ == attribute_message(
                match name {
                    Some(n) => Some(n@),
                    None => None,
                },
                message@,
            ),
    {
        match name {
            Some(n) => {
                let mut m = String::from_str("Attribute '");
                m.append(n.as_str());
                m.append("': ");
                m.append(message.as_str());
                Self::new_spanned(m)
            },
            None => Self::new_spanned(message),
        }
    }

    /// A validation error: `<context>: <message>`, or the message alone
    /// without a context.
    pub fn validation_error(message: String, context: Option<String>) -> (e: Self)
        ensures
            e@ == validation_message(
                message@,
                match context {
                    Some(c) => Some(c@),
                    None => None,
                },
            ),
    {
        match context {
            Some(c) => {
                let mut m = c;
                m.append(": ");
                m.append(message.as_str());
                Self::new(m)
            },
            None => Self::new(message),
        }
    }

    /// A validation error about a given item.
    pub fn validation_error_spanned(message: String, context: Option<String>) -> (e: Self)
        ensures
            e@ == validation_message(
                message@,
                match context {
                    Some(c) => Some(c@),
                    None => None,
                },
            ),
    {
        Self::validation_error(message, context)
    }

    /// The message shown to the user.
    pub fn to_string(&self) -> (s: String)
        ensures
            s@ == self@,
    {
        self.message.clone()
    }
}

} // verus!
