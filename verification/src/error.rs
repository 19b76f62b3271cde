//! What can go wrong while bindings are generated.

use vstd::prelude::*;
use vstd::string::*;

verus! {

/// A declaration that the generator does not recognise, or a source text that
/// is no declaration file at all.
#[derive(Debug, PartialEq, Eq)]
pub enum Unrecognized {
    /// A field whose type has none of the recognised shapes.
    FieldType,
    /// A function argument of an unrecognised shape.
    FnArg,
    /// A generic type of an unrecognised shape.
    Generic,
    /// An interface declaration of an unrecognised shape.
    Interface,
    /// The source text could not be parsed; the message says why.
    Parse(String),
}

impl Unrecognized {
    /// The message of this error, as text.
    pub open spec fn message(self) -> Seq<char> {
        match self {
            Unrecognized::FieldType => "Unrecognized Field Type"@,
            Unrecognized::FnArg => "Unrecognized Function Argument"@,
            Unrecognized::Generic => "Unrecognized Generic Type"@,
            Unrecognized::Interface => "Unrecognized Interface Declaration"@,
            Unrecognized::Parse(_) => "Failed to Parse Bindings"@,
        }
    }

    /// The message of this error.
    pub fn to_string(&self) -> (r: String)
        ensures
            r@ == self.message(),
    {
        match self {
            Unrecognized::FieldType => String::from_str("Unrecognized Field Type"),
            Unrecognized::FnArg => String::from_str("Unrecognized Function Argument"),
            Unrecognized::Generic => String::from_str("Unrecognized Generic Type"),
            Unrecognized::Interface => String::from_str("Unrecognized Interface Declaration"),
            Unrecognized::Parse(_) => String::from_str("Failed to Parse Bindings"),
        }
    }
}

} // verus!
