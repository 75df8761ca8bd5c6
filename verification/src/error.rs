use vstd::prelude::*;

verus! {

/// Why an identifier could not be taken from its textual description.
#[derive(Clone, Copy, Debug, PartialEq, Eq, Structural)]
pub enum IdentifierError {
    /// The description names no `iid` value at all.
    MissingIdentifier,
    /// The `iid` value is there, but it is not a string.
    ValueNotAString,
    /// The `iid` string is not of the form `8-4-4-4-12` in hexadecimal digits.
    MalformedIdentifier,
}

impl IdentifierError {
    /// The text shown to the person whose declaration was rejected.
    pub fn message(&self) -> (text: &'static str)
        ensures
            text@ == self.message_text(),
    {
        match self {
            IdentifierError::MissingIdentifier => "No IID parameter",
            IdentifierError::ValueNotAString => "value_not_a_string",
            IdentifierError::MalformedIdentifier => "GUID format '8-4-4-4-12' expected. eg.: '00112233-4455-6677-8899-aabbccddeeff'",
        }
    }

    pub open spec fn message_text(&self) -> Seq<char> {
        match self {
            IdentifierError::MissingIdentifier => "No IID parameter"@,
            IdentifierError::ValueNotAString => "value_not_a_string"@,
            IdentifierError::MalformedIdentifier => "GUID format '8-4-4-4-12' expected. eg.: '00112233-4455-6677-8899-aabbccddeeff'"@,
        }
    }
}

} // verus!
