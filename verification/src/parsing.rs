//! Failures of decoding the content of a file.

use vstd::prelude::*;

verus! {

/// A parsing error occurred while decoding text or a binary message.
#[derive(Debug)]
pub enum ParsingError {
    /// A value of a yaml file did not parse as expected.
    MalformedYamlError {
        /// The file that holds the value
        file_name: String,
        /// The field whose value is malformed
        field: String,
    },
    /// A needed field was missing from a yaml file.
    MissingYamlError {
        /// The file
        file_name: String,
        /// The missing field
        field: String,
    },
    /// A protobuf message failed to decode.
    ProtobufError(protobuf::ProtobufError),
    /// An entry of a CSV file did not parse.
    CSVReadError {
        /// The file that the error occurred in
        file_name: String,
        /// The line that holds the entry
        line_number: usize,
        /// The name of the column that holds the entry
        key: String,
    },
    /// Something else happened parsing a string
    RegularParsingError(&'static str),
}

impl ParsingError {
    /// The message of this error: one fixed text for each variant. The payload
    /// is not part of it, nor is the text of a wrapped error.
    pub open spec fn spec_description(&self) -> Seq<char> {
        match self {
            ParsingError::MalformedYamlError { .. } => "there is a error reading a yaml entry"@,
            ParsingError::MissingYamlError { .. } => "not all message fields set"@,
            ParsingError::ProtobufError(_) => "issue decoding a protobuf message"@,
            ParsingError::CSVReadError { .. } => "issue reading a CSV entry"@,
            ParsingError::RegularParsingError(_) => "Error parsing a string"@,
        }
    }

    /// Whether `other` is of the same variant as this error, whatever the two
    /// hold.
    pub open spec fn same_variant(&self, other: &ParsingError) -> bool {
        ||| self is MalformedYamlError && other is MalformedYamlError
        ||| self is MissingYamlError && other is MissingYamlError
        ||| self is ProtobufError && other is ProtobufError
        ||| self is CSVReadError && other is CSVReadError
        ||| self is RegularParsingError && other is RegularParsingError
    }

    /// The error under this one: the protobuf error of a `ProtobufError`, and
    /// nothing for the other variants, which are leaves.
    pub open spec fn spec_cause(&self) -> Option<&protobuf::ProtobufError> {
        match self {
            ParsingError::ProtobufError(e) => Some(e),
            _ => None,
        }
    }

    /// A short message that says what went wrong.
    pub fn description(&self) -> (text: &'static str)
        ensures
            text@ == self.spec_description(),
            text@.len() > 0,
    {
        proof {
            reveal_strlit("there is a error reading a yaml entry");
            reveal_strlit("not all message fields set");
            reveal_strlit("issue decoding a protobuf message");
            reveal_strlit("issue reading a CSV entry");
            reveal_strlit("Error parsing a string");
        }
        match self {
            ParsingError::MalformedYamlError { .. } => "there is a error reading a yaml entry",
            ParsingError::MissingYamlError { .. } => "not all message fields set",
            ParsingError::ProtobufError(_) => "issue decoding a protobuf message",
            ParsingError::CSVReadError { .. } => "issue reading a CSV entry",
            ParsingError::RegularParsingError(_) => "Error parsing a string",
        }
    }

    /// The message of `description`, as an owned string.
    pub fn to_string(&self) -> (text: String)
        ensures
            text@ == self.spec_description(),
            text@.len() > 0,
    {
        self.description().to_owned()
    }

    /// The protobuf error that a `ProtobufError` wraps; `None` for the other
    /// variants, which have no error under them.
    pub fn cause(&self) -> (under: Option<&protobuf::ProtobufError>)
        ensures
            under == self.spec_cause(),
            under is Some <==> self is ProtobufError,
    {
        match self {
            ParsingError::ProtobufError(e) => Some(e),
            _ => None,
        }
    }
}

} // verus!
