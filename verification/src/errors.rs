//! The errors that can occur when a cover tree is loading, working or saving.
//! Most errors are floated up from the point cloud, as that is the i/o layer.

use vstd::prelude::*;
use vstd::std_specs::convert::FromSpecImpl;
pub use crate::parsing::ParsingError;

verus! {

/// Helper type for a call that could go wrong. `S` is the error type of the
/// point cloud that the tree is built over.
pub type MalwareBrotResult<T, S> = Result<T, MalwareBrotError<S>>;

/// Error type for MalwareBrot. Mostly this is a wrapper around the error of the
/// point cloud, as the data i/o is where most errors happen.
///
/// `S` is the error type of the point cloud. An error of that type is only
/// carried: it is never inspected or altered.
#[derive(Debug)]
pub enum MalwareBrotError<S> {
    /// Unable to retrieve some data point (given by index) in a file (slice name)
    PointCloudError(S),
    /// Most common error, the given point name isn't present in the training data
    NameNotInTree(String),
    /// IO error when opening, reading or writing files
    IoError(std::io::Error),
    /// Parsing error when loading a file
    ParsingError(ParsingError),
    /// Inserted a nested node into a node that already had a nested child
    DoubleNest,
    /// Inserted a node before you changed it from a leaf node into a normal node. Insert the nested child first.
    InsertBeforeNest,
}

/// The error directly under a `MalwareBrotError`, handed out by reference and
/// with its type known, so that a caller can go on down the chain of causes.
#[derive(Debug)]
pub enum ErrorCause<'a, S> {
    /// The error of the point cloud that a `PointCloudError` wraps
    PointCloud(&'a S),
    /// The raw I/O error that an `IoError` wraps
    Io(&'a std::io::Error),
    /// The parsing error that a `ParsingError` wraps
    Parsing(&'a ParsingError),
}

impl<S> MalwareBrotError<S> {
    /// The message of this error. A `ParsingError` speaks with the message of
    /// the parsing error in it; every other variant has one fixed text, which
    /// leaves out the payload and the text of a wrapped error.
    pub open spec fn spec_description(&self) -> Seq<char> {
        match self {
            MalwareBrotError::PointCloudError(_) =>
                "there was an issue grabbing a data point from the point cloud"@,
            MalwareBrotError::NameNotInTree(_) =>
                "there was an issue grabbing a name from the known names"@,
            MalwareBrotError::IoError(_) => "there was an issue opening, reading or writing a file"@,
            MalwareBrotError::ParsingError(e) => e.spec_description(),
            MalwareBrotError::DoubleNest =>
                "Inserted a nested node into a node that already had a nested child"@,
            MalwareBrotError::InsertBeforeNest =>
                "Inserted a node into a node that does not have a nested child"@,
        }
    }

    /// Whether `other` is of the same variant as this error, whatever the two
    /// hold; two `ParsingError`s are so when the parsing errors in them are.
    pub open spec fn same_variant(&self, other: &MalwareBrotError<S>) -> bool {
        ||| self is PointCloudError && other is PointCloudError
        ||| self is NameNotInTree && other is NameNotInTree
        ||| self is IoError && other is IoError
        ||| self is ParsingError && other is ParsingError && self->ParsingError_0.same_variant(
            &other->ParsingError_0,
        )
        ||| self is DoubleNest && other is DoubleNest
        ||| self is InsertBeforeNest && other is InsertBeforeNest
    }

    /// The error directly under this one: the payload of the three variants
    /// that wrap an error, and nothing for the three that do not.
    pub open spec fn spec_cause(&self) -> Option<ErrorCause<'_, S>> {
        match self {
            MalwareBrotError::PointCloudError(e) => Some(ErrorCause::PointCloud(e)),
            MalwareBrotError::IoError(e) => Some(ErrorCause::Io(e)),
            MalwareBrotError::ParsingError(e) => Some(ErrorCause::Parsing(e)),
            _ => None,
        }
    }

    /// Whether this error wraps another one.
    pub open spec fn has_cause(&self) -> bool {
        self is PointCloudError || self is IoError || self is ParsingError
    }

    /// A short message that says what went wrong.
    pub fn description(&self) -> (text: &'static str)
        ensures
            text@ == self.spec_description(),
            text@.len() > 0,
    {
        proof {
            reveal_strlit("there was an issue grabbing a data point from the point cloud");
            reveal_strlit("there was an issue grabbing a name from the known names");
            reveal_strlit("there was an issue opening, reading or writing a file");
            reveal_strlit("Inserted a nested node into a node that already had a nested child");
            reveal_strlit("Inserted a node into a node that does not have a nested child");
        }
        match self {
            MalwareBrotError::PointCloudError(_) =>
                "there was an issue grabbing a data point from the point cloud",
            MalwareBrotError::NameNotInTree(_) =>
                "there was an issue grabbing a name from the known names",
            MalwareBrotError::IoError(_) => "there was an issue opening, reading or writing a file",
            MalwareBrotError::ParsingError(e) => e.description(),
            MalwareBrotError::DoubleNest =>
                "Inserted a nested node into a node that already had a nested child",
            MalwareBrotError::InsertBeforeNest =>
                "Inserted a node into a node that does not have a nested child",
        }
    }

    /// The message of `description`, as an owned string.
    pub fn to_string(&self) -> (text: String)
        ensures
            text@ == self.spec_description(),
            text@.len() > 0,
    {
        self.description().to_owned()
    }

    /// The error directly under this one, if it wraps one.
    pub fn cause(&self) -> (under: Option<ErrorCause<'_, S>>)
        ensures
            under == self.spec_cause(),
            under is Some <==> self.has_cause(),
    {
        match self {
            MalwareBrotError::PointCloudError(e) => Some(ErrorCause::PointCloud(e)),
            MalwareBrotError::IoError(e) => Some(ErrorCause::Io(e)),
            MalwareBrotError::ParsingError(e) => Some(ErrorCause::Parsing(e)),
            _ => None,
        }
    }

    /// An error of the point cloud, wrapped.
    pub open spec fn spec_from_point_cloud(err: S) -> Self {
        MalwareBrotError::PointCloudError(err)
    }

    /// Wraps an error of the point cloud. (A `From` impl for every `S` would
    /// collide with the ones below, so this conversion has a name.)
    pub fn from_point_cloud(err: S) -> (wrapped: Self)
        ensures
            wrapped == Self::spec_from_point_cloud(err),
    {
        MalwareBrotError::PointCloudError(err)
    }
}

impl<S> From<std::io::Error> for MalwareBrotError<S> {
    /// Wraps a raw I/O error, as it is.
    fn from(err: std::io::Error) -> (wrapped: Self)
        ensures
            wrapped == MalwareBrotError::<S>::IoError(err),
    {
        MalwareBrotError::IoError(err)
    }
}

impl<S> FromSpecImpl<std::io::Error> for MalwareBrotError<S> {
    open spec fn obeys_from_spec() -> bool {
        true
    }

    open spec fn from_spec(err: std::io::Error) -> Self {
        MalwareBrotError::IoError(err)
    }
}

impl<S> From<ParsingError> for MalwareBrotError<S> {
    /// Wraps a parsing error, as it is.
    fn from(err: ParsingError) -> (wrapped: Self)
        ensures
            wrapped == MalwareBrotError::<S>::ParsingError(err),
    {
        MalwareBrotError::ParsingError(err)
    }
}

impl<S> FromSpecImpl<ParsingError> for MalwareBrotError<S> {
    open spec fn obeys_from_spec() -> bool {
        true
    }

    open spec fn from_spec(err: ParsingError) -> Self {
        MalwareBrotError::ParsingError(err)
    }
}

impl<S> From<protobuf::ProtobufError> for MalwareBrotError<S> {
    /// Wraps a protobuf error twice: as a parsing error, and that as an error
    /// of the tree.
    fn from(err: protobuf::ProtobufError) -> (wrapped: Self)
        ensures
            wrapped == MalwareBrotError::<S>::ParsingError(ParsingError::ProtobufError(err)),
    {
        MalwareBrotError::ParsingError(ParsingError::ProtobufError(err))
    }
}

impl<S> FromSpecImpl<protobuf::ProtobufError> for MalwareBrotError<S> {
    open spec fn obeys_from_spec() -> bool {
        true
    }

    open spec fn from_spec(err: protobuf::ProtobufError) -> Self {
        MalwareBrotError::ParsingError(ParsingError::ProtobufError(err))
    }
}

} // verus!
