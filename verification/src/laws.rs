//! What holds of the errors of this crate whatever their payload is.

use vstd::prelude::*;
use vstd::std_specs::convert::FromSpec;
use crate::errors::{ErrorCause, MalwareBrotError};
use crate::parsing::ParsingError;
use crate::raw_io::RawIoError;

verus! {

/// Every parsing error has a message, and the message is not empty.
pub proof fn lemma_parsing_description_nonempty(err: ParsingError)
    ensures
        err.spec_description().len() > 0,
{
    reveal_strlit("there is a error reading a yaml entry");
    reveal_strlit("not all message fields set");
    reveal_strlit("issue decoding a protobuf message");
    reveal_strlit("issue reading a CSV entry");
    reveal_strlit("Error parsing a string");
}

/// Every error has a message, and the message is not empty, whether or not the
/// error wraps another one.
pub proof fn lemma_description_nonempty<S>(err: MalwareBrotError<S>)
    ensures
        err.spec_description().len() > 0,
{
    reveal_strlit("there was an issue grabbing a data point from the point cloud");
    reveal_strlit("there was an issue grabbing a name from the known names");
    reveal_strlit("there was an issue opening, reading or writing a file");
    reveal_strlit("Inserted a nested node into a node that already had a nested child");
    reveal_strlit("Inserted a node into a node that does not have a nested child");
    if let MalwareBrotError::ParsingError(inner) = err {
        lemma_parsing_description_nonempty(inner);
    }
}

/// The message of a parsing error is that of its variant: what the error holds
/// is no part of it.
pub proof fn lemma_parsing_description_ignores_payload(first: ParsingError, second: ParsingError)
    requires
        first.same_variant(&second),
    ensures
        first.spec_description() == second.spec_description(),
{
}

/// The message of an error is that of its variant: neither the payload nor the
/// text of a wrapped error is part of it.
pub proof fn lemma_description_ignores_payload<S>(
    first: MalwareBrotError<S>,
    second: MalwareBrotError<S>,
)
    requires
        first.same_variant(&second),
    ensures
        first.spec_description() == second.spec_description(),
{
}

/// The message of an error that wraps a parsing error is the message of that
/// parsing error.
pub proof fn lemma_description_of_wrapped_parsing_error<S>(inner: ParsingError)
    ensures
        MalwareBrotError::<S>::ParsingError(inner).spec_description() == inner.spec_description(),
{
}

/// A parsing error has an error under it exactly when it is a
/// `ProtobufError`, and that error is then its payload.
pub proof fn lemma_parsing_cause(err: ParsingError)
    ensures
        err.spec_cause() is Some <==> err is ProtobufError,
        err matches ParsingError::ProtobufError(inner) ==> err.spec_cause() == Some(&inner),
{
}

/// An error has an error under it exactly when it is a `PointCloudError`, an
/// `IoError` or a `ParsingError`, and that error is then its payload.
pub proof fn lemma_cause<S>(err: MalwareBrotError<S>)
    ensures
        err.spec_cause() is Some <==> err is PointCloudError || err is IoError
            || err is ParsingError,
        err matches MalwareBrotError::PointCloudError(inner) ==> err.spec_cause() == Some(
            ErrorCause::<S>::PointCloud(&inner),
        ),
        err matches MalwareBrotError::IoError(inner) ==> err.spec_cause() == Some(
            ErrorCause::<S>::Io(&inner),
        ),
        err matches MalwareBrotError::ParsingError(inner) ==> err.spec_cause() == Some(
            ErrorCause::<S>::Parsing(&inner),
        ),
{
}

/// A raw I/O error that is converted into an error of this crate and then back
/// into the raw I/O channel comes out as it went in: nothing is wrapped round
/// it.
pub proof fn lemma_io_error_round_trip<S>(raw: std::io::Error)
    ensures
        MalwareBrotError::<S>::from_spec(raw) == MalwareBrotError::<S>::IoError(raw),
        MalwareBrotError::<S>::from_spec(raw).spec_into_raw_io() == RawIoError::<S>::Unwrapped(raw),
{
}

/// An error that is not an `IoError` goes into the raw I/O channel as the
/// payload of an "other" I/O error, and unwrapping that payload gives the
/// error back, variant and payload.
pub proof fn lemma_other_keeps_error<S>(err: MalwareBrotError<S>)
    requires
        !(err is IoError),
    ensures
        err.spec_into_raw_io() == RawIoError::Other(err),
        err.spec_into_raw_io().spec_cause() == Some(&err),
        err.spec_into_raw_io().spec_into_error() == err,
{
}

/// No error is lost in the raw I/O channel: coming back from it gives the
/// error that went in, and what went in is well formed.
pub proof fn lemma_raw_io_round_trip<S>(err: MalwareBrotError<S>)
    ensures
        err.spec_into_raw_io().wf(),
        err.spec_into_raw_io().spec_into_error() == err,
{
}

/// A well-formed raw I/O form that is turned into an error and back is
/// unchanged.
pub proof fn lemma_error_round_trip<S>(raw: RawIoError<S>)
    requires
        raw.wf(),
    ensures
        raw.spec_into_error().spec_into_raw_io() == raw,
{
}

/// An error of the point cloud that is wrapped is a `PointCloudError`, and the
/// error under it is that very error.
pub proof fn lemma_point_cloud_error_is_cause<S>(err: S)
    ensures
        MalwareBrotError::spec_from_point_cloud(err) == MalwareBrotError::PointCloudError(err),
        MalwareBrotError::spec_from_point_cloud(err).spec_cause() == Some(
            ErrorCause::PointCloud(&err),
        ),
{
}

/// A protobuf error that is converted into an error of this crate is a
/// `ParsingError` that holds a `ProtobufError`, and the error at the bottom of
/// its chain of causes is that very protobuf error.
pub proof fn lemma_protobuf_error_is_cause<S>(err: protobuf::ProtobufError)
    ensures
        MalwareBrotError::<S>::from_spec(err) == MalwareBrotError::<S>::ParsingError(
            ParsingError::ProtobufError(err),
        ),
        MalwareBrotError::<S>::from_spec(err).spec_cause() == Some(
            ErrorCause::<S>::Parsing(&ParsingError::ProtobufError(err)),
        ),
        ParsingError::ProtobufError(err).spec_cause() == Some(&err),
{
}

} // verus!
