use grandma::errors::{ErrorCause, MalwareBrotError, MalwareBrotResult, ParsingError};
use protobuf::error::WireError;
use protobuf::{CodedInputStream, ProtobufError};
use std::io;

/// A stand-in for the error of a point cloud.
#[derive(Debug, PartialEq)]
struct SliceMissing {
    index: usize,
    slice_name: String,
}

fn read_varint(bytes: &[u8]) -> MalwareBrotResult<u32, SliceMissing> {
    let mut input = CodedInputStream::from_bytes(bytes);
    let value = input.read_raw_varint32()?;
    Ok(value)
}

fn open_missing() -> MalwareBrotResult<u32, SliceMissing> {
    let failed: Result<u32, io::Error> =
        Err(io::Error::new(io::ErrorKind::PermissionDenied, "locked"));
    let value = failed?;
    Ok(value)
}

fn parse_number(text: &'static str) -> MalwareBrotResult<u32, SliceMissing> {
    let parsed: Result<u32, ParsingError> = match text.parse::<u32>() {
        Ok(value) => Ok(value),
        Err(_) => Err(ParsingError::RegularParsingError(text)),
    };
    let value = parsed?;
    Ok(value)
}

#[test]
fn cause_is_there_for_the_wrapping_variants_only() {
    let storage: MalwareBrotError<SliceMissing> = MalwareBrotError::PointCloudError(SliceMissing {
        index: 1,
        slice_name: String::from("a"),
    });
    assert!(storage.cause().is_some());
    let io_error: MalwareBrotError<SliceMissing> =
        MalwareBrotError::IoError(io::Error::new(io::ErrorKind::NotFound, "gone"));
    assert!(io_error.cause().is_some());
    let parsing: MalwareBrotError<SliceMissing> =
        MalwareBrotError::ParsingError(ParsingError::RegularParsingError("x"));
    assert!(parsing.cause().is_some());
    let name: MalwareBrotError<SliceMissing> = MalwareBrotError::NameNotInTree(String::from("p"));
    assert!(name.cause().is_none());
    let double: MalwareBrotError<SliceMissing> = MalwareBrotError::DoubleNest;
    assert!(double.cause().is_none());
    let before: MalwareBrotError<SliceMissing> = MalwareBrotError::InsertBeforeNest;
    assert!(before.cause().is_none());
}

#[test]
fn parsing_cause_is_there_for_the_protobuf_variant_only() {
    let decode = ParsingError::ProtobufError(ProtobufError::WireError(WireError::IncorrectVarint));
    assert!(decode.cause().is_some());
    let malformed = ParsingError::MalformedYamlError {
        file_name: String::from("f"),
        field: String::from("g"),
    };
    assert!(malformed.cause().is_none());
    let missing = ParsingError::MissingYamlError {
        file_name: String::from("f"),
        field: String::from("g"),
    };
    assert!(missing.cause().is_none());
    let csv = ParsingError::CSVReadError {
        file_name: String::from("f"),
        line_number: 0,
        key: String::from("k"),
    };
    assert!(csv.cause().is_none());
    assert!(ParsingError::RegularParsingError("x").cause().is_none());
}

#[test]
fn point_cloud_error_is_carried_as_it_is() {
    let err = MalwareBrotError::from_point_cloud(SliceMissing {
        index: 31,
        slice_name: String::from("block_3"),
    });
    match err.cause() {
        Some(ErrorCause::PointCloud(under)) => {
            assert_eq!(under, &SliceMissing { index: 31, slice_name: String::from("block_3") });
        }
        other => panic!("not a point cloud cause: {:?}", other),
    }
    match err {
        MalwareBrotError::PointCloudError(payload) => {
            assert_eq!(payload, SliceMissing { index: 31, slice_name: String::from("block_3") });
        }
        other => panic!("not a point cloud error: {:?}", other),
    }
}

#[test]
fn point_cloud_error_may_be_of_any_type() {
    let err = MalwareBrotError::from_point_cloud(404u32);
    match err.cause() {
        Some(ErrorCause::PointCloud(under)) => assert_eq!(*under, 404),
        other => panic!("not a point cloud cause: {:?}", other),
    }
}

#[test]
fn io_error_is_carried_as_it_is() {
    let raw = io::Error::new(io::ErrorKind::NotFound, "no such file");
    let err: MalwareBrotError<SliceMissing> = MalwareBrotError::from(raw);
    match err.cause() {
        Some(ErrorCause::Io(under)) => {
            assert_eq!(under.kind(), io::ErrorKind::NotFound);
            assert_eq!(under.to_string(), "no such file");
        }
        other => panic!("not an I/O cause: {:?}", other),
    }
    assert!(matches!(err, MalwareBrotError::IoError(_)));
}

#[test]
fn parsing_error_is_carried_as_it_is() {
    let err: MalwareBrotError<SliceMissing> =
        MalwareBrotError::from(ParsingError::RegularParsingError("twelve"));
    match err {
        MalwareBrotError::ParsingError(ParsingError::RegularParsingError(text)) => {
            assert_eq!(text, "twelve");
        }
        other => panic!("not the parsing error: {:?}", other),
    }
}

#[test]
fn protobuf_error_becomes_a_parsing_error_with_that_cause() {
    let decode = ProtobufError::WireError(WireError::IncorrectTag(9));
    let err: MalwareBrotError<SliceMissing> = MalwareBrotError::from(decode);
    match err.cause() {
        Some(ErrorCause::Parsing(parsing)) => match parsing.cause() {
            Some(ProtobufError::WireError(WireError::IncorrectTag(tag))) => assert_eq!(*tag, 9),
            other => panic!("not the protobuf error: {:?}", other),
        },
        other => panic!("not a parsing cause: {:?}", other),
    }
    match err {
        MalwareBrotError::ParsingError(ParsingError::ProtobufError(ProtobufError::WireError(
            WireError::IncorrectTag(tag),
        ))) => assert_eq!(tag, 9),
        other => panic!("not a wrapped protobuf error: {:?}", other),
    }
}

#[test]
fn message_not_initialized_keeps_its_message_name() {
    let decode = ProtobufError::MessageNotInitialized { message: "TreeProto" };
    let err: MalwareBrotError<SliceMissing> = decode.into();
    match err {
        MalwareBrotError::ParsingError(ParsingError::ProtobufError(
            ProtobufError::MessageNotInitialized { message },
        )) => assert_eq!(message, "TreeProto"),
        other => panic!("not a wrapped protobuf error: {:?}", other),
    }
}

#[test]
fn question_mark_wraps_a_decoder_failure() {
    assert_eq!(read_varint(&[0x05]).unwrap(), 5);
    match read_varint(&[0x80]) {
        Err(MalwareBrotError::ParsingError(ParsingError::ProtobufError(
            ProtobufError::WireError(_),
        ))) => {}
        other => panic!("not a wrapped wire error: {:?}", other),
    }
}

#[test]
fn question_mark_wraps_an_io_failure() {
    match open_missing() {
        Err(MalwareBrotError::IoError(under)) => {
            assert_eq!(under.kind(), io::ErrorKind::PermissionDenied);
            assert_eq!(under.to_string(), "locked");
        }
        other => panic!("not a wrapped I/O error: {:?}", other),
    }
}

#[test]
fn question_mark_wraps_a_parsing_failure() {
    assert_eq!(parse_number("12").unwrap(), 12);
    match parse_number("twelve") {
        Err(MalwareBrotError::ParsingError(ParsingError::RegularParsingError(text))) => {
            assert_eq!(text, "twelve");
        }
        other => panic!("not a wrapped parsing error: {:?}", other),
    }
}
