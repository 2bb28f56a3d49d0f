//! The error types of other libraries that the errors of this crate carry.
//!
//! Nothing is known of what such a value holds: it is taken in, kept as it is,
//! and handed out again.

use vstd::prelude::*;

verus! {

/// `std::io::Error`, the raw I/O error. Declared so that it can stand in a
/// variant and in a signature; nothing is assumed of its contents.
#[verifier::external_type_specification]
#[verifier::external_body]
pub struct ExIoError(std::io::Error);

/// `protobuf::ProtobufError`, the error of the protocol decoder. Declared so
/// that it can stand in a variant and in a signature; nothing is assumed of its
/// contents.
#[verifier::external_type_specification]
#[verifier::external_body]
pub struct ExProtobufError(protobuf::ProtobufError);

} // verus!
