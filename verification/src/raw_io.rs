//! The way out of this crate's error type, for a caller that only understands
//! raw I/O errors.
//!
//! An `IoError` goes out as the I/O error it wraps. Any other error has to
//! travel inside an I/O error of the kind "other", as its payload, so that
//! nothing is lost in the narrower channel. Building that I/O error needs the
//! payload to be a `std::error::Error`, which is the business of the code
//! around this crate; what is decided here is which of the two it is, and what
//! the payload is.

use vstd::prelude::*;
use crate::errors::MalwareBrotError;

verus! {

/// A `MalwareBrotError` on its way into the raw I/O channel.
#[derive(Debug)]
pub enum RawIoError<S> {
    /// The I/O error that an `IoError` wrapped, as it was
    Unwrapped(std::io::Error),
    /// An error that is not an I/O error: the payload of an I/O error of the
    /// kind "other"
    Other(MalwareBrotError<S>),
}

impl<S> MalwareBrotError<S> {
    /// What becomes of this error in the raw I/O channel: an `IoError` is
    /// unwrapped, every other error is the payload of an "other" I/O error.
    pub open spec fn spec_into_raw_io(self) -> RawIoError<S> {
        match self {
            MalwareBrotError::IoError(e) => RawIoError::Unwrapped(e),
            _ => RawIoError::Other(self),
        }
    }

    /// Turns this error into its raw I/O form.
    pub fn into_raw_io(self) -> (raw: RawIoError<S>)
        ensures
            raw == self.spec_into_raw_io(),
            raw.wf(),
    {
        match self {
            MalwareBrotError::IoError(e) => RawIoError::Unwrapped(e),
            e => RawIoError::Other(e),
        }
    }
}

impl<S> RawIoError<S> {
    /// A raw I/O form is well formed when its payload is not an `IoError`: such
    /// an error is never wrapped, it goes out as `Unwrapped`.
    pub open spec fn wf(&self) -> bool {
        match self {
            RawIoError::Unwrapped(_) => true,
            RawIoError::Other(e) => !(e is IoError),
        }
    }

    /// The error that this raw I/O form came from.
    pub open spec fn spec_into_error(self) -> MalwareBrotError<S> {
        match self {
            RawIoError::Unwrapped(e) => MalwareBrotError::IoError(e),
            RawIoError::Other(e) => e,
        }
    }

    /// The payload of an "other" I/O error; nothing for an unwrapped one.
    pub open spec fn spec_cause(&self) -> Option<&MalwareBrotError<S>> {
        match self {
            RawIoError::Unwrapped(_) => None,
            RawIoError::Other(e) => Some(e),
        }
    }

    /// The error wrapped in this raw I/O form, if it is a wrapping one.
    pub fn cause(&self) -> (under: Option<&MalwareBrotError<S>>)
        ensures
            under == self.spec_cause(),
    {
        match self {
            RawIoError::Unwrapped(_) => None,
            RawIoError::Other(e) => Some(e),
        }
    }

    /// Comes back from the raw I/O channel: an unwrapped I/O error is wrapped as
    /// an `IoError`, a payload is taken out.
    pub fn into_error(self) -> (err: MalwareBrotError<S>)
        ensures
            err == self.spec_into_error(),
    {
        match self {
            RawIoError::Unwrapped(e) => MalwareBrotError::IoError(e),
            RawIoError::Other(e) => e,
        }
    }
}

} // verus!
