use vstd::prelude::*;

verus! {

/// std's `io::Error`, carried through opaquely.
#[verifier::external_type_specification]
#[verifier::external_body]
pub struct ExIoError(std::io::Error);

/// Errors of the storage layer.
pub enum RTStoreError {
    TableNotFoundError { tname: String },
    FSInvalidFileError { path: String },
    FSIoError(std::io::Error),
}

/// Relies on std's `From<ErrorKind> for io::Error`: an error of kind `Other`
/// with no further payload.
#[verifier::external_body]
fn other_io_error() -> (r: std::io::Error) {
    std::io::Error::from(std::io::ErrorKind::Other)
}

impl From<std::io::Error> for RTStoreError {
    fn from(error: std::io::Error) -> (r: RTStoreError) {
        RTStoreError::FSIoError(error)
    }
}

impl vstd::std_specs::convert::FromSpecImpl<std::io::Error> for RTStoreError {
    open spec fn obeys_from_spec() -> bool {
        true
    }

    open spec fn from_spec(v: std::io::Error) -> RTStoreError {
        RTStoreError::FSIoError(v)
    }
}

impl RTStoreError {
    /// The I/O error this error wraps, or an error of kind `Other` for the
    /// variants that wrap none.
    pub fn into_io_error(self) -> (r: std::io::Error)
        ensures
            self is FSIoError ==> r == self->FSIoError_0,
    {
        match self {
            RTStoreError::FSIoError(e) => e,
            _ => other_io_error(),
        }
    }
}

} // verus!
