//! The error type shared by every reader and writer of the library.

use vstd::prelude::*;

verus! {

/// An error produced while reading a MOC3 model or reading or writing a
/// CAFF-based project.
#[derive(Debug, Clone, PartialEq, Eq)]
pub enum Error {
    /// The input is not a supported or structurally valid MOC3 file.
    InvalidMoc3(String),
    /// The CMO3 project could not be encoded.
    InvalidCmo3(String),
    /// The CAN3 animation project is malformed.
    InvalidCan3(String),
    /// The CAFF archive is malformed.
    InvalidCaff(String),
    /// A JSON document could not be read.
    InvalidJson {
        /// The document kind, such as `cdi3.json`.
        format: String,
        /// What was wrong with it.
        message: String,
    },
    /// A JSON document declares a version that is not supported.
    UnsupportedVersion {
        /// The document kind.
        format: String,
        /// The declared version.
        version: u32,
    },
    /// A filesystem operation failed.
    Io {
        /// The path being accessed.
        path: String,
        /// What the operating system reported.
        message: String,
    },
}

/// Builds an [`Error::InvalidMoc3`] carrying `message`.
pub fn invalid_moc3(message: &str) -> (res: Error)
    ensures
        res is InvalidMoc3,
        res matches Error::InvalidMoc3(m) && m@ == message@,
{
    Error::InvalidMoc3(String::from_str(message))
}

/// Builds an [`Error::InvalidCaff`] carrying `message`.
pub fn invalid_caff(message: &str) -> (res: Error)
    ensures
        res is InvalidCaff,
        res matches Error::InvalidCaff(m) && m@ == message@,
{
    Error::InvalidCaff(String::from_str(message))
}

/// Builds an [`Error::InvalidCmo3`] carrying `message`.
pub fn invalid_cmo3(message: &str) -> (res: Error)
    ensures
        res is InvalidCmo3,
        res matches Error::InvalidCmo3(m) && m@ == message@,
{
    Error::InvalidCmo3(String::from_str(message))
}

/// Builds an [`Error::InvalidCan3`] carrying `message`.
pub fn invalid_can3(message: &str) -> (res: Error)
    ensures
        res is InvalidCan3,
        res matches Error::InvalidCan3(m) && m@ == message@,
{
    Error::InvalidCan3(String::from_str(message))
}

} // verus!

verus! {

/// Whether `res` failed with an [`Error::InvalidMoc3`].
pub open spec fn moc3_error<T>(res: Result<T, Error>) -> bool {
    res matches Err(e) && e is InvalidMoc3
}

/// Whether `res` failed with an [`Error::InvalidCaff`].
pub open spec fn caff_error<T>(res: Result<T, Error>) -> bool {
    res matches Err(e) && e is InvalidCaff
}

/// Whether `res` failed with an [`Error::InvalidCmo3`].
pub open spec fn cmo3_error<T>(res: Result<T, Error>) -> bool {
    res matches Err(e) && e is InvalidCmo3
}

/// Whether `res` failed with an [`Error::InvalidCan3`].
pub open spec fn can3_error<T>(res: Result<T, Error>) -> bool {
    res matches Err(e) && e is InvalidCan3
}

/// Whether `res` failed with an [`Error::UnsupportedVersion`] for `format`
/// and `version`.
pub open spec fn unsupported_version<T>(res: Result<T, Error>, format: Seq<char>, version: u32) -> bool {
    res matches Err(Error::UnsupportedVersion { format: f, version: v }) && f@ == format && v == version
}

/// Whether `res` failed with an [`Error::InvalidJson`] for `format`.
pub open spec fn invalid_json<T>(res: Result<T, Error>, format: Seq<char>) -> bool {
    res matches Err(Error::InvalidJson { format: f, .. }) && f@ == format
}

} // verus!
