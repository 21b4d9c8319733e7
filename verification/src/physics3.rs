//! Cubism `physics3.json` documents, kept as JSON values.

use vstd::prelude::*;

use crate::displayinfo3::check_version;
use crate::error::{unsupported_version, Error};

verus! {

/// A JSON value of `serde_json`, carried through unread.
#[verifier::external_type_specification]
#[verifier::external_body]
pub struct ExJsonValue(serde_json::Value);

/// The abstract contents of a [`Physics3`].
pub struct Physics3View {
    pub version: u32,
    pub meta: serde_json::Value,
    pub settings: Seq<serde_json::Value>,
}

/// A parsed Cubism physics document.
#[derive(Debug)]
pub struct Physics3 {
    version: u32,
    meta: serde_json::Value,
    settings: Vec<serde_json::Value>,
}

impl View for Physics3 {
    type V = Physics3View;

    closed spec fn view(&self) -> Physics3View {
        Physics3View { version: self.version, meta: self.meta, settings: self.settings@ }
    }
}

impl Physics3 {
    /// Builds a physics document from the fields read from its JSON text;
    /// only version 3 is accepted.
    pub fn from_fields(version: u32, meta: serde_json::Value, settings: Vec<serde_json::Value>) -> (res: Result<
        Physics3,
        Error,
    >)
        ensures
            version == 3 ==> (res matches Ok(p) && p@ == (Physics3View { version: 3, meta, settings: settings@ })),
            version != 3 ==> unsupported_version(res, "physics3.json"@, version),
    {
        check_version("physics3.json", version)?;
        Ok(Physics3 { version, meta, settings })
    }

    /// Returns the physics format version.
    pub fn version(&self) -> (res: u32)
        ensures
            res == self@.version,
    {
        self.version
    }

    /// Returns the metadata object from the source document.
    pub fn meta(&self) -> (res: &serde_json::Value)
        ensures
            *res == self@.meta,
    {
        &self.meta
    }

    /// Returns physics settings as JSON values, preserving all source fields.
    pub fn settings(&self) -> (res: &[serde_json::Value])
        ensures
            res@ == self@.settings,
    {
        self.settings.as_slice()
    }
}

} // verus!
