//! Cubism display-info documents (`cdi3.json`): editor names of parameters,
//! parameter groups and parts.

use vstd::prelude::*;

use crate::error::{unsupported_version, Error};

verus! {

/// A named parameter shown by the Cubism editor.
#[derive(Debug, Clone)]
pub struct DisplayInfo3Parameter {
    /// Parameter identifier.
    pub id: String,
    /// Optional parameter group identifier.
    pub group_id: String,
    /// Human-readable parameter name.
    pub name: String,
}

/// A named parameter group shown by the Cubism editor.
#[derive(Debug, Clone)]
pub struct DisplayInfo3ParameterGroup {
    /// Group identifier.
    pub id: String,
    /// Parent group identifier, when present.
    pub group_id: String,
    /// Human-readable group name.
    pub name: String,
}

/// A named part shown by the Cubism editor.
#[derive(Debug, Clone)]
pub struct DisplayInfo3Part {
    /// Part identifier.
    pub id: String,
    /// Human-readable part name.
    pub name: String,
}

/// The document kind named in errors, `cdi3.json`.
pub open spec fn display_info_format() -> Seq<char> {
    "cdi3.json"@
}

/// Checks the declared version of a Cubism JSON document: only version 3
/// is supported.
pub fn check_version(format: &str, version: u32) -> (res: Result<(), Error>)
    ensures
        version == 3 ==> res is Ok,
        version != 3 ==> unsupported_version(res, format@, version),
{
    if version != 3 {
        return Err(Error::UnsupportedVersion { format: String::from_str(format), version });
    }
    Ok(())
}

/// The abstract contents of a [`DisplayInfo3`].
pub struct DisplayInfo3View {
    pub version: u32,
    pub parameters: Seq<DisplayInfo3Parameter>,
    pub parameter_groups: Seq<DisplayInfo3ParameterGroup>,
    pub parts: Seq<DisplayInfo3Part>,
}

/// A parsed Cubism display-info document.
#[derive(Debug, Clone)]
pub struct DisplayInfo3 {
    version: u32,
    parameters: Vec<DisplayInfo3Parameter>,
    parameter_groups: Vec<DisplayInfo3ParameterGroup>,
    parts: Vec<DisplayInfo3Part>,
}

impl View for DisplayInfo3 {
    type V = DisplayInfo3View;

    closed spec fn view(&self) -> DisplayInfo3View {
        DisplayInfo3View {
            version: self.version,
            parameters: self.parameters@,
            parameter_groups: self.parameter_groups@,
            parts: self.parts@,
        }
    }
}

impl DisplayInfo3 {
    /// Builds a document from the fields read from its JSON text; only
    /// version 3 is accepted.
    pub fn from_fields(
        version: u32,
        parameters: Vec<DisplayInfo3Parameter>,
        parameter_groups: Vec<DisplayInfo3ParameterGroup>,
        parts: Vec<DisplayInfo3Part>,
    ) -> (res: Result<DisplayInfo3, Error>)
        ensures
            version == 3 ==> (res matches Ok(d) && d@ == (DisplayInfo3View {
                version: 3,
                parameters: parameters@,
                parameter_groups: parameter_groups@,
                parts: parts@,
            })),
            version != 3 ==> unsupported_version(res, display_info_format(), version),
    {
        check_version("cdi3.json", version)?;
        Ok(DisplayInfo3 { version, parameters, parameter_groups, parts })
    }

    /// Returns the display-info format version.
    pub fn version(&self) -> (res: u32)
        ensures
            res == self@.version,
    {
        self.version
    }

    /// Returns named parameters.
    pub fn parameters(&self) -> (res: &[DisplayInfo3Parameter])
        ensures
            res@ == self@.parameters,
    {
        self.parameters.as_slice()
    }

    /// Returns named parameter groups.
    pub fn parameter_groups(&self) -> (res: &[DisplayInfo3ParameterGroup])
        ensures
            res@ == self@.parameter_groups,
    {
        self.parameter_groups.as_slice()
    }

    /// Returns named parts.
    pub fn parts(&self) -> (res: &[DisplayInfo3Part])
        ensures
            res@ == self@.parts,
    {
        self.parts.as_slice()
    }
}

} // verus!
