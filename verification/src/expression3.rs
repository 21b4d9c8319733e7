//! Cubism expression documents (`exp3.json`).

use vstd::prelude::*;

use crate::error::{invalid_json, Error};

verus! {

/// How an expression value is combined with the current parameter value.
#[derive(Debug, Copy, Clone, PartialEq, Eq, Structural)]
pub enum ExpressionParameterBlend {
    /// Adds the expression value.
    Add,
    /// Multiplies the current value.
    Multiply,
    /// Replaces the current value.
    Overwrite,
}

/// Checks the `Type` field of an expression document, which must be
/// `Live2D Expression`.
pub fn check_expression_type(expression_type: &str) -> (res: Result<(), Error>)
    ensures
        res is Ok <==> expression_type@ == "Live2D Expression"@,
        res is Err ==> invalid_json(res, "exp3.json"@),
{
    let expected = String::from_str("Live2D Expression");
    let given = String::from_str(expression_type);
    if given == expected {
        Ok(())
    } else {
        Err(Error::InvalidJson {
            format: String::from_str("exp3.json"),
            message: String::from_str("unexpected expression type"),
        })
    }
}

/// One parameter override in an expression; its value is a float bit
/// pattern.
#[derive(Debug, Clone)]
pub struct ExpressionParameter {
    /// Target parameter identifier.
    pub id: String,
    /// Bit pattern of the expression value.
    pub value_bits: u32,
    /// Value blend mode.
    pub blend: ExpressionParameterBlend,
}

/// A parsed Cubism expression file.
#[derive(Debug, Clone)]
pub struct Expression3 {
    parameters: Vec<ExpressionParameter>,
}

impl Expression3 {
    /// Builds an expression from the fields read from its JSON text; the
    /// type must be `Live2D Expression`.
    pub fn from_fields(expression_type: &str, parameters: Vec<ExpressionParameter>) -> (res: Result<Expression3, Error>)
        ensures
            expression_type@ == "Live2D Expression"@ ==> (res matches Ok(e) && e.parameters_spec() == parameters@),
            expression_type@ != "Live2D Expression"@ ==> invalid_json(res, "exp3.json"@),
    {
        check_expression_type(expression_type)?;
        Ok(Expression3 { parameters })
    }

    /// The parameter overrides.
    pub closed spec fn parameters_spec(&self) -> Seq<ExpressionParameter> {
        self.parameters@
    }

    /// Returns all parameter overrides.
    pub fn parameters(&self) -> (res: &[ExpressionParameter])
        ensures
            res@ == self.parameters_spec(),
    {
        self.parameters.as_slice()
    }
}

} // verus!
