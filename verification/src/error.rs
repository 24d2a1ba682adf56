//! The generation-time error domain. Every error is fatal to the generation
//! step: no partial artifact bundle is ever emitted.

use vstd::prelude::*;

verus! {

/// Spec-level image of a generation error.
pub enum GenErrorModel {
    /// An attribute or field marker whose shape is not the expected one;
    /// carries the offending name and the expected shape.
    MalformedAttribute(Seq<char>, Seq<char>),
    /// A required attribute that the definition lacks; carries its name.
    MissingAttribute(Seq<char>),
    /// A row whose width disagrees with the definition's field count;
    /// carries the definition's field count and the supplied row width.
    RowArityMismatch(int, int),
}

/// An error of the generation step.
#[derive(Debug, PartialEq)]
pub enum GenError {
    /// An attribute or field marker of an unexpected shape: the offending
    /// name, and the shape that was expected of it.
    MalformedAttribute { attribute: String, expected: String },
    /// A required attribute absent from the definition, by name.
    MissingAttribute { attribute: String },
    /// A supplied row whose width is not one more than the field count.
    RowArityMismatch { fields: usize, row_width: usize },
}

impl View for GenError {
    type V = GenErrorModel;

    open spec fn view(&self) -> GenErrorModel {
        match self {
            GenError::MalformedAttribute { attribute, expected } => GenErrorModel::MalformedAttribute(
                attribute@,
                expected@,
            ),
            GenError::MissingAttribute { attribute } => GenErrorModel::MissingAttribute(attribute@),
            GenError::RowArityMismatch { fields, row_width } => GenErrorModel::RowArityMismatch(
                *fields as int,
                *row_width as int,
            ),
        }
    }
}

} // verus!
