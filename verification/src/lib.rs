//! A resource-definition compiler: from a declarative description of a data
//! record (typed fields, each optionally marked nullable or foreign-key, plus
//! a table identifier and a schema reference) it derives a consistent bundle
//! of generated artifacts — a base data model, an identifier-augmented model,
//! a row-to-struct decoding rule, and a CRUD access-controller surface.
//!
//! The pipeline is a single pure pass: raw tokens are parsed into a resource
//! definition, fields are classified into base and augmenting subsets, the
//! derived names are computed, four artifact builders describe the generated
//! items, and the emitter renders them as one generated-code bundle.

pub mod builder;
pub mod classify;
pub mod def;
pub mod emit;
pub mod error;
pub mod laws;
pub mod model;
mod names;
pub mod parse;
pub mod queryable;
pub mod raw;
pub mod uuid;
