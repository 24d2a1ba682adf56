//! The parsed resource definition: its fields, its attributes, and the
//! derived identifiers that name the generated artifacts.

use vstd::prelude::*;
use vstd::string::*;
use crate::names::{append, snake_case_str, snake_of};

verus! {

/// Spec-level image of one declared field.
pub struct FieldModel {
    pub name: Seq<char>,
    pub ty: Seq<char>,
    pub nullable: bool,
    pub fk: bool,
}

/// The effective type of a field: its declared type, wrapped in the optional
/// container when the field is nullable. Every artifact that mentions the
/// field's type mentions exactly this.
pub open spec fn eff_ty(f: FieldModel) -> Seq<char> {
    if f.nullable {
        "Option<"@ + f.ty + ">"@
    } else {
        f.ty
    }
}

/// One declared field: its name, its declared scalar type, and the two
/// classification markers.
#[derive(Debug, PartialEq)]
pub struct Field {
    pub name: String,
    pub ty: String,
    pub nullable: bool,
    pub fk: bool,
}

impl View for Field {
    type V = FieldModel;

    open spec fn view(&self) -> FieldModel {
        FieldModel { name: self.name@, ty: self.ty@, nullable: self.nullable, fk: self.fk }
    }
}

impl Clone for Field {
    fn clone(&self) -> (r: Self)
        ensures
            r == *self,
    {
        Field {
            name: self.name.clone(),
            ty: self.ty.clone(),
            nullable: self.nullable,
            fk: self.fk,
        }
    }
}

impl Field {
    /// The field's effective type: the declared type, optional-wrapped when
    /// the field is nullable.
    pub fn ty(&self) -> (r: String)
        ensures
            r@ == eff_ty(self@),
    {
        if self.nullable {
            let mut out: String = "Option<".to_owned();
            out.append(self.ty.as_str());
            out.append(">");
            out
        } else {
            self.ty.clone()
        }
    }

    /// Whether the field is marked foreign-key, and so augments the
    /// identifier-augmented model instead of the base model.
    pub fn fk(&self) -> (r: bool)
        ensures
            r == self@.fk,
    {
        self.fk
    }
}

/// The sequence of spec-level field images of a field list.
pub open spec fn fields_model(fields: Seq<Field>) -> Seq<FieldModel> {
    fields.map_values(|f: Field| f@)
}

/// The spec-level image of an optional string.
pub open spec fn opt_str_view(o: Option<String>) -> Option<Seq<char>> {
    match o {
        Some(s) => Some(s@),
        None => None,
    }
}

/// Spec-level image of the definition-level attributes.
pub struct AttrsModel {
    pub db_conn: Option<Seq<char>>,
    pub table: Option<Seq<char>>,
    pub schema: Option<Seq<char>>,
}

/// The definition-level attributes: the optional connection-variable
/// override, the table-name reference, and the schema reference.
pub struct Attrs {
    pub db_conn: Option<String>,
    pub table: Option<String>,
    pub schema: Option<String>,
}

impl View for Attrs {
    type V = AttrsModel;

    open spec fn view(&self) -> AttrsModel {
        AttrsModel {
            db_conn: opt_str_view(self.db_conn),
            table: opt_str_view(self.table),
            schema: opt_str_view(self.schema),
        }
    }
}

/// Spec-level image of a parsed resource definition.
pub struct StructModel {
    pub attrs: AttrsModel,
    pub ident: Seq<char>,
    pub fields: Seq<FieldModel>,
}

/// A parsed resource definition: its attributes, the declared type name, and
/// the ordered field list. The field order is the single source of truth for
/// row-column assignment and is never reordered by any stage.
pub struct Struct {
    pub attrs: Attrs,
    pub ident: String,
    pub fields: Vec<Field>,
}

impl View for Struct {
    type V = StructModel;

    open spec fn view(&self) -> StructModel {
        StructModel {
            attrs: self.attrs@,
            ident: self.ident@,
            fields: fields_model(self.fields@),
        }
    }
}

/// The table symbol of a definition: the explicit override when one was
/// supplied, otherwise the declared type name pluralized by the documented
/// suffix-append simplification and converted to snake_case.
pub open spec fn spec_table_symbol(m: StructModel) -> Seq<char> {
    match m.attrs.table {
        Some(t) => t,
        None => snake_of(m.ident + "s"@),
    }
}

impl Struct {
    /// The name of the base model: the declared identifier unchanged.
    pub fn inner_model_name(&self) -> (r: String)
        ensures
            r@ == self@.ident,
    {
        self.ident.clone()
    }

    /// The name of the identifier-augmented model.
    pub fn model_name_with_id(&self) -> (r: String)
        ensures
            r@ == self@.ident + "WithId"@,
    {
        append(&self.ident, "WithId")
    }

    /// The name of the generated access controller.
    pub fn controller_name(&self) -> (r: String)
        ensures
            r@ == self@.ident + "Controller"@,
    {
        append(&self.ident, "Controller")
    }

    /// The table symbol: the explicit override if supplied, otherwise
    /// derived from the type name by pluralizing and snake-casing.
    pub fn table_name(&self) -> (r: String)
        ensures
            r@ == spec_table_symbol(self@),
    {
        match &self.attrs.table {
            Some(t) => t.clone(),
            None => snake_case_str(append(&self.ident, "s").as_str()),
        }
    }
}

} // verus!
