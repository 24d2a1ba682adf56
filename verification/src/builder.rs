//! The small builders: the table-name attribute, the schema path, and the
//! connection-accessor expression that the generated controller uses.

use vstd::prelude::*;
use vstd::string::*;
use crate::def::{spec_table_symbol, Struct, StructModel};
use crate::names::{append, snake_case_str, snake_of};

verus! {

/// The parsed definition handed to every artifact builder.
pub struct Input {
    pub parsed_struct: Struct,
}

/// The rendered table-name attribute carried by both generated models.
pub open spec fn spec_table_macro(m: StructModel) -> Seq<char> {
    "#[table_name = \""@ + spec_table_symbol(m) + "\"]"@
}

/// The schema path the generated code binds to: the schema reference when
/// the definition supplies one, otherwise inferred from the type name.
pub open spec fn spec_schema_path(m: StructModel) -> Seq<char> {
    match m.attrs.schema {
        Some(p) => p,
        None => "crate::schema::"@ + snake_of(m.ident + "s"@),
    }
}

/// The connection-accessor expression each controller operation uses: the
/// default accessor, or one naming the overriding environment variable.
pub open spec fn spec_connection_expr(m: StructModel) -> Seq<char> {
    match m.attrs.db_conn {
        Some(v) => "&self.connection_string(\""@ + v + "\")"@,
        None => "&self.connection()"@,
    }
}

/// Builds the table-name attribute, from the explicit table reference or the
/// derived table symbol.
pub struct TableMacro;

impl TableMacro {
    /// Renders the table-name attribute.
    pub fn build(self, input: &Input) -> (r: String)
        ensures
            r@ == spec_table_macro(input.parsed_struct@),
    {
        let mut out: String = "#[table_name = \"".to_owned();
        out.append(input.parsed_struct.table_name().as_str());
        out.append("\"]");
        out
    }
}

/// Builds the schema path that the row mapping and the controller bind to.
pub struct Schema;

impl Schema {
    /// Renders the schema path: the supplied schema reference, or one
    /// inferred from the pluralized, snake-cased type name.
    pub fn build(self, input: &Input) -> (r: String)
        ensures
            r@ == spec_schema_path(input.parsed_struct@),
    {
        match &input.parsed_struct.attrs.schema {
            Some(p) => p.clone(),
            None => {
                let mut out: String = "crate::schema::".to_owned();
                out.append(
                    snake_case_str(append(&input.parsed_struct.ident, "s").as_str()).as_str(),
                );
                out
            },
        }
    }
}

/// Builds the connection-accessor expression of the generated controller.
pub struct DatabaseConnection;

impl DatabaseConnection {
    /// Renders the connection accessor: the default one, or the one naming
    /// the definition's overriding environment variable.
    pub fn build(self, input: &Input) -> (r: String)
        ensures
            r@ == spec_connection_expr(input.parsed_struct@),
    {
        match &input.parsed_struct.attrs.db_conn {
            Some(v) => {
                let mut out: String = "&self.connection_string(\"".to_owned();
                out.append(v.as_str());
                out.append("\")");
                out
            },
            None => "&self.connection()".to_owned(),
        }
    }
}

} // verus!
