//! The emitter: renders the four artifact descriptions as generated-code
//! text and concatenates them, in a fixed order, into the final bundle. A
//! failing parse emits nothing.

use vstd::prelude::*;
use vstd::string::*;
use crate::builder::{
    spec_connection_expr, spec_schema_path, spec_table_macro, DatabaseConnection, Input, Schema,
    TableMacro,
};
use crate::def::{Struct, StructModel};
use crate::error::GenError;
use crate::model::{
    members_model, model_artifact_of, model_with_id_artifact_of, Member, MemberModel, Model,
    ModelArtifact, ModelArtifactModel, ModelWithId, ModelWithIdArtifact, ModelWithIdArtifactModel,
};
use crate::parse::{parse_error, parse_fails, parsed_struct_of};
use crate::queryable::{
    assigns_model, queryable_artifact_of, Assign, AssignModel, Queryable, QueryableArtifactModel,
};
use crate::raw::RawStruct;

verus! {

/// The decimal digit character of a value below ten.
pub open spec fn dec_digit(d: int) -> char {
    if d == 0 {
        '0'
    } else if d == 1 {
        '1'
    } else if d == 2 {
        '2'
    } else if d == 3 {
        '3'
    } else if d == 4 {
        '4'
    } else if d == 5 {
        '5'
    } else if d == 6 {
        '6'
    } else if d == 7 {
        '7'
    } else if d == 8 {
        '8'
    } else {
        '9'
    }
}

/// The decimal rendering of a nonnegative number.
pub open spec fn dec_str(n: int) -> Seq<char>
    recommends
        n >= 0,
    decreases n,
{
    if n < 10 {
        seq![dec_digit(n)]
    } else {
        dec_str(n / 10).push(dec_digit(n % 10))
    }
}

/// The one-character string of a decimal digit.
fn digit_str(d: usize) -> (r: &'static str)
    requires
        d < 10,
    ensures
        r@ == seq![dec_digit(d as int)],
{
    proof {
        reveal_strlit("0");
        reveal_strlit("1");
        reveal_strlit("2");
        reveal_strlit("3");
        reveal_strlit("4");
        reveal_strlit("5");
        reveal_strlit("6");
        reveal_strlit("7");
        reveal_strlit("8");
        reveal_strlit("9");
    }
    if d == 0 {
        "0"
    } else if d == 1 {
        "1"
    } else if d == 2 {
        "2"
    } else if d == 3 {
        "3"
    } else if d == 4 {
        "4"
    } else if d == 5 {
        "5"
    } else if d == 6 {
        "6"
    } else if d == 7 {
        "7"
    } else if d == 8 {
        "8"
    } else {
        "9"
    }
}

/// Renders a number in decimal, as in a row-tuple position `row.3`.
pub fn usize_to_string(n: usize) -> (r: String)
    ensures
        r@ == dec_str(n as int),
    decreases n,
{
    if n < 10 {
        digit_str(n).to_owned()
    } else {
        proof {
            assert(n / 10 < n) by (nonlinear_arith)
                requires
                    n >= 10,
            ;
        }
        let mut s = usize_to_string(n / 10);
        s.append(digit_str(n % 10));
        proof {
            assert(s@ =~= dec_str(n as int));
        }
        s
    }
}

/// The rendered line of one record member.
pub open spec fn render_member(x: MemberModel) -> Seq<char> {
    "    pub "@ + x.name + ": "@ + x.ty + ",\n"@
}

/// The rendered lines of a member list, in order.
pub open spec fn render_members(ms: Seq<MemberModel>) -> Seq<char>
    decreases ms.len(),
{
    if ms.len() == 0 {
        Seq::empty()
    } else {
        render_members(ms.drop_last()) + render_member(ms.last())
    }
}

/// Renders the member lines of a record body.
fn member_lines(ms: &Vec<Member>) -> (r: String)
    ensures
        r@ == render_members(members_model(ms@)),
{
    let mut out = String::new();
    for i in 0..ms.len()
        invariant
            out@ == render_members(members_model(ms@).take(i as int)),
    {
        let x = &ms[i];
        let mut line: String = "    pub ".to_owned();
        line.append(x.name.as_str());
        line.append(": ");
        line.append(x.ty.as_str());
        line.append(",\n");
        proof {
            assert(members_model(ms@)[i as int] == ms@[i as int]@);
            assert(members_model(ms@).take(i + 1 as int).drop_last() =~= members_model(
                ms@,
            ).take(i as int));
            assert(members_model(ms@).take(i + 1 as int).last() == members_model(ms@)[i as int]);
        }
        out.append(line.as_str());
    }
    proof {
        assert(members_model(ms@).take(ms@.len() as int) =~= members_model(ms@));
    }
    out
}

/// The rendered base-model record declaration.
pub open spec fn render_model(a: ModelArtifactModel) -> Seq<char> {
    "pub struct "@ + a.name + " {\n"@ + render_members(a.members) + "}\n"@
}

/// Renders the base-model record declaration.
fn model_text(a: &ModelArtifact) -> (r: String)
    ensures
        r@ == render_model(a@),
{
    let mut out: String = "pub struct ".to_owned();
    out.append(a.name.as_str());
    out.append(" {\n");
    out.append(member_lines(&a.members).as_str());
    out.append("}\n");
    out
}

/// The rendered identifier-augmented record declaration: the identifier, the
/// embedded base model, then the augmenting members.
pub open spec fn render_model_with_id(a: ModelWithIdArtifactModel) -> Seq<char> {
    "pub struct "@ + a.name + " {\n    pub id: i32,\n    pub inner: "@ + a.inner_name + ",\n"@
        + render_members(a.members) + "}\n"@
}

/// Renders the identifier-augmented record declaration.
fn model_with_id_text(a: &ModelWithIdArtifact) -> (r: String)
    ensures
        r@ == render_model_with_id(a@),
{
    let mut out: String = "pub struct ".to_owned();
    out.append(a.name.as_str());
    out.append(" {\n    pub id: i32,\n    pub inner: ");
    out.append(a.inner_name.as_str());
    out.append(",\n");
    out.append(member_lines(&a.members).as_str());
    out.append("}\n");
    out
}

/// The rendered model artifact pair: the table-name attribute above the
/// identifier-augmented model, then again above the base model.
pub open spec fn spec_gen_model(m: StructModel) -> Seq<char> {
    spec_table_macro(m) + "\n"@ + render_model_with_id(model_with_id_artifact_of(m)) + "\n"@
        + spec_table_macro(m) + "\n"@ + render_model(model_artifact_of(m))
}

/// The rendered row-tuple types, each followed by a separator.
pub open spec fn render_row_types(ts: Seq<Seq<char>>) -> Seq<char>
    decreases ts.len(),
{
    if ts.len() == 0 {
        Seq::empty()
    } else {
        render_row_types(ts.drop_last()) + ts.last() + ", "@
    }
}

/// Renders the row-tuple types.
fn row_types_text(ts: &Vec<String>) -> (r: String)
    ensures
        r@ == render_row_types(ts@.map_values(|t: String| t@)),
{
    let ghost tm = ts@.map_values(|t: String| t@);
    let mut out = String::new();
    for i in 0..ts.len()
        invariant
            tm == ts@.map_values(|t: String| t@),
            tm.len() == ts@.len(),
            out@ == render_row_types(tm.take(i as int)),
    {
        proof {
            assert(tm[i as int] == ts@[i as int]@);
            assert(tm.take(i + 1 as int).drop_last() =~= tm.take(i as int));
            assert(tm.take(i + 1 as int).last() == tm[i as int]);
        }
        out.append(ts[i].as_str());
        out.append(", ");
    }
    proof {
        assert(tm.take(tm.len() as int) =~= tm);
    }
    out
}

/// The rendered inner-model assignment list, one `name: row.N` entry per
/// base field.
pub open spec fn render_inner_assigns(s: Seq<AssignModel>) -> Seq<char>
    decreases s.len(),
{
    if s.len() == 0 {
        Seq::empty()
    } else {
        render_inner_assigns(s.drop_last()) + s.last().name + ": row."@ + dec_str(s.last().column)
            + ", "@
    }
}

/// Renders the inner-model assignment list.
fn inner_assigns_text(s: &Vec<Assign>) -> (r: String)
    ensures
        r@ == render_inner_assigns(assigns_model(s@)),
{
    let ghost am = assigns_model(s@);
    let mut out = String::new();
    for i in 0..s.len()
        invariant
            am == assigns_model(s@),
            am.len() == s@.len(),
            out@ == render_inner_assigns(am.take(i as int)),
    {
        let a = &s[i];
        proof {
            assert(am[i as int] == s@[i as int]@);
            assert(am.take(i + 1 as int).drop_last() =~= am.take(i as int));
            assert(am.take(i + 1 as int).last() == am[i as int]);
        }
        out.append(a.name.as_str());
        out.append(": row.");
        out.append(usize_to_string(a.column).as_str());
        out.append(", ");
    }
    proof {
        assert(am.take(am.len() as int) =~= am);
    }
    out
}

/// The rendered outer assignment lines, one `name: row.N` line per
/// augmenting field.
pub open spec fn render_outer_assigns(s: Seq<AssignModel>) -> Seq<char>
    decreases s.len(),
{
    if s.len() == 0 {
        Seq::empty()
    } else {
        render_outer_assigns(s.drop_last()) + "            "@ + s.last().name + ": row."@
            + dec_str(s.last().column) + ",\n"@
    }
}

/// Renders the outer assignment lines.
fn outer_assigns_text(s: &Vec<Assign>) -> (r: String)
    ensures
        r@ == render_outer_assigns(assigns_model(s@)),
{
    let ghost am = assigns_model(s@);
    let mut out = String::new();
    for i in 0..s.len()
        invariant
            am == assigns_model(s@),
            am.len() == s@.len(),
            out@ == render_outer_assigns(am.take(i as int)),
    {
        let a = &s[i];
        proof {
            assert(am[i as int] == s@[i as int]@);
            assert(am.take(i + 1 as int).drop_last() =~= am.take(i as int));
            assert(am.take(i + 1 as int).last() == am[i as int]);
        }
        out.append("            ");
        out.append(a.name.as_str());
        out.append(": row.");
        out.append(usize_to_string(a.column).as_str());
        out.append(",\n");
    }
    proof {
        assert(am.take(am.len() as int) =~= am);
    }
    out
}

/// The rendered row-mapping rule: the row-tuple type and the reconstruction
/// of the identifier-augmented model from its columns.
pub open spec fn render_queryable(q: QueryableArtifactModel) -> Seq<char> {
    "impl diesel::Queryable<"@ + q.table + "::SqlType, diesel::pg::Pg> for "@ + q.target
        + " {\n    type Row = ("@ + render_row_types(q.row_types)
        + ");\n    fn build(row: Self::Row) -> Self {\n        "@ + q.target
        + " {\n            id: row.0,\n            inner: "@ + q.inner_name + " { "@
        + render_inner_assigns(q.inner_assigns) + "},\n"@ + render_outer_assigns(q.outer_assigns)
        + "        }\n    }\n}\n"@
}

/// The rendered row mapping a definition describes.
pub open spec fn spec_gen_queryable(m: StructModel) -> Seq<char> {
    render_queryable(queryable_artifact_of(m))
}

/// The head of the rendered controller: the unit struct and its resource
/// bindings to the schema, the base model, and the identifier-augmented
/// model.
pub open spec fn render_controller_head(
    name: Seq<char>,
    schema: Seq<char>,
    model: Seq<char>,
    with_id: Seq<char>,
) -> Seq<char> {
    "pub struct "@ + name + ";\n\nimpl ResourceDB for "@ + name + " {}\nimpl Resource for "@ + name
        + " {\n    type Table = "@ + schema + "::table;\n    type Model = "@ + model
        + ";\n}\nimpl ResourceWithId for "@ + name + " {\n    type SQLType = "@ + schema
        + "::SqlType;\n    type ModelWithId = "@ + with_id + ";\n}\n"@
}

/// The five operations of the rendered controller, each delegating to the
/// connection accessor.
pub open spec fn render_controller_ops(name: Seq<char>, schema: Seq<char>, conn: Seq<char>) -> Seq<
    char,
> {
    "impl ResourceController for "@ + name
        + " {\n    fn create(&self, model: &Self::Model) -> Result<Self::ModelWithId, Error> {\n        Ok(insert_into("@
        + schema + "::table).values(model).get_result("@ + conn
        + ")?)\n    }\n\n    fn get_one(&self, by: Expr<"@ + schema
        + "::table>) -> Result<Self::ModelWithId, Error> {\n        Ok("@ + schema
        + "::table.filter(by).get_result::<Self::ModelWithId>("@ + conn
        + ")?)\n    }\n\n    fn get_all(&self, by: Expr<"@ + schema
        + "::table>) -> Result<Vec<Self::ModelWithId>, Error> {\n        Ok("@ + schema
        + "::table.filter(by).get_results::<Self::ModelWithId>("@ + conn
        + ")?)\n    }\n\n    fn update(&self, model: &Self::Model, by: Expr<"@ + schema
        + "::table>) -> Result<Self::ModelWithId, Error> {\n        Ok(update("@ + schema
        + "::table).filter(by).set(model).get_result::<Self::ModelWithId>("@ + conn
        + ")?)\n    }\n\n    fn delete(&self, by: Expr<"@ + schema
        + "::table>) -> Result<usize, Error> {\n        Ok(delete("@ + schema
        + "::table).filter(by).execute("@ + conn + ")?)\n    }\n}\n"@
}

/// The rendered controller a definition describes.
pub open spec fn spec_gen_controller(m: StructModel) -> Seq<char> {
    render_controller_head(
        m.ident + "Controller"@,
        spec_schema_path(m),
        m.ident,
        m.ident + "WithId"@,
    ) + render_controller_ops(
        m.ident + "Controller"@,
        spec_schema_path(m),
        spec_connection_expr(m),
    )
}

/// The whole generated bundle: the model artifacts, the row mapping, and the
/// controller, in that fixed order.
pub open spec fn spec_resource_bundle(m: StructModel) -> Seq<char> {
    spec_gen_model(m) + "\n"@ + spec_gen_queryable(m) + "\n"@ + spec_gen_controller(m)
}

impl Input {
    /// Renders the two model artifacts, each under the table-name attribute:
    /// the identifier-augmented model first, then the base model.
    pub fn gen_model(&self) -> (r: String)
        ensures
            r@ == spec_gen_model(self.parsed_struct@),
    {
        let table_macro = TableMacro.build(self);
        let with_id = ModelWithId.build(self);
        let model = Model.build(self);
        let mut out = table_macro.clone();
        out.append("\n");
        out.append(model_with_id_text(&with_id).as_str());
        out.append("\n");
        out.append(table_macro.as_str());
        out.append("\n");
        out.append(model_text(&model).as_str());
        out
    }

    /// Renders the row-mapping rule.
    pub fn gen_queryable(&self) -> (r: String)
        ensures
            r@ == spec_gen_queryable(self.parsed_struct@),
    {
        let q = Queryable.build(self);
        let mut out: String = "impl diesel::Queryable<".to_owned();
        out.append(q.table.as_str());
        out.append("::SqlType, diesel::pg::Pg> for ");
        out.append(q.target.as_str());
        out.append(" {\n    type Row = (");
        out.append(row_types_text(&q.row_types).as_str());
        out.append(");\n    fn build(row: Self::Row) -> Self {\n        ");
        out.append(q.target.as_str());
        out.append(" {\n            id: row.0,\n            inner: ");
        out.append(q.inner_name.as_str());
        out.append(" { ");
        out.append(inner_assigns_text(&q.inner_assigns).as_str());
        out.append("},\n");
        out.append(outer_assigns_text(&q.outer_assigns).as_str());
        out.append("        }\n    }\n}\n");
        out
    }

    /// Renders the controller: its resource bindings and the five operations
    /// delegating to the connection accessor.
    pub fn gen_controller(&self) -> (r: String)
        ensures
            r@ == spec_gen_controller(self.parsed_struct@),
    {
        let name = self.parsed_struct.controller_name();
        let schema = Schema.build(self);
        let conn = DatabaseConnection.build(self);
        let model = self.parsed_struct.inner_model_name();
        let with_id = self.parsed_struct.model_name_with_id();
        let mut out: String = "pub struct ".to_owned();
        out.append(name.as_str());
        out.append(";\n\nimpl ResourceDB for ");
        out.append(name.as_str());
        out.append(" {}\nimpl Resource for ");
        out.append(name.as_str());
        out.append(" {\n    type Table = ");
        out.append(schema.as_str());
        out.append("::table;\n    type Model = ");
        out.append(model.as_str());
        out.append(";\n}\nimpl ResourceWithId for ");
        out.append(name.as_str());
        out.append(" {\n    type SQLType = ");
        out.append(schema.as_str());
        out.append("::SqlType;\n    type ModelWithId = ");
        out.append(with_id.as_str());
        out.append(";\n}\n");
        out.append("impl ResourceController for ");
        out.append(name.as_str());
        out.append(
            " {\n    fn create(&self, model: &Self::Model) -> Result<Self::ModelWithId, Error> {\n        Ok(insert_into(",
        );
        out.append(schema.as_str());
        out.append("::table).values(model).get_result(");
        out.append(conn.as_str());
        out.append(")?)\n    }\n\n    fn get_one(&self, by: Expr<");
        out.append(schema.as_str());
        out.append("::table>) -> Result<Self::ModelWithId, Error> {\n        Ok(");
        out.append(schema.as_str());
        out.append("::table.filter(by).get_result::<Self::ModelWithId>(");
        out.append(conn.as_str());
        out.append(")?)\n    }\n\n    fn get_all(&self, by: Expr<");
        out.append(schema.as_str());
        out.append("::table>) -> Result<Vec<Self::ModelWithId>, Error> {\n        Ok(");
        out.append(schema.as_str());
        out.append("::table.filter(by).get_results::<Self::ModelWithId>(");
        out.append(conn.as_str());
        out.append(")?)\n    }\n\n    fn update(&self, model: &Self::Model, by: Expr<");
        out.append(schema.as_str());
        out.append("::table>) -> Result<Self::ModelWithId, Error> {\n        Ok(update(");
        out.append(schema.as_str());
        out.append("::table).filter(by).set(model).get_result::<Self::ModelWithId>(");
        out.append(conn.as_str());
        out.append(")?)\n    }\n\n    fn delete(&self, by: Expr<");
        out.append(schema.as_str());
        out.append("::table>) -> Result<usize, Error> {\n        Ok(delete(");
        out.append(schema.as_str());
        out.append("::table).filter(by).execute(");
        out.append(conn.as_str());
        out.append(")?)\n    }\n}\n");
        proof {
            assert(out@ =~= spec_gen_controller(self.parsed_struct@));
        }
        out
    }
}

/// Compiles one raw resource definition into the generated bundle: parses
/// it, builds the four artifacts, and emits their rendering in a fixed
/// order. A failing parse reports its error and emits nothing.
pub fn resource(raw: &RawStruct) -> (r: Result<String, GenError>)
    ensures
        r is Err <==> parse_fails(raw@),
        r matches Err(e) ==> e@ == parse_error(raw@),
        r matches Ok(text) ==> text@ == spec_resource_bundle(parsed_struct_of(raw@)),
{
    let parsed_struct = match Struct::parse(raw) {
        Ok(st) => st,
        Err(e) => {
            return Err(e);
        },
    };
    let parsed = Input { parsed_struct };
    let mut out = parsed.gen_model();
    out.append("\n");
    out.append(parsed.gen_queryable().as_str());
    out.append("\n");
    out.append(parsed.gen_controller().as_str());
    Ok(out)
}

} // verus!
