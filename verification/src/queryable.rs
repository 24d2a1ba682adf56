//! The row-mapping builder and the row decoder. The column layout is fixed:
//! column 0 holds the synthetic integer identifier, and columns 1 onward hold
//! one column per entry of the original, unpartitioned field sequence, in
//! declaration order, each carrying the field's effective type. Base fields
//! are reconstructed into the embedded base model; augmenting fields are
//! assigned directly on the identifier-augmented model.

use vstd::prelude::*;
use crate::builder::Input;
use crate::classify::{is_augmenting, is_base};
use crate::def::{eff_ty, fields_model, spec_table_symbol, FieldModel, Struct, StructModel};
use crate::error::{GenError, GenErrorModel};
use crate::model::lemma_map_values_push;

verus! {

/// Spec-level image of one column assignment.
pub struct AssignModel {
    pub name: Seq<char>,
    pub column: int,
}

/// One column assignment of the row mapping: a field name and the row column
/// it is read from.
#[derive(Debug, PartialEq)]
pub struct Assign {
    pub name: String,
    pub column: usize,
}

impl View for Assign {
    type V = AssignModel;

    open spec fn view(&self) -> AssignModel {
        AssignModel { name: self.name@, column: self.column as int }
    }
}

/// The sequence of spec-level images of an assignment list.
pub open spec fn assigns_model(s: Seq<Assign>) -> Seq<AssignModel> {
    s.map_values(|a: Assign| a@)
}

/// Each field paired with its row column: field `i` reads column `1 + i`,
/// whatever its classification.
pub open spec fn column_pairs(m: Seq<FieldModel>) -> Seq<(FieldModel, int)> {
    Seq::new(m.len(), |i: int| (m[i], 1 + i))
}

/// The assignment a field-column pair contributes.
pub open spec fn assign_of(p: (FieldModel, int)) -> AssignModel {
    AssignModel { name: p.0.name, column: p.1 }
}

/// The inner-model assignment list: one entry per base field, in base-field
/// order, each reading the column of the field's original position.
pub open spec fn inner_assigns_of(m: Seq<FieldModel>) -> Seq<AssignModel> {
    column_pairs(m).filter(|p: (FieldModel, int)| is_base(p.0)).map_values(
        |p: (FieldModel, int)| assign_of(p),
    )
}

/// The outer assignment list: one entry per augmenting field, in original
/// relative order, each reading the column of the field's original position.
pub open spec fn outer_assigns_of(m: Seq<FieldModel>) -> Seq<AssignModel> {
    column_pairs(m).filter(|p: (FieldModel, int)| is_augmenting(p.0)).map_values(
        |p: (FieldModel, int)| assign_of(p),
    )
}

/// The row-tuple types: the identifier's integer type, then one entry per
/// field in declaration order, each the field's effective type.
pub open spec fn row_types_of(m: Seq<FieldModel>) -> Seq<Seq<char>> {
    seq!["i32"@] + m.map_values(|f: FieldModel| eff_ty(f))
}

/// Spec-level image of the row-mapping artifact.
pub struct QueryableArtifactModel {
    pub target: Seq<char>,
    pub inner_name: Seq<char>,
    pub table: Seq<char>,
    pub row_types: Seq<Seq<char>>,
    pub inner_assigns: Seq<AssignModel>,
    pub outer_assigns: Seq<AssignModel>,
}

/// The row-mapping artifact: the rule mapping a flat, positionally-ordered
/// row of columns back into the identifier-augmented model.
pub struct QueryableArtifact {
    pub target: String,
    pub inner_name: String,
    pub table: String,
    pub row_types: Vec<String>,
    pub inner_assigns: Vec<Assign>,
    pub outer_assigns: Vec<Assign>,
}

impl View for QueryableArtifact {
    type V = QueryableArtifactModel;

    open spec fn view(&self) -> QueryableArtifactModel {
        QueryableArtifactModel {
            target: self.target@,
            inner_name: self.inner_name@,
            table: self.table@,
            row_types: self.row_types@.map_values(|t: String| t@),
            inner_assigns: assigns_model(self.inner_assigns@),
            outer_assigns: assigns_model(self.outer_assigns@),
        }
    }
}

/// The row-mapping artifact a definition describes.
pub open spec fn queryable_artifact_of(m: StructModel) -> QueryableArtifactModel {
    QueryableArtifactModel {
        target: m.ident + "WithId"@,
        inner_name: m.ident,
        table: spec_table_symbol(m),
        row_types: row_types_of(m.fields),
        inner_assigns: inner_assigns_of(m.fields),
        outer_assigns: outer_assigns_of(m.fields),
    }
}

/// Builds the row-mapping artifact.
pub struct Queryable;

impl Queryable {
    /// Describes the row mapping: the row-tuple types (whose arity is one
    /// more than the field count, for any field count), and the two
    /// assignment lists produced by one indexed walk over the unpartitioned
    /// field sequence, the running column starting at 1 after the identifier
    /// and incrementing once per field whatever its classification.
    pub fn build(self, input: &Input) -> (r: QueryableArtifact)
        ensures
            r@ == queryable_artifact_of(input.parsed_struct@),
            r.row_types@.len() == 1 + input.parsed_struct@.fields.len(),
    {
        let ghost mf = input.parsed_struct@.fields;
        let mut row_types: Vec<String> = Vec::new();
        row_types.push("i32".to_owned());
        let mut inner_assigns: Vec<Assign> = Vec::new();
        let mut outer_assigns: Vec<Assign> = Vec::new();
        for i in 0..input.parsed_struct.fields.len()
            invariant
                mf == fields_model(input.parsed_struct.fields@),
                mf.len() == input.parsed_struct.fields@.len(),
                row_types@.map_values(|t: String| t@) == row_types_of(mf.take(i as int)),
                assigns_model(inner_assigns@) == inner_assigns_of(mf.take(i as int)),
                assigns_model(outer_assigns@) == outer_assigns_of(mf.take(i as int)),
        {
            let f = &input.parsed_struct.fields[i];
            let column: usize = i + 1;
            proof {
                assert(mf[i as int] == input.parsed_struct.fields@[i as int]@);
                assert(mf.take(i + 1 as int) =~= mf.take(i as int).push(mf[i as int]));
                assert(column_pairs(mf.take(i + 1 as int)) =~= column_pairs(
                    mf.take(i as int),
                ).push((mf[i as int], 1 + i as int)));
                column_pairs(mf.take(i as int)).lemma_filter_push(
                    (mf[i as int], 1 + i as int),
                    |p: (FieldModel, int)| is_base(p.0),
                );
                column_pairs(mf.take(i as int)).lemma_filter_push(
                    (mf[i as int], 1 + i as int),
                    |p: (FieldModel, int)| is_augmenting(p.0),
                );
            }
            let ty = f.ty();
            proof {
                lemma_map_values_push(row_types@, ty, |t: String| t@);
                lemma_map_values_push(mf.take(i as int), mf[i as int], |g: FieldModel| eff_ty(g));
            }
            row_types.push(ty);
            proof {
                assert(row_types@.map_values(|t: String| t@) =~= row_types_of(
                    mf.take(i + 1 as int),
                ));
            }
            let assign = Assign { name: f.name.clone(), column };
            proof {
                assert(assign@ == assign_of((mf[i as int], 1 + i as int)));
            }
            if f.fk() {
                proof {
                    lemma_map_values_push(
                        column_pairs(mf.take(i as int)).filter(
                            |p: (FieldModel, int)| is_augmenting(p.0),
                        ),
                        (mf[i as int], 1 + i as int),
                        |p: (FieldModel, int)| assign_of(p),
                    );
                    lemma_map_values_push(outer_assigns@, assign, |a: Assign| a@);
                }
                outer_assigns.push(assign);
            } else {
                proof {
                    lemma_map_values_push(
                        column_pairs(mf.take(i as int)).filter(
                            |p: (FieldModel, int)| is_base(p.0),
                        ),
                        (mf[i as int], 1 + i as int),
                        |p: (FieldModel, int)| assign_of(p),
                    );
                    lemma_map_values_push(inner_assigns@, assign, |a: Assign| a@);
                }
                inner_assigns.push(assign);
            }
            proof {
                assert(assigns_model(inner_assigns@) =~= inner_assigns_of(mf.take(i + 1 as int)));
                assert(assigns_model(outer_assigns@) =~= outer_assigns_of(mf.take(i + 1 as int)));
            }
        }
        proof {
            assert(mf.take(mf.len() as int) =~= mf);
        }
        QueryableArtifact {
            target: input.parsed_struct.model_name_with_id(),
            inner_name: input.parsed_struct.inner_model_name(),
            table: input.parsed_struct.table_name(),
            row_types,
            inner_assigns,
            outer_assigns,
        }
    }
}

/// Spec-level image of one decoded field value.
pub struct FieldValueModel<V> {
    pub name: Seq<char>,
    pub value: V,
}

/// One decoded field value: the field's name and the column value it was
/// read from.
#[derive(Debug, PartialEq)]
pub struct FieldValue<V> {
    pub name: String,
    pub value: V,
}

impl<V> View for FieldValue<V> {
    type V = FieldValueModel<V>;

    open spec fn view(&self) -> FieldValueModel<V> {
        FieldValueModel { name: self.name@, value: self.value }
    }
}

/// The sequence of spec-level images of a decoded value list.
pub open spec fn field_values_model<V>(s: Seq<FieldValue<V>>) -> Seq<FieldValueModel<V>> {
    s.map_values(|x: FieldValue<V>| x@)
}

/// Each field paired with the row value at its column.
pub open spec fn value_pairs<V>(m: Seq<FieldModel>, row: Seq<V>) -> Seq<(FieldModel, V)> {
    Seq::new(m.len(), |i: int| (m[i], row[1 + i]))
}

/// The decoded value a field-value pair contributes.
pub open spec fn field_value_of<V>(p: (FieldModel, V)) -> FieldValueModel<V> {
    FieldValueModel { name: p.0.name, value: p.1 }
}

/// The decoded values of the embedded base model, in base-field order.
pub open spec fn inner_values_of<V>(m: Seq<FieldModel>, row: Seq<V>) -> Seq<FieldValueModel<V>> {
    value_pairs(m, row).filter(|p: (FieldModel, V)| is_base(p.0)).map_values(
        |p: (FieldModel, V)| field_value_of(p),
    )
}

/// The decoded values assigned directly on the identifier-augmented model,
/// in original relative order.
pub open spec fn outer_values_of<V>(m: Seq<FieldModel>, row: Seq<V>) -> Seq<FieldValueModel<V>> {
    value_pairs(m, row).filter(|p: (FieldModel, V)| is_augmenting(p.0)).map_values(
        |p: (FieldModel, V)| field_value_of(p),
    )
}

/// A decoded row: the identifier from column 0, the values of the embedded
/// base model, and the values assigned directly on the identifier-augmented
/// model.
pub struct DecodedRow<V> {
    pub id: V,
    pub inner: Vec<FieldValue<V>>,
    pub outer: Vec<FieldValue<V>>,
}

/// Decodes a flat row of column values against a definition. Fails with
/// `RowArityMismatch` exactly when the row width is not one more than the
/// field count; otherwise column 0 is the identifier, and one walk over the
/// unpartitioned field sequence reads each field from the column of its
/// original position, routing base fields into the inner model and
/// augmenting fields onto the outer assignments.
pub fn decode_row<V: Copy>(def: &Struct, row: &Vec<V>) -> (r: Result<DecodedRow<V>, GenError>)
    ensures
        r is Ok <==> row@.len() == 1 + def@.fields.len(),
        r matches Err(e) ==> e@ == GenErrorModel::RowArityMismatch(
            def@.fields.len() as int,
            row@.len() as int,
        ),
        r matches Ok(d) ==> d.id == row@[0] && field_values_model(d.inner@) == inner_values_of(
            def@.fields,
            row@,
        ) && field_values_model(d.outer@) == outer_values_of(def@.fields, row@),
{
    if row.len() == 0 || row.len() - 1 != def.fields.len() {
        return Err(GenError::RowArityMismatch { fields: def.fields.len(), row_width: row.len() });
    }
    let ghost mf = def@.fields;
    let id: V = row[0];
    let mut inner: Vec<FieldValue<V>> = Vec::new();
    let mut outer: Vec<FieldValue<V>> = Vec::new();
    for i in 0..def.fields.len()
        invariant
            mf == fields_model(def.fields@),
            mf.len() == def.fields@.len(),
            row@.len() == 1 + mf.len(),
            field_values_model(inner@) == inner_values_of(mf.take(i as int), row@),
            field_values_model(outer@) == outer_values_of(mf.take(i as int), row@),
    {
        let f = &def.fields[i];
        proof {
            assert(mf[i as int] == def.fields@[i as int]@);
            assert(mf.take(i + 1 as int) =~= mf.take(i as int).push(mf[i as int]));
            assert(value_pairs(mf.take(i + 1 as int), row@) =~= value_pairs(
                mf.take(i as int),
                row@,
            ).push((mf[i as int], row@[1 + i as int])));
            value_pairs(mf.take(i as int), row@).lemma_filter_push(
                (mf[i as int], row@[1 + i as int]),
                |p: (FieldModel, V)| is_base(p.0),
            );
            value_pairs(mf.take(i as int), row@).lemma_filter_push(
                (mf[i as int], row@[1 + i as int]),
                |p: (FieldModel, V)| is_augmenting(p.0),
            );
        }
        let fv = FieldValue { name: f.name.clone(), value: row[i + 1] };
        proof {
            assert(fv@ == field_value_of((mf[i as int], row@[1 + i as int])));
        }
        if f.fk() {
            proof {
                lemma_map_values_push(
                    value_pairs(mf.take(i as int), row@).filter(
                        |p: (FieldModel, V)| is_augmenting(p.0),
                    ),
                    (mf[i as int], row@[1 + i as int]),
                    |p: (FieldModel, V)| field_value_of(p),
                );
                lemma_map_values_push(outer@, fv, |x: FieldValue<V>| x@);
            }
            outer.push(fv);
        } else {
            proof {
                lemma_map_values_push(
                    value_pairs(mf.take(i as int), row@).filter(
                        |p: (FieldModel, V)| is_base(p.0),
                    ),
                    (mf[i as int], row@[1 + i as int]),
                    |p: (FieldModel, V)| field_value_of(p),
                );
                lemma_map_values_push(inner@, fv, |x: FieldValue<V>| x@);
            }
            inner.push(fv);
        }
        proof {
            assert(field_values_model(inner@) =~= inner_values_of(mf.take(i + 1 as int), row@));
            assert(field_values_model(outer@) =~= outer_values_of(mf.take(i + 1 as int), row@));
        }
    }
    proof {
        assert(mf.take(mf.len() as int) =~= mf);
    }
    Ok(DecodedRow { id, inner, outer })
}

} // verus!
