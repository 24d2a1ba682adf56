//! Laws of the field classification: the two subsets partition the field
//! list without loss or duplication, and each keeps the declaration order.

use vstd::prelude::*;
use crate::def::{eff_ty, FieldModel};
use crate::classify::{augmenting_fields_of, base_fields_of, is_augmenting, is_base};
use crate::error::GenErrorModel;
use crate::model::{augmenting_members, base_members, lemma_map_values_push, member_of};
use crate::parse::{
    attr_malformed, lemma_last_attr_none, parse_error, parse_fails,
};
use crate::queryable::{
    assign_of, column_pairs, field_value_of, inner_assigns_of, inner_values_of, outer_assigns_of,
    outer_values_of, row_types_of, value_pairs, AssignModel, FieldValueModel,
};
use crate::raw::RawStructModel;

verus! {

/// The positions, in ascending order, of the elements of a sequence that
/// satisfy a predicate; the filtered sequence reads the original at exactly
/// these positions.
pub open spec fn kept_indices<A>(s: Seq<A>, pred: spec_fn(A) -> bool) -> Seq<int>
    decreases s.len(),
{
    if s.len() == 0 {
        Seq::empty()
    } else {
        let rest = kept_indices(s.drop_last(), pred);
        if pred(s.last()) {
            rest.push(s.len() - 1)
        } else {
            rest
        }
    }
}

/// Filtering keeps relative order: the filtered sequence is the original
/// read at a strictly increasing sequence of positions, one per element
/// that satisfies the predicate.
pub proof fn lemma_filter_keeps_order<A>(s: Seq<A>, pred: spec_fn(A) -> bool)
    ensures
        kept_indices(s, pred).len() == s.filter(pred).len(),
        forall|k: int|
            0 <= k < kept_indices(s, pred).len() ==> 0 <= #[trigger] kept_indices(s, pred)[k]
                < s.len() && s.filter(pred)[k] == s[kept_indices(s, pred)[k]],
        forall|k: int, l: int|
            0 <= k < l < kept_indices(s, pred).len() ==> kept_indices(s, pred)[k] < kept_indices(
                s,
                pred,
            )[l],
    decreases s.len(),
{
    reveal(Seq::filter);
    if s.len() > 0 {
        let rest = s.drop_last();
        lemma_filter_keeps_order(rest, pred);
        assert(forall|k: int|
            0 <= k < kept_indices(rest, pred).len() ==> rest[#[trigger] kept_indices(rest, pred)[k]]
                == s[kept_indices(rest, pred)[k]]);
    }
}

/// Partitioning by two complementary predicates loses nothing and duplicates
/// nothing: the lengths of the two subsets sum to the length of the original.
pub proof fn lemma_partition_lengths<A>(s: Seq<A>, p: spec_fn(A) -> bool, q: spec_fn(A) -> bool)
    requires
        forall|a: A| #[trigger] q(a) == !p(a),
    ensures
        s.filter(p).len() + s.filter(q).len() == s.len(),
    decreases s.len(),
{
    if s.len() > 0 {
        let rest = s.drop_last();
        lemma_partition_lengths(rest, p, q);
        rest.lemma_filter_push(s.last(), p);
        rest.lemma_filter_push(s.last(), q);
        assert(rest.push(s.last()) =~= s);
    }
}

/// Every field lands in exactly one of the two subsets: as sets, the base
/// fields and the augmenting fields together are exactly the fields; the two
/// sets are disjoint; and the two subset lengths sum to the field count, so
/// nothing is lost or duplicated.
pub proof fn lemma_partition_complete(m: Seq<FieldModel>)
    ensures
        base_fields_of(m).to_set().union(augmenting_fields_of(m).to_set()) =~= m.to_set(),
        base_fields_of(m).to_set().intersect(augmenting_fields_of(m).to_set()) =~= Set::empty(),
        base_fields_of(m).len() + augmenting_fields_of(m).len() == m.len(),
{
    broadcast use vstd::seq_lib::group_filter_ensures;

    let base = base_fields_of(m);
    let aug = augmenting_fields_of(m);
    assert forall|f: FieldModel| m.to_set().contains(f) implies base.to_set().contains(f)
        || aug.to_set().contains(f) by {
        let i = choose|i: int| 0 <= i < m.len() && m[i] == f;
        if is_base(f) {
            m.lemma_filter_contains(|g: FieldModel| is_base(g), i);
        } else {
            m.lemma_filter_contains(|g: FieldModel| is_augmenting(g), i);
        }
    }
    assert forall|f: FieldModel| base.to_set().contains(f) implies m.to_set().contains(f) by {
        m.lemma_filter_contains_rev(|g: FieldModel| is_base(g), f);
    }
    assert forall|f: FieldModel| aug.to_set().contains(f) implies m.to_set().contains(f) by {
        m.lemma_filter_contains_rev(|g: FieldModel| is_augmenting(g), f);
    }
    assert forall|f: FieldModel| !(base.to_set().contains(f) && aug.to_set().contains(f)) by {
        if base.contains(f) && aug.contains(f) {
            let i = choose|i: int| 0 <= i < base.len() && base[i] == f;
            let j = choose|j: int| 0 <= j < aug.len() && aug[j] == f;
            m.lemma_filter_pred(|g: FieldModel| is_base(g), i);
            m.lemma_filter_pred(|g: FieldModel| is_augmenting(g), j);
        }
    }
    assert(base.len() + aug.len() == m.len()) by {
        lemma_partition_lengths(m, |g: FieldModel| is_base(g), |g: FieldModel| is_augmenting(g));
    }
}

/// The positions in the field list that the base subset reads, in ascending
/// order.
pub open spec fn base_positions(m: Seq<FieldModel>) -> Seq<int> {
    kept_indices(m, |f: FieldModel| is_base(f))
}

/// The positions in the field list that the augmenting subset reads, in
/// ascending order.
pub open spec fn augmenting_positions(m: Seq<FieldModel>) -> Seq<int> {
    kept_indices(m, |f: FieldModel| is_augmenting(f))
}

/// The base fields and the augmenting fields each appear in the same
/// relative order as in the original field list: each subset is the original
/// read at a strictly increasing sequence of positions.
pub proof fn lemma_partition_preserves_order(m: Seq<FieldModel>)
    ensures
        base_positions(m).len() == base_fields_of(m).len(),
        forall|k: int|
            0 <= k < base_fields_of(m).len() ==> 0 <= #[trigger] base_positions(m)[k] < m.len()
                && base_fields_of(m)[k] == m[base_positions(m)[k]],
        forall|k: int, l: int|
            0 <= k < l < base_fields_of(m).len() ==> base_positions(m)[k] < base_positions(m)[l],
        augmenting_positions(m).len() == augmenting_fields_of(m).len(),
        forall|k: int|
            0 <= k < augmenting_fields_of(m).len() ==> 0 <= #[trigger] augmenting_positions(m)[k]
                < m.len() && augmenting_fields_of(m)[k] == m[augmenting_positions(m)[k]],
        forall|k: int, l: int|
            0 <= k < l < augmenting_fields_of(m).len() ==> augmenting_positions(m)[k]
                < augmenting_positions(m)[l],
{
    lemma_filter_keeps_order(m, |f: FieldModel| is_base(f));
    lemma_filter_keeps_order(m, |f: FieldModel| is_augmenting(f));
}

/// A field's effective type — its declared type, optional-wrapped exactly
/// when the field is nullable — appears identically in the row tuple at the
/// field's column, in the base-model member of every base field, and in the
/// identifier-augmented member of every augmenting field.
pub proof fn lemma_optional_wrapping_consistent(f: Seq<FieldModel>)
    ensures
        row_types_of(f).len() == 1 + f.len(),
        forall|i: int| 0 <= i < f.len() ==> row_types_of(f)[1 + i] == eff_ty(#[trigger] f[i]),
        forall|k: int|
            0 <= k < base_members(f).len() ==> #[trigger] base_members(f)[k].ty == row_types_of(
                f,
            )[1 + base_positions(f)[k]],
        forall|k: int|
            0 <= k < augmenting_members(f).len() ==> #[trigger] augmenting_members(f)[k].ty
                == row_types_of(f)[1 + augmenting_positions(f)[k]],
{
    lemma_partition_preserves_order(f);
    assert forall|k: int| 0 <= k < base_members(f).len() implies #[trigger] base_members(f)[k].ty
        == row_types_of(f)[1 + base_positions(f)[k]] by {
        assert(base_members(f)[k] == member_of(base_fields_of(f)[k]));
        assert(base_fields_of(f)[k] == f[base_positions(f)[k]]);
    }
    assert forall|k: int|
        0 <= k < augmenting_members(f).len() implies #[trigger] augmenting_members(f)[k].ty
        == row_types_of(f)[1 + augmenting_positions(f)[k]] by {
        assert(augmenting_members(f)[k] == member_of(augmenting_fields_of(f)[k]));
        assert(augmenting_fields_of(f)[k] == f[augmenting_positions(f)[k]]);
    }
}

/// The row mapping's assignment lists follow the partition's positions: the
/// inner list holds one entry per base field, in base-field order, reading
/// the column one past the field's original position; the outer list does
/// the same for the augmenting fields.
pub proof fn lemma_assigns_follow_positions(f: Seq<FieldModel>)
    ensures
        inner_assigns_of(f).len() == base_positions(f).len(),
        forall|k: int|
            0 <= k < base_positions(f).len() ==> #[trigger] inner_assigns_of(f)[k]
                == (AssignModel {
                name: f[base_positions(f)[k]].name,
                column: 1 + base_positions(f)[k],
            }),
        outer_assigns_of(f).len() == augmenting_positions(f).len(),
        forall|k: int|
            0 <= k < augmenting_positions(f).len() ==> #[trigger] outer_assigns_of(f)[k]
                == (AssignModel {
                name: f[augmenting_positions(f)[k]].name,
                column: 1 + augmenting_positions(f)[k],
            }),
    decreases f.len(),
{
    broadcast use vstd::seq_lib::group_filter_ensures;

    if f.len() == 0 {
        assert(column_pairs(f) =~= Seq::empty());
    } else {
        let rest = f.drop_last();
        lemma_assigns_follow_positions(rest);
        lemma_filter_keeps_order(rest, |g: FieldModel| is_base(g));
        lemma_filter_keeps_order(rest, |g: FieldModel| is_augmenting(g));
        let e = (f.last(), f.len() as int);
        assert(column_pairs(f) =~= column_pairs(rest).push(e));
        column_pairs(rest).lemma_filter_push(e, |p: (FieldModel, int)| is_base(p.0));
        column_pairs(rest).lemma_filter_push(e, |p: (FieldModel, int)| is_augmenting(p.0));
        lemma_map_values_push(
            column_pairs(rest).filter(|p: (FieldModel, int)| is_base(p.0)),
            e,
            |p: (FieldModel, int)| assign_of(p),
        );
        lemma_map_values_push(
            column_pairs(rest).filter(|p: (FieldModel, int)| is_augmenting(p.0)),
            e,
            |p: (FieldModel, int)| assign_of(p),
        );
        assert(forall|k: int|
            0 <= k < base_positions(rest).len() ==> f[#[trigger] base_positions(rest)[k]]
                == rest[base_positions(rest)[k]]);
        assert(forall|k: int|
            0 <= k < augmenting_positions(rest).len() ==> f[#[trigger] augmenting_positions(
                rest,
            )[k]] == rest[augmenting_positions(rest)[k]]);
    }
}

/// The decoded values follow the partition's positions: the inner values
/// hold, per base field in base-field order, the row value at the column one
/// past the field's original position; the outer values do the same for the
/// augmenting fields.
pub proof fn lemma_values_follow_positions<V>(f: Seq<FieldModel>, row: Seq<V>)
    ensures
        inner_values_of(f, row).len() == base_positions(f).len(),
        forall|k: int|
            0 <= k < base_positions(f).len() ==> #[trigger] inner_values_of(f, row)[k]
                == (FieldValueModel {
                name: f[base_positions(f)[k]].name,
                value: row[1 + base_positions(f)[k]],
            }),
        outer_values_of(f, row).len() == augmenting_positions(f).len(),
        forall|k: int|
            0 <= k < augmenting_positions(f).len() ==> #[trigger] outer_values_of(f, row)[k]
                == (FieldValueModel {
                name: f[augmenting_positions(f)[k]].name,
                value: row[1 + augmenting_positions(f)[k]],
            }),
    decreases f.len(),
{
    broadcast use vstd::seq_lib::group_filter_ensures;

    if f.len() == 0 {
        assert(value_pairs(f, row) =~= Seq::empty());
    } else {
        let rest = f.drop_last();
        lemma_values_follow_positions(rest, row);
        lemma_filter_keeps_order(rest, |g: FieldModel| is_base(g));
        lemma_filter_keeps_order(rest, |g: FieldModel| is_augmenting(g));
        let e = (f.last(), row[f.len() as int]);
        assert(value_pairs(f, row) =~= value_pairs(rest, row).push(e));
        value_pairs(rest, row).lemma_filter_push(e, |p: (FieldModel, V)| is_base(p.0));
        value_pairs(rest, row).lemma_filter_push(e, |p: (FieldModel, V)| is_augmenting(p.0));
        lemma_map_values_push(
            value_pairs(rest, row).filter(|p: (FieldModel, V)| is_base(p.0)),
            e,
            |p: (FieldModel, V)| field_value_of(p),
        );
        lemma_map_values_push(
            value_pairs(rest, row).filter(|p: (FieldModel, V)| is_augmenting(p.0)),
            e,
            |p: (FieldModel, V)| field_value_of(p),
        );
        assert(forall|k: int|
            0 <= k < base_positions(rest).len() ==> f[#[trigger] base_positions(rest)[k]]
                == rest[base_positions(rest)[k]]);
        assert(forall|k: int|
            0 <= k < augmenting_positions(rest).len() ==> f[#[trigger] augmenting_positions(
                rest,
            )[k]] == rest[augmenting_positions(rest)[k]]);
    }
}

/// Decoding reads back exactly the columns the row mapping names: the k-th
/// inner value carries the name of the k-th inner assignment and the row
/// value at its column, and likewise for the outer lists, for every
/// definition and every row of matching width.
pub proof fn lemma_decode_follows_mapping<V>(f: Seq<FieldModel>, row: Seq<V>)
    ensures
        inner_values_of(f, row).len() == inner_assigns_of(f).len(),
        forall|k: int|
            0 <= k < inner_assigns_of(f).len() ==> #[trigger] inner_values_of(f, row)[k].name
                == inner_assigns_of(f)[k].name && inner_values_of(f, row)[k].value
                == row[inner_assigns_of(f)[k].column],
        outer_values_of(f, row).len() == outer_assigns_of(f).len(),
        forall|k: int|
            0 <= k < outer_assigns_of(f).len() ==> #[trigger] outer_values_of(f, row)[k].name
                == outer_assigns_of(f)[k].name && outer_values_of(f, row)[k].value
                == row[outer_assigns_of(f)[k].column],
{
    lemma_assigns_follow_positions(f);
    lemma_values_follow_positions(f, row);
}

/// A definition whose attributes are all well-shaped but name no table
/// reference fails the parse — so no artifact is emitted — with
/// `MissingAttribute` naming the table attribute.
pub proof fn lemma_missing_table_rejected(s: RawStructModel)
    requires
        forall|i: int| 0 <= i < s.attrs.len() ==> (#[trigger] s.attrs[i]).name != "table"@,
        forall|i: int| 0 <= i < s.attrs.len() ==> !attr_malformed(#[trigger] s.attrs[i]),
    ensures
        parse_fails(s),
        parse_error(s) == GenErrorModel::MissingAttribute("table"@),
{
    lemma_last_attr_none(s.attrs, "table"@);
}

} // verus!
