//! The field classifier: partitions a definition's fields into the base
//! subset (persisted on the unadorned model) and the augmenting subset
//! (foreign-key fields, promoted onto the identifier-augmented model),
//! preserving declaration order within each subset.

use vstd::prelude::*;
use crate::def::{Field, FieldModel, fields_model};

verus! {

/// Whether a field belongs to the base subset: it is not foreign-key.
pub open spec fn is_base(f: FieldModel) -> bool {
    !f.fk
}

/// Whether a field belongs to the augmenting subset: it is foreign-key.
pub open spec fn is_augmenting(f: FieldModel) -> bool {
    f.fk
}

/// The base subset of a field sequence, in declaration order.
pub open spec fn base_fields_of(m: Seq<FieldModel>) -> Seq<FieldModel> {
    m.filter(|f: FieldModel| is_base(f))
}

/// The augmenting subset of a field sequence, in declaration order.
pub open spec fn augmenting_fields_of(m: Seq<FieldModel>) -> Seq<FieldModel> {
    m.filter(|f: FieldModel| is_augmenting(f))
}

/// Partitions the fields into the base subset and the augmenting subset.
/// Every field lands in exactly one subset, and each subset keeps the
/// declaration order. The classification is total: it cannot fail.
pub fn classify(fields: &Vec<Field>) -> (r: (Vec<Field>, Vec<Field>))
    ensures
        fields_model(r.0@) == base_fields_of(fields_model(fields@)),
        fields_model(r.1@) == augmenting_fields_of(fields_model(fields@)),
{
    let ghost m = fields_model(fields@);
    let mut base: Vec<Field> = Vec::new();
    let mut aug: Vec<Field> = Vec::new();
    for i in 0..fields.len()
        invariant
            m == fields_model(fields@),
            m.len() == fields@.len(),
            fields_model(base@) == base_fields_of(m.take(i as int)),
            fields_model(aug@) == augmenting_fields_of(m.take(i as int)),
    {
        let f = fields[i].clone();
        proof {
            assert(m[i as int] == fields@[i as int]@);
            assert(m.take(i + 1 as int) =~= m.take(i as int).push(m[i as int]));
            m.take(i as int).lemma_filter_push(m[i as int], |g: FieldModel| is_base(g));
            m.take(i as int).lemma_filter_push(m[i as int], |g: FieldModel| is_augmenting(g));
        }
        if f.fk {
            aug.push(f);
            proof {
                assert(fields_model(aug@) =~= augmenting_fields_of(m.take(i + 1 as int)));
                assert(fields_model(base@) =~= base_fields_of(m.take(i + 1 as int)));
            }
        } else {
            base.push(f);
            proof {
                assert(fields_model(base@) =~= base_fields_of(m.take(i + 1 as int)));
                assert(fields_model(aug@) =~= augmenting_fields_of(m.take(i + 1 as int)));
            }
        }
    }
    proof {
        assert(m.take(fields@.len() as int) =~= m);
    }
    (base, aug)
}

} // verus!
