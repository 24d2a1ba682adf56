//! The model builders: the base-model artifact, holding one member per base
//! field, and the identifier-augmented model artifact, holding the synthetic
//! identifier, the embedded base model, and one member per augmenting field.

use vstd::prelude::*;
use crate::builder::Input;
use crate::classify::{augmenting_fields_of, base_fields_of, is_augmenting, is_base};
use crate::def::{eff_ty, fields_model, FieldModel};

verus! {

/// Spec-level image of one record member.
pub struct MemberModel {
    pub name: Seq<char>,
    pub ty: Seq<char>,
}

/// One member of a generated record type: its name and its effective type.
#[derive(Debug, PartialEq)]
pub struct Member {
    pub name: String,
    pub ty: String,
}

impl View for Member {
    type V = MemberModel;

    open spec fn view(&self) -> MemberModel {
        MemberModel { name: self.name@, ty: self.ty@ }
    }
}

/// Mapping a sequence extended by one element extends the mapped sequence by
/// the mapped element.
pub proof fn lemma_map_values_push<A, B>(s: Seq<A>, e: A, g: spec_fn(A) -> B)
    ensures
        s.push(e).map_values(g) == s.map_values(g).push(g(e)),
{
    assert(s.push(e).map_values(g) =~= s.map_values(g).push(g(e)));
}

/// The member a field contributes: the field's name with its effective type.
pub open spec fn member_of(f: FieldModel) -> MemberModel {
    MemberModel { name: f.name, ty: eff_ty(f) }
}

/// The sequence of spec-level member images of a member list.
pub open spec fn members_model(ms: Seq<Member>) -> Seq<MemberModel> {
    ms.map_values(|x: Member| x@)
}

/// The members of the base-model artifact: one per base field, in base-field
/// order.
pub open spec fn base_members(fields: Seq<FieldModel>) -> Seq<MemberModel> {
    base_fields_of(fields).map_values(|f: FieldModel| member_of(f))
}

/// The members of the identifier-augmented model artifact beyond the
/// identifier and the embedded base model: one per augmenting field, in
/// original relative order.
pub open spec fn augmenting_members(fields: Seq<FieldModel>) -> Seq<MemberModel> {
    augmenting_fields_of(fields).map_values(|f: FieldModel| member_of(f))
}

/// Spec-level image of the base-model artifact.
pub struct ModelArtifactModel {
    pub name: Seq<char>,
    pub members: Seq<MemberModel>,
}

/// The base-model artifact: the insertable and updatable record shape. It
/// deliberately excludes foreign-key fields, which live only on the
/// identifier-augmented model.
pub struct ModelArtifact {
    pub name: String,
    pub members: Vec<Member>,
}

impl View for ModelArtifact {
    type V = ModelArtifactModel;

    open spec fn view(&self) -> ModelArtifactModel {
        ModelArtifactModel { name: self.name@, members: members_model(self.members@) }
    }
}

/// The base-model artifact a definition describes.
pub open spec fn model_artifact_of(m: crate::def::StructModel) -> ModelArtifactModel {
    ModelArtifactModel { name: m.ident, members: base_members(m.fields) }
}

/// Spec-level image of the identifier-augmented model artifact.
pub struct ModelWithIdArtifactModel {
    pub name: Seq<char>,
    pub inner_name: Seq<char>,
    pub members: Seq<MemberModel>,
}

/// The identifier-augmented model artifact: the read shape returned by
/// queries — an integer identifier, an embedded base model named `inner`,
/// then one member per augmenting field.
pub struct ModelWithIdArtifact {
    pub name: String,
    pub inner_name: String,
    pub members: Vec<Member>,
}

impl View for ModelWithIdArtifact {
    type V = ModelWithIdArtifactModel;

    open spec fn view(&self) -> ModelWithIdArtifactModel {
        ModelWithIdArtifactModel {
            name: self.name@,
            inner_name: self.inner_name@,
            members: members_model(self.members@),
        }
    }
}

/// The identifier-augmented model artifact a definition describes.
pub open spec fn model_with_id_artifact_of(
    m: crate::def::StructModel,
) -> ModelWithIdArtifactModel {
    ModelWithIdArtifactModel {
        name: m.ident + "WithId"@,
        inner_name: m.ident,
        members: augmenting_members(m.fields),
    }
}

/// Builds the base-model artifact.
pub struct Model;

impl Model {
    /// Describes the base model: the declared type name, with one member per
    /// base field in base-field order, each carrying its effective type.
    pub fn build(self, input: &Input) -> (r: ModelArtifact)
        ensures
            r@ == model_artifact_of(input.parsed_struct@),
    {
        let ghost mf = input.parsed_struct@.fields;
        let mut members: Vec<Member> = Vec::new();
        for i in 0..input.parsed_struct.fields.len()
            invariant
                mf == fields_model(input.parsed_struct.fields@),
                mf.len() == input.parsed_struct.fields@.len(),
                members_model(members@) == base_members(mf.take(i as int)),
        {
            let f = &input.parsed_struct.fields[i];
            proof {
                assert(mf[i as int] == input.parsed_struct.fields@[i as int]@);
                assert(mf.take(i + 1 as int) =~= mf.take(i as int).push(mf[i as int]));
                mf.take(i as int).lemma_filter_push(mf[i as int], |g: FieldModel| is_base(g));
            }
            if !f.fk() {
                let member = Member { name: f.name.clone(), ty: f.ty() };
                proof {
                    assert(member@ == member_of(mf[i as int]));
                    lemma_map_values_push(
                        base_fields_of(mf.take(i as int)),
                        mf[i as int],
                        |g: FieldModel| member_of(g),
                    );
                    lemma_map_values_push(members@, member, |x: Member| x@);
                }
                members.push(member);
            }
            proof {
                assert(members_model(members@) =~= base_members(mf.take(i + 1 as int)));
            }
        }
        proof {
            assert(mf.take(mf.len() as int) =~= mf);
        }
        let r = ModelArtifact { name: input.parsed_struct.inner_model_name(), members };
        r
    }
}

/// Builds the identifier-augmented model artifact.
pub struct ModelWithId;

impl ModelWithId {
    /// Describes the identifier-augmented model: the suffixed type name, the
    /// embedded base model, and one member per augmenting field in original
    /// relative order, each carrying its effective type.
    pub fn build(self, input: &Input) -> (r: ModelWithIdArtifact)
        ensures
            r@ == model_with_id_artifact_of(input.parsed_struct@),
    {
        let ghost mf = input.parsed_struct@.fields;
        let mut members: Vec<Member> = Vec::new();
        for i in 0..input.parsed_struct.fields.len()
            invariant
                mf == fields_model(input.parsed_struct.fields@),
                mf.len() == input.parsed_struct.fields@.len(),
                members_model(members@) == augmenting_members(mf.take(i as int)),
        {
            let f = &input.parsed_struct.fields[i];
            proof {
                assert(mf[i as int] == input.parsed_struct.fields@[i as int]@);
                assert(mf.take(i + 1 as int) =~= mf.take(i as int).push(mf[i as int]));
                mf.take(i as int).lemma_filter_push(mf[i as int], |g: FieldModel| is_augmenting(g));
            }
            if f.fk() {
                let member = Member { name: f.name.clone(), ty: f.ty() };
                proof {
                    assert(member@ == member_of(mf[i as int]));
                    lemma_map_values_push(
                        augmenting_fields_of(mf.take(i as int)),
                        mf[i as int],
                        |g: FieldModel| member_of(g),
                    );
                    lemma_map_values_push(members@, member, |x: Member| x@);
                }
                members.push(member);
            }
            proof {
                assert(members_model(members@) =~= augmenting_members(mf.take(i + 1 as int)));
            }
        }
        proof {
            assert(mf.take(mf.len() as int) =~= mf);
        }
        let r = ModelWithIdArtifact {
            name: input.parsed_struct.model_name_with_id(),
            inner_name: input.parsed_struct.inner_model_name(),
            members,
        };
        r
    }
}

} // verus!
