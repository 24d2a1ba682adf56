//! The raw, unvalidated input of the compiler: attribute tokens and field
//! tokens exactly as a definition writes them, before any parsing.

use vstd::prelude::*;

verus! {

/// The shape of a definition-level attribute's value: a string literal
/// (`name = "value"`), a path (`name = a::b::c`), or no value at all.
pub enum AttrValue {
    Str(String),
    Path(String),
    Bare,
}

/// Spec-level image of an attribute value.
pub enum AttrValueModel {
    Str(Seq<char>),
    Path(Seq<char>),
    Bare,
}

impl View for AttrValue {
    type V = AttrValueModel;

    open spec fn view(&self) -> AttrValueModel {
        match self {
            AttrValue::Str(s) => AttrValueModel::Str(s@),
            AttrValue::Path(p) => AttrValueModel::Path(p@),
            AttrValue::Bare => AttrValueModel::Bare,
        }
    }
}

/// One definition-level attribute as written: its name and its value shape.
pub struct RawAttr {
    pub name: String,
    pub value: AttrValue,
}

/// Spec-level image of a raw attribute.
pub struct RawAttrModel {
    pub name: Seq<char>,
    pub value: AttrValueModel,
}

impl View for RawAttr {
    type V = RawAttrModel;

    open spec fn view(&self) -> RawAttrModel {
        RawAttrModel { name: self.name@, value: self.value@ }
    }
}

/// One field as written: its marker list (such as `optional` or `fk`), its
/// name, and its declared scalar type.
pub struct RawField {
    pub markers: Vec<String>,
    pub name: String,
    pub ty: String,
}

/// Spec-level image of a raw field.
pub struct RawFieldModel {
    pub markers: Seq<Seq<char>>,
    pub name: Seq<char>,
    pub ty: Seq<char>,
}

impl View for RawField {
    type V = RawFieldModel;

    open spec fn view(&self) -> RawFieldModel {
        RawFieldModel {
            markers: self.markers@.map_values(|m: String| m@),
            name: self.name@,
            ty: self.ty@,
        }
    }
}

/// The sequence of spec-level images of a raw attribute list.
pub open spec fn raw_attrs_model(s: Seq<RawAttr>) -> Seq<RawAttrModel> {
    s.map_values(|a: RawAttr| a@)
}

/// The sequence of spec-level images of a raw field list.
pub open spec fn raw_fields_model(s: Seq<RawField>) -> Seq<RawFieldModel> {
    s.map_values(|f: RawField| f@)
}

/// A whole resource definition as written: the attribute list, the declared
/// type name, and the field list in declaration order.
pub struct RawStruct {
    pub attrs: Vec<RawAttr>,
    pub ident: String,
    pub fields: Vec<RawField>,
}

/// Spec-level image of a raw definition.
pub struct RawStructModel {
    pub attrs: Seq<RawAttrModel>,
    pub ident: Seq<char>,
    pub fields: Seq<RawFieldModel>,
}

impl View for RawStruct {
    type V = RawStructModel;

    open spec fn view(&self) -> RawStructModel {
        RawStructModel {
            attrs: raw_attrs_model(self.attrs@),
            ident: self.ident@,
            fields: raw_fields_model(self.fields@),
        }
    }
}

} // verus!
