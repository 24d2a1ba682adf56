//! The definition parser: from raw attribute tokens and a raw field list to
//! a parsed resource definition, or a generation error naming the offending
//! attribute. The parse is pure; nothing is emitted on failure.

use vstd::prelude::*;
use crate::def::{opt_str_view, Attrs, AttrsModel, Field, FieldModel, Struct, StructModel};
use crate::error::{GenError, GenErrorModel};
use crate::names::eq_str;
use crate::raw::{
    raw_attrs_model, AttrValue, AttrValueModel, RawAttr, RawAttrModel, RawField, RawFieldModel,
    RawStruct, RawStructModel,
};

verus! {

/// Whether a definition-level attribute has an unexpected shape: the table
/// reference and the connection-variable override must be string literals
/// (`name = "value"`), and the schema reference must be a path
/// (`name = path`). Attributes of other names are not interpreted.
pub open spec fn attr_malformed(a: RawAttrModel) -> bool {
    if a.name == "table"@ || a.name == "env_var"@ {
        !(a.value is Str)
    } else if a.name == "schema"@ {
        !(a.value is Path)
    } else {
        false
    }
}

/// The payload carried by an attribute value, whatever its shape.
pub open spec fn attr_payload(v: AttrValueModel) -> Seq<char> {
    match v {
        AttrValueModel::Str(s) => s,
        AttrValueModel::Path(p) => p,
        AttrValueModel::Bare => Seq::empty(),
    }
}

/// The shape expected of an interpreted attribute, by its name: the table
/// reference and the connection-variable override are string literals, the
/// schema reference is a path.
pub open spec fn expected_shape_of(name: Seq<char>) -> Seq<char> {
    if name == "table"@ || name == "env_var"@ {
        "name = \"value\""@
    } else {
        "name = path"@
    }
}

/// The payload of the last attribute of a given name, if one occurs.
pub open spec fn last_attr(s: Seq<RawAttrModel>, name: Seq<char>) -> Option<Seq<char>>
    decreases s.len(),
{
    if s.len() == 0 {
        None
    } else if s.last().name == name {
        Some(attr_payload(s.last().value))
    } else {
        last_attr(s.drop_last(), name)
    }
}

/// The name of the first malformed attribute of the list.
pub open spec fn first_malformed_attr(s: Seq<RawAttrModel>) -> Seq<char>
    decreases s.len(),
{
    if s.len() == 0 {
        Seq::empty()
    } else if attr_malformed(s.first()) {
        s.first().name
    } else {
        first_malformed_attr(s.drop_first())
    }
}

/// If position `i` holds the first malformed attribute, the first malformed
/// name is that attribute's.
proof fn lemma_first_malformed_attr(s: Seq<RawAttrModel>, i: int)
    requires
        0 <= i < s.len(),
        attr_malformed(s[i]),
        forall|j: int| 0 <= j < i ==> !attr_malformed(s[j]),
    ensures
        first_malformed_attr(s) == s[i].name,
    decreases i,
{
    if i > 0 {
        lemma_first_malformed_attr(s.drop_first(), i - 1);
    }
}

/// An attribute of no interpreted name never counts as present.
pub proof fn lemma_last_attr_none(s: Seq<RawAttrModel>, name: Seq<char>)
    ensures
        last_attr(s, name) is None <==> forall|i: int|
            0 <= i < s.len() ==> (#[trigger] s[i]).name != name,
    decreases s.len(),
{
    if s.len() > 0 {
        lemma_last_attr_none(s.drop_last(), name);
        if last_attr(s, name) is None {
            assert forall|i: int| 0 <= i < s.len() implies (#[trigger] s[i]).name != name by {
                if i < s.len() - 1 {
                    assert(s.drop_last()[i] == s[i]);
                }
            }
        }
    }
}

impl Attrs {
    /// Extracts the string-literal payload of an attribute expected in the
    /// shape `name = "value"`.
    fn parse_attr(attr: &RawAttr) -> (r: Result<String, GenError>)
        ensures
            r is Ok <==> attr@.value is Str,
            r matches Ok(v) ==> v@ == attr_payload(attr@.value),
            r matches Err(e) ==> e@ == GenErrorModel::MalformedAttribute(
                attr@.name,
                "name = \"value\""@,
            ),
    {
        match &attr.value {
            AttrValue::Str(v) => Ok(v.clone()),
            _ => Err(
                GenError::MalformedAttribute {
                    attribute: attr.name.clone(),
                    expected: "name = \"value\"".to_owned(),
                },
            ),
        }
    }

    /// Extracts the path payload of an attribute expected in the shape
    /// `name = path`.
    fn parse_path_attr(attr: &RawAttr) -> (r: Result<String, GenError>)
        ensures
            r is Ok <==> attr@.value is Path,
            r matches Ok(v) ==> v@ == attr_payload(attr@.value),
            r matches Err(e) ==> e@ == GenErrorModel::MalformedAttribute(
                attr@.name,
                "name = path"@,
            ),
    {
        match &attr.value {
            AttrValue::Path(v) => Ok(v.clone()),
            _ => Err(
                GenError::MalformedAttribute {
                    attribute: attr.name.clone(),
                    expected: "name = path".to_owned(),
                },
            ),
        }
    }

    /// Scans the attribute list in order. Fails with `MalformedAttribute`,
    /// naming the first offending attribute, exactly when a table, env_var or
    /// schema attribute has an unexpected shape. Otherwise each of the three
    /// attributes takes the payload of its last occurrence, and attributes of
    /// other names are ignored.
    pub fn parse(attrs: &Vec<RawAttr>) -> (r: Result<Attrs, GenError>)
        ensures
            r is Err <==> exists|i: int|
                0 <= i < attrs@.len() && attr_malformed(#[trigger] raw_attrs_model(attrs@)[i]),
            r matches Err(e) ==> e@ == GenErrorModel::MalformedAttribute(
                first_malformed_attr(raw_attrs_model(attrs@)),
                expected_shape_of(first_malformed_attr(raw_attrs_model(attrs@))),
            ),
            r matches Ok(a) ==> a@.table == last_attr(raw_attrs_model(attrs@), "table"@)
                && a@.db_conn == last_attr(raw_attrs_model(attrs@), "env_var"@) && a@.schema
                == last_attr(raw_attrs_model(attrs@), "schema"@),
    {
        let ghost s = raw_attrs_model(attrs@);
        let mut db_conn: Option<String> = None;
        let mut table: Option<String> = None;
        let mut schema: Option<String> = None;
        for i in 0..attrs.len()
            invariant
                s == raw_attrs_model(attrs@),
                s.len() == attrs@.len(),
                forall|j: int| 0 <= j < i ==> !attr_malformed(s[j]),
                opt_str_view(table) == last_attr(s.take(i as int), "table"@),
                opt_str_view(db_conn) == last_attr(s.take(i as int), "env_var"@),
                opt_str_view(schema) == last_attr(s.take(i as int), "schema"@),
        {
            let a = &attrs[i];
            proof {
                reveal_strlit("table");
                reveal_strlit("env_var");
                reveal_strlit("schema");
                assert("table"@.len() == 5);
                assert("env_var"@.len() == 7);
                assert("schema"@.len() == 6);
                assert(s[i as int] == attrs@[i as int]@);
                assert(s.take(i + 1 as int).drop_last() =~= s.take(i as int));
                assert(s.take(i + 1 as int).last() == s[i as int]);
            }
            if eq_str(&a.name, "table") {
                match Attrs::parse_attr(a) {
                    Ok(v) => {
                        table = Some(v);
                    },
                    Err(e) => {
                        proof {
                            lemma_first_malformed_attr(s, i as int);
                        }
                        return Err(e);
                    },
                }
            } else if eq_str(&a.name, "env_var") {
                match Attrs::parse_attr(a) {
                    Ok(v) => {
                        db_conn = Some(v);
                    },
                    Err(e) => {
                        proof {
                            lemma_first_malformed_attr(s, i as int);
                        }
                        return Err(e);
                    },
                }
            } else if eq_str(&a.name, "schema") {
                match Attrs::parse_path_attr(a) {
                    Ok(v) => {
                        schema = Some(v);
                    },
                    Err(e) => {
                        proof {
                            lemma_first_malformed_attr(s, i as int);
                        }
                        return Err(e);
                    },
                }
            }
        }
        proof {
            assert(s.take(s.len() as int) =~= s);
        }
        Ok(Attrs { db_conn, table, schema })
    }
}

/// Whether a field marker lies outside the closed marker set.
pub open spec fn marker_bad(mk: Seq<char>) -> bool {
    mk != "optional"@ && mk != "fk"@
}

/// Whether a raw field carries any unrecognized marker.
pub open spec fn field_has_bad_marker(rf: RawFieldModel) -> bool {
    exists|j: int| 0 <= j < rf.markers.len() && marker_bad(#[trigger] rf.markers[j])
}

/// The first unrecognized marker of a marker list.
pub open spec fn first_bad_marker(mks: Seq<Seq<char>>) -> Seq<char>
    decreases mks.len(),
{
    if mks.len() == 0 {
        Seq::empty()
    } else if marker_bad(mks.first()) {
        mks.first()
    } else {
        first_bad_marker(mks.drop_first())
    }
}

/// If position `i` holds the first unrecognized marker, the first bad marker
/// is that one.
proof fn lemma_first_bad_marker(mks: Seq<Seq<char>>, i: int)
    requires
        0 <= i < mks.len(),
        marker_bad(mks[i]),
        forall|j: int| 0 <= j < i ==> !marker_bad(mks[j]),
    ensures
        first_bad_marker(mks) == mks[i],
    decreases i,
{
    if i > 0 {
        lemma_first_bad_marker(mks.drop_first(), i - 1);
    }
}

/// The parsed image of one raw field: the name and declared type carried
/// over, the nullable and foreign-key flags read off the marker list.
pub open spec fn field_of_raw(rf: RawFieldModel) -> FieldModel {
    FieldModel {
        name: rf.name,
        ty: rf.ty,
        nullable: rf.markers.contains("optional"@),
        fk: rf.markers.contains("fk"@),
    }
}

impl Field {
    /// Parses one raw field. Fails with `MalformedAttribute`, naming the
    /// first unrecognized marker, exactly when one occurs; repeated markers
    /// are idempotent, not errors.
    pub fn parse(raw: &RawField) -> (r: Result<Field, GenError>)
        ensures
            r is Err <==> field_has_bad_marker(raw@),
            r matches Err(e) ==> e@ == GenErrorModel::MalformedAttribute(
                first_bad_marker(raw@.markers),
                "optional or fk"@,
            ),
            r matches Ok(f) ==> f@ == field_of_raw(raw@),
    {
        let ghost mks = raw@.markers;
        let mut nullable: bool = false;
        let mut fk: bool = false;
        for i in 0..raw.markers.len()
            invariant
                mks == raw@.markers,
                mks.len() == raw.markers@.len(),
                forall|j: int| 0 <= j < i ==> !marker_bad(mks[j]),
                nullable == mks.take(i as int).contains("optional"@),
                fk == mks.take(i as int).contains("fk"@),
        {
            let mk = &raw.markers[i];
            proof {
                reveal_strlit("optional");
                reveal_strlit("fk");
                assert("optional"@.len() == 8);
                assert("fk"@.len() == 2);
                assert(mks[i as int] == raw.markers@[i as int]@);
                assert(mks.take(i + 1 as int) =~= mks.take(i as int).push(mks[i as int]));
                vstd::seq_lib::lemma_seq_contains_after_push(
                    mks.take(i as int),
                    mks[i as int],
                    "optional"@,
                );
                vstd::seq_lib::lemma_seq_contains_after_push(
                    mks.take(i as int),
                    mks[i as int],
                    "fk"@,
                );
            }
            if eq_str(mk, "optional") {
                nullable = true;
            } else if eq_str(mk, "fk") {
                fk = true;
            } else {
                proof {
                    lemma_first_bad_marker(mks, i as int);
                }
                return Err(
                    GenError::MalformedAttribute {
                        attribute: mk.clone(),
                        expected: "optional or fk".to_owned(),
                    },
                );
            }
        }
        proof {
            assert(mks.take(mks.len() as int) =~= mks);
        }
        Ok(Field { name: raw.name.clone(), ty: raw.ty.clone(), nullable, fk })
    }
}

/// Whether any field of the list carries an unrecognized marker.
pub open spec fn any_field_bad(fs: Seq<RawFieldModel>) -> bool {
    exists|i: int| 0 <= i < fs.len() && field_has_bad_marker(#[trigger] fs[i])
}

/// The first unrecognized marker over a whole field list.
pub open spec fn first_bad_field_marker(fs: Seq<RawFieldModel>) -> Seq<char>
    decreases fs.len(),
{
    if fs.len() == 0 {
        Seq::empty()
    } else if field_has_bad_marker(fs.first()) {
        first_bad_marker(fs.first().markers)
    } else {
        first_bad_field_marker(fs.drop_first())
    }
}

/// If field `i` is the first with an unrecognized marker, the first bad
/// marker over the list is that field's.
proof fn lemma_first_bad_field(fs: Seq<RawFieldModel>, i: int)
    requires
        0 <= i < fs.len(),
        field_has_bad_marker(fs[i]),
        forall|j: int| 0 <= j < i ==> !field_has_bad_marker(#[trigger] fs[j]),
    ensures
        first_bad_field_marker(fs) == first_bad_marker(fs[i].markers),
    decreases i,
{
    if i > 0 {
        lemma_first_bad_field(fs.drop_first(), i - 1);
    }
}

/// Whether parsing a raw definition fails: some interpreted attribute is
/// malformed, the table or schema reference is absent, or a field carries an
/// unrecognized marker.
pub open spec fn parse_fails(s: RawStructModel) -> bool {
    ||| exists|i: int| 0 <= i < s.attrs.len() && attr_malformed(#[trigger] s.attrs[i])
    ||| last_attr(s.attrs, "table"@) is None
    ||| last_attr(s.attrs, "schema"@) is None
    ||| any_field_bad(s.fields)
}

/// The error a failing parse reports: the first malformed attribute wins,
/// then a missing table reference, then a missing schema reference, then the
/// first unrecognized field marker.
pub open spec fn parse_error(s: RawStructModel) -> GenErrorModel {
    if exists|i: int| 0 <= i < s.attrs.len() && attr_malformed(#[trigger] s.attrs[i]) {
        GenErrorModel::MalformedAttribute(
            first_malformed_attr(s.attrs),
            expected_shape_of(first_malformed_attr(s.attrs)),
        )
    } else if last_attr(s.attrs, "table"@) is None {
        GenErrorModel::MissingAttribute("table"@)
    } else if last_attr(s.attrs, "schema"@) is None {
        GenErrorModel::MissingAttribute("schema"@)
    } else {
        GenErrorModel::MalformedAttribute(first_bad_field_marker(s.fields), "optional or fk"@)
    }
}

/// The definition a successful parse produces: each interpreted attribute
/// takes its last occurrence, the identifier is carried over, and each field
/// is the parsed image of its raw field, in declaration order.
pub open spec fn parsed_struct_of(s: RawStructModel) -> StructModel {
    StructModel {
        attrs: AttrsModel {
            db_conn: last_attr(s.attrs, "env_var"@),
            table: last_attr(s.attrs, "table"@),
            schema: last_attr(s.attrs, "schema"@),
        },
        ident: s.ident,
        fields: s.fields.map_values(|rf: RawFieldModel| field_of_raw(rf)),
    }
}

impl Struct {
    /// Parses a whole raw definition into a resource definition, or fails
    /// with the error `parse_error` names: a malformed attribute or marker,
    /// or a missing table or schema reference. Nothing is emitted on failure.
    pub fn parse(raw: &RawStruct) -> (r: Result<Struct, GenError>)
        ensures
            r is Err <==> parse_fails(raw@),
            r matches Err(e) ==> e@ == parse_error(raw@),
            r matches Ok(st) ==> st@ == parsed_struct_of(raw@),
    {
        let attrs = match Attrs::parse(&raw.attrs) {
            Ok(a) => a,
            Err(e) => {
                return Err(e);
            },
        };
        if attrs.table.is_none() {
            proof {
                lemma_last_attr_none(raw@.attrs, "table"@);
            }
            return Err(GenError::MissingAttribute { attribute: "table".to_owned() });
        }
        if attrs.schema.is_none() {
            proof {
                lemma_last_attr_none(raw@.attrs, "schema"@);
            }
            return Err(GenError::MissingAttribute { attribute: "schema".to_owned() });
        }
        let ghost fs = raw@.fields;
        let mut fields: Vec<Field> = Vec::new();
        for i in 0..raw.fields.len()
            invariant
                fs == raw@.fields,
                fs.len() == raw.fields@.len(),
                !(exists|k: int|
                    0 <= k < raw@.attrs.len() && attr_malformed(#[trigger] raw@.attrs[k])),
                last_attr(raw@.attrs, "table"@) is Some,
                last_attr(raw@.attrs, "schema"@) is Some,
                fields@.len() == i,
                forall|j: int| 0 <= j < i ==> !field_has_bad_marker(#[trigger] fs[j]),
                forall|j: int| 0 <= j < i ==> fields@[j]@ == field_of_raw(#[trigger] fs[j]),
        {
            proof {
                assert(fs[i as int] == raw.fields@[i as int]@);
            }
            match Field::parse(&raw.fields[i]) {
                Ok(f) => {
                    fields.push(f);
                },
                Err(e) => {
                    proof {
                        lemma_first_bad_field(fs, i as int);
                    }
                    return Err(e);
                },
            }
        }
        let st = Struct { attrs, ident: raw.ident.clone(), fields };
        proof {
            assert(st@.fields =~= raw@.fields.map_values(|rf: RawFieldModel| field_of_raw(rf)));
            assert(st@ == parsed_struct_of(raw@));
        }
        Ok(st)
    }
}

} // verus!
