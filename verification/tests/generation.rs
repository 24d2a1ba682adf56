use postgres_resource::builder::{DatabaseConnection, Input, Schema, TableMacro};
use postgres_resource::classify::classify;
use postgres_resource::def::{Attrs, Field, Struct};
use postgres_resource::emit::{resource, usize_to_string};
use postgres_resource::error::GenError;
use postgres_resource::model::{Model, ModelWithId};
use postgres_resource::queryable::{decode_row, Queryable};
use postgres_resource::raw::{AttrValue, RawAttr, RawField, RawStruct};
use postgres_resource::uuid::Uuid;

fn attr_str(name: &str, value: &str) -> RawAttr {
    RawAttr { name: name.to_string(), value: AttrValue::Str(value.to_string()) }
}

fn attr_path(name: &str, value: &str) -> RawAttr {
    RawAttr { name: name.to_string(), value: AttrValue::Path(value.to_string()) }
}

fn raw_field(markers: &[&str], name: &str, ty: &str) -> RawField {
    RawField {
        markers: markers.iter().map(|m| m.to_string()).collect(),
        name: name.to_string(),
        ty: ty.to_string(),
    }
}

fn field(name: &str, ty: &str, nullable: bool, fk: bool) -> Field {
    Field { name: name.to_string(), ty: ty.to_string(), nullable, fk }
}

fn plain_def(ident: &str, table: Option<&str>, fields: Vec<Field>) -> Struct {
    Struct {
        attrs: Attrs {
            db_conn: None,
            table: table.map(|t| t.to_string()),
            schema: Some(format!("crate::schema::{}", table.unwrap_or("things"))),
        },
        ident: ident.to_string(),
        fields,
    }
}

fn account_raw() -> RawStruct {
    RawStruct {
        attrs: vec![
            attr_path("schema", "crate::schema::accounts"),
            attr_str("table", "accounts"),
        ],
        ident: "Account".to_string(),
        fields: vec![
            raw_field(&["optional"], "uuid", "Uuid"),
            raw_field(&["optional"], "username", "String"),
            raw_field(&["optional"], "password", "String"),
            raw_field(&["optional"], "email", "String"),
            raw_field(&["optional", "fk"], "verification_id", "i32"),
        ],
    }
}

#[test]
fn test() {
    let generated = resource(&account_raw());
    assert!(generated.is_ok());
}

#[test]
fn classify_partitions_and_keeps_order() {
    let fields = vec![
        field("a", "T1", false, false),
        field("b", "T2", false, true),
        field("c", "T3", true, false),
        field("d", "T4", false, true),
    ];
    let (base, augmenting) = classify(&fields);
    let base_names: Vec<&str> = base.iter().map(|f| f.name.as_str()).collect();
    let augmenting_names: Vec<&str> = augmenting.iter().map(|f| f.name.as_str()).collect();
    assert_eq!(base_names, vec!["a", "c"]);
    assert_eq!(augmenting_names, vec!["b", "d"]);
    assert_eq!(base.len() + augmenting.len(), fields.len());
    assert!(base.iter().all(|f| !f.fk));
    assert!(augmenting.iter().all(|f| f.fk));
}

#[test]
fn row_width_is_one_more_than_field_count() {
    for n in [0usize, 1, 2, 5, 12] {
        let fields: Vec<Field> =
            (0..n).map(|i| field(&format!("f{}", i), "i32", false, i % 2 == 0)).collect();
        let def = plain_def("Thing", Some("things"), fields);
        let q = Queryable.build(&Input { parsed_struct: def });
        assert_eq!(q.row_types.len(), n + 1);
        assert_eq!(q.row_types[0], "i32");
        assert_eq!(q.inner_assigns.len() + q.outer_assigns.len(), n);
    }
}

#[test]
fn round_trip_decode() {
    let def = plain_def(
        "Thing",
        Some("things"),
        vec![
            field("a", "T1", false, false),
            field("b", "T2", false, true),
            field("c", "T3", false, false),
        ],
    );
    let row: Vec<i64> = vec![7, 100, 200, 300];
    let decoded = decode_row(&def, &row).expect("matching width");
    assert_eq!(decoded.id, 7);
    assert_eq!(decoded.inner.len(), 2);
    assert_eq!(decoded.inner[0].name, "a");
    assert_eq!(decoded.inner[0].value, 100);
    assert_eq!(decoded.inner[1].name, "c");
    assert_eq!(decoded.inner[1].value, 300);
    assert_eq!(decoded.outer.len(), 1);
    assert_eq!(decoded.outer[0].name, "b");
    assert_eq!(decoded.outer[0].value, 200);
}

#[test]
fn decode_columns_follow_declaration_order() {
    // The mapping numbers columns by the original sequence, not by subset.
    let def = plain_def(
        "Thing",
        Some("things"),
        vec![
            field("x", "T1", false, true),
            field("y", "T2", false, false),
            field("z", "T3", false, true),
        ],
    );
    let q = Queryable.build(&Input { parsed_struct: def });
    assert_eq!(q.inner_assigns.len(), 1);
    assert_eq!(q.inner_assigns[0].name, "y");
    assert_eq!(q.inner_assigns[0].column, 2);
    assert_eq!(q.outer_assigns.len(), 2);
    assert_eq!(q.outer_assigns[0].name, "x");
    assert_eq!(q.outer_assigns[0].column, 1);
    assert_eq!(q.outer_assigns[1].name, "z");
    assert_eq!(q.outer_assigns[1].column, 3);
}

#[test]
fn naming_determinism() {
    let def = plain_def("Account", None, vec![]);
    assert_eq!(def.table_name(), "accounts");
    assert_eq!(def.model_name_with_id(), "AccountWithId");
    assert_eq!(def.controller_name(), "AccountController");
    assert_eq!(def.inner_model_name(), "Account");
}

#[test]
fn derived_table_name_is_snake_cased() {
    let def = plain_def("UserAccount", None, vec![]);
    assert_eq!(def.table_name(), "user_accounts");
    let overridden = plain_def("UserAccount", Some("people"), vec![]);
    assert_eq!(overridden.table_name(), "people");
}

#[test]
fn optional_wrapping_is_consistent() {
    let def = plain_def(
        "Thing",
        Some("things"),
        vec![field("u", "Uuid", true, false), field("v", "i32", true, true)],
    );
    let input = Input { parsed_struct: def };
    let model = Model.build(&input);
    let with_id = ModelWithId.build(&input);
    let q = Queryable.build(&input);
    assert_eq!(model.members.len(), 1);
    assert_eq!(model.members[0].name, "u");
    assert_eq!(model.members[0].ty, "Option<Uuid>");
    assert_eq!(with_id.members.len(), 1);
    assert_eq!(with_id.members[0].name, "v");
    assert_eq!(with_id.members[0].ty, "Option<i32>");
    assert_eq!(q.row_types, vec!["i32", "Option<Uuid>", "Option<i32>"]);
    assert_eq!(with_id.name, "ThingWithId");
    assert_eq!(with_id.inner_name, "Thing");
}

#[test]
fn missing_table_is_fatal() {
    let raw = RawStruct {
        attrs: vec![attr_path("schema", "crate::schema::accounts")],
        ident: "Account".to_string(),
        fields: vec![raw_field(&[], "name", "String")],
    };
    let r = resource(&raw);
    assert!(matches!(
        r,
        Err(GenError::MissingAttribute { ref attribute }) if attribute == "table"
    ));
}

#[test]
fn missing_schema_is_fatal() {
    let raw = RawStruct {
        attrs: vec![attr_str("table", "accounts")],
        ident: "Account".to_string(),
        fields: vec![],
    };
    let r = resource(&raw);
    assert!(matches!(
        r,
        Err(GenError::MissingAttribute { ref attribute }) if attribute == "schema"
    ));
}

#[test]
fn malformed_table_attribute() {
    let raw = RawStruct {
        attrs: vec![attr_path("table", "accounts"), attr_path("schema", "crate::schema::a")],
        ident: "Account".to_string(),
        fields: vec![],
    };
    let r = resource(&raw);
    assert!(matches!(
        r,
        Err(GenError::MalformedAttribute { ref attribute, ref expected })
            if attribute == "table" && expected == "name = \"value\""
    ));
}

#[test]
fn malformed_schema_attribute() {
    let raw = RawStruct {
        attrs: vec![attr_str("schema", "not a path"), attr_str("table", "accounts")],
        ident: "Account".to_string(),
        fields: vec![],
    };
    let r = resource(&raw);
    assert!(matches!(
        r,
        Err(GenError::MalformedAttribute { ref attribute, ref expected })
            if attribute == "schema" && expected == "name = path"
    ));
}

#[test]
fn malformed_field_marker() {
    let raw = RawStruct {
        attrs: vec![attr_str("table", "accounts"), attr_path("schema", "crate::schema::a")],
        ident: "Account".to_string(),
        fields: vec![raw_field(&["optional"], "ok", "i32"), raw_field(&["indexed"], "bad", "i32")],
    };
    let r = resource(&raw);
    assert!(matches!(
        r,
        Err(GenError::MalformedAttribute { ref attribute, ref expected })
            if attribute == "indexed" && expected == "optional or fk"
    ));
}

#[test]
fn duplicate_markers_are_idempotent() {
    let raw = RawStruct {
        attrs: vec![attr_str("table", "accounts"), attr_path("schema", "crate::schema::a")],
        ident: "Account".to_string(),
        fields: vec![raw_field(&["optional", "optional", "fk", "fk"], "v", "i32")],
    };
    let parsed = Struct::parse(&raw).expect("idempotent markers");
    assert_eq!(parsed.fields.len(), 1);
    assert!(parsed.fields[0].nullable);
    assert!(parsed.fields[0].fk);
}

#[test]
fn unknown_definition_attribute_is_ignored() {
    let raw = RawStruct {
        attrs: vec![
            attr_str("table", "accounts"),
            attr_path("schema", "crate::schema::a"),
            attr_str("comment", "anything"),
        ],
        ident: "Account".to_string(),
        fields: vec![],
    };
    assert!(resource(&raw).is_ok());
}

#[test]
fn last_attribute_occurrence_wins() {
    let raw = RawStruct {
        attrs: vec![
            attr_str("table", "first"),
            attr_path("schema", "crate::schema::a"),
            attr_str("table", "second"),
        ],
        ident: "Account".to_string(),
        fields: vec![],
    };
    let parsed = Struct::parse(&raw).expect("well-formed");
    assert_eq!(parsed.attrs.table.as_deref(), Some("second"));
    assert_eq!(parsed.table_name(), "second");
}

#[test]
fn row_arity_mismatch_is_fatal() {
    let def = plain_def("Thing", Some("things"), vec![field("a", "i32", false, false)]);
    let short: Vec<i64> = vec![7];
    let r = decode_row(&def, &short);
    assert!(matches!(r, Err(GenError::RowArityMismatch { fields: 1, row_width: 1 })));
    let empty: Vec<i64> = vec![];
    let r = decode_row(&def, &empty);
    assert!(matches!(r, Err(GenError::RowArityMismatch { fields: 1, row_width: 0 })));
    let long: Vec<i64> = vec![7, 8, 9];
    assert!(decode_row(&def, &long).is_err());
}

#[test]
fn decimal_rendering() {
    assert_eq!(usize_to_string(0), "0");
    assert_eq!(usize_to_string(7), "7");
    assert_eq!(usize_to_string(10), "10");
    assert_eq!(usize_to_string(123), "123");
    assert_eq!(usize_to_string(4096), "4096");
}

#[test]
fn small_builders() {
    let def = plain_def("World", Some("worlds"), vec![]);
    let input = Input { parsed_struct: def };
    assert_eq!(TableMacro.build(&input), "#[table_name = \"worlds\"]");
    assert_eq!(Schema.build(&input), "crate::schema::worlds");
    assert_eq!(DatabaseConnection.build(&input), "&self.connection()");

    let mut with_env = plain_def("World", Some("worlds"), vec![]);
    with_env.attrs.db_conn = Some("WORLDS_DB".to_string());
    with_env.attrs.schema = None;
    let input = Input { parsed_struct: with_env };
    assert_eq!(Schema.build(&input), "crate::schema::worlds");
    assert_eq!(DatabaseConnection.build(&input), "&self.connection_string(\"WORLDS_DB\")");
}

#[test]
fn env_var_override_reaches_controller() {
    let raw = RawStruct {
        attrs: vec![
            attr_str("table", "worlds"),
            attr_path("schema", "crate::schema::worlds"),
            attr_str("env_var", "WORLDS_DB"),
        ],
        ident: "World".to_string(),
        fields: vec![],
    };
    let text = resource(&raw).expect("well-formed");
    assert!(text.contains("&self.connection_string(\"WORLDS_DB\")"));
    assert!(!text.contains("&self.connection()"));
}

#[test]
fn generated_bundle_exact() {
    let raw = RawStruct {
        attrs: vec![
            attr_path("schema", "crate::schema::worlds"),
            attr_str("table", "worlds"),
        ],
        ident: "World".to_string(),
        fields: vec![
            raw_field(&[], "name", "String"),
            raw_field(&["optional", "fk"], "moon_id", "i32"),
        ],
    };
    let text = resource(&raw).expect("well-formed");
    let expected: String = vec![
        "#[table_name = \"worlds\"]\n",
        "pub struct WorldWithId {\n",
        "    pub id: i32,\n",
        "    pub inner: World,\n",
        "    pub moon_id: Option<i32>,\n",
        "}\n",
        "\n",
        "#[table_name = \"worlds\"]\n",
        "pub struct World {\n",
        "    pub name: String,\n",
        "}\n",
        "\n",
        "impl diesel::Queryable<worlds::SqlType, diesel::pg::Pg> for WorldWithId {\n",
        "    type Row = (i32, String, Option<i32>, );\n",
        "    fn build(row: Self::Row) -> Self {\n",
        "        WorldWithId {\n",
        "            id: row.0,\n",
        "            inner: World { name: row.1, },\n",
        "            moon_id: row.2,\n",
        "        }\n",
        "    }\n",
        "}\n",
        "\n",
        "pub struct WorldController;\n",
        "\n",
        "impl ResourceDB for WorldController {}\n",
        "impl Resource for WorldController {\n",
        "    type Table = crate::schema::worlds::table;\n",
        "    type Model = World;\n",
        "}\n",
        "impl ResourceWithId for WorldController {\n",
        "    type SQLType = crate::schema::worlds::SqlType;\n",
        "    type ModelWithId = WorldWithId;\n",
        "}\n",
        "impl ResourceController for WorldController {\n",
        "    fn create(&self, model: &Self::Model) -> Result<Self::ModelWithId, Error> {\n",
        "        Ok(insert_into(crate::schema::worlds::table).values(model).get_result(&self.connection())?)\n",
        "    }\n",
        "\n",
        "    fn get_one(&self, by: Expr<crate::schema::worlds::table>) -> Result<Self::ModelWithId, Error> {\n",
        "        Ok(crate::schema::worlds::table.filter(by).get_result::<Self::ModelWithId>(&self.connection())?)\n",
        "    }\n",
        "\n",
        "    fn get_all(&self, by: Expr<crate::schema::worlds::table>) -> Result<Vec<Self::ModelWithId>, Error> {\n",
        "        Ok(crate::schema::worlds::table.filter(by).get_results::<Self::ModelWithId>(&self.connection())?)\n",
        "    }\n",
        "\n",
        "    fn update(&self, model: &Self::Model, by: Expr<crate::schema::worlds::table>) -> Result<Self::ModelWithId, Error> {\n",
        "        Ok(update(crate::schema::worlds::table).filter(by).set(model).get_result::<Self::ModelWithId>(&self.connection())?)\n",
        "    }\n",
        "\n",
        "    fn delete(&self, by: Expr<crate::schema::worlds::table>) -> Result<usize, Error> {\n",
        "        Ok(delete(crate::schema::worlds::table).filter(by).execute(&self.connection())?)\n",
        "    }\n",
        "}\n",
    ]
    .join("");
    assert_eq!(text, expected);
}

#[test]
fn two_digit_columns_render_in_the_mapping() {
    let fields: Vec<RawField> =
        (0..12).map(|i| raw_field(&[], &format!("f{}", i), "i32")).collect();
    let raw = RawStruct {
        attrs: vec![attr_str("table", "wide"), attr_path("schema", "crate::schema::wide")],
        ident: "Wide".to_string(),
        fields,
    };
    let text = resource(&raw).expect("well-formed");
    assert!(text.contains("f9: row.10, "));
    assert!(text.contains("f10: row.11, "));
    assert!(text.contains("f11: row.12, "));
}

#[test]
fn field_effective_type() {
    let f = field("u", "Uuid", true, false);
    assert_eq!(f.ty(), "Option<Uuid>");
    assert!(!f.fk());
    let g = field("v", "i32", false, true);
    assert_eq!(g.ty(), "i32");
    assert!(g.fk());
}

#[test]
fn uuid_round_trip() {
    let bytes: Vec<u8> = (0u8..16).collect();
    let u = Uuid::from_sql(Some(&bytes)).expect("sixteen bytes");
    assert_eq!(u.to_sql(), &bytes[..]);
    assert!(Uuid::from_sql(Some(&bytes[..15])).is_none());
    assert!(Uuid::from_sql(None).is_none());
}
