use worm::codegen::attrs::get_helper_attr;
use worm::codegen::attrs::resolve_config;
use worm::codegen::attrs::ResultType;
use worm::codegen::attrs::WormAttr;
use worm::codegen::attrs::examine_result_type;
use worm::codegen::attrs::MAX_RESULT_TYPE_LENGTH;
use worm::codegen::attrs::RESULT_TYPE_TOO_LONG;
use worm::codegen::error::CodegenError;
use worm::codegen::error::Derive;
use worm::codegen::model::FieldDefinition;
use worm::codegen::paths::append_chars;
use worm::codegen::paths::build_script_path;
use worm::codegen::paths::join_paths;
use worm::codegen::paths::last_position_of;
use worm::codegen::paths::set_extension;
use worm::codegen::paths::SCRIPT_DIRECTORY;
use worm::codegen::paths::SCRIPT_EXTENSION;
use worm::codegen::model::StructFields;
use worm::codegen::model::TypeDefinition;
use worm::codegen::model::TypeShape;
use worm::codegen::result::build_row_field_extractors;
use worm::codegen::result::derive_script_result;
use worm::codegen::result::impl_derive_script_result_struct;
use worm::codegen::result::FieldExtractor;
use worm::codegen::script::derive_script;
use worm::codegen::script::impl_derive_script;
use worm::codegen::script::impl_derive_script_struct;
use worm::errors::FieldConversionError;
use worm::errors::RowConversionError;
use worm::sql::native::NativeType;
use worm::sql::native::NativeValue;
use worm::sql::SqlRow;
use worm::sql::SqlValue;

fn field(name: &str, native_type: NativeType) -> FieldDefinition {
    FieldDefinition { name: String::from(name), native_type: Some(native_type) }
}

fn account() -> TypeDefinition {
    TypeDefinition {
        name: String::from("DbAccount"),
        shape: TypeShape::Struct(StructFields::Named(vec![
            field("handle", NativeType::String),
            field("followers", NativeType::Unsigned32),
        ])),
    }
}

fn string_value(s: &str) -> SqlValue {
    SqlValue::String(String::from(s))
}

#[test]
fn values_behind_the_last_field_are_ignored() {
    let derived = derive_script_result(&account()).unwrap();
    let row = SqlRow::from_iter(vec![string_value("ann"), SqlValue::Signed64(12), SqlValue::Boolean(true)]);
    assert_eq!(
        derived.from_row(row),
        Ok(vec![NativeValue::String(String::from("ann")), NativeValue::Unsigned32(12)])
    );
}

#[test]
fn a_short_row_misses_the_first_field_without_a_value() {
    let derived = derive_script_result(&account()).unwrap();
    let row = SqlRow::from_iter(vec![string_value("ann")]);
    assert_eq!(
        derived.from_row(row),
        Err(RowConversionError::MissingFieldValue { field_name: String::from("followers") })
    );
    assert_eq!(
        derived.from_row(SqlRow::from_iter(vec![])),
        Err(RowConversionError::MissingFieldValue { field_name: String::from("handle") })
    );
}

#[test]
fn a_row_of_exactly_the_fields_is_read_in_order() {
    let derived = derive_script_result(&account()).unwrap();
    assert_eq!(derived.type_ident(), "DbAccount");
    let row = SqlRow::from_iter(vec![string_value(""), SqlValue::Unsigned8(0)]);
    assert_eq!(
        derived.from_row(row),
        Ok(vec![NativeValue::String(String::new()), NativeValue::Unsigned32(0)])
    );
}

#[test]
fn the_first_field_that_fails_gives_the_error() {
    let derived = derive_script_result(&account()).unwrap();
    let row = SqlRow::from_iter(vec![SqlValue::Null, SqlValue::Signed8(-1)]);
    assert_eq!(
        derived.from_row(row),
        Err(RowConversionError::FieldConversion {
            field_name: String::from("handle"),
            error: FieldConversionError::IncorrectType,
        })
    );
    let row = SqlRow::from_iter(vec![string_value("ann"), SqlValue::Signed8(-1)]);
    assert_eq!(
        derived.from_row(row),
        Err(RowConversionError::FieldConversion {
            field_name: String::from("followers"),
            error: FieldConversionError::ValueOutOfBounds,
        })
    );
    let row = SqlRow::from_iter(vec![SqlValue::Signed8(1)]);
    assert_eq!(
        derived.from_row(row),
        Err(RowConversionError::FieldConversion {
            field_name: String::from("handle"),
            error: FieldConversionError::IncorrectType,
        })
    );
}

#[test]
fn a_native_value_knows_its_type_and_converts_back() {
    let value = NativeType::Signed16.from_sql(SqlValue::Unsigned64(300)).unwrap();
    assert_eq!(value, NativeValue::Signed16(300));
    assert_eq!(value.native_type(), NativeType::Signed16);
    assert_eq!(value.into_sql(), SqlValue::Signed128(300));
    assert_eq!(
        NativeType::Boolean.from_sql(SqlValue::Unsigned64(1)),
        Err(FieldConversionError::IncorrectType)
    );
    assert_eq!(
        NativeType::Unsigned8.from_sql(SqlValue::Unsigned64(300)),
        Err(FieldConversionError::ValueOutOfBounds)
    );
}

#[test]
fn extractors_follow_the_named_fields() {
    let named = StructFields::Named(vec![field("a", NativeType::Boolean), field("b", NativeType::Signed8)]);
    assert_eq!(
        build_row_field_extractors("S", &named),
        Ok(vec![
            FieldExtractor { field_name: String::from("a"), native_type: NativeType::Boolean },
            FieldExtractor { field_name: String::from("b"), native_type: NativeType::Signed8 },
        ])
    );
    assert_eq!(build_row_field_extractors("S", &StructFields::Unit), Ok(vec![]));
    assert_eq!(build_row_field_extractors("S", &StructFields::Unnamed(vec![])), Ok(vec![]));
    assert_eq!(
        build_row_field_extractors("S", &StructFields::Unnamed(vec![Some(NativeType::Boolean)])),
        Err(CodegenError::UnnamedFields { type_ident: String::from("S") })
    );
}

#[test]
fn only_a_struct_with_named_fields_is_a_result() {
    let tagged = TypeDefinition { name: String::from("E"), shape: TypeShape::Enum };
    let error = derive_script_result(&tagged).unwrap_err();
    assert_eq!(error, CodegenError::NotAStruct { type_ident: String::from("E"), derive: Derive::SqlResult });
    assert_eq!(error.message(), "SqlResult can only be derived for a struct");
    let tagged = TypeDefinition { name: String::from("U"), shape: TypeShape::Union };
    assert!(derive_script_result(&tagged).is_err());
    let fields = StructFields::Unnamed(vec![Some(NativeType::Signed8)]);
    let error = impl_derive_script_result_struct("Pair", &fields).unwrap_err();
    assert_eq!(error, CodegenError::UnnamedFields { type_ident: String::from("Pair") });
    assert_eq!(error.message(), "The type 'Pair' has fields without a name");
    let unit = impl_derive_script_result_struct("Nothing", &StructFields::Unit).unwrap();
    assert_eq!(unit.from_row(SqlRow::from_iter(vec![SqlValue::Null])), Ok(vec![]));
}

#[test]
fn a_script_lies_under_the_name_of_its_struct_by_default() {
    let config = get_helper_attr("GetAllAccounts", "/w", None).unwrap();
    assert_eq!(config.path(), "/w/scripts/GetAllAccounts.sql");
    assert_eq!(*config.result(), ResultType::Unit);
    let attr = WormAttr { path: None, result: None };
    let config = get_helper_attr("GetAllAccounts", "/home/ann/agora", Some(attr)).unwrap();
    assert_eq!(config.path(), "/home/ann/agora/scripts/GetAllAccounts.sql");
    assert_eq!(*config.result(), ResultType::Unit);
    assert_eq!(SCRIPT_DIRECTORY, "scripts");
    assert_eq!(SCRIPT_EXTENSION, "sql");
    assert_eq!(build_script_path("/w", "GetAllAccounts"), "/w/scripts/GetAllAccounts.sql");
    assert_eq!(build_script_path("", ""), "scripts/.sql");
}

#[test]
fn the_attribute_overrides_the_defaults() {
    let attr = WormAttr { path: Some(String::from("accounts/all")), result: Some(String::from("DbAccount")) };
    let config = get_helper_attr("GetAllAccounts", "/w", Some(attr)).unwrap();
    assert_eq!(config.path(), "/w/scripts/accounts/all.sql");
    assert_eq!(*config.result(), ResultType::Named(String::from("DbAccount")));
}

#[test]
fn each_setting_takes_its_default_whatever_the_other_is() {
    let attr = WormAttr { path: None, result: Some(String::from("DbAccount")) };
    let config = get_helper_attr("GetAllAccounts", "/w", Some(attr)).unwrap();
    assert_eq!(config.path(), "/w/scripts/GetAllAccounts.sql");
    assert_eq!(*config.result(), ResultType::Named(String::from("DbAccount")));
    let attr = WormAttr { path: Some(String::from("all")), result: None };
    let config = get_helper_attr("GetAllAccounts", "/w", Some(attr)).unwrap();
    assert_eq!(config.path(), "/w/scripts/all.sql");
    assert_eq!(*config.result(), ResultType::Unit);
    let attr = WormAttr { path: None, result: Some(String::from("Vec<Option<u8>>")) };
    let config = get_helper_attr("S", ".", Some(attr)).unwrap();
    assert_eq!(config.path(), "./scripts/S.sql");
    assert_eq!(config.into_result(), ResultType::Named(String::from("Vec<Option<u8>>")));
}

#[test]
fn a_result_that_is_no_type_is_refused() {
    let attr = WormAttr { path: None, result: Some(String::from("Vec<")) };
    match get_helper_attr("S", "/w", Some(attr)) {
        Err(CodegenError::InvalidResultType { type_ident, result, reason }) => {
            assert_eq!(type_ident, "S");
            assert_eq!(result, "Vec<");
            assert!(!reason.is_empty());
            assert_ne!(reason, "Vec<");
        }
        other => panic!("{:?}", other),
    }
    let attr = WormAttr { path: None, result: Some(String::from("two words")) };
    assert!(get_helper_attr("S", "/w", Some(attr)).is_err());
    let attr = WormAttr { path: None, result: Some(String::new()) };
    assert!(get_helper_attr("S", "/w", Some(attr)).is_err());
}

#[test]
fn the_configuration_follows_what_the_parser_said() {
    let attr = WormAttr { path: None, result: Some(String::from("T")) };
    let error = resolve_config("S", "/w", Some(attr), Err(String::from("no"))).unwrap_err();
    assert_eq!(
        error,
        CodegenError::InvalidResultType {
            type_ident: String::from("S"),
            result: String::from("T"),
            reason: String::from("no"),
        }
    );
    assert_eq!(error.message(), "The result type 'T' of the type 'S' is not a type:\nno");
    let attr = WormAttr { path: Some(String::from("p")), result: None };
    let config = resolve_config("S", "/w", Some(attr), Err(String::from("no"))).unwrap();
    assert_eq!(config.path(), "/w/scripts/p.sql");
    assert_eq!(*config.result(), ResultType::Unit);
}

fn get_by_id() -> TypeDefinition {
    TypeDefinition {
        name: String::from("GetById"),
        shape: TypeShape::Struct(StructFields::Named(vec![field("id", NativeType::Signed64)])),
    }
}

#[test]
fn a_script_is_derived_from_the_text_of_its_file() {
    let attr = WormAttr { path: None, result: Some(String::from("DbAccount")) };
    let derived = derive_script(&get_by_id(), "/srv", Some(attr), |config| {
        assert_eq!(config.path(), "/srv/scripts/GetById.sql");
        Ok(String::from("SELECT * FROM accounts WHERE id = $id;"))
    })
    .unwrap();
    assert_eq!(derived.type_ident(), "GetById");
    assert_eq!(*derived.output(), ResultType::Named(String::from("DbAccount")));
    assert_eq!(derived.sql_template().sql_template(), "SELECT * FROM accounts WHERE id = {};");
    assert_eq!(
        derived.sql_template().compile(&vec![SqlValue::Signed128(7)]),
        Some(String::from("SELECT * FROM accounts WHERE id = 7;"))
    );
}

#[test]
fn a_script_that_cannot_be_read_is_reported_with_its_path() {
    let error = derive_script(&get_by_id(), "/srv", None, |_| Err(String::from("not found"))).unwrap_err();
    assert_eq!(
        error,
        CodegenError::UnreadableScript {
            type_ident: String::from("GetById"),
            path: String::from("/srv/scripts/GetById.sql"),
            reason: String::from("not found"),
        }
    );
    assert_eq!(
        error.message(),
        "Unable to open the script file at '/srv/scripts/GetById.sql':\nnot found"
    );
}

#[test]
fn only_a_struct_has_a_script() {
    let tagged = TypeDefinition { name: String::from("E"), shape: TypeShape::Enum };
    let error = derive_script(&tagged, "/w", None, |_| panic!("no file is read for an enum")).unwrap_err();
    assert_eq!(error, CodegenError::NotAStruct { type_ident: String::from("E"), derive: Derive::Script });
    assert_eq!(error.message(), "Script can only be derived for a struct.");
    let tagged = TypeDefinition { name: String::from("U"), shape: TypeShape::Union };
    let attr = WormAttr { path: None, result: Some(String::from("Vec<")) };
    assert_eq!(
        impl_derive_script(&tagged, "/w", Some(attr)),
        Err(CodegenError::NotAStruct { type_ident: String::from("U"), derive: Derive::Script })
    );
}

#[test]
fn a_bad_result_type_is_found_before_the_file_is_read() {
    let attr = WormAttr { path: None, result: Some(String::from("Vec<")) };
    let result = derive_script(&get_by_id(), "/w", Some(attr), |_| panic!("no file is read"));
    assert!(matches!(result, Err(CodegenError::InvalidResultType { .. })));
}

#[test]
fn the_template_of_a_script_is_checked_against_the_fields() {
    let fields = StructFields::Named(vec![field("id", NativeType::Signed64)]);
    let config = get_helper_attr("GetById", "/w", None).unwrap();
    let result = impl_derive_script_struct("GetById", &fields, config, Ok(String::from("$id $name")));
    assert_eq!(
        result.unwrap_err(),
        CodegenError::UnresolvedParameter {
            type_ident: String::from("GetById"),
            template: String::from("$id $name"),
            parameter: String::from("name"),
        }
    );
}

fn rename() -> TypeDefinition {
    TypeDefinition {
        name: String::from("Rename"),
        shape: TypeShape::Struct(StructFields::Named(vec![
            field("id", NativeType::Signed64),
            field("active", NativeType::Boolean),
            field("name", NativeType::String),
        ])),
    }
}

fn rename_script() -> worm::codegen::script::ScriptImpl {
    derive_script(&rename(), "/w", None, |_| Ok(String::from("UPDATE t SET name = $name WHERE id = $id; -- $name")))
        .unwrap()
}

#[test]
fn a_record_gives_the_values_of_the_parameters() {
    let script = rename_script();
    assert_eq!(
        *script.field_types(),
        vec![Some(NativeType::Signed64), Some(NativeType::Boolean), Some(NativeType::String)]
    );
    assert_eq!(*script.output(), ResultType::Unit);
    let record = vec![
        NativeValue::Signed64(-7),
        NativeValue::Boolean(true),
        NativeValue::String(String::from("Ann")),
    ];
    assert_eq!(
        script.compile(&record),
        Some(String::from("UPDATE t SET name = 'Ann' WHERE id = -7; -- 'Ann'"))
    );
}

#[test]
fn a_record_must_be_that_of_the_struct() {
    let script = rename_script();
    let short = vec![NativeValue::Signed64(-7), NativeValue::Boolean(true)];
    assert_eq!(script.compile(&short), None);
    let long = vec![
        NativeValue::Signed64(-7),
        NativeValue::Boolean(true),
        NativeValue::String(String::from("Ann")),
        NativeValue::Boolean(true),
    ];
    assert_eq!(script.compile(&long), None);
    let mistyped = vec![
        NativeValue::Signed32(-7),
        NativeValue::Boolean(true),
        NativeValue::String(String::from("Ann")),
    ];
    assert_eq!(script.compile(&mistyped), None);
    let unused_mistyped = vec![
        NativeValue::Signed64(-7),
        NativeValue::Unsigned8(1),
        NativeValue::String(String::from("Ann")),
    ];
    assert_eq!(script.compile(&unused_mistyped), None);
}

#[test]
fn a_native_value_converts_by_reference_as_by_value() {
    let values = vec![
        NativeValue::Boolean(false),
        NativeValue::String(String::from("x")),
        NativeValue::Signed8(-1),
        NativeValue::Unsigned64(u64::MAX),
        NativeValue::Float32(worm::sql::floats::Float32::new(2.5f32.to_bits(), format!("{}", 2.5f32))),
        NativeValue::Float64(worm::sql::floats::Float64::new(2.5f64.to_bits(), format!("{}", 2.5f64))),
    ];
    let literals: Vec<String> = values.iter().map(|value| value.to_sql().to_string()).collect();
    assert_eq!(literals, vec!["false", "'x'", "-1", "18446744073709551615", "2.5", "2.5"]);
    for value in values {
        let by_reference = value.to_sql();
        assert_eq!(by_reference, value.into_sql());
    }
}

#[test]
fn native_types_are_known_by_their_names() {
    assert_eq!(NativeType::named("bool"), Some(NativeType::Boolean));
    assert_eq!(NativeType::named("f32"), Some(NativeType::Float32));
    assert_eq!(NativeType::named("f64"), Some(NativeType::Float64));
    assert_eq!(NativeType::named("String"), Some(NativeType::String));
    assert_eq!(NativeType::named("i8"), Some(NativeType::Signed8));
    assert_eq!(NativeType::named("i16"), Some(NativeType::Signed16));
    assert_eq!(NativeType::named("i32"), Some(NativeType::Signed32));
    assert_eq!(NativeType::named("i64"), Some(NativeType::Signed64));
    assert_eq!(NativeType::named("i128"), Some(NativeType::Signed128));
    assert_eq!(NativeType::named("u8"), Some(NativeType::Unsigned8));
    assert_eq!(NativeType::named("u16"), Some(NativeType::Unsigned16));
    assert_eq!(NativeType::named("u32"), Some(NativeType::Unsigned32));
    assert_eq!(NativeType::named("u64"), Some(NativeType::Unsigned64));
    assert_eq!(NativeType::named("u128"), Some(NativeType::Unsigned128));
    assert_eq!(NativeType::named("usize"), None);
    assert_eq!(NativeType::named("string"), None);
    assert_eq!(NativeType::named(""), None);
}

fn mixed() -> TypeDefinition {
    TypeDefinition {
        name: String::from("Mixed"),
        shape: TypeShape::Struct(StructFields::Named(vec![
            field("id", NativeType::Signed64),
            FieldDefinition { name: String::from("tags"), native_type: None },
            FieldDefinition { name: String::from("extra"), native_type: None },
        ])),
    }
}

#[test]
fn a_field_of_another_type_may_stand_beside_the_parameters() {
    let derived = derive_script(&mixed(), "/w", None, |_| Ok(String::from("DELETE FROM t WHERE id = $id"))).unwrap();
    assert_eq!(*derived.field_types(), vec![Some(NativeType::Signed64), None, None]);
    let record = vec![NativeValue::Signed64(3), NativeValue::Boolean(false), NativeValue::Unsigned8(0)];
    assert_eq!(derived.compile(&record), Some(String::from("DELETE FROM t WHERE id = 3")));
    let record = vec![NativeValue::Signed32(3), NativeValue::Boolean(false), NativeValue::Unsigned8(0)];
    assert_eq!(derived.compile(&record), None);
}

#[test]
fn a_parameter_needs_a_field_of_a_native_type() {
    let error = derive_script(&mixed(), "/w", None, |_| Ok(String::from("$id $extra $tags"))).unwrap_err();
    assert_eq!(
        error,
        CodegenError::UnsupportedFieldType {
            type_ident: String::from("Mixed"),
            field_name: String::from("extra"),
        }
    );
    assert_eq!(
        error.message(),
        "The field 'extra' of the type 'Mixed' does not convert from or to a SQL value"
    );
    let error = derive_script(&mixed(), "/w", None, |_| Ok(String::from("$tags $missing"))).unwrap_err();
    assert!(matches!(error, CodegenError::UnresolvedParameter { .. }));
}

#[test]
fn every_field_of_a_result_needs_a_native_type() {
    assert_eq!(
        derive_script_result(&mixed()),
        Err(CodegenError::UnsupportedFieldType {
            type_ident: String::from("Mixed"),
            field_name: String::from("tags"),
        })
    );
}

#[test]
fn the_extension_of_a_script_is_set_not_added() {
    assert_eq!(build_script_path("/w", "get.sql"), "/w/scripts/get.sql");
    assert_eq!(build_script_path("/w", "get.txt"), "/w/scripts/get.sql");
    assert_eq!(build_script_path("/w", "a.b.c"), "/w/scripts/a.b.sql");
    assert_eq!(build_script_path("/w", "get."), "/w/scripts/get.sql");
    assert_eq!(build_script_path("/w", ".hidden"), "/w/scripts/.hidden.sql");
    assert_eq!(build_script_path("/w", "v1.2/all"), "/w/scripts/v1.2/all.sql");
    assert_eq!(build_script_path("/w", "v1.2/all.x"), "/w/scripts/v1.2/all.sql");
    assert_eq!(build_script_path("/w.d", "all"), "/w.d/scripts/all.sql");
}

#[test]
fn a_script_is_joined_with_its_directory_as_paths_are() {
    assert_eq!(build_script_path("/w/", "all"), "/w/scripts/all.sql");
    assert_eq!(build_script_path("/", "all"), "/scripts/all.sql");
    assert_eq!(build_script_path("", "all"), "scripts/all.sql");
    assert_eq!(build_script_path("/w", "/etc/all"), "/etc/all.sql");
    assert_eq!(build_script_path("/w", "/etc/all.x"), "/etc/all.sql");
    assert_eq!(build_script_path("w", "sub/all"), "w/scripts/sub/all.sql");
}

#[test]
fn the_file_of_a_script_is_that_of_the_path_type() {
    let cases = [
        ("/w", "GetAllAccounts"),
        ("/w", "get.sql"),
        ("/w", "a.b.c"),
        ("/w", ".hidden"),
        ("/w", "v1.2/all"),
        ("/w/", "all"),
        ("/w.d", "all"),
        ("/w", "/etc/all.x"),
        ("", "all"),
        ("relative/dir", "accounts/all.txt"),
    ];
    for (working_directory, script_name) in cases {
        let mut expected = std::path::PathBuf::from(working_directory);
        expected.push(SCRIPT_DIRECTORY);
        expected.push(script_name);
        expected.set_extension(SCRIPT_EXTENSION);
        assert_eq!(
            build_script_path(working_directory, script_name),
            expected.to_string_lossy(),
            "{:?} {:?}",
            working_directory,
            script_name
        );
    }
}

#[test]
fn parts_of_paths() {
    let path: Vec<char> = "a/b.c/d.e".chars().collect();
    assert_eq!(last_position_of(&path, '/'), Some(5));
    assert_eq!(last_position_of(&path, '.'), Some(7));
    assert_eq!(last_position_of(&path, 'x'), None);
    assert_eq!(last_position_of(&vec![], '/'), None);
    let extension: Vec<char> = "sql".chars().collect();
    assert_eq!(set_extension(&path, &extension), "a/b.c/d.sql".chars().collect::<Vec<char>>());
    let directory: Vec<char> = "a/b.c".chars().collect();
    let name: Vec<char> = "d".chars().collect();
    assert_eq!(join_paths(&directory, &name), "a/b.c/d".chars().collect::<Vec<char>>());
    assert_eq!(set_extension(&join_paths(&directory, &name), &extension), "a/b.c/d.sql".chars().collect::<Vec<char>>());
    let mut target = vec!['x'];
    append_chars(&mut target, &path, 3);
    assert_eq!(target, vec!['x', 'a', '/', 'b']);
}

#[test]
fn a_long_name_of_a_result_type_is_not_parsed() {
    let long = "T".repeat(MAX_RESULT_TYPE_LENGTH + 1);
    let attr = WormAttr { path: None, result: Some(long.clone()) };
    assert_eq!(
        get_helper_attr("S", "/w", Some(attr)),
        Err(CodegenError::InvalidResultType {
            type_ident: String::from("S"),
            result: long,
            reason: String::from(RESULT_TYPE_TOO_LONG),
        })
    );
    let deep = format!("{}u8{}", "(".repeat(5000), ")".repeat(5000));
    let attr = WormAttr { path: None, result: Some(deep) };
    assert!(matches!(
        get_helper_attr("S", "/w", Some(attr)),
        Err(CodegenError::InvalidResultType { .. })
    ));
    let attr = Some(WormAttr { path: None, result: Some("é".repeat(MAX_RESULT_TYPE_LENGTH + 1)) });
    assert_eq!(examine_result_type(&attr), Err(String::from(RESULT_TYPE_TOO_LONG)));
    assert_eq!(examine_result_type(&None), Ok(()));
    assert_eq!(examine_result_type(&Some(WormAttr { path: Some(String::from("p")), result: None })), Ok(()));
}

#[test]
fn the_longest_name_of_a_result_type_is_parsed() {
    assert_eq!(MAX_RESULT_TYPE_LENGTH, 64);
    let nested = format!("{}u8{}", "(".repeat(31), ")".repeat(31));
    assert_eq!(nested.chars().count(), MAX_RESULT_TYPE_LENGTH);
    let attr = WormAttr { path: None, result: Some(nested.clone()) };
    let config = get_helper_attr("S", "/w", Some(attr)).unwrap();
    assert_eq!(*config.result(), ResultType::Named(nested));
    let references = format!("{}T", "&".repeat(63));
    let attr = WormAttr { path: None, result: Some(references.clone()) };
    let config = get_helper_attr("S", "/w", Some(attr)).unwrap();
    assert_eq!(*config.result(), ResultType::Named(references));
    let long = "T".repeat(MAX_RESULT_TYPE_LENGTH);
    let attr = WormAttr { path: None, result: Some(long.clone()) };
    assert_eq!(*get_helper_attr("S", "/w", Some(attr)).unwrap().result(), ResultType::Named(long));
    let usual = String::from("std::collections::HashMap<String, Vec<Option<DbAccount>>>");
    let attr = WormAttr { path: None, result: Some(usual.clone()) };
    assert_eq!(*get_helper_attr("S", "/w", Some(attr)).unwrap().result(), ResultType::Named(usual));
}

#[test]
fn the_longest_names_that_are_no_types_are_refused_by_the_parser() {
    let texts = [
        format!("[T;{}1]", "!".repeat(59)),
        format!("[T;{}1]", "-".repeat(59)),
        format!("[T;{}1{}]", "{".repeat(29), "}".repeat(29)),
        format!("[T;{}1]", "||".repeat(29)),
        "(".repeat(64),
        format!("T{}", "<T".repeat(31)),
    ];
    for text in texts {
        assert!(text.chars().count() <= MAX_RESULT_TYPE_LENGTH);
        let attr = Some(WormAttr { path: None, result: Some(text.clone()) });
        match examine_result_type(&attr) {
            Ok(()) => {}
            Err(reason) => assert_ne!(reason, RESULT_TYPE_TOO_LONG),
        }
    }
}
