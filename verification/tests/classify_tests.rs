use engine_bindgen::classify::black_api;
use engine_bindgen::classify::black_field;
use engine_bindgen::classify::export_type;
use engine_bindgen::classify::get_wrapper_type;
use engine_bindgen::classify::is_opaque;
use engine_bindgen::classify::is_void;
use engine_bindgen::classify::is_wrapper_type;
use engine_bindgen::classify::should_export_api;
use engine_bindgen::classify::should_export_property;
use engine_bindgen::classify::transparent_fields;
use engine_bindgen::model::is_false;
use engine_bindgen::model::CppApi;
use engine_bindgen::model::CppEnum;
use engine_bindgen::model::CppProperty;
use engine_bindgen::model::CustomSettings;
use engine_bindgen::model::Engine;
use engine_bindgen::model::ExportClass;
use engine_bindgen::model::Parameter;
use engine_bindgen::model::TypeAlias;
use engine_bindgen::model::UnrealClass;
use engine_bindgen::model::ValueType;
use engine_bindgen::primitives::get_c2r_types;
use engine_bindgen::primitives::get_engine_str;
use engine_bindgen::primitives::is_primary;
use engine_bindgen::primitives::is_rs_primary;
use engine_bindgen::primitives::is_string_type;
use engine_bindgen::primitives::parse_c_type;

fn field(name: &str, type_str: &str) -> CppProperty {
    let resolved = parse_c_type(type_str);
    CppProperty {
        name: name.to_string(),
        type_str: type_str.to_string(),
        r_type: resolved.0,
        value_type: resolved.1.code(),
        ..Default::default()
    }
}

fn class(name: &str, public: Vec<CppProperty>, hidden: Vec<CppProperty>) -> UnrealClass {
    UnrealClass {
        name: name.to_string(),
        properties: public,
        none_public_properties: hidden,
        ..Default::default()
    }
}

fn engine_of(classes: Vec<UnrealClass>) -> Engine {
    Engine { classes, ..Default::default() }
}

#[test]
fn scalar_names_resolve() {
    assert!(is_primary("float"));
    assert!(is_primary("size"));
    assert!(is_primary("size_t"));
    assert!(is_primary("void"));
    assert!(!is_primary("FVector"));
    assert!(!is_primary("int32_t"));
    assert!(!is_primary(""));
    assert_eq!(get_c2r_types("int32"), Some(("i32".to_string(), ValueType::I32)));
    assert_eq!(get_c2r_types("int64"), Some(("i64".to_string(), ValueType::I64)));
    assert_eq!(get_c2r_types("uint8"), Some(("u8".to_string(), ValueType::U8)));
    assert_eq!(get_c2r_types("double"), Some(("f64".to_string(), ValueType::F64)));
    assert_eq!(get_c2r_types("size"), Some(("usize".to_string(), ValueType::Usize)));
    assert_eq!(get_c2r_types("void"), Some(("()".to_string(), ValueType::Void)));
    assert_eq!(get_c2r_types("AActor"), None);
}

#[test]
fn companion_scalar_names() {
    for name in ["i32", "i64", "u32", "u64", "usize", "f32", "f64", "i16", "u16", "u8", "i8", "bool", "()"] {
        assert!(is_rs_primary(name), "{name}");
    }
    assert!(!is_rs_primary("int32"));
    assert!(!is_rs_primary("String"));
}

#[test]
fn string_kinds_and_objects_resolve() {
    assert!(is_string_type("FString"));
    assert!(is_string_type("FText"));
    assert!(!is_string_type("FName"));
    assert_eq!(get_engine_str("FName"), Some(("String".to_string(), ValueType::FName)));
    assert_eq!(get_engine_str("FText"), Some(("String".to_string(), ValueType::FText)));
    assert_eq!(get_engine_str("const char*"), Some(("String".to_string(), ValueType::CStr)));
    assert_eq!(get_engine_str("int"), None);
    assert_eq!(parse_c_type("float"), ("f32".to_string(), ValueType::F32));
    assert_eq!(parse_c_type("FString"), ("String".to_string(), ValueType::FString));
    assert_eq!(parse_c_type("AActor"), ("AActor".to_string(), ValueType::Object));
}

#[test]
fn value_type_numbers_round_trip() {
    let all = [
        ValueType::I32, ValueType::U32, ValueType::U64, ValueType::I64, ValueType::Usize,
        ValueType::F32, ValueType::F64, ValueType::I16, ValueType::U16, ValueType::U8,
        ValueType::I8, ValueType::Bool, ValueType::Void, ValueType::CStr, ValueType::Ptr,
        ValueType::FName, ValueType::FString, ValueType::Object, ValueType::FText,
        ValueType::Undefined,
    ];
    for v in all {
        assert_eq!(ValueType::from(v.code()), v);
        assert!(v.eq_code(v.code()));
    }
    assert_eq!(ValueType::I32.code(), 0);
    assert_eq!(ValueType::Object.code(), 17);
    assert_eq!(ValueType::Undefined.code(), 25);
    assert_eq!(ValueType::from(19), ValueType::Undefined);
    assert_eq!(ValueType::from(-1), ValueType::Undefined);
    assert!(!ValueType::I32.eq_code(1));
}

#[test]
fn is_false_negates() {
    assert!(is_false(&false));
    assert!(!is_false(&true));
}

#[test]
fn entity_is_transparent_exactly_when_all_fields_are_public_plain_and_exportable() {
    let settings = CustomSettings::default();
    let shapes: Vec<(Vec<CppProperty>, Vec<CppProperty>, bool)> = vec![
        (vec![field("x", "float"), field("y", "float")], vec![], false),
        (vec![], vec![], false),
        (vec![field("x", "float")], vec![field("h", "float")], true),
        (vec![CppProperty { bit_value: true, ..field("b", "uint8") }], vec![], true),
        (vec![field("o", "UnknownThing")], vec![], true),
        (vec![CppProperty { is_generic: true, ..field("g", "float") }], vec![], true),
        (vec![CppProperty { unsupported: true, ..field("a", "float") }], vec![], true),
        (vec![field("s", "FString"), field("n", "Inner")], vec![], false),
    ];
    for (public, hidden, opaque) in shapes {
        let e = class("E", public, hidden);
        let engine = engine_of(vec![e.clone(), class("Inner", vec![], vec![])]);
        assert_eq!(is_opaque("E", &engine, &settings), opaque, "{:?}", e);
        assert_eq!(transparent_fields(&engine, &e), !opaque);
    }
}

#[test]
fn opacity_of_other_names() {
    let engine = engine_of(vec![class("Vector3", vec![field("x", "float")], vec![])]);
    let mut settings = CustomSettings::default();
    assert!(!is_opaque("float", &engine, &settings));
    assert!(!is_opaque("FString", &engine, &settings));
    assert!(is_opaque("Unknown", &engine, &settings));
    assert!(is_opaque("", &engine, &settings));
    assert!(!is_opaque("Vector3", &engine, &settings));
    settings.ForceOpaque = vec!["Vector3".to_string(), "float".to_string()];
    assert!(is_opaque("Vector3", &engine, &settings));
    assert!(is_opaque("float", &engine, &settings));
    settings.TypeWrapper = vec![TypeAlias { native: "Vector3".to_string(), wrapper: "Vec3".to_string() }];
    assert!(!is_opaque("Vector3", &engine, &settings));
    assert!(is_wrapper_type("Vector3", &settings));
    assert!(!is_wrapper_type("Vec3", &settings));
    assert_eq!(get_wrapper_type("Vector3", &settings), "Vec3");
    assert_eq!(get_wrapper_type("Other", &settings), "Other");
}

#[test]
fn first_class_of_a_name_decides() {
    let engine = engine_of(vec![
        class("A", vec![field("x", "float")], vec![field("h", "float")]),
        class("A", vec![field("x", "float")], vec![]),
    ]);
    assert!(is_opaque("A", &engine, &CustomSettings::default()));
}

#[test]
fn exportable_members() {
    let mut engine = engine_of(vec![class("AActor", vec![], vec![])]);
    engine.enums.push(CppEnum { name: "EMode".to_string(), ..Default::default() });
    assert!(should_export_property(&engine, &field("a", "AActor")));
    assert!(should_export_property(&engine, &field("m", "EMode")));
    assert!(should_export_property(&engine, &field("s", "FText")));
    assert!(!should_export_property(&engine, &field("n", "FName")));
    assert!(!should_export_property(&engine, &field("u", "UWorld")));
    let api = CppApi {
        name: "F".to_string(),
        rc_type: "void".to_string(),
        parameters: vec![
            Parameter { type_str: "AActor".to_string(), ..Default::default() },
            Parameter { type_str: "int32".to_string(), ..Default::default() },
        ],
        ..Default::default()
    };
    assert!(should_export_api(&engine, &api));
    assert!(!should_export_api(&engine, &CppApi { is_destructor: true, ..api.clone() }));
    assert!(!should_export_api(&engine, &CppApi { is_generic: true, ..api.clone() }));
    assert!(!should_export_api(&engine, &CppApi { rc_type: "UWorld".to_string(), ..api.clone() }));
    let mut bad = api.clone();
    bad.parameters.push(Parameter { type_str: "UWorld".to_string(), ..Default::default() });
    assert!(!should_export_api(&engine, &bad));
}

#[test]
fn deny_list_names_members_by_entity_and_free_functions_by_name() {
    let settings = CustomSettings {
        BlackList: vec!["Actor.Destroy".to_string(), "Tick".to_string(), "Actor.secret".to_string()],
        ..Default::default()
    };
    let destroy = CppApi { class_name: "Actor".to_string(), name: "Destroy".to_string(), ..Default::default() };
    assert!(black_api(&destroy, &settings));
    let other = CppApi { class_name: "Pawn".to_string(), name: "Destroy".to_string(), ..Default::default() };
    assert!(!black_api(&other, &settings));
    let free = CppApi { name: "Tick".to_string(), ..Default::default() };
    assert!(black_api(&free, &settings));
    let method_tick = CppApi { class_name: "Actor".to_string(), name: "Tick".to_string(), ..Default::default() };
    assert!(!black_api(&method_tick, &settings));
    assert!(black_field("Actor", &field("secret", "float"), &settings));
    assert!(!black_field("Pawn", &field("secret", "float"), &settings));
    assert!(!black_field("Actor", &field("open", "float"), &settings));
}

#[test]
fn exported_types_and_void() {
    let settings = CustomSettings {
        ExportClasses: vec![ExportClass { class_name: "AActor".to_string(), ..Default::default() }],
        ..Default::default()
    };
    assert!(export_type("AActor", &settings));
    assert!(export_type("float", &settings));
    assert!(!export_type("UWorld", &settings));
    assert!(is_void("void"));
    assert!(is_void(""));
    assert!(!is_void("int32"));
}
