use engine_bindgen::model::CppProperty;
use engine_bindgen::model::Engine;
use engine_bindgen::model::ValueType;
use engine_bindgen::normalize::Fault;
use engine_bindgen::scan::ignore_class_or_struct;
use engine_bindgen::scan::load_public_exports;
use engine_bindgen::scan::parse_brace_line;
use engine_bindgen::scan::parse_class_member;
use engine_bindgen::scan::parse_field;
use engine_bindgen::scan::parse_function;
use engine_bindgen::scan::parse_remove_brace;
use engine_bindgen::scan::remove_enum;
use engine_bindgen::scan::BraceType;
use engine_bindgen::scan::ClassMember;
use engine_bindgen::signature::parse_parameter;

fn lines(items: &[&str]) -> Vec<String> {
    items.iter().map(|s| s.to_string()).collect()
}

fn words(items: &[&str]) -> Vec<String> {
    lines(items)
}

#[test]
fn parameters_are_read_from_their_words() {
    let lists = vec![
        words(&["const", "FVector&", "Location"]),
        words(&["int32", "Count", "=", "3"]),
        words(&["void"]),
        words(&[]),
        words(&["AActor*"]),
        words(&["float"]),
    ];
    let parsed = parse_parameter(&lists).unwrap();
    assert_eq!(parsed.len(), 4);
    assert_eq!((parsed[0].name.as_str(), parsed[0].type_str.as_str()), ("Location", "FVector"));
    assert!(parsed[0].const_param && parsed[0].ref_param);
    assert_eq!((parsed[1].name.as_str(), parsed[1].type_str.as_str()), ("Count", "int32"));
    assert_eq!(parsed[1].default_value, Some("3".to_string()));
    assert_eq!(parsed[1].param_type, ValueType::I32.code());
    assert_eq!((parsed[2].name.as_str(), parsed[2].type_str.as_str()), ("arg2", "AActor"));
    assert!(parsed[2].ptr_param);
    assert_eq!((parsed[3].name.as_str(), parsed[3].type_str.as_str()), ("arg3", "float"));
    assert_eq!(parse_parameter(&vec![words(&["const"])]), Err(Fault));
    assert_eq!(parse_parameter(&vec![]), Ok(vec![]));
}

#[test]
fn prototypes_are_read_from_lines() {
    let l = lines(&[
        "    virtual const FVector& GetLocation(int32 Index, const FString &Name) const override;",
        "    static UWorld* GetWorld();",
        "    AActor(int a);",
        "    ~AActor();",
        "    int Field;",
        "    TArray<int> Get(int a);",
        "    int Value = Make(3);",
        "    int long Bad();",
        "    Junk override (a));",
    ]);
    let name = "AActor".to_string();
    let api = parse_function(&l, 1, Some(&name)).unwrap().unwrap();
    assert_eq!((api.name.as_str(), api.rc_type.as_str(), api.class_name.as_str()), ("GetWorld", "UWorld", "AActor"));
    assert!(api.is_static && api.ptr_ret && !api.is_construstor);
    assert_eq!(api.r_type, "UWorld");
    let api = parse_function(&l, 2, Some(&name)).unwrap().unwrap();
    assert!(api.is_construstor);
    assert_eq!((api.name.as_str(), api.rc_type.as_str()), ("AActor", "AActor"));
    assert_eq!(api.parameters.len(), 1);
    assert_eq!((api.parameters[0].name.as_str(), api.parameters[0].type_str.as_str()), ("a", "int"));
    let api = parse_function(&l, 3, Some(&name)).unwrap().unwrap();
    assert!(api.is_destructor);
    assert_eq!(parse_function(&l, 4, Some(&name)), Ok(None));
    let api = parse_function(&l, 5, Some(&name)).unwrap().unwrap();
    assert_eq!(api.name, "");
    assert_eq!(parse_function(&l, 6, Some(&name)), Ok(None));
    assert_eq!(parse_function(&l, 7, Some(&name)), Err(Fault));
    assert_eq!(parse_function(&l, 2, None), Err(Fault));
    let api = parse_function(&l, 1, None).unwrap().unwrap();
    assert_eq!(api.class_name, "");
    let api = parse_function(&l, 0, Some(&name)).unwrap().unwrap();
    assert_eq!((api.name.as_str(), api.rc_type.as_str(), api.r_type.as_str()), ("GetLocation", "FVector", "FVector"));
    assert!(api.is_virtual && api.is_const && api.is_override && api.const_ret && api.ref_ret && !api.ptr_ret);
    let params: Vec<(&str, &str, bool, bool)> = api
        .parameters
        .iter()
        .map(|p| (p.name.as_str(), p.type_str.as_str(), p.const_param, p.ref_param))
        .collect();
    assert_eq!(params, vec![("Index", "int32", false, false), ("Name", "FString", true, true)]);
    let dot = lines(&["float Dot(const Vector3& Other) const;", "const FName* Find() ;", "FText const& Label();"]);
    let api = parse_function(&dot, 0, Some(&name)).unwrap().unwrap();
    assert!(api.is_const && !api.const_ret && !api.ref_ret);
    assert_eq!((api.rc_type.as_str(), api.r_type.as_str()), ("float", "f32"));
    assert_eq!(api.parameters.len(), 1);
    assert_eq!(
        (api.parameters[0].type_str.as_str(), api.parameters[0].const_param, api.parameters[0].ref_param),
        ("Vector3", true, true)
    );
    let api = parse_function(&dot, 1, Some(&name)).unwrap().unwrap();
    assert!(!api.is_const && api.const_ret && api.ptr_ret);
    assert_eq!(api.rc_type, "FName");
    let api = parse_function(&dot, 2, Some(&name)).unwrap().unwrap();
    assert!(!api.is_const && api.const_ret && api.ref_ret);
    assert_eq!(api.rc_type, "FText");
}

#[test]
fn fields_are_read_from_lines() {
    let l = lines(&[
        "    float X;",
        "    static const int32 Count;",
        "    AActor* Owner = nullptr;",
        "    uint8 bOn : 1;",
        "    uint8 bOff:1;",
        "    int Items[4];",
        "    TArray<int> List;",
        "    void f() {}",
        "    int x",
        "    a b c d e f;",
        "    register int r;",
        "    X;",
    ]);
    let f = parse_field(&l, 0).unwrap().unwrap();
    assert_eq!((f.name.as_str(), f.type_str.as_str(), f.r_type.as_str()), ("X", "float", "f32"));
    assert_eq!(f.value_type, ValueType::F32.code());
    let f = parse_field(&l, 1).unwrap().unwrap();
    assert_eq!((f.name.as_str(), f.type_str.as_str()), ("Count", "int32"));
    assert!(f.is_const && !f.is_static);
    let f = parse_field(&l, 2).unwrap().unwrap();
    assert_eq!((f.name.as_str(), f.type_str.as_str()), ("Owner", "AActor"));
    assert!(f.is_ptr);
    let f = parse_field(&l, 3).unwrap().unwrap();
    assert_eq!((f.name.as_str(), f.type_str.as_str(), f.r_type.as_str()), ("bOn", "uint8", "u8"));
    assert!(f.bit_value && !f.is_ptr);
    let f = parse_field(&l, 4).unwrap().unwrap();
    assert_eq!((f.name.as_str(), f.type_str.as_str(), f.r_type.as_str()), ("bOff", "uint8", "u8"));
    assert!(f.bit_value);
    assert!(!parse_field(&l, 0).unwrap().unwrap().bit_value);
    assert!(!parse_field(&l, 2).unwrap().unwrap().bit_value);
    let hidden = lines(&["uint8 bHidden : 1;"]);
    let f = parse_field(&hidden, 0).unwrap().unwrap();
    assert_eq!(
        f,
        CppProperty {
            name: "bHidden".to_string(),
            type_str: "uint8".to_string(),
            r_type: "u8".to_string(),
            value_type: ValueType::U8.code(),
            bit_value: true,
            ..Default::default()
        }
    );
    assert_eq!(hidden, lines(&["uint8 bHidden : 1;"]));
    assert_eq!(parse_field(&l, 5).unwrap().unwrap(), CppProperty { unsupported: true, ..Default::default() });
    assert_eq!(parse_field(&l, 6).unwrap().unwrap(), CppProperty { unsupported: true, ..Default::default() });
    assert_eq!(parse_field(&l, 7), Ok(None));
    assert_eq!(parse_field(&l, 8), Ok(None));
    assert_eq!(parse_field(&l, 9), Err(Fault));
    assert_eq!(parse_field(&l, 10), Err(Fault));
    assert_eq!(parse_field(&l, 11), Ok(None));
}

#[test]
fn braces_are_told_apart() {
    let l = lines(&["  }  ", "{", "{}", "x {"]);
    assert_eq!(parse_brace_line(&l, 0), Some(BraceType::End));
    assert_eq!(parse_brace_line(&l, 1), Some(BraceType::Start));
    assert_eq!(parse_brace_line(&l, 2), Some(BraceType::StartAndEnd(String::new())));
    assert_eq!(parse_brace_line(&l, 3), None);
    let mut l = lines(&["  int f() { body } tail", "next"]);
    assert_eq!(parse_remove_brace(&mut l, 0, true), Ok(Some(BraceType::StartAndEnd("{ body ".to_string()))));
    assert_eq!(l, lines(&["int f()  tail", "next"]));
    let mut l = lines(&["};", "next"]);
    assert_eq!(parse_remove_brace(&mut l, 0, true), Ok(Some(BraceType::End)));
    assert_eq!(l, lines(&["next"]));
    let mut l = lines(&["};", "next"]);
    assert_eq!(parse_remove_brace(&mut l, 0, false), Ok(Some(BraceType::End)));
    assert_eq!(l, lines(&["};", "next"]));
    let mut l = lines(&["class A {"]);
    assert_eq!(parse_remove_brace(&mut l, 0, true), Ok(Some(BraceType::Start)));
    assert_eq!(l, lines(&["class A "]));
    let mut l = lines(&["} else {"]);
    assert_eq!(parse_remove_brace(&mut l, 0, true), Err(Fault));
    let mut l = lines(&["plain"]);
    assert_eq!(parse_remove_brace(&mut l, 0, true), Ok(None));
}

#[test]
fn nested_declarations_are_skipped() {
    let mut l = lines(&["enum EInner", "{", "  A,", "  B", "};", "int x;"]);
    assert!(remove_enum(&mut l, 0).unwrap().is_some());
    assert_eq!(l, lines(&["int x;"]));
    let mut l = lines(&["int x;"]);
    assert_eq!(remove_enum(&mut l, 0), Ok(None));
    let mut l = lines(&["enum EOpen", "{", "  A,"]);
    assert_eq!(remove_enum(&mut l, 0), Err(Fault));

    let mut l = lines(&["struct FInner", "{", "  int a;", "  void f() {", "  }", "};", "int x;"]);
    assert!(ignore_class_or_struct(&mut l, 0));
    assert_eq!(l, lines(&["", "int x;"]));
    let mut l = lines(&["class FFwd;", "int x;"]);
    assert!(ignore_class_or_struct(&mut l, 0));
    assert_eq!(l, lines(&["int x;"]));
    let mut l = lines(&["int x;"]);
    assert!(!ignore_class_or_struct(&mut l, 0));
    assert!(!ignore_class_or_struct(&mut l, 5));
    assert_eq!(l, lines(&["int x;"]));
}

#[test]
fn a_member_is_a_method_a_field_or_braces() {
    let name = "A".to_string();
    let mut l = lines(&["void f(int a);", "int x;", "};", "enum E", "{ A };", "junk"]);
    let mut at = 0;
    let found = parse_class_member(&mut l, &mut at, Some(&name)).unwrap();
    assert!(matches!(found, (Some(ClassMember::Function(_)), false)));
    let mut at = 1;
    let found = parse_class_member(&mut l, &mut at, Some(&name)).unwrap();
    assert!(matches!(found, (Some(ClassMember::Property(_)), false)));
    let mut at = 3;
    let found = parse_class_member(&mut l, &mut at, Some(&name)).unwrap();
    assert_eq!(found, (Some(ClassMember::Empty), false));
    assert_eq!(l, lines(&["void f(int a);", "int x;", "};", "junk"]));
    let mut at = 3;
    assert_eq!(parse_class_member(&mut l, &mut at, Some(&name)), Ok((None, false)));
    let mut at = 2;
    let found = parse_class_member(&mut l, &mut at, Some(&name)).unwrap();
    assert_eq!(found, (Some(ClassMember::Brace(BraceType::End)), true));
    assert_eq!(l, lines(&["void f(int a);", "int x;", "junk"]));
    let mut at = 9;
    assert_eq!(parse_class_member(&mut l, &mut at, Some(&name)), Err(Fault));
}

#[test]
fn a_walk_reads_the_public_members_of_a_class() {
    let mut l = lines(&[
        "class AThing",
        "{",
        "    int Hidden;",
        "public:",
        "    int Value;",
        "    int Get() const;",
        "    enum EInner",
        "    {",
        "        A",
        "    };",
        "    int Get(int a) const;",
        "    AThing();",
        "    int Get() const volatile;",
        "private:",
        "    void Secret();",
        "    uint8 bFlag : 1;",
        "};",
        "struct FPoint {",
        "    float X;",
        "    float Y;",
        "};",
    ]);
    let mut engine = Engine::default();
    let r = load_public_exports(&mut l, &mut engine, "Game/Thing.h");
    assert_eq!(r, Ok(()));
    assert_eq!(engine.classes.len(), 2);
    let thing = &engine.classes[0];
    let point = &engine.classes[1];
    assert_eq!(thing.name, "AThing");
    assert!(!thing.is_struct);
    let fields: Vec<&str> = thing.properties.iter().map(|p| p.name.as_str()).collect();
    assert_eq!(fields, vec!["Value"]);
    let apis: Vec<(&str, usize)> =
        thing.public_apis.iter().map(|a| (a.name.as_str(), a.parameters.len())).collect();
    assert_eq!(apis, vec![("AThing", 0), ("Get", 0), ("Get", 1)]);
    assert!(thing.public_apis[0].is_construstor);
    let hidden: Vec<(&str, bool)> =
        thing.none_public_properties.iter().map(|p| (p.name.as_str(), p.bit_value)).collect();
    assert_eq!(hidden, vec![("Hidden", false), ("bFlag", true)]);
    assert_eq!(thing.path, "Game/Thing.h");
    assert_eq!(point.path, "Game/Thing.h");
    let settings = engine_bindgen::model::CustomSettings::default();
    assert!(engine_bindgen::classify::is_opaque("AThing", &engine, &settings));
    assert!(!engine_bindgen::classify::is_opaque("FPoint", &engine, &settings));
    assert_eq!(point.name, "FPoint");
    assert!(point.is_struct);
    let fields: Vec<&str> = point.properties.iter().map(|p| p.name.as_str()).collect();
    assert_eq!(fields, vec!["X", "Y"]);
    assert!(!l.iter().any(|line| line.contains("Hidden") || line.contains("Secret")));
}

#[test]
fn a_walk_gives_up_on_lines_it_cannot_read() {
    let mut l = lines(&["class", "{", "};"]);
    let mut engine = Engine::default();
    assert_eq!(load_public_exports(&mut l, &mut engine, "x.h"), Err(Fault));
    let mut l = lines(&["struct FBad {", "    a b c d e f;", "};"]);
    assert_eq!(load_public_exports(&mut l, &mut engine, "x.h"), Err(Fault));
    let mut l: Vec<String> = vec![];
    assert_eq!(load_public_exports(&mut l, &mut engine, "x.h"), Ok(()));
    assert!(engine.classes.is_empty());
}
