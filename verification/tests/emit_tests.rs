use engine_bindgen::classify::is_opaque;
use engine_bindgen::emit::assemble;
use engine_bindgen::emit::generate;
use engine_bindgen::emit_class::gen_class;
use engine_bindgen::emit_class::parse_properties;
use engine_bindgen::emit_class::ClassOutcome;
use engine_bindgen::emit_method::designed_text;
use engine_bindgen::emit_method::parse_functions;
use engine_bindgen::emit_method::passes;
use engine_bindgen::emit_method::render_companion;
use engine_bindgen::emit_method::render_define;
use engine_bindgen::emit_method::render_native;
use engine_bindgen::emit_method::render_register;
use engine_bindgen::emit_method::render_slot;
use engine_bindgen::emit_method::EmitError;
use engine_bindgen::model::CppApi;
use engine_bindgen::model::CppProperty;
use engine_bindgen::model::CustomSettings;
use engine_bindgen::model::Engine;
use engine_bindgen::model::ExportClass;
use engine_bindgen::model::Parameter;
use engine_bindgen::model::TypeAlias;
use engine_bindgen::model::UnrealClass;
use engine_bindgen::registry::CodeGenerator;
use engine_bindgen::registry::TypeImpl;

fn float_field(name: &str) -> CppProperty {
    CppProperty {
        name: name.to_string(),
        type_str: "float".to_string(),
        r_type: "f32".to_string(),
        ..Default::default()
    }
}

fn param(name: &str, type_str: &str, r_type: &str) -> Parameter {
    Parameter {
        name: name.to_string(),
        type_str: type_str.to_string(),
        r_type: r_type.to_string(),
        ..Default::default()
    }
}

fn method(class: &str, name: &str, rc_type: &str, r_type: &str, parameters: Vec<Parameter>) -> CppApi {
    CppApi {
        name: name.to_string(),
        class_name: class.to_string(),
        rc_type: rc_type.to_string(),
        r_type: r_type.to_string(),
        parameters,
        ..Default::default()
    }
}

fn dot() -> CppApi {
    CppApi {
        is_const: true,
        ..method(
            "Vector3",
            "Dot",
            "float",
            "f32",
            vec![Parameter { const_param: true, ref_param: true, ..param("other", "Vector3", "Vector3") }],
        )
    }
}

fn vector3() -> UnrealClass {
    UnrealClass {
        name: "Vector3".to_string(),
        path: "Math/Vector3.h".to_string(),
        is_struct: true,
        properties: vec![float_field("x"), float_field("y"), float_field("z")],
        public_apis: vec![dot()],
        ..Default::default()
    }
}

fn actor() -> UnrealClass {
    UnrealClass {
        name: "Actor".to_string(),
        path: "GameFramework/Actor.h".to_string(),
        properties: vec![float_field("Lifetime")],
        none_public_properties: vec![float_field("Hidden")],
        public_apis: vec![CppApi {
            is_construstor: true,
            ..method("Actor", "Actor", "Actor", "Actor", vec![])
        }],
        ..Default::default()
    }
}

fn export(name: &str) -> ExportClass {
    ExportClass { class_name: name.to_string(), ..Default::default() }
}

fn settings_for(names: &[&str]) -> CustomSettings {
    CustomSettings {
        ExportClasses: names.iter().map(|n| export(n)).collect(),
        ..Default::default()
    }
}

#[test]
fn vector3_crosses_by_value_and_dot_is_bound() {
    let engine = Engine { classes: vec![vector3()], ..Default::default() };
    let settings = settings_for(&["Vector3"]);
    assert!(!is_opaque("Vector3", &engine, &settings));
    let out = generate(&engine, &settings, "// head", None, None).unwrap();
    assert!(out.companion.contains(
        "#[repr(C)]\npub struct Vector3{\n\tpub x: f32,\r\n\tpub y: f32,\r\n\tpub z: f32\n}\nimpl Vector3{"
    ));
    assert!(out.companion.contains("\tpub fn Dot(&self, other: Vector3) -> f32{"));
    assert!(out
        .companion
        .contains("type Vector3_DotInvoker = unsafe extern \"C\" fn(*mut c_void, Vector3) -> f32;"));
    assert!(out
        .companion
        .contains("Vector3_DotInvokerHandler.as_ref().unwrap()(self as *const Self as *mut c_void, other) }"));
    assert!(out
        .companion
        .contains("extern \"C\" fn set_Vector3_Dot_handler(handler: Vector3_DotInvoker){"));
    assert!(!out.companion.contains("Vector3Opaque"));
    assert!(!out.companion.contains("impl IPtr for Vector3"));
    assert!(out.native_source.contains("\tfloat uapi_Vector3_Dot(void* target, Vector3 other){"));
    assert!(!out.native_source.contains("Vector3&"));
    assert!(!out.native_source.contains("Vector3* other"));
    assert!(!out.native_source.contains("void* other"));
    assert!(out.native_source.contains("\t\tauto result = ((Vector3*)target)->Dot(other);"));
    assert!(out.native_source.contains("#include \"Math/Vector3.h\""));
    assert_eq!(out.native_header, "// head\r\n");
    assert!(out.notes.is_empty());
}

#[test]
fn the_artifacts_of_dot_are_exact() {
    let engine = Engine { classes: vec![vector3()], ..Default::default() };
    let settings = settings_for(&["Vector3"]);
    let api = dot();
    assert_eq!(
        render_native("Vector3", &api, "Dot", &engine, &settings),
        "\tfloat uapi_Vector3_Dot(void* target, Vector3 other){\t\n\t\tauto result = ((Vector3*)target)->Dot(other);\t\n\t\treturn result;\t\n\t}"
    );
    assert_eq!(
        render_slot("Vector3", &api, "Dot", &engine, &settings),
        "\n    type Vector3_DotInvoker = unsafe extern \"C\" fn(*mut c_void, Vector3) -> f32;\n    pub(super) static mut Vector3_DotInvokerHandler: Option<Vector3_DotInvoker> = None;\n    #[no_mangle]\n    extern \"C\" fn set_Vector3_Dot_handler(handler: Vector3_DotInvoker){\n        unsafe{ Vector3_DotInvokerHandler = Some(handler) };\n    }"
    );
    assert_eq!(
        render_define("Vector3", &api, "Dot", &engine, &settings),
        "\nusing uapi_Vector3_DotFn = void(*)(float(*)(void* target,Vector3 other));"
    );
    assert_eq!(
        render_register("Vector3", &api, "Dot"),
        "\n    auto const apiuapi_Vector3_Dot = (uapi_Vector3_DotFn)plugin->GetDllExport(TEXT(\"set_Vector3_Dot_handler\\0\"));\n    if(apiuapi_Vector3_Dot){\n        apiuapi_Vector3_Dot(&uapi_Vector3_Dot);\n    }"
    );
    assert_eq!(
        render_companion("Vector3", &api, "Dot", false, &engine, &settings),
        "\t#[inline]\r\n\tpub fn Dot(&self, other: Vector3) -> f32{\r\n\t\tunsafe{ Vector3_DotInvokerHandler.as_ref().unwrap()(self as *const Self as *mut c_void, other) }\r\n\t}"
    );
}

#[test]
fn entity_with_a_hidden_field_is_a_handle_and_its_constructor_a_factory() {
    let engine = Engine { classes: vec![actor()], ..Default::default() };
    let settings = settings_for(&["Actor"]);
    assert!(is_opaque("Actor", &engine, &settings));
    let out = generate(&engine, &settings, "", None, None).unwrap();
    assert!(out.native_source.contains("\tvoid* uapi_Actor_New0(){\r\n\t\tauto _this = new Actor();\r\n\t\treturn _this;\r\n\t}"));
    assert!(!out.companion.contains("#[repr(C)]"));
    assert!(out.companion.contains("pub struct Actor{\n    inner: *mut ActorOpaque\n}\nimpl IPtr for Actor{"));
    assert!(out.companion.contains("\tpub type ActorOpaque = c_void;//cpp type Actor"));
    assert!(out.companion.contains("\tpub fn Actor() -> Option<Actor>{"));
    assert!(out.companion.contains("Actor::from_ptr(Actor_ActorInvokerHandler.as_ref().unwrap()())"));
    assert!(out.companion.contains("pub fn get_Lifetime(&self) -> f32{"));
    assert!(out.companion.contains("pub fn set_Lifetime(&mut self, value: f32){"));
    assert!(!out.companion.contains("Hidden"));
    assert!(out.native_source.contains("float get_Actor_Lifetime(void* target) { return ((Actor*)target) -> Lifetime;};"));
    assert!(out.native_source.contains("void set_Actor_Lifetime(void* target, float value){ ((Actor*)target) -> Lifetime = value;};"));
    assert!(out.companion.contains("extern \"C\" fn set_Actor_Lifetime_get_handler(handler: GetLifetimeInvoker){"));
    assert!(out.companion.contains("extern \"C\" fn set_Actor_Lifetime_set_handler(handler: SetLifetimeInvoker){"));
}

#[test]
fn of_two_overloads_only_the_second_carries_a_suffix() {
    let mut class = actor();
    class.public_apis = vec![
        method("Actor", "Foo", "void", "()", vec![]),
        method("Actor", "Foo", "void", "()", vec![param("n", "int32", "i32")]),
    ];
    let engine = Engine { classes: vec![class], ..Default::default() };
    let settings = settings_for(&["Actor"]);
    let first = generate(&engine, &settings, "", None, None).unwrap();
    assert!(first.companion.contains("fn set_Actor_Foo_handler("));
    assert!(first.companion.contains("fn set_Actor_Foo2_handler("));
    assert!(!first.companion.contains("fn set_Actor_Foo1_handler("));
    assert!(!first.companion.contains("fn set_Actor_Foo3_handler("));
    assert!(first.companion.contains("\tpub fn Foo(&mut self){"));
    assert!(first.companion.contains("\tpub fn Foo2(&mut self, n: i32){"));
    assert!(first.native_source.contains("\tvoid uapi_Actor_Foo(void* target){"));
    assert!(first.native_source.contains("\tvoid uapi_Actor_Foo2(void* target, int32 n){"));
    let second = generate(&engine, &settings, "", None, None).unwrap();
    assert_eq!(first, second);
    assert_eq!(designed_text("Foo", 0), "Foo");
    assert_eq!(designed_text("Foo", 1), "Foo2");
    assert_eq!(designed_text("Foo", 11), "Foo12");
}

#[test]
fn a_method_left_out_does_not_count_among_the_overloads() {
    let mut class = actor();
    class.public_apis = vec![
        CppApi { is_generic: true, ..method("Actor", "Foo", "void", "()", vec![]) },
        method("Actor", "Foo", "void", "()", vec![param("n", "int32", "i32")]),
    ];
    let engine = Engine { classes: vec![class], ..Default::default() };
    let settings = settings_for(&["Actor"]);
    let out = generate(&engine, &settings, "", None, None).unwrap();
    assert!(out.companion.contains("\tpub fn Foo(&mut self, n: i32){"));
    assert!(!out.companion.contains("Foo2"));
}

#[test]
fn deny_list_keeps_destroy_out() {
    let mut class = actor();
    class.public_apis = vec![
        method("Actor", "Destroy", "void", "()", vec![]),
        method("Actor", "Tick", "void", "()", vec![]),
    ];
    let engine = Engine { classes: vec![class.clone()], ..Default::default() };
    let mut settings = settings_for(&["Actor"]);
    let with = generate(&engine, &settings, "", None, None).unwrap();
    assert!(with.companion.contains("pub fn Destroy(&mut self){"));
    assert!(passes(&class.public_apis[0], &settings.ExportClasses[0], &engine, &settings));
    settings.BlackList = vec!["Actor.Destroy".to_string()];
    assert!(!passes(&class.public_apis[0], &settings.ExportClasses[0], &engine, &settings));
    let without = generate(&engine, &settings, "", None, None).unwrap();
    assert!(!without.companion.contains("Destroy"));
    assert!(!without.native_source.contains("Destroy"));
    assert!(without.companion.contains("pub fn Tick(&mut self){"));
}

#[test]
fn keep_list_and_leave_list_gate_members() {
    let mut class = actor();
    class.public_apis = vec![
        method("Actor", "A", "void", "()", vec![]),
        method("Actor", "B", "void", "()", vec![]),
    ];
    class.properties = vec![float_field("p"), float_field("q")];
    let engine = Engine { classes: vec![class], ..Default::default() };
    let mut settings = settings_for(&["Actor"]);
    settings.ExportClasses[0].functions = vec!["B".to_string()];
    settings.ExportClasses[0].ignore_functions = vec!["B".to_string()];
    settings.ExportClasses[0].ignore_fields = vec!["p".to_string()];
    settings.BlackList = vec!["q".to_string(), "Pawn.q".to_string()];
    let out = generate(&engine, &settings, "", None, None).unwrap();
    assert!(!out.companion.contains("pub fn A("));
    assert!(out.companion.contains("pub fn B("));
    assert!(!out.companion.contains("get_p"));
    assert!(out.companion.contains("get_q"));
    settings.ExportClasses[0].functions = vec![];
    settings.ExportClasses[0].fields = vec!["p".to_string()];
    let out = generate(&engine, &settings, "", None, None).unwrap();
    assert!(out.companion.contains("pub fn A("));
    assert!(!out.companion.contains("pub fn B("));
    assert!(out.companion.contains("get_p"));
    assert!(!out.companion.contains("get_q"));
    settings.BlackList = vec!["Actor.p".to_string()];
    let out = generate(&engine, &settings, "", None, None).unwrap();
    assert!(!out.companion.contains("get_p"));
}

#[test]
fn string_parameters_cross_as_wire_values() {
    let mut class = actor();
    class.public_apis = vec![
        method("Actor", "SetName", "void", "()", vec![param("name", "FString", "String")]),
        method(
            "Actor",
            "Rename",
            "void",
            "()",
            vec![Parameter { ref_param: true, ..param("name", "FString", "String") }],
        ),
        method(
            "Actor",
            "ByPointer",
            "void",
            "()",
            vec![Parameter { ptr_param: true, ..param("name", "FString", "String") }],
        ),
        method("Actor", "GetName", "FString", "String", vec![]),
        method(
            "Actor",
            "Describe",
            "void",
            "()",
            vec![
                Parameter { ref_param: true, const_param: true, ..param("label", "FText", "String") },
                Parameter { ptr_param: true, const_param: true, ..param("tag", "FString", "String") },
                Parameter { ref_param: true, ..param("note", "FText", "String") },
            ],
        ),
    ];
    let engine = Engine { classes: vec![class], ..Default::default() };
    let settings = settings_for(&["Actor"]);
    let out = generate(&engine, &settings, "", None, None).unwrap();
    assert!(out.companion.contains("\tpub fn SetName(&mut self, name: &str){\r\n\t\tstring_2_cstr!(name, name);"));
    assert!(out.companion.contains("fn(*mut c_void, NativeString);"));
    assert!(out.native_source.contains("\tvoid uapi_Actor_SetName(void* target, NativeString name){\t\n\t\tauto fstr0 = Utf82FString(name);\t\n\t\t((Actor*)target)->SetName(fstr0);\t\n\t}"));
    assert!(out.companion.contains("\tpub fn Rename(&mut self, name: &mut String){\r\n\t\tstring_2_rstr!(name, name);"));
    assert!(out.companion.contains("fn(*mut c_void, RefString);"));
    assert!(out.native_source.contains("\tvoid uapi_Actor_Rename(void* target, RefString name){\t\n\t\tauto fstr0 = Utf8Ref2FString(name);\t\n\t\t((Actor*)target)->Rename(fstr0);\t\n\t\tResetFStringBuffer(fstr0, name);\t\n\t}"));
    assert!(!out.companion.contains("ByPointer"));
    assert!(out.companion.contains(
        "\tpub fn Describe(&mut self, label: &str, tag: &str, note: &mut String){\r\n\t\tstring_2_cstr!(label, label);\r\n\t\tstring_2_cstr!(tag, tag);\r\n\t\tstring_2_rstr!(note, note);"
    ));
    assert!(out.companion.contains("fn(*mut c_void, NativeString, NativeString, RefString);"));
    assert!(out.native_source.contains(
        "\tvoid uapi_Actor_Describe(void* target, NativeString label, NativeString tag, RefString note){\t\n\t\tauto fstr0 = Utf82FText(label);\t\n\t\tauto fstr1 = Utf82FString(tag);\t\n\t\tauto fstr2 = Utf8Ref2FText(note);\t\n\t\t((Actor*)target)->Describe(fstr0, &fstr1, fstr2);\t\n\t\tResetFTextBuffer(fstr2, note);\t\n\t}"
    ));
    assert!(out.companion.contains("\tpub fn GetName(&mut self) -> String{"));
    assert!(out.companion.contains("char_str_2_string(Actor_GetNameInvokerHandler.as_ref().unwrap()(self.inner))"));
    assert!(out.native_source.contains("\tconst char* uapi_Actor_GetName(void* target){\t\n\t\tauto result = FString2Utf8(((Actor*)target)->GetName());\t\n\t\treturn result;\t\n\t}"));
}

#[test]
fn a_reference_to_an_unaliased_transparent_value_stops_the_run() {
    let mut v = vector3();
    v.public_apis = vec![CppApi { ref_ret: true, ..method("Vector3", "Get", "Vector3", "Vector3", vec![]) }];
    let engine = Engine { classes: vec![v.clone()], ..Default::default() };
    let settings = settings_for(&["Vector3"]);
    assert_eq!(generate(&engine, &settings, "", None, None), Err(EmitError::ReferenceResult));
    let mut generator = CodeGenerator::default();
    assert_eq!(
        parse_functions(&engine, &v, &mut generator, false, &settings),
        Err(EmitError::ReferenceResult)
    );
}

#[test]
fn a_class_outside_the_export_list_is_refused() {
    let engine = Engine { classes: vec![vector3()], ..Default::default() };
    let settings = settings_for(&[]);
    let mut generator = CodeGenerator::default();
    assert_eq!(
        parse_functions(&engine, &vector3(), &mut generator, false, &settings),
        Err(EmitError::NotExported)
    );
    assert_eq!(
        parse_properties(&engine, &vector3(), &mut generator, false, &settings),
        Err(EmitError::NotExported)
    );
    assert_eq!(gen_class(&engine, &vector3(), &mut generator, &settings), Err(EmitError::NotExported));
}

#[test]
fn the_first_export_of_a_name_wins() {
    let engine = Engine { classes: vec![vector3()], ..Default::default() };
    let settings = settings_for(&["Vector3", "Vector3"]);
    let mut generator = CodeGenerator::default();
    assert_eq!(gen_class(&engine, &vector3(), &mut generator, &settings), Ok(ClassOutcome::Emitted));
    let after_first = generator.rs_source.clone();
    let mut again = vector3();
    again.path = "Other/Vector3.h".to_string();
    assert_eq!(
        gen_class(&engine, &again, &mut generator, &settings),
        Ok(ClassOutcome::AlreadyExported("Math/Vector3.h".to_string()))
    );
    assert_eq!(generator.rs_source, after_first);
    assert_eq!(generator.exported.len(), 1);
    let out = generate(&engine, &settings, "", None, None).unwrap();
    assert_eq!(
        out.notes,
        vec!["try to export class Vector3 at path Math/Vector3.h, but class already exported at path Math/Vector3.h".to_string()]
    );
    assert_eq!(out.companion.matches("pub struct Vector3{").count(), 1);
}

#[test]
fn a_listed_name_without_a_class_is_a_bare_handle() {
    let engine = Engine::default();
    let settings = settings_for(&["UWorld"]);
    let out = generate(&engine, &settings, "", None, None).unwrap();
    assert!(out.companion.contains("pub struct UWorld{\n    inner: *mut UWorldOpaque\n}"));
    assert!(out.companion.contains("\tpub type UWorldOpaque = c_void;//cpp type UWorld"));
    assert!(!out.native_source.contains("#include \"\""));
}

#[test]
fn type_lookups_make_one_alias_for_each_handle() {
    let engine = Engine { classes: vec![vector3(), actor()], ..Default::default() };
    let mut settings = settings_for(&["Vector3"]);
    settings.TypeWrapper = vec![TypeAlias { native: "FQuat".to_string(), wrapper: "Quaternion".to_string() }];
    let mut generator = CodeGenerator::default();
    let unit = generator.insert_rs_type("()", &engine, &settings);
    assert_eq!(unit, TypeImpl { name: "()".to_string(), alis: "c_void".to_string(), is_opaque: false });
    let text = generator.insert_rs_type("String", &engine, &settings);
    assert_eq!(text.alis, "String");
    let scalar = generator.insert_rs_type("f32", &engine, &settings);
    assert_eq!(scalar.alis, "f32");
    let value = generator.insert_type("Vector3", &engine, &settings);
    assert_eq!(value, TypeImpl { name: "Vector3".to_string(), alis: "Vector3".to_string(), is_opaque: false });
    let wrapped = generator.insert_type("FQuat", &engine, &settings);
    assert_eq!(wrapped, TypeImpl { name: "FQuat".to_string(), alis: "Quaternion".to_string(), is_opaque: false });
    assert!(generator.type_impl.is_empty());
    let handle = generator.insert_type("Actor", &engine, &settings);
    assert_eq!(handle, TypeImpl { name: "Actor".to_string(), alis: "ActorOpaque".to_string(), is_opaque: true });
    let again = generator.insert_rs_type("ActorOpaque", &engine, &settings);
    assert_eq!(again, handle);
    assert_eq!(generator.type_impl, vec![handle]);
}

#[test]
fn the_texts_are_put_together_around_the_hand_written_parts() {
    let mut generator = CodeGenerator::default();
    generator.includes.push("#include \"A.h\"".to_string());
    generator.includes.push("#include \"B.h\"".to_string());
    generator.header.push("// h1".to_string());
    generator.header.push("// h2".to_string());
    generator.api_defines.push("DEF".to_string());
    generator.source.push("FN".to_string());
    generator.rs_source.push("RS".to_string());
    generator.rs_ffis.push("FFI".to_string());
    generator.type_impl.push(TypeImpl { name: "A".to_string(), alis: "AOpaque".to_string(), is_opaque: true });
    let registers = generator.registers.join("\r\n");
    let head = generator.rs_source[..8].join("\r\n");
    let out = assemble(generator, vec!["note".to_string()], "HEAD", Some("WRAP_RS"), Some("WRAP_CPP"));
    assert_eq!(out.native_header, "HEAD\r\n// h1\r\n// h2");
    assert_eq!(
        out.native_source,
        format!(
            "#include \"Binder.h\"\r\n#include \"A.h\"\r\n#include \"B.h\"\r\nWRAP_CPP\r\nextern \"C\"{{\r\nFN\r\n}}\r\nDEF\r\n\nvoid register_all(Plugin* plugin){{\n    {registers}\n}}"
        )
    );
    assert_eq!(
        out.companion,
        format!(
            "{head}\r\nmod opaque_types{{\n    use std::ffi::c_void;\n\tpub type AOpaque = c_void;//cpp type A            \n}}\npub use opaque_types::*;\n\r\nWRAP_RS\r\nRS\r\nmod ffis{{\r\n\tuse super::*;\r\nFFI\r\n}}"
        )
    );
    assert_eq!(out.notes, vec!["note".to_string()]);
}

#[test]
fn handles_in_signatures() {
    let world = UnrealClass {
        name: "UWorld".to_string(),
        none_public_properties: vec![float_field("h")],
        ..Default::default()
    };
    let mut a = actor();
    a.public_apis = vec![
        CppApi {
            ptr_ret: true,
            ..method(
                "Actor",
                "GetWorld",
                "UWorld",
                "UWorld",
                vec![Parameter { ptr_param: true, ..param("other", "Actor", "Actor") }],
            )
        },
        CppApi {
            ref_ret: true,
            is_static: true,
            ..method("Actor", "Shared", "UWorld", "UWorld", vec![])
        },
        method("Actor", "ByValue", "UWorld", "UWorld", vec![]),
        method("Actor", "TakeByValue", "void", "()", vec![param("w", "UWorld", "UWorld")]),
    ];
    let engine = Engine { classes: vec![a, world], ..Default::default() };
    let settings = settings_for(&["Actor"]);
    let out = generate(&engine, &settings, "", None, None).unwrap();
    assert!(out.companion.contains("\tpub fn GetWorld(&mut self, other: &mut Actor) -> *mut UWorldOpaque{"));
    assert!(out.companion.contains("(self.inner, other.inner())"));
    assert!(out.companion.contains("fn(*mut c_void, *mut ActorOpaque) -> *mut UWorldOpaque;"));
    assert!(out.native_source.contains("\tvoid* uapi_Actor_GetWorld(void* target, Actor* other){\t\n\t\tauto result = (void*)((Actor*)target)->GetWorld(other);"));
    assert!(out.companion.contains("\tpub fn Shared<'a>() -> &'a UWorldOpaque{"));
    assert!(out.companion.contains("unsafe{ &*Actor_SharedInvokerHandler.as_ref().unwrap()() }"));
    assert!(out.native_source.contains("\t\tauto result = (void*)&(Actor::Shared());"));
    assert!(!out.companion.contains("ByValue"));
    assert!(!out.companion.contains("TakeByValue"));
    assert!(out.companion.contains("\tpub type UWorldOpaque = c_void;//cpp type UWorld"));
}

#[test]
fn wrapped_types_cross_through_their_conversions() {
    let mut a = actor();
    a.properties = vec![CppProperty {
        name: "Rotation".to_string(),
        type_str: "FQuat".to_string(),
        r_type: "FQuat".to_string(),
        ..Default::default()
    }];
    a.public_apis = vec![
        method("Actor", "GetRotation", "FQuat", "FQuat", vec![]),
        method("Actor", "SetRotation", "void", "()", vec![param("q", "FQuat", "FQuat")]),
        CppApi { ref_ret: true, ..method("Actor", "RotationRef", "FQuat", "FQuat", vec![]) },
        method(
            "Actor",
            "ByRef",
            "void",
            "()",
            vec![Parameter { ref_param: true, ..param("q", "FQuat", "FQuat") }],
        ),
        CppApi {
            is_static: true,
            ..method(
                "Actor",
                "Raw",
                "void",
                "()",
                vec![Parameter { ptr_param: true, ..param("data", "void", "()") }],
            )
        },
    ];
    let engine = Engine { classes: vec![a], ..Default::default() };
    let mut settings = settings_for(&["Actor"]);
    settings.TypeWrapper = vec![TypeAlias { native: "FQuat".to_string(), wrapper: "Quaternion".to_string() }];
    let out = generate(&engine, &settings, "", None, None).unwrap();
    assert!(out.native_source.contains(
        "\tQuaternion uapi_Actor_GetRotation(void* target){\t\n\t\tauto result = ToQuaternion(((Actor*)target)->GetRotation());\t\n\t\treturn result;\t\n\t}"
    ));
    assert!(out.companion.contains("\tpub fn GetRotation(&mut self) -> Quaternion{"));
    assert!(out.native_source.contains(
        "\tvoid uapi_Actor_SetRotation(void* target, Quaternion q){\t\n\t\t((Actor*)target)->SetRotation(ToFQuat(q));\t\n\t}"
    ));
    assert!(out.companion.contains("\tpub fn SetRotation(&mut self, q: Quaternion){"));
    assert!(out.companion.contains("fn(*mut c_void, Quaternion);"));
    assert!(out.companion.contains("\tpub fn RotationRef(&mut self) -> Quaternion{"));
    assert!(!out.companion.contains("ByRef"));
    assert!(out.native_source.contains("\tvoid uapi_Actor_Raw(void* data){\t\n\t\t(Actor::Raw(data));\t\n\t}"));
    assert!(out.companion.contains("\tpub fn Raw(data: *mut c_void){"));
    assert!(out.companion.contains("type Actor_RawInvoker = unsafe extern \"C\" fn(*mut c_void);"));
    assert!(out.native_source.contains(
        "\n    Quaternion get_Actor_Rotation(void* target) { return ToQuaternion(((Actor*)target) -> Rotation);};"
    ));
    assert!(out.native_source.contains(
        "\n    void set_Actor_Rotation(void* target, Quaternion value){ ((Actor*)target) -> Rotation = ToFQuat(value);};"
    ));
    assert!(out.companion.contains("pub fn get_Rotation(&self) -> Quaternion{"));
    assert!(!out.companion.contains("FQuatOpaque"));
}

#[test]
fn the_accessors_of_a_field_are_exact() {
    let engine = Engine { classes: vec![actor()], ..Default::default() };
    let settings = settings_for(&["Actor"]);
    let mut generator = CodeGenerator::default();
    let before = (generator.source.len(), generator.rs_ffis.len(), generator.api_defines.len(), generator.registers.len(), generator.rs_source.len());
    assert_eq!(parse_properties(&engine, &actor(), &mut generator, true, &settings), Ok(()));
    assert_eq!(
        generator.source[before.0..].to_vec(),
        vec![
            "\n    float get_Actor_Lifetime(void* target) { return ((Actor*)target) -> Lifetime;};".to_string(),
            "\n    void set_Actor_Lifetime(void* target, float value){ ((Actor*)target) -> Lifetime = value;};".to_string(),
        ]
    );
    assert_eq!(
        generator.rs_ffis[before.1..].to_vec(),
        vec![
            "\n    type GetLifetimeInvoker = unsafe extern \"C\" fn(target: *mut ActorOpaque) -> f32;\n    pub(super) static mut GetLifetimeInvokerHandler: Option<GetLifetimeInvoker> = None;\n    #[no_mangle]\n    extern \"C\" fn set_Actor_Lifetime_get_handler(handler: GetLifetimeInvoker){\n        unsafe{ GetLifetimeInvokerHandler = Some(handler) };\n    }".to_string(),
            "\n    type SetLifetimeInvoker = unsafe extern \"C\" fn(target: *mut ActorOpaque, value: f32);\n    pub(super) static mut SetLifetimeInvokerHandler: Option<SetLifetimeInvoker> = None;\n    #[no_mangle]\n    extern \"C\" fn set_Actor_Lifetime_set_handler(handler: SetLifetimeInvoker){\n        unsafe {SetLifetimeInvokerHandler = Some(handler) };\n    }".to_string(),
        ]
    );
    assert_eq!(
        generator.api_defines[before.2..].to_vec(),
        vec![
            "\nusing set_Actor_Lifetime_get_handlerFn = void(*)(float(*)(void* target));".to_string(),
            "\nusing set_Actor_Lifetime_set_handlerFn = void(*)(void(*)(void* target, float value));".to_string(),
        ]
    );
    assert_eq!(
        generator.registers[before.3..].to_vec(),
        vec![
            "\n    auto const apiset_Actor_Lifetime_get_handler = (set_Actor_Lifetime_get_handlerFn)plugin->GetDllExport(TEXT(\"set_Actor_Lifetime_get_handler\\0\"));\n    if(apiset_Actor_Lifetime_get_handler){\n        apiset_Actor_Lifetime_get_handler(&get_Actor_Lifetime);\n    }".to_string(),
            "    auto const apiset_Actor_Lifetime_set_handler = (set_Actor_Lifetime_set_handlerFn)plugin->GetDllExport(TEXT(\"set_Actor_Lifetime_set_handler\\0\"));\n    if(apiset_Actor_Lifetime_set_handler){\n        apiset_Actor_Lifetime_set_handler(&set_Actor_Lifetime);\n    }".to_string(),
        ]
    );
    assert_eq!(
        generator.rs_source[before.4..].to_vec(),
        vec![
            "\n    #[inline]\n    pub fn get_Lifetime(&self) -> f32{\n        unsafe{ GetLifetimeInvokerHandler.as_ref().unwrap()(self.inner) }\n    }".to_string(),
            "\n    #[inline]\n    pub fn set_Lifetime(&mut self, value: f32){\n        unsafe{ SetLifetimeInvokerHandler.as_ref().unwrap()(self.inner, value) }\n    }".to_string(),
        ]
    );
}

#[test]
fn a_const_reference_to_a_scalar_or_a_value_type_crosses_as_the_value() {
    let mut v = vector3();
    v.public_apis = vec![
        method(
            "Vector3",
            "Scale",
            "void",
            "()",
            vec![Parameter { ref_param: true, const_param: true, ..param("by", "float", "f32") }],
        ),
        method(
            "Vector3",
            "Add",
            "void",
            "()",
            vec![Parameter { ref_param: true, ..param("to", "Vector3", "Vector3") }],
        ),
    ];
    let engine = Engine { classes: vec![v], ..Default::default() };
    let settings = settings_for(&["Vector3"]);
    let out = generate(&engine, &settings, "", None, None).unwrap();
    assert!(out.native_source.contains("\tvoid uapi_Vector3_Scale(void* target, float by){"));
    assert!(out.companion.contains("\tpub fn Scale(&mut self, by: f32){"));
    assert!(out.companion.contains("type Vector3_ScaleInvoker = unsafe extern \"C\" fn(*mut c_void, f32);"));
    assert!(out.native_source.contains("\tvoid uapi_Vector3_Add(void* target, Vector3& to){"));
    assert!(out.companion.contains("\tpub fn Add(&mut self, to: &mut Vector3){"));
}

#[test]
fn a_destructor_is_never_exported() {
    let mut a = actor();
    a.public_apis = vec![CppApi { is_destructor: true, ..method("Actor", "~Actor", "", "", vec![]) }];
    let engine = Engine { classes: vec![a.clone()], ..Default::default() };
    let settings = settings_for(&["Actor"]);
    assert!(!passes(&a.public_apis[0], &settings.ExportClasses[0], &engine, &settings));
    let out = generate(&engine, &settings, "", None, None).unwrap();
    assert!(!out.companion.contains("~Actor"));
    assert!(!out.native_source.contains("~Actor"));
}
