use engine_bindgen::objects::add_alias;
use engine_bindgen::objects::add_opaque;
use engine_bindgen::objects::generate_cpp;
use engine_bindgen::objects::generate_rust;
use engine_bindgen::objects::get_obj_name;
use engine_bindgen::objects::get_obj_type;
use engine_bindgen::objects::get_origin_name;
use engine_bindgen::objects::is_opaque_type;
use engine_bindgen::objects::parse;
use engine_bindgen::objects::parse_const;
use engine_bindgen::objects::parse_enum;
use engine_bindgen::objects::parse_obj;
use engine_bindgen::objects::const_line_text;
use engine_bindgen::objects::Api;
use engine_bindgen::objects::NamedLines;
use engine_bindgen::objects::ObjectError;
use engine_bindgen::objects::ObjectRegistry;
use engine_bindgen::objects::Parameter;
use engine_bindgen::objects::Property;
use engine_bindgen::objects::UnrealObject;
use engine_bindgen::scan::normalize_all;
use engine_bindgen::scan::normalize_line;
use engine_bindgen::scan::parse_field;

fn strings(items: &[&str]) -> Vec<String> {
    items.iter().map(|s| s.to_string()).collect()
}

fn param(ty: &str, name: &str) -> Parameter {
    Parameter { ty: ty.to_string(), name: name.to_string() }
}

fn world() -> UnrealObject {
    UnrealObject {
        unreal_type: "UWorld".to_string(),
        ty: "class".to_string(),
        alias: "World".to_string(),
        opaque_type: true,
        apis: vec![
            Api {
                name: "Spawn".to_string(),
                ret_type: "i32".to_string(),
                parameters: vec![param("f32", "x"), param("&World", "other"), param("Vec3", "at")],
                ..Default::default()
            },
            Api { name: "Tick".to_string(), ..Default::default() },
        ],
        ..Default::default()
    }
}

#[test]
fn the_registry_knows_aliases_and_handles() {
    let mut registry = ObjectRegistry::default();
    add_alias(&mut registry, "World", "UWorld");
    add_alias(&mut registry, "Actor", "AActor");
    add_alias(&mut registry, "World", "UWorld2");
    assert_eq!(registry.aliases.len(), 2);
    assert_eq!(get_origin_name(&registry, "World"), "UWorld2");
    assert_eq!(get_origin_name(&registry, "Actor"), "AActor");
    assert_eq!(get_origin_name(&registry, "Pawn"), "Pawn");
    add_opaque(&mut registry, "World");
    assert!(is_opaque_type(&registry, "World"));
    assert!(is_opaque_type(&registry, "&World"));
    assert!(is_opaque_type(&registry, "&mutWorld"));
    assert!(!is_opaque_type(&registry, "Actor"));
    assert_eq!(get_obj_type(&registry, "&World".to_string()), "*const std::ffi::c_void");
    assert_eq!(get_obj_type(&registry, "f32".to_string()), "f32");
    assert_eq!(get_obj_name(&registry, "w".to_string(), "&World"), "w.get_ptr()");
    assert_eq!(get_obj_name(&registry, "x".to_string(), "f32"), "x");
}

#[test]
fn an_object_behind_a_handle_gets_its_slots_and_methods() {
    let mut rust = vec![];
    let mut cpp = vec![];
    let mut registry = ObjectRegistry::default();
    assert_eq!(parse_obj(&world(), &mut rust, &mut cpp, &mut registry), Ok(()));
    assert_eq!(registry.opaque, strings(&["World"]));
    assert_eq!(rust.len(), 1);
    assert_eq!(rust[0].name, "");
    assert_eq!(
        rust[0].lines,
        strings(&[
            "///rust api for unreal type UWorld",
            "pub struct World{",
            "\tptr: *mut std::ffi::c_void",
            "}",
            "pub type WorldSpawnFPtr = unsafe extern \"C\" fn (this: *mut std::ffi::c_void, x: f32, other: *const std::ffi::c_void, at: Vec3) -> i32;",
            "static mut WorldSpawnCallback: Option<WorldSpawnFPtr> = None;",
            "/// not to lua",
            "#[no_mangle]",
            "unsafe extern \"C\" fn RegisterWorldSpawn(fun: WorldSpawnFPtr){",
            "\tWorldSpawnCallback = Some(fun);",
            "}",
            "pub type WorldTickFPtr = unsafe extern \"C\" fn (this: *mut std::ffi::c_void);",
            "static mut WorldTickCallback: Option<WorldTickFPtr> = None;",
            "/// not to lua",
            "#[no_mangle]",
            "unsafe extern \"C\" fn RegisterWorldTick(fun: WorldTickFPtr){",
            "\tWorldTickCallback = Some(fun);",
            "}",
            "impl World{",
            "\t#[inline] pub fn get_ptr(&self) -> *const std::ffi::c_void { self.ptr as *const _ }",
            "\t#[inline] pub fn get_ptr_mut(&self) -> *mut std::ffi::c_void { self.ptr }",
            "\t pub unsafe fn Spawn(&self, x: f32, other: &World, at: Vec3) -> i32{",
            "\t\tWorldSpawnCallback.as_ref().expect(\"UWorld::Spawn not registered!\")(self.ptr, x, other.get_ptr(), at)",
            "\t}",
            "\t pub unsafe fn Tick(&self){",
            "\t\tWorldTickCallback.as_ref().expect(\"UWorld::Tick not registered!\")(self.ptr)",
            "\t}",
            "}",
        ])
    );
    assert_eq!(cpp.len(), 1);
    assert_eq!(cpp[0].name, "UWorld");
    assert_eq!(
        cpp[0].apis[0].fptr,
        Some("typedef i32(*WorldSpawnFPtr)(UWorld* ptr, float x, UWorld& other, Vec3 at);".to_string())
    );
    assert_eq!(
        cpp[0].apis[0].rust_api,
        "RegisterWorldSpawn([](UWorld* ptr, float x, UWorld& other, Vec3 at){return ptr->Spawn(x, other, at);});"
    );
    assert_eq!(cpp[0].apis[1].rust_api, "RegisterWorldTick([](UWorld* ptr){ptr->Tick();});");
    assert_eq!(cpp[0].apis[1].fptr, Some("typedef (*WorldTickFPtr)(UWorld* ptr);".to_string()));
}

#[test]
fn a_struct_by_value_lists_its_fields() {
    let point = UnrealObject {
        unreal_type: "FPoint".to_string(),
        ty: "struct".to_string(),
        namespace: Some("math".to_string()),
        properties: vec![
            Property { name: "x".to_string(), ty: "f32".to_string(), ..Default::default() },
            Property { name: "y".to_string(), ty: "f32".to_string(), ..Default::default() },
        ],
        ..Default::default()
    };
    let found = parse(vec![point.clone(), point.clone()]).unwrap();
    assert_eq!(found.rust.len(), 1);
    assert_eq!(found.rust[0].name, "math");
    let once = strings(&[
        "///rust api for unreal type FPoint",
        "pub struct FPoint{",
        "\tpub x: f32,",
        "\tpub y: f32,",
        "}",
        "impl FPoint{",
        "}",
    ]);
    let twice: Vec<String> = once.iter().chain(once.iter()).cloned().collect();
    assert_eq!(found.rust[0].lines, twice);
    assert_eq!(found.cpp.len(), 1);
    assert!(found.cpp[0].apis.is_empty());
    let text = generate_rust(&found.rust[..1].to_vec(), "// cross");
    assert!(text.starts_with("//! this is auto generated for unreal bindings by UnrealObject2RustBuilder\r\n#![allow(non_upper_case_globals)]"));
    assert!(text.contains("\r\n// cross\r\npub type string = &'static str;\r\npub use math::*;\r\n///math  binder impl\r\nmod math{\r\n\tuse super::*;\r\n\t///rust api for unreal type FPoint\r\n\tpub struct FPoint{\r\n\t\tpub x: f32,"));
    assert!(text.ends_with("\t}\r\n}//end of math"));
}

#[test]
fn objects_that_cannot_be_read() {
    let class = UnrealObject { unreal_type: "A".to_string(), ty: "class".to_string(), ..Default::default() };
    assert_eq!(parse(vec![class.clone()]), Err(ObjectError::ClassByValue));
    let mut rust = vec![];
    let mut cpp = vec![];
    let mut registry = ObjectRegistry::default();
    assert_eq!(parse_obj(&class, &mut rust, &mut cpp, &mut registry), Err(ObjectError::ClassByValue));
    let e = UnrealObject { unreal_type: "E".to_string(), ty: "enum".to_string(), ..Default::default() };
    assert_eq!(parse(vec![e.clone()]), Err(ObjectError::Enumeration));
    assert_eq!(parse_enum(&e, &mut rust, &mut cpp), Err(ObjectError::Enumeration));
    let odd = UnrealObject { unreal_type: "O".to_string(), ty: "union".to_string(), ..Default::default() };
    assert_eq!(parse(vec![odd]), Err(ObjectError::UnknownKind));
    assert!(parse(vec![]).unwrap().rust.is_empty());
}

#[test]
fn constants_are_declared_in_upper_case() {
    let consts = UnrealObject {
        ty: "const".to_string(),
        properties: vec![
            Property { name: "max_count".to_string(), ty: "i32".to_string(), value: Some("4".to_string()), ..Default::default() },
            Property { name: "title".to_string(), ty: "string".to_string(), value: Some("hi".to_string()), ..Default::default() },
            Property { name: "Empty9é".to_string(), ty: "f32".to_string(), ..Default::default() },
        ],
        ..Default::default()
    };
    let mut rust: Vec<NamedLines> = vec![];
    assert_eq!(parse_const(&consts, &mut rust), Ok(()));
    assert_eq!(rust.len(), 1);
    assert_eq!(rust[0].name, "unreal_const");
    assert_eq!(
        rust[0].lines,
        strings(&[
            "const MAX_COUNT: i32 = 4;",
            "const TITLE: string = \"hi\";",
            "const EMPTY9É: f32 = Default::default();",
        ])
    );
    assert_eq!(
        const_line_text(&consts.properties[1], "Any Name"),
        "const Any Name: string = \"hi\";"
    );
    assert_eq!(const_line_text(&consts.properties[2], ""), "const : f32 = Default::default();");
}

#[test]
fn the_native_files_register_every_method() {
    let found = parse(vec![world()]).unwrap();
    let (source, header) = generate_cpp(&found.cpp);
    assert_eq!(
        source,
        "//auto generated binding file for UnrealRustApi by UnrealObject2RustBuilder\r\n#include \"CoreMinimal.h\"\r\n#include \"RustBinders.h\"\r\n#include \"core_api.h\"\r\nvoid InitBindings(){\r\n\t//binder UWorld begin\r\n\tRegisterWorldSpawn([](UWorld* ptr, float x, UWorld& other, Vec3 at){return ptr->Spawn(x, other, at);});\r\n\tRegisterWorldTick([](UWorld* ptr){ptr->Tick();});\r\n\t//binder UWorld end\r\n}"
    );
    assert_eq!(
        header,
        "//auto generated binding file for UnrealRustApi by UnrealObject2RustBuilder\r\n#pragma once\r\nvoid InitBindings();\r\ntypedef i32(*WorldSpawnFPtr)(UWorld* ptr, float x, UWorld& other, Vec3 at);\r\ntypedef (*WorldTickFPtr)(UWorld* ptr);"
    );
}

#[test]
fn spacing_of_a_declaration() {
    let mut line = "void f(const FVector&v, int*p, TArray< int > a);".to_string();
    let r = normalize_line(&mut line);
    assert_eq!(r, Ok(()));
    assert_eq!(line, "void f(const FVector& v, int* p, TArray<int> a);");
    let mut empty = String::new();
    assert_eq!(normalize_line(&mut empty), Ok(()));
    let mut short = "a*".to_string();
    assert_eq!(normalize_line(&mut short), Ok(()));
    assert_eq!(short, "a*");
    let mut lines = strings(&["int*p;", "", "A&&b;"]);
    assert_eq!(normalize_all(&mut lines), Ok(()));
    assert_eq!(lines, strings(&["int* p;", "", "A&& b;"]));
}

#[test]
fn a_bit_field_without_spaces_keeps_its_name() {
    let l = strings(&["    uint8 bOff:1;"]);
    let f = parse_field(&l, 0).unwrap().unwrap();
    assert_eq!((f.name.as_str(), f.type_str.as_str(), f.bit_value), ("bOff", "uint8", true));
}
