use engine_bindgen::binders::native_string;
use engine_bindgen::binders::reset_rust_string;
use engine_bindgen::binders::Color;
use engine_bindgen::binders::Handle;
use engine_bindgen::binders::NativeString;
use engine_bindgen::files::cache_path;
use engine_bindgen::files::get_file_path;
use engine_bindgen::files::ignore;
use engine_bindgen::files::matches_pattern;
use engine_bindgen::files::parse_header;
use engine_bindgen::files::record_header;
use engine_bindgen::files::runtime_root;
use engine_bindgen::files::stem_of;
use engine_bindgen::files::tree_command;
use engine_bindgen::model::CppEnum;
use engine_bindgen::model::CustomSettings;
use engine_bindgen::model::Engine;
use engine_bindgen::model::FilePath;
use engine_bindgen::model::UnrealClass;
use engine_bindgen::schedule::merge;
use engine_bindgen::schedule::partition;
use engine_bindgen::schedule::partition_for_machine;

fn strings(items: &[&str]) -> Vec<String> {
    items.iter().map(|s| s.to_string()).collect()
}

#[test]
fn file_names_match_patterns() {
    assert_eq!(stem_of("a/b/Actor.generated.h"), "Actor");
    assert_eq!(stem_of("Actor.h"), "Actor");
    assert_eq!(stem_of("a/b/"), "");
    assert!(matches_pattern("ActorTest", "*Test"));
    assert!(!matches_pattern("TestActor", "*Test"));
    assert!(matches_pattern("TestActor", "Test*"));
    assert!(matches_pattern("MyTestActor", "*Test*"));
    assert!(!matches_pattern("Actor", "*Test*"));
    assert!(matches_pattern("Actor", "Actor"));
    assert!(!matches_pattern("Actor", "Acto"));
    assert!(matches_pattern("anything", "*"));
}

#[test]
fn files_outside_the_roots_or_with_ignored_names_are_passed_over() {
    let settings = CustomSettings {
        ExportPathRoot: strings(&["Runtime/Engine", "Runtime/Core"]),
        IgnoreFiles: strings(&["*Private", "Test*", "Exact"]),
        ..Default::default()
    };
    assert!(!ignore("E/Source/Runtime/Engine/Actor.h", &settings));
    assert!(ignore("E/Source/Editor/Actor.h", &settings));
    assert!(ignore("E/Source/Runtime/Engine/ActorPrivate.h", &settings));
    assert!(ignore("E/Source/Runtime/Core/TestThing.h", &settings));
    assert!(ignore("E/Source/Runtime/Core/Exact.h", &settings));
    assert!(!ignore("E/Source/Runtime/Core/Exactly.h", &settings));
    assert!(ignore("anything", &CustomSettings::default()));
}

#[test]
fn paths_of_a_run() {
    assert_eq!(runtime_root("C:\\UE"), "C:/UE/Source/Runtime/");
    assert_eq!(runtime_root("/opt/ue/"), "/opt/ue/Source/Runtime/");
    assert_eq!(runtime_root(""), "Source/Runtime/");
    assert_eq!(get_file_path("C:\\work\\engine_code\\Engine\\Actor.h", "C:\\work"), "Engine/Actor.h");
    assert_eq!(get_file_path("/w/engine_code/A.h", "/w/"), "A.h");
    assert_eq!(cache_path("C:\\w\\unreal_ast", "engine_code\\Engine\\Actor.h"), "C:\\w\\unreal_ast\\Engine/Actor.h.json");
    assert_eq!(
        tree_command("C:\\w\\engine_code\\A.h"),
        "clang -Xclang -ast-dump=json -fsyntax-only -x c++ -std=c++17 C:\\w\\engine_code\\A.h"
    );
    let mut engine = Engine::default();
    let kept = record_header(&mut engine, "/ue/Source/Runtime/Engine/Actor.h", "/ue/Source/Runtime/");
    assert_eq!(kept, "engine_code/Engine/Actor.h");
    assert_eq!(engine.files, strings(&["/ue/Source/Runtime/Engine/Actor.h"]));
    assert_eq!(engine.file_paths, vec![FilePath { name: "Actor.h".to_string(), path: "Engine/Actor.h".to_string() }]);
    record_header(&mut engine, "/ue/Source/Runtime/Core/Math.h", "/ue/Source/Runtime/");
    record_header(&mut engine, "/ue/Source/Runtime/Game/Actor.h", "/ue/Source/Runtime/");
    assert_eq!(
        engine.file_paths,
        vec![
            FilePath { name: "Actor.h".to_string(), path: "Game/Actor.h".to_string() },
            FilePath { name: "Math.h".to_string(), path: "Core/Math.h".to_string() },
        ]
    );
    assert_eq!(engine.files.len(), 3);
}

#[test]
fn files_are_shared_out_by_position() {
    let files = strings(&["a", "b", "c", "d", "e"]);
    assert_eq!(partition(&files, 2), vec![strings(&["a", "c", "e"]), strings(&["b", "d"])]);
    assert_eq!(partition(&files, 1), vec![files.clone()]);
    assert_eq!(partition(&files, 0), vec![files.clone()]);
    assert_eq!(
        partition(&files, 7),
        vec![strings(&["a"]), strings(&["b"]), strings(&["c"]), strings(&["d"]), strings(&["e"]), vec![], vec![]]
    );
    assert_eq!(partition(&vec![], 3), vec![Vec::<String>::new(), vec![], vec![]]);
}

#[test]
fn this_machine_gets_every_file_once() {
    let files: Vec<String> = (0..37).map(|i| format!("f{i}")).collect();
    let parts = partition_for_machine(&files);
    assert!(!parts.is_empty());
    let workers = parts.len();
    for (j, part) in parts.iter().enumerate() {
        let expected: Vec<String> = files.iter().enumerate().filter(|(i, _)| i % workers == j).map(|(_, f)| f.clone()).collect();
        assert_eq!(part, &expected);
    }
    assert_eq!(parts.iter().map(|p| p.len()).sum::<usize>(), files.len());
    assert_eq!(parts, partition_for_machine(&files));
}

#[test]
fn what_the_workers_found_is_put_together_in_order() {
    let named = |n: &str| UnrealClass { name: n.to_string(), ..Default::default() };
    let mut engine = Engine { classes: vec![named("A")], files: strings(&["kept"]), ..Default::default() };
    let found = Engine {
        classes: vec![named("B"), named("C")],
        enums: vec![CppEnum { name: "E".to_string(), ..Default::default() }],
        files: strings(&["dropped"]),
        ..Default::default()
    };
    merge(&mut engine, found);
    let names: Vec<&str> = engine.classes.iter().map(|c| c.name.as_str()).collect();
    assert_eq!(names, vec!["A", "B", "C"]);
    assert_eq!(engine.enums.len(), 1);
    assert_eq!(engine.files, strings(&["kept"]));
}

#[test]
fn a_rewritten_string_is_seen_with_its_new_length() {
    let mut buffer = "abc".as_bytes().to_vec();
    let sent = "abcdef".as_bytes().to_vec();
    reset_rust_string(&mut buffer, Some(&sent));
    assert_eq!(String::from_utf8(buffer.clone()).unwrap(), "abcdef");
    assert_eq!(buffer.len(), 6);
    reset_rust_string(&mut buffer, None);
    assert_eq!(buffer, sent);
    let shorter = "x".as_bytes().to_vec();
    reset_rust_string(&mut buffer, Some(&shorter));
    assert_eq!(buffer, shorter);
    let at = Handle { addr: 64 };
    assert_eq!(native_string(at, &sent), Some(NativeString { utf_str: at, size: 6 }));
    assert!(Handle::null().is_null());
    assert!(!at.is_null());
    assert_eq!(Color::red(), Color { r: 255, g: 0, b: 0, a: 255 });
    assert_eq!(Color::green(), Color { r: 0, g: 255, b: 0, a: 255 });
    assert_eq!(Color::blue(), Color { r: 0, g: 0, b: 255, a: 255 });
}

#[test]
fn a_header_that_fails_is_counted_and_the_next_is_still_read() {
    let root = "/ue/Source/Runtime/";
    let mut engine = Engine::default();
    let mut failures: usize = 0;
    let broken = parse_header(&mut engine, &mut failures, "/ue/Source/Runtime/Core/Broken.h", "} f(); {\n", None, root);
    assert_eq!(broken, None);
    assert_eq!(failures, 1);
    assert_eq!(engine, Engine::default());
    let good = parse_header(
        &mut engine,
        &mut failures,
        "/ue/Source/Runtime/Core/Math.h",
        "// sums\r\nint Sum(int a, int b);\r\n",
        None,
        root,
    );
    assert_eq!(good, Some(("engine_code/Core/Math.h".to_string(), strings(&["int Sum(int a, int b);"]))));
    assert_eq!(failures, 1);
    assert_eq!(engine.files, strings(&["/ue/Source/Runtime/Core/Math.h"]));
    assert_eq!(engine.file_paths, vec![FilePath { name: "Math.h".to_string(), path: "Core/Math.h".to_string() }]);
}

#[test]
fn a_kept_copy_stands_for_the_header_and_no_lines_record_nothing() {
    let root = "/ue/Source/Runtime/";
    let mut engine = Engine::default();
    let mut failures: usize = 0;
    let kept = strings(&["int a;"]);
    let taken = parse_header(&mut engine, &mut failures, "/ue/Source/Runtime/Core/Broken.h", "} f(); {\n", Some(kept.clone()), root);
    assert_eq!(taken, Some(("engine_code/Core/Broken.h".to_string(), kept)));
    assert_eq!(failures, 0);
    assert_eq!(engine.files.len(), 1);
    let nothing = parse_header(&mut engine, &mut failures, "/ue/Source/Runtime/Core/Empty.h", "int b;", Some(vec![]), root);
    assert_eq!(nothing, None);
    assert_eq!(engine.files.len(), 1);
    let mut full = usize::MAX;
    assert_eq!(parse_header(&mut engine, &mut full, "/ue/Source/Runtime/Core/Broken.h", "} f(); {\n", None, root), None);
    assert_eq!(full, usize::MAX);
}
