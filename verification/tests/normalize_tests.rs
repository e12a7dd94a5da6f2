use engine_bindgen::normalize::normalize_function;
use engine_bindgen::normalize::normalize_header;
use engine_bindgen::normalize::remove_all_fn_block;
use engine_bindgen::normalize::remove_comment_and_mic;
use engine_bindgen::normalize::remove_defines;
use engine_bindgen::normalize::remove_deprecated;
use engine_bindgen::normalize::remove_fn_block;
use engine_bindgen::normalize::remove_templates;
use engine_bindgen::normalize::remove_unreal_tags;
use engine_bindgen::normalize::Fault;

fn lines(items: &[&str]) -> Vec<String> {
    items.iter().map(|s| s.to_string()).collect()
}

#[test]
fn macro_definitions_go_with_their_continuation_lines() {
    let mut l = lines(&["int a;", "  #define X(a) \\", "    foo(a) \\", "    bar(a)", "int b;", "#define Y 1", "#define Z \\"]);
    remove_defines(&mut l);
    assert_eq!(l, lines(&["int a;", "int b;"]));
    let mut none = lines(&["int a;"]);
    remove_defines(&mut none);
    assert_eq!(none, lines(&["int a;"]));
}

#[test]
fn templates_go_with_their_bodies() {
    let mut l = lines(&[
        "int a;",
        "template<typename T>",
        "struct TBox",
        "{",
        "    void f() {",
        "    }",
        "};",
        "int b;",
        "template<class U> void g() {",
        "}",
        "int c;",
    ]);
    remove_templates(&mut l);
    assert_eq!(l, lines(&["int a;", "int b;", "int c;"]));
    let mut open = lines(&["template<typename T>", "struct TBox", "int never;"]);
    remove_templates(&mut open);
    assert!(open.is_empty());
}

#[test]
fn comments_and_idle_lines_go() {
    let mut l = lines(&[
        "// leading",
        "",
        "#include \"x.h\"",
        "#define KEEP 1",
        "using namespace std;",
        "class Fwd;",
        "typedef int I;",
        "int a; // trailing",
        "enum class EMode",
        "int b; /* one",
        "   two",
        "   three */",
        "int c;",
        "/* x */ int d;",
        "int e; /* y */ int f;",
        "class Real",
    ]);
    remove_comment_and_mic(&mut l);
    assert_eq!(
        l,
        lines(&["#define KEEP 1", "int a; ", "enum EMode", "int b; ", "int c;", " int d;", "int e;  int f;", "class Real"])
    );
    let mut l = lines(&["int a; /* open", "x */ int b;", "int c;"]);
    remove_comment_and_mic(&mut l);
    assert_eq!(l, lines(&["int a; ", " int b;", "int c;"]));
}

#[test]
fn marker_macros_go() {
    let mut l = lines(&[
        "UCLASS(Blueprintable)",
        "class ENGINE_API AActor : public UObject",
        "    GENERATED_BODY()",
        "    FORCEINLINE int Get() const;",
        "    ENGINE_API",
        "    A UMETA(DisplayName = \"a\"),",
        "#define DECLARE_X 1",
        "    int Plain;",
    ]);
    remove_unreal_tags(&mut l);
    assert_eq!(
        l,
        lines(&[
            "class  AActor : public UObject",
            "     int Get() const;",
            "    A ,",
            "#define DECLARE_X 1",
            "    int Plain;",
        ])
    );
}

#[test]
fn editor_only_blocks_go() {
    let mut l = lines(&[
        "int a;",
        "#if WITH_EDITOR",
        "int e1;",
        "#if NESTED",
        "int e2;",
        "#endif",
        "int e3;",
        "#endif",
        "UPROPERTY()",
        "ENGINE_API int b;",
        "int c;",
    ]);
    remove_unreal_tags(&mut l);
    assert_eq!(l, lines(&["int a;", "", " int b;", "int c;"]));
    let mut open = lines(&["#if UE_EDITOR", "int e1;"]);
    remove_unreal_tags(&mut open);
    assert_eq!(open, lines(&[""]));
    let mut last = lines(&["int a;", "  #if WITH_EDITOR"]);
    remove_unreal_tags(&mut last);
    assert_eq!(last, lines(&["int a;", ""]));
}

#[test]
fn a_parameter_list_is_drawn_into_one_line() {
    let mut l = lines(&["void f(int a,", "    int b,", "    int c);", "int x;"]);
    let mut at = 0;
    assert!(normalize_function(&mut l, &mut at));
    assert_eq!(l, lines(&["void f(int a,    int b,     int c);", "int x;"]));
    assert_eq!(at, 0);
    let mut field = lines(&["int x;", "void g(", ");"]);
    let mut at = 0;
    assert!(!normalize_function(&mut field, &mut at));
    assert_eq!(field.len(), 3);
    let mut at = 1;
    assert!(normalize_function(&mut field, &mut at));
    assert_eq!(field, lines(&["int x;", "void g();"]));
    let mut vis = lines(&["public: void f(", ");"]);
    let mut at = 0;
    assert!(!normalize_function(&mut vis, &mut at));
    let mut at = 7;
    assert!(!normalize_function(&mut vis, &mut at));
    let mut twice = lines(&["void h(", "int (", "x));"]);
    let mut at = 0;
    assert!(!normalize_function(&mut twice, &mut at));
    assert_eq!(twice.len(), 3);
}

#[test]
fn a_body_is_replaced_by_a_semicolon() {
    let mut l = lines(&["int f() { return 1; }", "int x;"]);
    let mut at = 0;
    assert_eq!(remove_fn_block(&mut l, &mut at), Ok(Some("return 1;".to_string())));
    assert_eq!(l, lines(&["int f() ;", "int x;"]));
    assert_eq!(at, 0);

    let mut l = lines(&["void Foo() { return; }"]);
    let mut at = 0;
    assert_eq!(remove_fn_block(&mut l, &mut at), Ok(Some("return;".to_string())));
    assert_eq!(l, lines(&["void Foo() ;"]));
    assert_eq!(at, 0);
    let mut l = lines(&["void Foo();"]);
    assert_eq!(remove_fn_block(&mut l, &mut at), Ok(None));
    assert_eq!(l, lines(&["void Foo();"]));
    let mut l = lines(&["void Foo() {}"]);
    assert_eq!(remove_fn_block(&mut l, &mut at), Ok(Some(String::new())));
    let mut at = 3;
    assert_eq!(remove_fn_block(&mut l, &mut at), Ok(None));

    let mut l = lines(&["int g()", "{", "  if (a) {", "  }", "}", "int x;"]);
    let mut at = 0;
    assert_eq!(remove_fn_block(&mut l, &mut at), Ok(Some("  if (a) {\r\n  }".to_string())));
    assert_eq!(l, lines(&["int g();", "int x;"]));
    assert_eq!(at, 0);

    let mut l = lines(&["int h()", "{ return 2; }", "int x;"]);
    let mut at = 0;
    assert_eq!(remove_fn_block(&mut l, &mut at), Ok(Some("return 2;".to_string())));
    assert_eq!(l, lines(&["int h();", "int x;"]));
    let mut l = lines(&["int h()", "{", "  a;", "  b; }", "int x;"]);
    assert_eq!(remove_fn_block(&mut l, &mut at), Ok(Some("  a;\r\nb;".to_string())));
    assert_eq!(l, lines(&["int h();", "int x;"]));
    let mut l = lines(&["int h()", "next", "more"]);
    assert_eq!(remove_fn_block(&mut l, &mut at), Ok(None));
    assert_eq!(l, lines(&["int h();"]));
    let mut l = lines(&["int h()", "} {"]);
    assert_eq!(remove_fn_block(&mut l, &mut at), Err(Fault));

    let mut l = lines(&["int p();", "int x;"]);
    let mut at = 0;
    assert_eq!(remove_fn_block(&mut l, &mut at), Ok(None));
    assert_eq!(l, lines(&["int p();", "int x;"]));

    let mut l = lines(&["int a;", "int k() {", "  body;", "}", "int x;"]);
    let mut at = 1;
    assert_eq!(remove_fn_block(&mut l, &mut at), Ok(Some("  body;".to_string())));
    assert_eq!(l, lines(&["int a;", "int k() ;", "int x;"]));
    assert_eq!(at, 1);

    let mut l = lines(&["int k() { first;", "  if (a) {", "  }", "  last; }", "int x;"]);
    let mut at = 0;
    assert_eq!(
        remove_fn_block(&mut l, &mut at),
        Ok(Some("first;\r\n  if (a) {\r\n  }\r\nlast;".to_string()))
    );
    assert_eq!(l, lines(&["int k() ;", "int x;"]));
    assert_eq!(at, 0);
    let mut l = lines(&["int k() {", "}"]);
    assert_eq!(remove_fn_block(&mut l, &mut at), Ok(None));
    assert_eq!(l, lines(&["int k() ;"]));
}

#[test]
fn braces_that_do_not_match_are_a_fault() {
    let mut l = lines(&["} int f() {"]);
    let mut at = 0;
    assert_eq!(remove_fn_block(&mut l, &mut at), Err(Fault));
    let mut l = lines(&["int f() }"]);
    let mut at = 0;
    assert_eq!(remove_fn_block(&mut l, &mut at), Err(Fault));
    let mut l = lines(&["} f(); {"]);
    assert_eq!(remove_all_fn_block(&mut l), Err(Fault));
    let mut l = lines(&["void g()", "} {"]);
    assert_eq!(remove_all_fn_block(&mut l), Err(Fault));
    assert_eq!(normalize_header("} f(); {\n"), Err(Fault));
    assert_eq!(normalize_header("UE_DEPRECATED(5, \"x\")\n} void f() {\n"), Err(Fault));
    assert_eq!(normalize_header("int k() {\n}\n"), Ok(lines(&["int k() ;"])));
    assert_eq!(normalize_header("void f() }\n"), Ok(lines(&["void f() }"])));
}

#[test]
fn deprecated_declarations_go() {
    let mut l = lines(&["int a;", "UE_DEPRECATED(5.0, \"gone\")", "void Old(int x);", "int b;"]);
    assert_eq!(remove_deprecated(&mut l), Ok(()));
    assert_eq!(l, lines(&["int a;", "int b;"]));
    let mut l = lines(&["int a;", "UE_DEPRECATED(5.0, \"gone\")", "void Old(int x)", "{", "  body;", "}", "int b;"]);
    assert_eq!(remove_deprecated(&mut l), Ok(()));
    assert_eq!(l, lines(&["int a;", "int b;"]));
}

#[test]
fn bodies_operators_and_pure_virtuals_go() {
    let mut l = lines(&[
        "class A",
        "{",
        "public:",
        "    virtual void Tick() = 0;",
        "    int Get() const { return v; }",
        "    void Set(int a,",
        "        int b)",
        "    {",
        "        v = a;",
        "    }",
        "    bool operator==(const A& o) const;",
        "    int v;",
        "};",
        "void A::Out() {}",
    ]);
    assert_eq!(remove_all_fn_block(&mut l), Ok(()));
    assert_eq!(
        l,
        lines(&["class A", "{", "public:", "int Get() const ;", "    void Set(int a,        int b);", "    int v;", "};"])
    );
}

#[test]
fn a_header_is_normalised_in_passes() {
    let text = "// Copyright\r\n#pragma once\r\n#include \"CoreMinimal.h\"\r\n#define MAX 4 \\\r\n   + 1\r\nUCLASS()\r\nclass ENGINE_API AThing\r\n{\r\npublic:\r\n\tint Value; // the value\r\n\tFORCEINLINE int Get() const { return Value; }\r\n\ttemplate<typename T>\r\n\tT As() const\r\n\t{\r\n\t\treturn T();\r\n\t}\r\n};\r\n";
    let out = normalize_header(text).unwrap();
    assert_eq!(out, lines(&["class  AThing", "{", "public:", "int Value; ", "int Get() const ;", "};"]));
    assert_eq!(normalize_header(""), Ok(vec![]));
}

#[test]
fn a_body_in_braces_on_their_own_lines_leaves_the_prototype() {
    let text = "class A\n{\npublic:\n\tvoid Run(int n) {\n\t\tfor (;;) {\n\t\t}\n\t}\n\tUE_DEPRECATED(5.0, \"old\")\n\tvoid Old() {\n\t\tgone();\n\t}\n\tint After;\n};\n";
    let out = normalize_header(text).unwrap();
    assert_eq!(out, lines(&["class A", "{", "public:", "void Run(int n) ;", "\tint After;", "};"]));
}
