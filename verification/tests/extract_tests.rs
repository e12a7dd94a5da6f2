use engine_bindgen::extract::dedup;
use engine_bindgen::extract::is_bit_value;
use engine_bindgen::extract::param_of_text;
use engine_bindgen::extract::parse_api;
use engine_bindgen::extract::parse_class;
use engine_bindgen::extract::parse_enum;
use engine_bindgen::extract::parse_field;
use engine_bindgen::extract::parse_file;
use engine_bindgen::extract::parse_node;
use engine_bindgen::extract::parse_parm_decl;
use engine_bindgen::extract::sort_by_name;
use engine_bindgen::extract::ParseState;
use engine_bindgen::model::CppApi;
use engine_bindgen::model::CppEnum;
use engine_bindgen::model::CppEnumConstant;
use engine_bindgen::model::Engine;
use engine_bindgen::model::Parameter;
use engine_bindgen::model::QualType;
use engine_bindgen::model::ValueType;
use engine_bindgen::syntax::Clang;
use engine_bindgen::syntax::Node;
use engine_bindgen::syntax::NodeKind;
use engine_bindgen::syntax::SourceSpan;
use engine_bindgen::syntax::SourceSpot;

fn spot(offset: usize) -> SourceSpot {
    SourceSpot { spelling: Some(offset), expansion: Some(offset) }
}

fn span(begin: usize, end: usize) -> SourceSpan {
    SourceSpan { begin: spot(begin), end: spot(end) }
}

fn leaf(kind: NodeKind, name: &str) -> Node {
    Node { kind: Clang::new(kind, name.to_string()), inner: vec![] }
}

fn typed(mut node: Node, qual: &str) -> Node {
    node.kind.ty = Some(QualType { qualType: Some(qual.to_string()) });
    node
}

fn state(content: &str) -> ParseState {
    ParseState::new(content.to_string(), "Some/File.h".to_string())
}

fn constant(name: &str, enum_name: &str, literal: Option<&str>) -> Node {
    let mut c = typed(leaf(NodeKind::EnumConstantDecl, name), enum_name);
    if let Some(text) = literal {
        let mut e = leaf(NodeKind::ConstantExpr, "");
        e.kind.value = Some(text.to_string());
        c.inner.push(e);
    }
    c
}

fn enum_node(name: &str, constants: Vec<Node>) -> Node {
    let mut n = leaf(NodeKind::EnumDecl, name);
    n.inner = constants;
    n
}

/// A declaration located in `content`: its range starts at `decl`, its name
/// stands at `name`, and its range ends at `end`.
fn located(kind: NodeKind, name: &str, content: &str, decl: &str, end_after: &str) -> Node {
    let begin = content.find(decl).unwrap();
    let at = begin + decl.rfind(name).unwrap();
    let end = content.find(end_after).unwrap() + end_after.len();
    let mut n = leaf(kind, name);
    n.kind.range = Some(span(begin, end));
    n.kind.loc = Some(spot(at));
    n
}

fn param_node(name: &str, content: &str, decl: &str) -> Node {
    let begin = content.find(decl).unwrap();
    let mut n = leaf(NodeKind::ParmVarDecl, name);
    n.kind.range = Some(span(begin, begin + decl.len()));
    n.kind.loc = Some(spot(begin + decl.len()));
    n
}

#[test]
fn enum_constants_count_up_from_their_literals() {
    let node = enum_node(
        "EMode",
        vec![
            constant("A", "EMode", None),
            constant("B", "EMode", Some("5")),
            constant("C", "EMode", None),
            constant("D", "EMode", Some("-2")),
            constant("E", "EMode", None),
        ],
    );
    let mut st = state("");
    let parsed = parse_enum(&node, &mut st).unwrap();
    let values: Vec<(String, i32)> = parsed.constants.iter().map(|c| (c.name.clone(), c.value)).collect();
    assert_eq!(
        values,
        vec![
            ("A".to_string(), 0),
            ("B".to_string(), 5),
            ("C".to_string(), 6),
            ("D".to_string(), -2),
            ("E".to_string(), -1),
        ]
    );
    assert_eq!(parsed.name, "EMode");
    assert!(!parsed.enum_class);
}

#[test]
fn scoped_enum_and_empty_enum() {
    let mut node = enum_node("EKind", vec![]);
    node.kind.scoped_enum_tag = Some("class".to_string());
    let mut st = state("");
    assert_eq!(
        parse_enum(&node, &mut st),
        Some(CppEnum { name: "EKind".to_string(), constants: vec![], enum_class: true })
    );
    node.kind.scoped_enum_tag = Some("struct".to_string());
    assert!(!parse_enum(&node, &mut st).unwrap().enum_class);
}

#[test]
fn an_enum_with_a_non_literal_constant_is_dropped_whole() {
    let mut st = state("");
    let reference = enum_node(
        "EMode",
        vec![constant("A", "EMode", Some("1")), constant("B", "EMode", Some("EOther::X")), constant("C", "EMode", None)],
    );
    assert_eq!(parse_enum(&reference, &mut st), None);
    let mut cast = constant("B", "EMode", None);
    cast.inner.push(leaf(NodeKind::Other, ""));
    assert_eq!(parse_enum(&enum_node("EMode", vec![constant("A", "EMode", None), cast]), &mut st), None);
    let foreign = enum_node("EMode", vec![constant("A", "EOther", None)]);
    assert_eq!(parse_enum(&foreign, &mut st), None);
    let untyped = enum_node("EMode", vec![leaf(NodeKind::EnumConstantDecl, "A")]);
    assert_eq!(parse_enum(&untyped, &mut st), None);
    let bare = || {
        let mut b = constant("B", "EMode", None);
        b.inner.push(leaf(NodeKind::ConstantExpr, ""));
        b
    };
    assert_eq!(parse_enum(&enum_node("EMode", vec![constant("A", "EMode", Some("1")), bare()]), &mut st), None);
    assert_eq!(parse_enum(&enum_node("EMode", vec![bare(), constant("C", "EMode", Some("1"))]), &mut st), None);
    let overflow = enum_node("EMode", vec![constant("A", "EMode", Some("2147483647")), constant("B", "EMode", None)]);
    assert_eq!(parse_enum(&overflow, &mut st), None);
    let top = enum_node("EMode", vec![constant("A", "EMode", Some("2147483647"))]);
    assert_eq!(
        parse_enum(&top, &mut st).unwrap().constants,
        vec![CppEnumConstant { name: "A".to_string(), value: i32::MAX }]
    );
    let mut engine = Engine::default();
    parse_node(&reference, &mut engine, &mut st);
    assert!(engine.enums.is_empty());
}

#[test]
fn bit_fields_have_a_colon_before_the_semicolon() {
    let st = state("uint8 bFlag : 1; int x; é: y;");
    assert!(is_bit_value(&st, 6));
    assert!(!is_bit_value(&st, 21));
    assert!(is_bit_value(&st, 24));
    assert!(!is_bit_value(&st, 200));
    assert!(!is_bit_value(&state(""), 0));
    assert!(!is_bit_value(&state("x"), usize::MAX));
}

#[test]
fn a_field_takes_its_type_from_the_tree_or_from_the_source() {
    let content = "class A { AActor* Owner; TArray<int> Items; uint8 bOn : 1; static float S; };";
    let st = state(content);
    let mut owner = typed(leaf(NodeKind::FieldDecl, "Owner"), "AActor *");
    owner.kind.loc = Some(spot(content.find("Owner").unwrap()));
    let f = parse_field(&owner.kind, &st);
    assert_eq!((f.name.as_str(), f.type_str.as_str(), f.r_type.as_str()), ("Owner", "AActor", "AActor"));
    assert!(f.is_ptr && !f.is_generic && !f.bit_value && !f.is_static);
    assert_eq!(f.value_type, ValueType::Object.code());

    let mut items = located(NodeKind::FieldDecl, "Items", content, "TArray<int> Items", "TArray<int>");
    items.kind.is_invalid = true;
    let f = parse_field(&items.kind, &st);
    assert_eq!(f.type_str, "TArray<int>");
    assert!(f.is_generic);

    let mut on = typed(leaf(NodeKind::FieldDecl, "bOn"), "uint8");
    on.kind.loc = Some(spot(content.find("bOn").unwrap()));
    let f = parse_field(&on.kind, &st);
    assert!(f.bit_value);
    assert_eq!((f.r_type.as_str(), f.value_type), ("u8", ValueType::U8.code()));

    let mut s = typed(leaf(NodeKind::FieldDecl, "S"), "float");
    s.kind.storage_class = Some("static".to_string());
    s.kind.loc = Some(spot(content.find("S;").unwrap()));
    assert!(parse_field(&s.kind, &st).is_static);

    let mut broken = leaf(NodeKind::FieldDecl, "B");
    broken.kind.is_invalid = true;
    broken.kind.range = Some(span(10, 5));
    assert_eq!(parse_field(&broken.kind, &st).type_str, "");
}

#[test]
fn parameters_are_peeled_in_order() {
    let p = param_of_text("Other", "const Vector3& Other", 0);
    assert_eq!((p.name.as_str(), p.type_str.as_str()), ("Other", "Vector3"));
    assert!(p.const_param && p.ref_param && !p.ptr_param && !p.move_param);
    let p = param_of_text("Count", "int32 Count = 3", 1);
    assert_eq!((p.name.as_str(), p.type_str.as_str(), p.r_type.as_str()), ("Count", "int32", "i32"));
    assert_eq!(p.param_type, ValueType::I32.code());
    let p = param_of_text("", "class AActor*", 2);
    assert_eq!((p.name.as_str(), p.type_str.as_str()), ("arg2", "AActor"));
    assert!(p.ptr_param);
    let p = param_of_text("V", "FVector&& V", 0);
    assert!(p.move_param && !p.ref_param);
    assert_eq!(p.type_str, "FVector");
    let p = param_of_text("Name", "FString const&", 0);
    assert!(p.const_param && p.ref_param);
    assert_eq!((p.name.as_str(), p.type_str.as_str()), ("Name", "FString"));
    let p = param_of_text("Name", "FString const& Name", 0);
    assert!(!p.const_param && p.ref_param);
    assert_eq!((p.name.as_str(), p.type_str.as_str()), ("const", "FString"));
    let p = param_of_text("List", "const TArray<int32>& List", 0);
    assert!(p.is_generic);
    let p = param_of_text("X", "unsigned int X", 0);
    assert_eq!((p.name.as_str(), p.type_str.as_str()), ("X", "unsigned int"));
    let p = param_of_text("P", "int const*", 0);
    assert!(p.const_param && p.ptr_param);
    assert_eq!((p.name.as_str(), p.type_str.as_str()), ("P", "int"));
    let p = param_of_text("Y = 1", "float Y", 0);
    assert_eq!(p.name, "Y");
}

#[test]
fn a_method_reads_its_result_from_the_source() {
    let content = "class V { virtual const FVector& Get(int32 Index) const; static UWorld* World(); float Dot(const V& o) const; };";
    let st = state(content);
    let mut get = typed(located(NodeKind::CXXMethodDecl, "Get", content, "virtual const FVector& Get", "Index) const"), "const FVector &(int32) const");
    get.inner.push(param_node("Index", content, "int32 Index"));
    let api = parse_api(&get, &st).unwrap();
    assert_eq!((api.name.as_str(), api.rc_type.as_str()), ("Get", "FVector"));
    assert!(api.is_virtual && api.const_ret && api.ref_ret && api.is_const && !api.ptr_ret && !api.is_static);
    assert_eq!(api.parameters.len(), 1);
    assert_eq!(api.parameters[0].type_str, "int32");

    let east = "class V { FVector const& Peek() const; FVector const Copy(); };";
    let peek = typed(located(NodeKind::CXXMethodDecl, "Peek", east, "FVector const& Peek", "Peek()"), "const FVector &() const");
    let api = parse_api(&peek, &state(east)).unwrap();
    assert_eq!(api.rc_type, "FVector");
    assert!(api.const_ret && api.ref_ret && api.is_const);
    let copy = typed(located(NodeKind::CXXMethodDecl, "Copy", east, "FVector const Copy", "Copy()"), "const FVector ()");
    let api = parse_api(&copy, &state(east)).unwrap();
    assert_eq!(api.rc_type, "FVector");
    assert!(api.const_ret && !api.ref_ret && !api.is_const);

    let world = typed(located(NodeKind::CXXMethodDecl, "World", content, "static UWorld* World", "World()"), "UWorld *()");
    let api = parse_api(&world, &st).unwrap();
    assert_eq!(api.rc_type, "UWorld");
    assert!(api.is_static && api.ptr_ret && !api.is_const);
    assert_eq!(api.return_type, ValueType::Object.code());

    let mut dot = typed(located(NodeKind::CXXMethodDecl, "Dot", content, "float Dot", "o) const"), "float (const V &) const");
    dot.inner.push(param_node("o", content, "const V& o"));
    let api = parse_api(&dot, &st).unwrap();
    assert_eq!((api.rc_type.as_str(), api.r_type.as_str()), ("float", "f32"));
    assert!(api.is_const && !api.is_generic);
    assert_eq!(
        api.parameters,
        vec![Parameter {
            const_param: true,
            ref_param: true,
            name: "o".to_string(),
            type_str: "V".to_string(),
            r_type: "V".to_string(),
            param_type: ValueType::Object.code(),
            ..Default::default()
        }]
    );
}

#[test]
fn methods_that_are_not_read() {
    let content = "void operator+(int a); void Gone() = delete; void Bad(int x);";
    let st = state(content);
    let op = located(NodeKind::CXXMethodDecl, "operator+", content, "void operator+", "a)");
    assert_eq!(parse_api(&op, &st), None);
    let mut gone = located(NodeKind::CXXMethodDecl, "Gone", content, "void Gone", "Gone()");
    assert!(parse_api(&gone, &st).is_some());
    gone.kind.explicitly_deleted = true;
    assert_eq!(parse_api(&gone, &st), None);
    let mut bad = located(NodeKind::CXXMethodDecl, "Bad", content, "void Bad", "x)");
    let mut p = leaf(NodeKind::ParmVarDecl, "x");
    p.kind.range = Some(span(40, 40));
    bad.inner.push(p);
    assert_eq!(parse_api(&bad, &st), None);
    let mut api = CppApi::default();
    parse_parm_decl(&bad.inner, &mut api, &st);
    assert!(api.invalid);
    assert!(api.parameters.is_empty());
    let mut unlocated = leaf(NodeKind::CXXMethodDecl, "Free");
    unlocated.kind.range = None;
    assert_eq!(parse_api(&unlocated, &st), None);
    let mut beyond = leaf(NodeKind::CXXMethodDecl, "Far");
    beyond.kind.range = Some(span(0, 5000));
    beyond.kind.loc = Some(spot(4000));
    assert_eq!(parse_api(&beyond, &st), None);
}

fn method_named(name: &str, params: usize, tag: &str) -> CppApi {
    CppApi {
        name: name.to_string(),
        rc_type: tag.to_string(),
        parameters: (0..params).map(|_| Parameter::default()).collect(),
        ..Default::default()
    }
}

#[test]
fn methods_are_sorted_by_name_and_repeats_collapse() {
    let apis = vec![
        method_named("b", 0, "1"),
        method_named("a", 1, "2"),
        method_named("b", 0, "3"),
        method_named("a", 2, "4"),
        method_named("B", 0, "5"),
        method_named("a", 2, "6"),
    ];
    let sorted = sort_by_name(&apis);
    let order: Vec<&str> = sorted.iter().map(|a| a.rc_type.as_str()).collect();
    assert_eq!(order, vec!["5", "2", "4", "6", "1", "3"]);
    let unique = dedup(&sorted);
    let order: Vec<&str> = unique.iter().map(|a| a.rc_type.as_str()).collect();
    assert_eq!(order, vec!["5", "2", "4", "1"]);
    let overloads = vec![
        method_named("f", 1, "a"),
        method_named("f", 2, "b"),
        method_named("f", 3, "c"),
        method_named("f", 2, "d"),
        method_named("e", 2, "e"),
        method_named("f", 1, "f"),
    ];
    let kept = dedup(&sort_by_name(&overloads));
    let order: Vec<(&str, usize, &str)> =
        kept.iter().map(|a| (a.name.as_str(), a.parameters.len(), a.rc_type.as_str())).collect();
    assert_eq!(order, vec![("e", 2, "e"), ("f", 1, "a"), ("f", 2, "b"), ("f", 3, "c")]);
    assert!(sort_by_name(&vec![]).is_empty());
    assert!(dedup(&vec![]).is_empty());
}

fn sample() -> (String, Node) {
    let content = "struct FBox { float Min; union { struct { float X; float Y; }; float V[2]; }; private: float Hidden; public: float Area() const; float Area() const; FBox(); };\nenum EAxis { X, Y = 4 };\nfloat Free(float a);\nclass Empty;".to_string();
    let c = content.as_str();
    let mut root = leaf(NodeKind::Other, "");
    let mut record = leaf(NodeKind::CXXRecordDecl, "FBox");
    record.kind.tag_used = "struct".to_string();
    let field = |name: &str, decl: &str| {
        let mut f = typed(leaf(NodeKind::FieldDecl, name), "float");
        f.kind.loc = Some(spot(c.find(decl).unwrap() + decl.find(name).unwrap()));
        f
    };
    record.inner.push(field("Min", "float Min"));
    let mut union_node = leaf(NodeKind::CXXRecordDecl, "");
    union_node.kind.tag_used = "union".to_string();
    let mut inner = leaf(NodeKind::CXXRecordDecl, "");
    inner.kind.tag_used = "struct".to_string();
    inner.inner.push(field("X", "float X"));
    inner.inner.push(field("Y", "float Y"));
    union_node.inner.push(leaf(NodeKind::Other, ""));
    union_node.inner.push(inner);
    record.inner.push(union_node);
    let mut private = leaf(NodeKind::AccessSpecDecl, "");
    private.kind.access = "private".to_string();
    record.inner.push(private);
    record.inner.push(field("Hidden", "float Hidden"));
    let mut public = leaf(NodeKind::AccessSpecDecl, "");
    public.kind.access = "public".to_string();
    record.inner.push(public);
    let area = typed(located(NodeKind::CXXMethodDecl, "Area", c, "float Area", "Area() const"), "float () const");
    let area2 = typed(located(NodeKind::CXXMethodDecl, "Area", c, "float Area", "Area() const"), "float () const");
    record.inner.push(area);
    record.inner.push(area2);
    record.inner.push(located(NodeKind::CXXConstructorDecl, "FBox", c, "FBox();", "FBox()"));
    root.inner.push(record);
    root.inner.push(enum_node("EAxis", vec![constant("X", "EAxis", None), constant("Y", "EAxis", Some("4"))]));
    let mut free = typed(located(NodeKind::FunctionDecl, "Free", c, "float Free", "a)"), "float (float)");
    free.inner.push(param_node("a", c, "float a"));
    root.inner.push(free);
    let mut empty = leaf(NodeKind::CXXRecordDecl, "Empty");
    empty.kind.tag_used = "class".to_string();
    root.inner.push(empty);
    let mut guid = leaf(NodeKind::CXXRecordDecl, "_GUID");
    guid.kind.tag_used = "struct".to_string();
    guid.inner.push(leaf(NodeKind::Other, ""));
    root.inner.push(guid);
    (content, root)
}

#[test]
fn a_tree_is_read_into_the_model() {
    let (content, root) = sample();
    let mut engine = Engine::default();
    parse_file(&root, content.clone(), "Math/Box.h".to_string(), &mut engine);
    assert_eq!(engine.classes.len(), 1);
    let class = &engine.classes[0];
    assert_eq!((class.name.as_str(), class.path.as_str(), class.is_struct), ("FBox", "Math/Box.h", true));
    let public: Vec<&str> = class.properties.iter().map(|p| p.name.as_str()).collect();
    assert_eq!(public, vec!["Min", "X", "Y"]);
    let hidden: Vec<&str> = class.none_public_properties.iter().map(|p| p.name.as_str()).collect();
    assert_eq!(hidden, vec!["Hidden"]);
    let apis: Vec<(&str, bool, &str)> =
        class.public_apis.iter().map(|a| (a.name.as_str(), a.is_construstor, a.class_name.as_str())).collect();
    assert_eq!(apis, vec![("Area", false, "FBox"), ("FBox", true, "FBox")]);
    assert_eq!(engine.enums.len(), 1);
    assert_eq!(engine.enums[0].constants[1], CppEnumConstant { name: "Y".to_string(), value: 4 });
    assert_eq!(engine.static_apis.len(), 1);
    assert_eq!(engine.static_apis[0].name, "Free");
    assert_eq!(engine.static_apis[0].class_name, "");
}

#[test]
fn reading_the_same_tree_twice_gives_the_same_model() {
    let (content, root) = sample();
    let mut first = Engine::default();
    parse_file(&root, content.clone(), "Math/Box.h".to_string(), &mut first);
    let mut second = Engine::default();
    parse_file(&root, content.clone(), "Math/Box.h".to_string(), &mut second);
    assert_eq!(first, second);
    let mut untouched = Engine::default();
    parse_file(&root, String::new(), "Math/Box.h".to_string(), &mut untouched);
    assert_eq!(untouched, Engine::default());
}

#[test]
fn a_class_hides_its_members_until_told_otherwise() {
    let content = "class A { float x; public: float y; };";
    let mut record = leaf(NodeKind::CXXRecordDecl, "A");
    record.kind.tag_used = "class".to_string();
    let mut x = typed(leaf(NodeKind::FieldDecl, "x"), "float");
    x.kind.loc = Some(spot(16));
    record.inner.push(x);
    let mut public = leaf(NodeKind::AccessSpecDecl, "");
    public.kind.access = "public".to_string();
    record.inner.push(public);
    let mut y = typed(leaf(NodeKind::FieldDecl, "y"), "float");
    y.kind.loc = Some(spot(33));
    record.inner.push(y);
    let mut union_node = leaf(NodeKind::CXXRecordDecl, "");
    union_node.kind.tag_used = "union".to_string();
    let mut inner = leaf(NodeKind::CXXRecordDecl, "");
    inner.kind.tag_used = "struct".to_string();
    inner.inner.push(typed(leaf(NodeKind::FieldDecl, "z"), "float"));
    union_node.inner.push(inner);
    record.inner.push(union_node);
    let mut st = state(content);
    let class = parse_class(&record, &mut st).unwrap();
    assert!(!class.is_struct);
    assert_eq!(class.none_public_properties.len(), 1);
    assert_eq!(class.properties.len(), 1);
    assert_eq!(class.properties[0].name, "y");
    assert!(st.is_pub);
    assert_eq!(parse_class(&leaf(NodeKind::CXXRecordDecl, "E"), &mut st), None);
}
