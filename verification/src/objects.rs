//! Bindings for objects that a description lists member by member: an
//! older way to the same artifacts, for objects of which no header is read.

use crate::model::clone_opt;
use crate::model::clone_strings;
use crate::model::opt_view;
use crate::text::cat2;
use crate::text::cat3;
use crate::text::cat4;
use crate::text::cat5;
use crate::text::contains;
use crate::text::holds;
use crate::text::join;
use crate::text::joined;
use crate::text::lemma_views_push;
use crate::text::push_all;
use crate::text::push_text;
use crate::text::replace_all;
use crate::text::replaced;
use crate::text::same;
use crate::text::views;
use vstd::prelude::*;
use vstd::string::StringExecFns;

verus! {


/// A parameter of a listed method: its companion type and its name.
#[derive(Debug, PartialEq, Eq)]
pub struct Parameter {
    pub ty: String,
    pub name: String,
}

/// What a `Parameter` holds, its texts as character sequences.
pub struct ParameterView {
    pub ty: Seq<char>,
    pub name: Seq<char>,
}

impl ParameterView {
    /// The value with nothing in it.
    pub open spec fn empty() -> ParameterView {
        ParameterView {
            ty: Seq::empty(),
            name: Seq::empty(),
        }
    }
}

impl View for Parameter {
    type V = ParameterView;

    open spec fn view(&self) -> ParameterView {
        ParameterView {
            ty: self.ty@,
            name: self.name@,
        }
    }
}

impl Default for Parameter {
    fn default() -> (r: Self)
        ensures
            r@ == ParameterView::empty(),
    {
        let r = Parameter {
            ty: String::new(),
            name: String::new(),
        };
        r
    }
}

impl Clone for Parameter {
    fn clone(&self) -> (r: Self)
        ensures
            r@ == self@,
    {
        Parameter {
            ty: self.ty.clone(),
            name: self.name.clone(),
        }
    }
}

/// A copy of a list, element by element.
pub fn clone_parameter_list(v: &Vec<Parameter>) -> (r: Vec<Parameter>)
    ensures
        views(r@) == views(v@),
{
    let mut out: Vec<Parameter> = Vec::new();
    let mut i: usize = 0;
    while i < v.len()
        invariant
            i <= v.len(),
            views(out@) == views(v@).take(i as int),
        decreases v.len() - i,
    {
        let item = v[i].clone();
        proof {
            lemma_views_push(out@, item);
            assert(views(v@).take(i + 1) =~= views(v@).take(i as int).push(v@[i as int]@));
        }
        out.push(item);
        i += 1;
    }
    assert(views(v@).take(v.len() as int) =~= views(v@));
    out
}

/// A listed method.
#[derive(Debug, PartialEq, Eq)]
pub struct Api {
    pub is_static: bool,
    pub name: String,
    /// The companion type of the result; empty for none.
    pub ret_type: String,
    pub parameters: Vec<Parameter>,
}

/// What a `Api` holds, its texts as character sequences.
pub struct ApiView {
    pub is_static: bool,
    pub name: Seq<char>,
    pub ret_type: Seq<char>,
    pub parameters: Seq<ParameterView>,
}

impl ApiView {
    /// The value with nothing in it.
    pub open spec fn empty() -> ApiView {
        ApiView {
            is_static: false,
            name: Seq::empty(),
            ret_type: Seq::empty(),
            parameters: Seq::empty(),
        }
    }
}

impl View for Api {
    type V = ApiView;

    open spec fn view(&self) -> ApiView {
        ApiView {
            is_static: self.is_static,
            name: self.name@,
            ret_type: self.ret_type@,
            parameters: views(self.parameters@),
        }
    }
}

impl Default for Api {
    fn default() -> (r: Self)
        ensures
            r@ == ApiView::empty(),
    {
        let r = Api {
            is_static: false,
            name: String::new(),
            ret_type: String::new(),
            parameters: Vec::new(),
        };
        assert(views(r.parameters@) =~= Seq::empty());
        r
    }
}

impl Clone for Api {
    fn clone(&self) -> (r: Self)
        ensures
            r@ == self@,
    {
        Api {
            is_static: self.is_static,
            name: self.name.clone(),
            ret_type: self.ret_type.clone(),
            parameters: clone_parameter_list(&self.parameters),
        }
    }
}

/// A copy of a list, element by element.
pub fn clone_api_list(v: &Vec<Api>) -> (r: Vec<Api>)
    ensures
        views(r@) == views(v@),
{
    let mut out: Vec<Api> = Vec::new();
    let mut i: usize = 0;
    while i < v.len()
        invariant
            i <= v.len(),
            views(out@) == views(v@).take(i as int),
        decreases v.len() - i,
    {
        let item = v[i].clone();
        proof {
            lemma_views_push(out@, item);
            assert(views(v@).take(i + 1) =~= views(v@).take(i as int).push(v@[i as int]@));
        }
        out.push(item);
        i += 1;
    }
    assert(views(v@).take(v.len() as int) =~= views(v@));
    out
}

/// A listed field or constant.
#[derive(Debug, PartialEq, Eq)]
pub struct Property {
    pub is_static: bool,
    pub name: String,
    pub ty: String,
    pub value: Option<String>,
}

/// What a `Property` holds, its texts as character sequences.
pub struct PropertyView {
    pub is_static: bool,
    pub name: Seq<char>,
    pub ty: Seq<char>,
    pub value: Option<Seq<char>>,
}

impl PropertyView {
    /// The value with nothing in it.
    pub open spec fn empty() -> PropertyView {
        PropertyView {
            is_static: false,
            name: Seq::empty(),
            ty: Seq::empty(),
            value: None,
        }
    }
}

impl View for Property {
    type V = PropertyView;

    open spec fn view(&self) -> PropertyView {
        PropertyView {
            is_static: self.is_static,
            name: self.name@,
            ty: self.ty@,
            value: opt_view(self.value),
        }
    }
}

impl Default for Property {
    fn default() -> (r: Self)
        ensures
            r@ == PropertyView::empty(),
    {
        let r = Property {
            is_static: false,
            name: String::new(),
            ty: String::new(),
            value: None,
        };
        r
    }
}

impl Clone for Property {
    fn clone(&self) -> (r: Self)
        ensures
            r@ == self@,
    {
        Property {
            is_static: self.is_static,
            name: self.name.clone(),
            ty: self.ty.clone(),
            value: clone_opt(&self.value),
        }
    }
}

/// A copy of a list, element by element.
pub fn clone_property_list(v: &Vec<Property>) -> (r: Vec<Property>)
    ensures
        views(r@) == views(v@),
{
    let mut out: Vec<Property> = Vec::new();
    let mut i: usize = 0;
    while i < v.len()
        invariant
            i <= v.len(),
            views(out@) == views(v@).take(i as int),
        decreases v.len() - i,
    {
        let item = v[i].clone();
        proof {
            lemma_views_push(out@, item);
            assert(views(v@).take(i + 1) =~= views(v@).take(i as int).push(v@[i as int]@));
        }
        out.push(item);
        i += 1;
    }
    assert(views(v@).take(v.len() as int) =~= views(v@));
    out
}

/// An object as a description lists it.
#[derive(Debug, PartialEq, Eq)]
pub struct UnrealObject {
    /// The native name.
    pub unreal_type: String,
    /// `class`, `struct`, `enum` or `const`.
    pub ty: String,
    /// The companion name, where it differs from the native one.
    pub alias: String,
    pub opaque_type: bool,
    pub properties: Vec<Property>,
    pub apis: Vec<Api>,
    pub namespace: Option<String>,
}

/// What a `UnrealObject` holds, its texts as character sequences.
pub struct UnrealObjectView {
    pub unreal_type: Seq<char>,
    pub ty: Seq<char>,
    pub alias: Seq<char>,
    pub opaque_type: bool,
    pub properties: Seq<PropertyView>,
    pub apis: Seq<ApiView>,
    pub namespace: Option<Seq<char>>,
}

impl UnrealObjectView {
    /// The value with nothing in it.
    pub open spec fn empty() -> UnrealObjectView {
        UnrealObjectView {
            unreal_type: Seq::empty(),
            ty: Seq::empty(),
            alias: Seq::empty(),
            opaque_type: false,
            properties: Seq::empty(),
            apis: Seq::empty(),
            namespace: None,
        }
    }
}

impl View for UnrealObject {
    type V = UnrealObjectView;

    open spec fn view(&self) -> UnrealObjectView {
        UnrealObjectView {
            unreal_type: self.unreal_type@,
            ty: self.ty@,
            alias: self.alias@,
            opaque_type: self.opaque_type,
            properties: views(self.properties@),
            apis: views(self.apis@),
            namespace: opt_view(self.namespace),
        }
    }
}

impl Default for UnrealObject {
    fn default() -> (r: Self)
        ensures
            r@ == UnrealObjectView::empty(),
    {
        let r = UnrealObject {
            unreal_type: String::new(),
            ty: String::new(),
            alias: String::new(),
            opaque_type: false,
            properties: Vec::new(),
            apis: Vec::new(),
            namespace: None,
        };
        assert(views(r.properties@) =~= Seq::empty());
        assert(views(r.apis@) =~= Seq::empty());
        r
    }
}

impl Clone for UnrealObject {
    fn clone(&self) -> (r: Self)
        ensures
            r@ == self@,
    {
        UnrealObject {
            unreal_type: self.unreal_type.clone(),
            ty: self.ty.clone(),
            alias: self.alias.clone(),
            opaque_type: self.opaque_type,
            properties: clone_property_list(&self.properties),
            apis: clone_api_list(&self.apis),
            namespace: clone_opt(&self.namespace),
        }
    }
}

/// The native side of one listed method.
#[derive(Debug, PartialEq, Eq)]
pub struct CppBinderApi {
    /// The statement that registers the native function.
    pub rust_api: String,
    pub parameters: Vec<Parameter>,
    /// The type of the function pointer.
    pub fptr: Option<String>,
    pub result: String,
}

/// What a `CppBinderApi` holds, its texts as character sequences.
pub struct CppBinderApiView {
    pub rust_api: Seq<char>,
    pub parameters: Seq<ParameterView>,
    pub fptr: Option<Seq<char>>,
    pub result: Seq<char>,
}

impl CppBinderApiView {
    /// The value with nothing in it.
    pub open spec fn empty() -> CppBinderApiView {
        CppBinderApiView {
            rust_api: Seq::empty(),
            parameters: Seq::empty(),
            fptr: None,
            result: Seq::empty(),
        }
    }
}

impl View for CppBinderApi {
    type V = CppBinderApiView;

    open spec fn view(&self) -> CppBinderApiView {
        CppBinderApiView {
            rust_api: self.rust_api@,
            parameters: views(self.parameters@),
            fptr: opt_view(self.fptr),
            result: self.result@,
        }
    }
}

impl Default for CppBinderApi {
    fn default() -> (r: Self)
        ensures
            r@ == CppBinderApiView::empty(),
    {
        let r = CppBinderApi {
            rust_api: String::new(),
            parameters: Vec::new(),
            fptr: None,
            result: String::new(),
        };
        assert(views(r.parameters@) =~= Seq::empty());
        r
    }
}

impl Clone for CppBinderApi {
    fn clone(&self) -> (r: Self)
        ensures
            r@ == self@,
    {
        CppBinderApi {
            rust_api: self.rust_api.clone(),
            parameters: clone_parameter_list(&self.parameters),
            fptr: clone_opt(&self.fptr),
            result: self.result.clone(),
        }
    }
}

/// A copy of a list, element by element.
pub fn clone_cpp_binder_api_list(v: &Vec<CppBinderApi>) -> (r: Vec<CppBinderApi>)
    ensures
        views(r@) == views(v@),
{
    let mut out: Vec<CppBinderApi> = Vec::new();
    let mut i: usize = 0;
    while i < v.len()
        invariant
            i <= v.len(),
            views(out@) == views(v@).take(i as int),
        decreases v.len() - i,
    {
        let item = v[i].clone();
        proof {
            lemma_views_push(out@, item);
            assert(views(v@).take(i + 1) =~= views(v@).take(i as int).push(v@[i as int]@));
        }
        out.push(item);
        i += 1;
    }
    assert(views(v@).take(v.len() as int) =~= views(v@));
    out
}

/// The companion lines of one namespace.
#[derive(Debug, PartialEq, Eq)]
pub struct NamedLines {
    pub name: String,
    pub lines: Vec<String>,
}

/// What a `NamedLines` holds, its texts as character sequences.
pub struct NamedLinesView {
    pub name: Seq<char>,
    pub lines: Seq<Seq<char>>,
}

impl NamedLinesView {
    /// The value with nothing in it.
    pub open spec fn empty() -> NamedLinesView {
        NamedLinesView {
            name: Seq::empty(),
            lines: Seq::empty(),
        }
    }
}

impl View for NamedLines {
    type V = NamedLinesView;

    open spec fn view(&self) -> NamedLinesView {
        NamedLinesView {
            name: self.name@,
            lines: views(self.lines@),
        }
    }
}

impl Default for NamedLines {
    fn default() -> (r: Self)
        ensures
            r@ == NamedLinesView::empty(),
    {
        let r = NamedLines {
            name: String::new(),
            lines: Vec::new(),
        };
        assert(views(r.lines@) =~= Seq::empty());
        r
    }
}

impl Clone for NamedLines {
    fn clone(&self) -> (r: Self)
        ensures
            r@ == self@,
    {
        NamedLines {
            name: self.name.clone(),
            lines: clone_strings(&self.lines),
        }
    }
}

/// The native side of the methods of one object.
#[derive(Debug, PartialEq, Eq)]
pub struct NamedApis {
    pub name: String,
    pub apis: Vec<CppBinderApi>,
}

/// What a `NamedApis` holds, its texts as character sequences.
pub struct NamedApisView {
    pub name: Seq<char>,
    pub apis: Seq<CppBinderApiView>,
}

impl NamedApisView {
    /// The value with nothing in it.
    pub open spec fn empty() -> NamedApisView {
        NamedApisView {
            name: Seq::empty(),
            apis: Seq::empty(),
        }
    }
}

impl View for NamedApis {
    type V = NamedApisView;

    open spec fn view(&self) -> NamedApisView {
        NamedApisView {
            name: self.name@,
            apis: views(self.apis@),
        }
    }
}

impl Default for NamedApis {
    fn default() -> (r: Self)
        ensures
            r@ == NamedApisView::empty(),
    {
        let r = NamedApis {
            name: String::new(),
            apis: Vec::new(),
        };
        assert(views(r.apis@) =~= Seq::empty());
        r
    }
}

impl Clone for NamedApis {
    fn clone(&self) -> (r: Self)
        ensures
            r@ == self@,
    {
        NamedApis {
            name: self.name.clone(),
            apis: clone_cpp_binder_api_list(&self.apis),
        }
    }
}

/// A companion name with the native name that it stands for.
#[derive(Debug, PartialEq, Eq)]
pub struct Alias {
    pub alias: String,
    pub native: String,
}

/// What a `Alias` holds, its texts as character sequences.
pub struct AliasView {
    pub alias: Seq<char>,
    pub native: Seq<char>,
}

impl AliasView {
    /// The value with nothing in it.
    pub open spec fn empty() -> AliasView {
        AliasView {
            alias: Seq::empty(),
            native: Seq::empty(),
        }
    }
}

impl View for Alias {
    type V = AliasView;

    open spec fn view(&self) -> AliasView {
        AliasView {
            alias: self.alias@,
            native: self.native@,
        }
    }
}

impl Default for Alias {
    fn default() -> (r: Self)
        ensures
            r@ == AliasView::empty(),
    {
        let r = Alias {
            alias: String::new(),
            native: String::new(),
        };
        r
    }
}

impl Clone for Alias {
    fn clone(&self) -> (r: Self)
        ensures
            r@ == self@,
    {
        Alias {
            alias: self.alias.clone(),
            native: self.native.clone(),
        }
    }
}

/// A copy of a list, element by element.
pub fn clone_alias_list(v: &Vec<Alias>) -> (r: Vec<Alias>)
    ensures
        views(r@) == views(v@),
{
    let mut out: Vec<Alias> = Vec::new();
    let mut i: usize = 0;
    while i < v.len()
        invariant
            i <= v.len(),
            views(out@) == views(v@).take(i as int),
        decreases v.len() - i,
    {
        let item = v[i].clone();
        proof {
            lemma_views_push(out@, item);
            assert(views(v@).take(i + 1) =~= views(v@).take(i as int).push(v@[i as int]@));
        }
        out.push(item);
        i += 1;
    }
    assert(views(v@).take(v.len() as int) =~= views(v@));
    out
}

/// What is known of the objects read so far.
#[derive(Debug, PartialEq, Eq)]
pub struct ObjectRegistry {
    /// One entry for each companion name.
    pub aliases: Vec<Alias>,
    /// The companion names of the objects behind a handle.
    pub opaque: Vec<String>,
}

/// What a `ObjectRegistry` holds, its texts as character sequences.
pub struct ObjectRegistryView {
    pub aliases: Seq<AliasView>,
    pub opaque: Seq<Seq<char>>,
}

impl ObjectRegistryView {
    /// The value with nothing in it.
    pub open spec fn empty() -> ObjectRegistryView {
        ObjectRegistryView {
            aliases: Seq::empty(),
            opaque: Seq::empty(),
        }
    }
}

impl View for ObjectRegistry {
    type V = ObjectRegistryView;

    open spec fn view(&self) -> ObjectRegistryView {
        ObjectRegistryView {
            aliases: views(self.aliases@),
            opaque: views(self.opaque@),
        }
    }
}

impl Default for ObjectRegistry {
    fn default() -> (r: Self)
        ensures
            r@ == ObjectRegistryView::empty(),
    {
        let r = ObjectRegistry {
            aliases: Vec::new(),
            opaque: Vec::new(),
        };
        assert(views(r.aliases@) =~= Seq::empty());
        assert(views(r.opaque@) =~= Seq::empty());
        r
    }
}

impl Clone for ObjectRegistry {
    fn clone(&self) -> (r: Self)
        ensures
            r@ == self@,
    {
        ObjectRegistry {
            aliases: clone_alias_list(&self.aliases),
            opaque: clone_strings(&self.opaque),
        }
    }
}

/// Why an object could not be read.
#[derive(Debug, Clone, Copy, PartialEq, Eq, Structural)]
pub enum ObjectError {
    /// A class that does not cross behind a handle.
    ClassByValue,
    /// An enumeration: none can be read from a description.
    Enumeration,
    /// An object of no known kind.
    UnknownKind,
}

/// The position of the entry of a companion name at or after `i`, or -1.
pub open spec fn alias_at(aliases: Seq<AliasView>, name: Seq<char>, i: int) -> int
    decreases aliases.len() - i,
{
    if i < 0 || i >= aliases.len() {
        -1
    } else if aliases[i].alias == name {
        i
    } else {
        alias_at(aliases, name, i + 1)
    }
}

/// The aliases with an entry for a companion name: in the place of the one
/// it had, or behind the others.
pub open spec fn alias_added(aliases: Seq<AliasView>, alias: Seq<char>, native: Seq<char>) -> Seq<
    AliasView,
> {
    let i = alias_at(aliases, alias, 0);
    if i >= 0 {
        aliases.update(i, AliasView { alias: alias, native: native })
    } else {
        aliases.push(AliasView { alias: alias, native: native })
    }
}

/// The native name that a companion name stands for, or the name itself.
pub open spec fn origin_name(aliases: Seq<AliasView>, name: Seq<char>) -> Seq<char> {
    let i = alias_at(aliases, name, 0);
    if i >= 0 {
        aliases[i].native
    } else {
        name
    }
}

/// Whether a companion type, by value, by reference or by mutable reference,
/// is that of an object behind a handle.
pub open spec fn is_handle_type(opaque: Seq<Seq<char>>, tp: Seq<char>) -> bool {
    opaque.contains(replaced(tp, "&"@, ""@)) || opaque.contains(replaced(tp, "&mut"@, ""@))
}

/// The type under which a parameter crosses: a pointer for an object behind
/// a handle, else its own.
pub open spec fn wire_type(opaque: Seq<Seq<char>>, tp: Seq<char>) -> Seq<char> {
    if opaque.contains(replaced(tp, "&"@, ""@)) {
        "*const std::ffi::c_void"@
    } else if opaque.contains(replaced(tp, "&mut"@, ""@)) {
        "*mut std::ffi::c_void"@
    } else {
        tp
    }
}

/// The argument under which a parameter is handed on: its pointer for an
/// object behind a handle, else itself.
pub open spec fn wire_arg(opaque: Seq<Seq<char>>, name: Seq<char>, tp: Seq<char>) -> Seq<char> {
    if opaque.contains(replaced(tp, "&"@, ""@)) {
        name + ".get_ptr()"@
    } else if opaque.contains(replaced(tp, "&mut"@, ""@)) {
        name + ".get_ptr_mut()"@
    } else {
        name
    }
}

/// The native name of a companion scalar.
pub open spec fn native_scalar_name(t: Seq<char>) -> Option<Seq<char>> {
    if t == "i32"@ {
        Some("int32"@)
    } else if t == "i64"@ {
        Some("int64"@)
    } else if t == "u32"@ {
        Some("uint32"@)
    } else if t == "u64"@ {
        Some("uint64"@)
    } else if t == "usize"@ {
        Some("size_t"@)
    } else if t == "f32"@ {
        Some("float"@)
    } else if t == "f64"@ {
        Some("double"@)
    } else if t == "i16"@ {
        Some("int16"@)
    } else if t == "u16"@ {
        Some("uint16"@)
    } else if t == "u8"@ {
        Some("uint8"@)
    } else if t == "i8"@ {
        Some("int8"@)
    } else if t == "bool"@ {
        Some("bool"@)
    } else if t == "()"@ {
        Some("void"@)
    } else {
        None
    }
}

/// A parameter in the native function's declaration.
pub open spec fn native_param(reg: ObjectRegistryView, p: ParameterView) -> Seq<char> {
    match native_scalar_name(p.ty) {
        Some(ct) => ct + " "@ + p.name,
        None => {
            let unreal = origin_name(reg.aliases, replaced(p.ty, "&"@, ""@));
            if is_handle_type(reg.opaque, unreal) {
                unreal + "* "@ + p.name
            } else if contains(p.ty, "&"@) {
                unreal + "& "@ + p.name
            } else {
                unreal + " "@ + p.name
            }
        },
    }
}

/// The parameters of the slot's type.
pub open spec fn companion_params(reg: ObjectRegistryView, params: Seq<ParameterView>) -> Seq<Seq<char>> {
    Seq::new(params.len(), |i: int| params[i].name + ": "@ + wire_type(reg.opaque, params[i].ty))
}

/// The parameters of the native function.
pub open spec fn native_params(reg: ObjectRegistryView, params: Seq<ParameterView>) -> Seq<Seq<char>> {
    Seq::new(params.len(), |i: int| native_param(reg, params[i]))
}

/// The names of the parameters.
pub open spec fn param_names(params: Seq<ParameterView>) -> Seq<Seq<char>> {
    Seq::new(params.len(), |i: int| params[i].name)
}

/// The parameters of the companion method.
pub open spec fn method_params(params: Seq<ParameterView>) -> Seq<Seq<char>> {
    Seq::new(params.len(), |i: int| params[i].name + ": "@ + params[i].ty)
}

/// The arguments that the companion method hands on.
pub open spec fn handed_args(reg: ObjectRegistryView, params: Seq<ParameterView>) -> Seq<Seq<char>> {
    Seq::new(params.len(), |i: int| wire_arg(reg.opaque, params[i].name, params[i].ty))
}

/// The list behind a first entry, with commas between; the first entry
/// alone where the list is empty.
pub open spec fn behind(first: Seq<char>, list: Seq<Seq<char>>) -> Seq<char> {
    if list.len() > 0 {
        first + ", "@ + joined(list, ", "@)
    } else {
        first
    }
}

/// The result of a method, arrow included; empty for none.
pub open spec fn result_arrow(api: ApiView) -> Seq<char> {
    if api.ret_type.len() > 0 {
        " -> "@ + api.ret_type
    } else {
        ""@
    }
}

/// The parameter list of the native function of a method.
pub open spec fn native_signature(reg: ObjectRegistryView, unreal_type: Seq<char>, api: ApiView) -> Seq<char> {
    behind(unreal_type + "* ptr"@, native_params(reg, api.parameters))
}

/// The companion lines of one method outside the `impl` block.
pub open spec fn api_lines(reg: ObjectRegistryView, obj_name: Seq<char>, api: ApiView) -> Seq<Seq<char>> {
    let cb = obj_name + api.name;
    let func_type = cb + "FPtr"@;
    seq![
        "pub type "@ + func_type + " = unsafe extern \"C\" fn ("@ + behind(
            "this: *mut std::ffi::c_void"@,
            companion_params(reg, api.parameters),
        ) + ")"@ + result_arrow(api) + ";"@,
        "static mut "@ + cb + "Callback: Option<"@ + func_type + "> = None;"@,
        "/// not to lua"@,
        "#[no_mangle]"@,
        "unsafe extern \"C\" fn Register"@ + cb + "(fun: "@ + func_type + "){"@,
        "\t"@ + cb + "Callback = Some(fun);"@,
        "}"@,
    ]
}

/// The companion lines of one method inside the `impl` block.
pub open spec fn api_impl_lines(
    reg: ObjectRegistryView,
    obj_name: Seq<char>,
    unreal_type: Seq<char>,
    api: ApiView,
) -> Seq<Seq<char>> {
    seq![
        "\t pub unsafe fn "@ + api.name + "("@ + behind("&self"@, method_params(api.parameters))
            + ")"@ + result_arrow(api) + "{"@,
        "\t\t"@ + obj_name + api.name + "Callback.as_ref().expect(\""@ + unreal_type + "::"@
            + api.name + " not registered!\")("@ + behind(
            "self.ptr"@,
            handed_args(reg, api.parameters),
        ) + ")"@,
        "\t}"@,
    ]
}

/// The native side of one method.
pub open spec fn api_native(
    reg: ObjectRegistryView,
    obj_name: Seq<char>,
    unreal_type: Seq<char>,
    api: ApiView,
) -> CppBinderApiView {
    let cb = obj_name + api.name;
    let sig = native_signature(reg, unreal_type, api);
    let call = "ptr->"@ + api.name + "("@ + joined(param_names(api.parameters), ", "@) + ");"@;
    let body = if api.ret_type.len() > 0 {
        "return "@ + call
    } else {
        call
    };
    CppBinderApiView {
        rust_api: "Register"@ + cb + "([]("@ + sig + "){"@ + body + "});"@,
        fptr: Some("typedef "@ + api.ret_type + "(*"@ + cb + "FPtr"@ + ")("@ + sig + ");"@),
        ..CppBinderApiView::empty()
    }
}

/// The companion name of an object.
pub open spec fn object_name(obj: UnrealObjectView) -> Seq<char> {
    if obj.alias.len() == 0 {
        obj.unreal_type
    } else {
        obj.alias
    }
}

/// What is known of the objects once this one is read.
pub open spec fn registry_with(reg: ObjectRegistryView, obj: UnrealObjectView) -> ObjectRegistryView {
    ObjectRegistryView {
        aliases: if obj.alias.len() == 0 {
            reg.aliases
        } else {
            alias_added(reg.aliases, obj.alias, obj.unreal_type)
        },
        opaque: if obj.opaque_type {
            reg.opaque.push(object_name(obj))
        } else {
            reg.opaque
        },
    }
}

/// The listed fields, one line each.
pub open spec fn field_lines(props: Seq<PropertyView>) -> Seq<Seq<char>> {
    Seq::new(props.len(), |i: int| "\tpub "@ + props[i].name + ": "@ + props[i].ty + ","@)
}

/// The lines that declare the companion type of an object.
pub open spec fn struct_lines(obj: UnrealObjectView) -> Seq<Seq<char>> {
    seq![
        "///rust api for unreal type "@ + obj.unreal_type,
        "pub struct "@ + object_name(obj) + "{"@,
    ] + (if obj.opaque_type {
        seq!["\tptr: *mut std::ffi::c_void"@]
    } else {
        field_lines(obj.properties)
    }) + seq!["}"@]
}

/// The lines with which the `impl` block of an object opens.
pub open spec fn impl_head(obj: UnrealObjectView) -> Seq<Seq<char>> {
    seq!["impl "@ + object_name(obj) + "{"@] + (if obj.opaque_type {
        seq![
            "\t#[inline] pub fn get_ptr(&self) -> *const std::ffi::c_void { self.ptr as *const _ }"@,
            "\t#[inline] pub fn get_ptr_mut(&self) -> *mut std::ffi::c_void { self.ptr }"@,
        ]
    } else {
        Seq::empty()
    })
}

/// The lines of the methods before position `k` outside the `impl` block.
pub open spec fn all_api_lines(reg: ObjectRegistryView, obj: UnrealObjectView, k: int) -> Seq<Seq<char>>
    decreases k,
{
    if k <= 0 || k > obj.apis.len() {
        Seq::empty()
    } else {
        all_api_lines(reg, obj, k - 1) + api_lines(reg, object_name(obj), obj.apis[k - 1])
    }
}

/// The lines of the methods before position `k` inside the `impl` block.
pub open spec fn all_impl_lines(reg: ObjectRegistryView, obj: UnrealObjectView, k: int) -> Seq<Seq<char>>
    decreases k,
{
    if k <= 0 || k > obj.apis.len() {
        Seq::empty()
    } else {
        all_impl_lines(reg, obj, k - 1) + api_impl_lines(
            reg,
            object_name(obj),
            obj.unreal_type,
            obj.apis[k - 1],
        )
    }
}

/// The native sides of the methods of an object.
pub open spec fn all_native(reg: ObjectRegistryView, obj: UnrealObjectView) -> Seq<CppBinderApiView> {
    Seq::new(
        obj.apis.len(),
        |i: int| api_native(reg, object_name(obj), obj.unreal_type, obj.apis[i]),
    )
}

/// The companion lines of an object.
pub open spec fn object_lines(reg: ObjectRegistryView, obj: UnrealObjectView) -> Seq<Seq<char>> {
    struct_lines(obj) + all_api_lines(reg, obj, obj.apis.len() as int) + impl_head(obj)
        + all_impl_lines(reg, obj, obj.apis.len() as int) + seq!["}"@]
}

/// The namespace that an object goes to: its own, or the nameless one.
pub open spec fn object_namespace(obj: UnrealObjectView) -> Seq<char> {
    match obj.namespace {
        Some(ns) => ns,
        None => Seq::empty(),
    }
}

/// The position of the entry of a name at or after `i`, or -1.
pub open spec fn lines_at(binders: Seq<NamedLinesView>, name: Seq<char>, i: int) -> int
    decreases binders.len() - i,
{
    if i < 0 || i >= binders.len() {
        -1
    } else if binders[i].name == name {
        i
    } else {
        lines_at(binders, name, i + 1)
    }
}

/// The companion lines with more lines under a name: behind those that the
/// name had, or as a new entry.
pub open spec fn lines_added(binders: Seq<NamedLinesView>, name: Seq<char>, lines: Seq<Seq<char>>) -> Seq<
    NamedLinesView,
> {
    let i = lines_at(binders, name, 0);
    if i >= 0 {
        binders.update(i, NamedLinesView { name: name, lines: binders[i].lines + lines })
    } else {
        binders.push(NamedLinesView { name: name, lines: lines })
    }
}

/// The position of the entry of a name at or after `i`, or -1.
pub open spec fn apis_at(binders: Seq<NamedApisView>, name: Seq<char>, i: int) -> int
    decreases binders.len() - i,
{
    if i < 0 || i >= binders.len() {
        -1
    } else if binders[i].name == name {
        i
    } else {
        apis_at(binders, name, i + 1)
    }
}

/// The native sides with those of one object: in the place of what the
/// object had, or as a new entry.
pub open spec fn apis_set(binders: Seq<NamedApisView>, name: Seq<char>, apis: Seq<CppBinderApiView>) -> Seq<
    NamedApisView,
> {
    let i = apis_at(binders, name, 0);
    if i >= 0 {
        binders.update(i, NamedApisView { name: name, apis: apis })
    } else {
        binders.push(NamedApisView { name: name, apis: apis })
    }
}

/// The position of the entry of a companion name at or after `i`, or -1.
pub fn find_alias(aliases: &Vec<Alias>, name: &str) -> (r: Option<usize>)
    ensures
        match r {
            Some(i) => i as int == alias_at(views(aliases@), name@, 0) && i < aliases.len(),
            None => alias_at(views(aliases@), name@, 0) == -1,
        },
{
    let mut i: usize = 0;
    while i < aliases.len()
        invariant
            i <= aliases.len(),
            alias_at(views(aliases@), name@, 0) == alias_at(views(aliases@), name@, i as int),
        decreases aliases.len() - i,
    {
        if same(aliases[i].alias.as_str(), name) {
            return Some(i);
        }
        i += 1;
    }
    None
}

/// Records the native name that a companion name stands for.
pub fn add_alias(registry: &mut ObjectRegistry, alias: &str, obj_type: &str)
    ensures
        final(registry)@ == (ObjectRegistryView {
            aliases: alias_added(old(registry)@.aliases, alias@, obj_type@),
            ..old(registry)@
        }),
{
    let entry = Alias { alias: String::from_str(alias), native: String::from_str(obj_type) };
    match find_alias(&registry.aliases, alias) {
        Some(i) => {
            let ghost before = views(registry.aliases@);
            registry.aliases[i] = entry;
            assert(views(registry.aliases@) =~= before.update(i as int, entry@));
        },
        None => {
            proof {
                lemma_views_push(registry.aliases@, entry);
            }
            registry.aliases.push(entry);
        },
    }
}

/// The native name that a companion name stands for, or the name itself.
pub fn get_origin_name(registry: &ObjectRegistry, name: &str) -> (r: String)
    ensures
        r@ == origin_name(registry@.aliases, name@),
{
    match find_alias(&registry.aliases, name) {
        Some(i) => registry.aliases[i].native.clone(),
        None => String::from_str(name),
    }
}

/// Records that an object crosses behind a handle.
pub fn add_opaque(registry: &mut ObjectRegistry, tp: &str)
    ensures
        final(registry)@ == (ObjectRegistryView {
            opaque: old(registry)@.opaque.push(tp@),
            ..old(registry)@
        }),
{
    push_text(&mut registry.opaque, String::from_str(tp));
}

/// Whether a companion type, by value, by reference or by mutable reference,
/// is that of an object behind a handle.
pub fn is_opaque_type(registry: &ObjectRegistry, tp: &str) -> (r: bool)
    ensures
        r == is_handle_type(registry@.opaque, tp@),
{
    let a = replace_all(tp, "&", "");
    let b = replace_all(tp, "&mut", "");
    crate::classify::listed(&registry.opaque, a.as_str()) || crate::classify::listed(
        &registry.opaque,
        b.as_str(),
    )
}

/// The type under which a parameter crosses: a pointer for an object behind
/// a handle, else its own.
pub fn get_obj_type(registry: &ObjectRegistry, tp: String) -> (r: String)
    ensures
        r@ == wire_type(registry@.opaque, tp@),
{
    let a = replace_all(tp.as_str(), "&", "");
    let b = replace_all(tp.as_str(), "&mut", "");
    if crate::classify::listed(&registry.opaque, a.as_str()) {
        String::from_str("*const std::ffi::c_void")
    } else if crate::classify::listed(&registry.opaque, b.as_str()) {
        String::from_str("*mut std::ffi::c_void")
    } else {
        tp
    }
}

/// The argument under which a parameter is handed on: its pointer for an
/// object behind a handle, else itself.
pub fn get_obj_name(registry: &ObjectRegistry, name: String, obj_type: &str) -> (r: String)
    ensures
        r@ == wire_arg(registry@.opaque, name@, obj_type@),
{
    let a = replace_all(obj_type, "&", "");
    let b = replace_all(obj_type, "&mut", "");
    if crate::classify::listed(&registry.opaque, a.as_str()) {
        cat2(name.as_str(), ".get_ptr()")
    } else if crate::classify::listed(&registry.opaque, b.as_str()) {
        cat2(name.as_str(), ".get_ptr_mut()")
    } else {
        name
    }
}

/// The native name of a companion scalar.
pub fn native_scalar_text(t: &str) -> (r: Option<&'static str>)
    ensures
        match r {
            Some(ct) => native_scalar_name(t@) == Some(ct@),
            None => native_scalar_name(t@) is None,
        },
{
    if same(t, "i32") {
        Some("int32")
    } else if same(t, "i64") {
        Some("int64")
    } else if same(t, "u32") {
        Some("uint32")
    } else if same(t, "u64") {
        Some("uint64")
    } else if same(t, "usize") {
        Some("size_t")
    } else if same(t, "f32") {
        Some("float")
    } else if same(t, "f64") {
        Some("double")
    } else if same(t, "i16") {
        Some("int16")
    } else if same(t, "u16") {
        Some("uint16")
    } else if same(t, "u8") {
        Some("uint8")
    } else if same(t, "i8") {
        Some("int8")
    } else if same(t, "bool") {
        Some("bool")
    } else if same(t, "()") {
        Some("void")
    } else {
        None
    }
}

/// A parameter in the native function's declaration.
pub fn native_param_text(registry: &ObjectRegistry, p: &Parameter) -> (r: String)
    ensures
        r@ == native_param(registry@, p@),
{
    match native_scalar_text(p.ty.as_str()) {
        Some(ct) => cat3(ct, " ", p.name.as_str()),
        None => {
            let alias = replace_all(p.ty.as_str(), "&", "");
            let unreal = get_origin_name(registry, alias.as_str());
            if is_opaque_type(registry, unreal.as_str()) {
                cat3(unreal.as_str(), "* ", p.name.as_str())
            } else if holds(p.ty.as_str(), "&") {
                cat3(unreal.as_str(), "& ", p.name.as_str())
            } else {
                cat3(unreal.as_str(), " ", p.name.as_str())
            }
        },
    }
}

/// The list behind a first entry, with commas between; the first entry
/// alone where the list is empty.
pub fn behind_text(first: &str, list: &Vec<String>) -> (r: String)
    ensures
        r@ == behind(first@, views(list@)),
{
    if list.len() > 0 {
        let rest = join(list, ", ");
        cat3(first, ", ", rest.as_str())
    } else {
        String::from_str(first)
    }
}

pub fn result_arrow_text(api: &Api) -> (r: String)
    ensures
        r@ == result_arrow(api@),
{
    if !api.ret_type.as_str().is_empty() {
        cat2(" -> ", api.ret_type.as_str())
    } else {
        String::from_str("")
    }
}

pub fn companion_param_list(registry: &ObjectRegistry, params: &Vec<Parameter>) -> (r: Vec<String>)
    ensures
        views(r@) == companion_params(registry@, views(params@)),
{
    let mut out: Vec<String> = Vec::new();
    let mut i: usize = 0;
    while i < params.len()
        invariant
            i <= params.len(),
            out.len() == i,
            forall|k: int|
                0 <= k < i ==> (#[trigger] out@[k])@ == views(params@)[k].name + ": "@ + wire_type(
                    registry@.opaque,
                    views(params@)[k].ty,
                ),
        decreases params.len() - i,
    {
        let ty = get_obj_type(registry, params[i].ty.clone());
        out.push(cat3(params[i].name.as_str(), ": ", ty.as_str()));
        i += 1;
    }
    assert(views(out@) =~= companion_params(registry@, views(params@)));
    out
}

pub fn native_param_list(registry: &ObjectRegistry, params: &Vec<Parameter>) -> (r: Vec<String>)
    ensures
        views(r@) == native_params(registry@, views(params@)),
{
    let mut out: Vec<String> = Vec::new();
    let mut i: usize = 0;
    while i < params.len()
        invariant
            i <= params.len(),
            out.len() == i,
            forall|k: int|
                0 <= k < i ==> (#[trigger] out@[k])@ == native_param(registry@, views(params@)[k]),
        decreases params.len() - i,
    {
        out.push(native_param_text(registry, &params[i]));
        i += 1;
    }
    assert(views(out@) =~= native_params(registry@, views(params@)));
    out
}

pub fn param_name_list(params: &Vec<Parameter>) -> (r: Vec<String>)
    ensures
        views(r@) == param_names(views(params@)),
{
    let mut out: Vec<String> = Vec::new();
    let mut i: usize = 0;
    while i < params.len()
        invariant
            i <= params.len(),
            out.len() == i,
            forall|k: int| 0 <= k < i ==> (#[trigger] out@[k])@ == views(params@)[k].name,
        decreases params.len() - i,
    {
        out.push(params[i].name.clone());
        i += 1;
    }
    assert(views(out@) =~= param_names(views(params@)));
    out
}

pub fn method_param_list(params: &Vec<Parameter>) -> (r: Vec<String>)
    ensures
        views(r@) == method_params(views(params@)),
{
    let mut out: Vec<String> = Vec::new();
    let mut i: usize = 0;
    while i < params.len()
        invariant
            i <= params.len(),
            out.len() == i,
            forall|k: int|
                0 <= k < i ==> (#[trigger] out@[k])@ == views(params@)[k].name + ": "@ + views(
                    params@,
                )[k].ty,
        decreases params.len() - i,
    {
        out.push(cat3(params[i].name.as_str(), ": ", params[i].ty.as_str()));
        i += 1;
    }
    assert(views(out@) =~= method_params(views(params@)));
    out
}

pub fn handed_arg_list(registry: &ObjectRegistry, params: &Vec<Parameter>) -> (r: Vec<String>)
    ensures
        views(r@) == handed_args(registry@, views(params@)),
{
    let mut out: Vec<String> = Vec::new();
    let mut i: usize = 0;
    while i < params.len()
        invariant
            i <= params.len(),
            out.len() == i,
            forall|k: int|
                0 <= k < i ==> (#[trigger] out@[k])@ == wire_arg(
                    registry@.opaque,
                    views(params@)[k].name,
                    views(params@)[k].ty,
                ),
        decreases params.len() - i,
    {
        out.push(get_obj_name(registry, params[i].name.clone(), params[i].ty.as_str()));
        i += 1;
    }
    assert(views(out@) =~= handed_args(registry@, views(params@)));
    out
}

/// The parameter list of the native function of a method.
pub fn native_signature_text(registry: &ObjectRegistry, unreal_type: &str, api: &Api) -> (r: String)
    ensures
        r@ == native_signature(registry@, unreal_type@, api@),
{
    let first = cat2(unreal_type, "* ptr");
    let list = native_param_list(registry, &api.parameters);
    behind_text(first.as_str(), &list)
}

/// Appends the companion lines of one method outside the `impl` block.
pub fn push_api_lines(lines: &mut Vec<String>, registry: &ObjectRegistry, obj_name: &str, api: &Api)
    ensures
        views(final(lines)@) == views(old(lines)@) + api_lines(registry@, obj_name@, api@),
{
    let cb = cat2(obj_name, api.name.as_str());
    let func_type = cat2(cb.as_str(), "FPtr");
    let list = companion_param_list(registry, &api.parameters);
    let params = behind_text("this: *mut std::ffi::c_void", &list);
    let arrow = result_arrow_text(api);
    let mut first = cat5(
        "pub type ",
        func_type.as_str(),
        " = unsafe extern \"C\" fn (",
        params.as_str(),
        ")",
    );
    first.append(arrow.as_str());
    first.append(";");
    push_text(lines, first);
    push_text(
        lines,
        cat5("static mut ", cb.as_str(), "Callback: Option<", func_type.as_str(), "> = None;"),
    );
    push_text(lines, String::from_str("/// not to lua"));
    push_text(lines, String::from_str("#[no_mangle]"));
    push_text(
        lines,
        cat5("unsafe extern \"C\" fn Register", cb.as_str(), "(fun: ", func_type.as_str(), "){"),
    );
    push_text(lines, cat3("\t", cb.as_str(), "Callback = Some(fun);"));
    push_text(lines, String::from_str("}"));
    assert(views(lines@) =~= views(old(lines)@) + api_lines(registry@, obj_name@, api@));
}

/// Appends the companion lines of one method inside the `impl` block.
pub fn push_api_impl_lines(
    lines: &mut Vec<String>,
    registry: &ObjectRegistry,
    obj_name: &str,
    unreal_type: &str,
    api: &Api,
)
    ensures
        views(final(lines)@) == views(old(lines)@) + api_impl_lines(
            registry@,
            obj_name@,
            unreal_type@,
            api@,
        ),
{
    let list = method_param_list(&api.parameters);
    let params = behind_text("&self", &list);
    let arrow = result_arrow_text(api);
    let mut head = cat5("\t pub unsafe fn ", api.name.as_str(), "(", params.as_str(), ")");
    head.append(arrow.as_str());
    head.append("{");
    push_text(lines, head);
    let args_list = handed_arg_list(registry, &api.parameters);
    let args = behind_text("self.ptr", &args_list);
    let mut call = cat5(
        "\t\t",
        obj_name,
        api.name.as_str(),
        "Callback.as_ref().expect(\"",
        unreal_type,
    );
    call.append("::");
    call.append(api.name.as_str());
    call.append(" not registered!\")(");
    call.append(args.as_str());
    call.append(")");
    push_text(lines, call);
    push_text(lines, String::from_str("\t}"));
    assert(views(lines@) =~= views(old(lines)@) + api_impl_lines(
        registry@,
        obj_name@,
        unreal_type@,
        api@,
    ));
}

/// The native side of one method.
pub fn native_of_api(registry: &ObjectRegistry, obj_name: &str, unreal_type: &str, api: &Api) -> (r:
    CppBinderApi)
    ensures
        r@ == api_native(registry@, obj_name@, unreal_type@, api@),
{
    let cb = cat2(obj_name, api.name.as_str());
    let sig = native_signature_text(registry, unreal_type, api);
    let names = param_name_list(&api.parameters);
    let joined_names = join(&names, ", ");
    let call = cat5("ptr->", api.name.as_str(), "(", joined_names.as_str(), ");");
    let body = if !api.ret_type.as_str().is_empty() {
        cat2("return ", call.as_str())
    } else {
        call
    };
    let mut rust_api = cat5("Register", cb.as_str(), "([](", sig.as_str(), "){");
    rust_api.append(body.as_str());
    rust_api.append("});");
    let mut fptr = cat5("typedef ", api.ret_type.as_str(), "(*", cb.as_str(), "FPtr");
    fptr.append(")(");
    fptr.append(sig.as_str());
    fptr.append(");");
    let mut out = CppBinderApi::default();
    out.rust_api = rust_api;
    out.fptr = Some(fptr);
    out
}

/// The companion name of an object.
pub fn object_name_text(obj: &UnrealObject) -> (r: String)
    ensures
        r@ == object_name(obj@),
{
    if obj.alias.as_str().is_empty() {
        obj.unreal_type.clone()
    } else {
        obj.alias.clone()
    }
}

/// The position of the entry of a name at or after `i`, or -1.
pub fn find_lines(binders: &Vec<NamedLines>, name: &str) -> (r: Option<usize>)
    ensures
        match r {
            Some(i) => i as int == lines_at(views(binders@), name@, 0) && i < binders.len(),
            None => lines_at(views(binders@), name@, 0) == -1,
        },
{
    let mut i: usize = 0;
    while i < binders.len()
        invariant
            i <= binders.len(),
            lines_at(views(binders@), name@, 0) == lines_at(views(binders@), name@, i as int),
        decreases binders.len() - i,
    {
        if same(binders[i].name.as_str(), name) {
            return Some(i);
        }
        i += 1;
    }
    None
}

/// Puts more companion lines under a name.
pub fn add_lines(binders: &mut Vec<NamedLines>, name: &str, lines: Vec<String>)
    ensures
        views(final(binders)@) == lines_added(views(old(binders)@), name@, views(lines@)),
{
    match find_lines(binders, name) {
        Some(i) => {
            let ghost before = views(binders@);
            let mut whole = clone_strings(&binders[i].lines);
            push_all(&mut whole, &lines);
            let entry = NamedLines { name: String::from_str(name), lines: whole };
            binders[i] = entry;
            assert(views(binders@) =~= before.update(
                i as int,
                NamedLinesView { name: name@, lines: before[i as int].lines + views(lines@) },
            ));
        },
        None => {
            let entry = NamedLines { name: String::from_str(name), lines };
            proof {
                lemma_views_push(binders@, entry);
            }
            binders.push(entry);
        },
    }
}

pub fn find_apis(binders: &Vec<NamedApis>, name: &str) -> (r: Option<usize>)
    ensures
        match r {
            Some(i) => i as int == apis_at(views(binders@), name@, 0) && i < binders.len(),
            None => apis_at(views(binders@), name@, 0) == -1,
        },
{
    let mut i: usize = 0;
    while i < binders.len()
        invariant
            i <= binders.len(),
            apis_at(views(binders@), name@, 0) == apis_at(views(binders@), name@, i as int),
        decreases binders.len() - i,
    {
        if same(binders[i].name.as_str(), name) {
            return Some(i);
        }
        i += 1;
    }
    None
}

/// Sets the native sides of the methods of one object.
pub fn set_apis(binders: &mut Vec<NamedApis>, name: &str, apis: Vec<CppBinderApi>)
    ensures
        views(final(binders)@) == apis_set(views(old(binders)@), name@, views(apis@)),
{
    let entry = NamedApis { name: String::from_str(name), apis };
    match find_apis(binders, name) {
        Some(i) => {
            let ghost before = views(binders@);
            binders[i] = entry;
            assert(views(binders@) =~= before.update(i as int, entry@));
        },
        None => {
            proof {
                lemma_views_push(binders@, entry);
            }
            binders.push(entry);
        },
    }
}

/// The lines that declare the companion type of an object.
pub fn struct_lines_of(obj: &UnrealObject) -> (r: Vec<String>)
    requires
        obj.opaque_type || obj.ty@ != "class"@,
    ensures
        views(r@) == struct_lines(obj@),
{
    let name = object_name_text(obj);
    let mut lines: Vec<String> = Vec::new();
    assert(views(lines@) =~= Seq::empty());
    push_text(&mut lines, cat2("///rust api for unreal type ", obj.unreal_type.as_str()));
    push_text(&mut lines, cat3("pub struct ", name.as_str(), "{"));
    let ghost head = views(lines@);
    if obj.opaque_type {
        push_text(&mut lines, String::from_str("\tptr: *mut std::ffi::c_void"));
    } else {
        let mut i: usize = 0;
        assert(views(lines@) =~= head + field_lines(obj@.properties.take(0)));
        while i < obj.properties.len()
            invariant
                i <= obj.properties.len(),
                views(lines@) == head + field_lines(obj@.properties.take(i as int)),
            decreases obj.properties.len() - i,
        {
            let p = &obj.properties[i];
            let mut line = cat4("\tpub ", p.name.as_str(), ": ", p.ty.as_str());
            line.append(",");
            push_text(&mut lines, line);
            assert(views(lines@) =~= head + field_lines(obj@.properties.take(i + 1)));
            i += 1;
        }
        assert(obj@.properties.take(obj.properties.len() as int) =~= obj@.properties);
    }
    push_text(&mut lines, String::from_str("}"));
    assert(views(lines@) =~= struct_lines(obj@));
    lines
}

/// The lines with which the `impl` block of an object opens.
pub fn impl_head_of(obj: &UnrealObject) -> (r: Vec<String>)
    ensures
        views(r@) == impl_head(obj@),
{
    let name = object_name_text(obj);
    let mut lines: Vec<String> = Vec::new();
    assert(views(lines@) =~= Seq::empty());
    push_text(&mut lines, cat3("impl ", name.as_str(), "{"));
    if obj.opaque_type {
        push_text(
            &mut lines,
            String::from_str(
                "\t#[inline] pub fn get_ptr(&self) -> *const std::ffi::c_void { self.ptr as *const _ }",
            ),
        );
        push_text(
            &mut lines,
            String::from_str(
                "\t#[inline] pub fn get_ptr_mut(&self) -> *mut std::ffi::c_void { self.ptr }",
            ),
        );
    }
    assert(views(lines@) =~= impl_head(obj@));
    lines
}

/// The state after an object was read: what is known of the objects, the
/// companion lines under the object's namespace, and the native sides of
/// its methods under its native name.
pub open spec fn object_read(
    obj: UnrealObjectView,
    rust: Seq<NamedLinesView>,
    cpp: Seq<NamedApisView>,
    reg: ObjectRegistryView,
) -> (Seq<NamedLinesView>, Seq<NamedApisView>, ObjectRegistryView) {
    let reg2 = registry_with(reg, obj);
    (
        lines_added(rust, object_namespace(obj), object_lines(reg2, obj)),
        apis_set(cpp, obj.unreal_type, all_native(reg2, obj)),
        reg2,
    )
}

/// Reads a class or struct: its companion type, and for each of its
/// methods the slot, the registration and the companion method. An object
/// behind a handle holds a pointer; any other holds its listed fields, and
/// must not be a class.
pub fn parse_obj(
    obj: &UnrealObject,
    rust_binders: &mut Vec<NamedLines>,
    cpp_binders: &mut Vec<NamedApis>,
    registry: &mut ObjectRegistry,
) -> (r: Result<(), ObjectError>)
    ensures
        match r {
            Ok(()) => (obj.opaque_type || obj.ty@ != "class"@) && object_read(
                obj@,
                views(old(rust_binders)@),
                views(old(cpp_binders)@),
                old(registry)@,
            ) == (views(final(rust_binders)@), views(final(cpp_binders)@), final(registry)@),
            Err(e) => e == ObjectError::ClassByValue && !obj.opaque_type && obj.ty@ == "class"@,
        },
{
    if !obj.opaque_type && same(obj.ty.as_str(), "class") {
        return Err(ObjectError::ClassByValue);
    }
    let name = object_name_text(obj);
    if !obj.alias.as_str().is_empty() {
        add_alias(registry, obj.alias.as_str(), obj.unreal_type.as_str());
    }
    if obj.opaque_type {
        add_opaque(registry, name.as_str());
    }
    assert(registry@ == registry_with(old(registry)@, obj@));
    let mut lines = struct_lines_of(obj);
    let mut impl_funs = impl_head_of(obj);
    let mut natives: Vec<CppBinderApi> = Vec::new();
    let ghost reg = registry@;
    let mut k: usize = 0;
    assert(views(lines@) =~= struct_lines(obj@) + all_api_lines(reg, obj@, 0));
    assert(views(impl_funs@) =~= impl_head(obj@) + all_impl_lines(reg, obj@, 0));
    while k < obj.apis.len()
        invariant
            k <= obj.apis.len(),
            reg == registry@,
            name@ == object_name(obj@),
            natives.len() == k,
            views(lines@) == struct_lines(obj@) + all_api_lines(reg, obj@, k as int),
            views(impl_funs@) == impl_head(obj@) + all_impl_lines(reg, obj@, k as int),
            forall|j: int|
                0 <= j < k ==> (#[trigger] natives@[j])@ == api_native(
                    reg,
                    object_name(obj@),
                    obj@.unreal_type,
                    obj@.apis[j],
                ),
        decreases obj.apis.len() - k,
    {
        let api = &obj.apis[k];
        push_api_lines(&mut lines, registry, name.as_str(), api);
        push_api_impl_lines(
            &mut impl_funs,
            registry,
            name.as_str(),
            obj.unreal_type.as_str(),
            api,
        );
        natives.push(native_of_api(registry, name.as_str(), obj.unreal_type.as_str(), api));
        proof {
            assert(views(lines@) =~= struct_lines(obj@) + all_api_lines(reg, obj@, k + 1));
            assert(views(impl_funs@) =~= impl_head(obj@) + all_impl_lines(reg, obj@, k + 1));
        }
        k += 1;
    }
    push_text(&mut impl_funs, String::from_str("}"));
    push_all(&mut lines, &impl_funs);
    assert(views(lines@) =~= object_lines(reg, obj@));
    assert(views(natives@) =~= all_native(reg, obj@));
    let ns = match &obj.namespace {
        Some(ns) => ns.clone(),
        None => String::new(),
    };
    add_lines(rust_binders, ns.as_str(), lines);
    set_apis(cpp_binders, obj.unreal_type.as_str(), natives);
    Ok(())
}

// The upper-case form of a text, as `str::to_uppercase` gives it.
pub uninterp spec fn uppercase_of(s: Seq<char>) -> Seq<char>;

/// Asks `str::to_uppercase` for the upper-case form of a text. The contract
/// gives the result its name, `uppercase_of`, and claims nothing else of it:
/// the form depends on the text alone.
#[verifier::external_body]
fn to_upper(s: &str) -> (r: String)
    ensures
        r@ == uppercase_of(s@),
{
    s.to_uppercase()
}

/// The line that declares one listed constant under the given upper-case
/// form of its name. A constant of the type `string` has its value between
/// quotes; one without a value has the default of its type.
pub open spec fn const_line_with(p: PropertyView, upper_name: Seq<char>) -> Seq<char> {
    let ov = match p.value {
        Some(v) => v,
        None => "Default::default()"@,
    };
    let value = if p.ty == "string"@ {
        "\""@ + ov + "\""@
    } else {
        ov
    };
    "const "@ + upper_name + ": "@ + p.ty + " = "@ + value + ";"@
}

/// The line that declares one listed constant: its name in upper case.
pub open spec fn const_line(p: PropertyView) -> Seq<char> {
    const_line_with(p, uppercase_of(p.name))
}

/// The line that declares one listed constant under the given upper-case
/// form of its name.
pub fn const_line_text(p: &Property, upper_name: &str) -> (r: String)
    ensures
        r@ == const_line_with(p@, upper_name@),
{
    let ov = match &p.value {
        Some(v) => v.clone(),
        None => String::from_str("Default::default()"),
    };
    let value = if same(p.ty.as_str(), "string") {
        cat3("\"", ov.as_str(), "\"")
    } else {
        ov
    };
    let mut out = cat5("const ", upper_name, ": ", p.ty.as_str(), " = ");
    out.append(value.as_str());
    out.append(";");
    out
}

/// The companion lines with the constants of an object, each under the
/// name `unreal_const`.
pub open spec fn consts_added(rust: Seq<NamedLinesView>, props: Seq<PropertyView>, k: int) -> Seq<
    NamedLinesView,
>
    decreases k,
{
    if k <= 0 || k > props.len() {
        rust
    } else {
        lines_added(consts_added(rust, props, k - 1), "unreal_const"@, seq![const_line(props[k - 1])])
    }
}

/// Reads the constants that an object lists.
pub fn parse_const(obj: &UnrealObject, rust_binders: &mut Vec<NamedLines>) -> (r: Result<
    (),
    ObjectError,
>)
    ensures
        r is Ok,
        views(final(rust_binders)@) == consts_added(
            views(old(rust_binders)@),
            obj@.properties,
            obj@.properties.len() as int,
        ),
{
    let mut k: usize = 0;
    while k < obj.properties.len()
        invariant
            k <= obj.properties.len(),
            views(rust_binders@) == consts_added(
                views(old(rust_binders)@),
                obj@.properties,
                k as int,
            ),
        decreases obj.properties.len() - k,
    {
        let name = to_upper(obj.properties[k].name.as_str());
        let line = const_line_text(&obj.properties[k], name.as_str());
        let mut one: Vec<String> = Vec::new();
        assert(views(one@) =~= Seq::empty());
        push_text(&mut one, line);
        assert(views(one@) =~= seq![const_line(obj@.properties[k as int])]);
        add_lines(rust_binders, "unreal_const", one);
        k += 1;
    }
    Ok(())
}

/// Reads an enumeration: none can be read from a description.
pub fn parse_enum(
    _obj: &UnrealObject,
    _rust_binders: &mut Vec<NamedLines>,
    _cpp_binders: &mut Vec<NamedApis>,
) -> (r: Result<(), ObjectError>)
    ensures
        r == Err::<(), ObjectError>(ObjectError::Enumeration),
        *final(_rust_binders) == *old(_rust_binders),
        *final(_cpp_binders) == *old(_cpp_binders),
{
    Err(ObjectError::Enumeration)
}

/// What the objects from position `k` on give, or the reason why one of
/// them cannot be read.
pub open spec fn objects_from(
    objects: Seq<UnrealObjectView>,
    rust: Seq<NamedLinesView>,
    cpp: Seq<NamedApisView>,
    reg: ObjectRegistryView,
    k: int,
) -> Result<(Seq<NamedLinesView>, Seq<NamedApisView>, ObjectRegistryView), ObjectError>
    decreases objects.len() - k,
{
    if k < 0 || k >= objects.len() {
        Ok((rust, cpp, reg))
    } else {
        let obj = objects[k];
        if obj.ty == "class"@ || obj.ty == "struct"@ {
            if !obj.opaque_type && obj.ty == "class"@ {
                Err(ObjectError::ClassByValue)
            } else {
                let next = object_read(obj, rust, cpp, reg);
                objects_from(objects, next.0, next.1, next.2, k + 1)
            }
        } else if obj.ty == "enum"@ {
            Err(ObjectError::Enumeration)
        } else if obj.ty == "const"@ {
            objects_from(
                objects,
                consts_added(rust, obj.properties, obj.properties.len() as int),
                cpp,
                reg,
                k + 1,
            )
        } else {
            Err(ObjectError::UnknownKind)
        }
    }
}

/// What a run over listed objects gives.
#[derive(Debug, PartialEq, Eq)]
pub struct ObjectBinders {
    pub rust: Vec<NamedLines>,
    pub cpp: Vec<NamedApis>,
}

/// Reads the listed objects in order, each by its kind.
pub fn parse(objects: Vec<UnrealObject>) -> (r: Result<ObjectBinders, ObjectError>)
    ensures
        match objects_from(
            views(objects@),
            Seq::empty(),
            Seq::empty(),
            ObjectRegistryView::empty(),
            0,
        ) {
            Ok(found) => r is Ok && views(r->Ok_0.rust@) == found.0 && views(r->Ok_0.cpp@)
                == found.1,
            Err(e) => r == Err::<ObjectBinders, ObjectError>(e),
        },
{
    let mut rust: Vec<NamedLines> = Vec::new();
    let mut cpp: Vec<NamedApis> = Vec::new();
    let mut registry = ObjectRegistry::default();
    assert(views(rust@) =~= Seq::empty());
    assert(views(cpp@) =~= Seq::empty());
    let mut k: usize = 0;
    while k < objects.len()
        invariant
            k <= objects.len(),
            objects_from(
                views(objects@),
                Seq::empty(),
                Seq::empty(),
                ObjectRegistryView::empty(),
                0,
            ) == objects_from(views(objects@), views(rust@), views(cpp@), registry@, k as int),
        decreases objects.len() - k,
    {
        let obj = &objects[k];
        assert(views(objects@)[k as int] == obj@);
        let kind = obj.ty.as_str();
        if same(kind, "class") || same(kind, "struct") {
            match parse_obj(obj, &mut rust, &mut cpp, &mut registry) {
                Ok(()) => {},
                Err(e) => {
                    return Err(e);
                },
            }
        } else if same(kind, "enum") {
            match parse_enum(obj, &mut rust, &mut cpp) {
                Ok(()) => {},
                Err(e) => {
                    return Err(e);
                },
            }
        } else if same(kind, "const") {
            let _ = parse_const(obj, &mut rust);
        } else {
            return Err(ObjectError::UnknownKind);
        }
        k += 1;
    }
    Ok(ObjectBinders { rust, cpp })
}

/// Each line behind one tab.
pub open spec fn tabbed(lines: Seq<Seq<char>>) -> Seq<Seq<char>> {
    Seq::new(lines.len(), |i: int| "\t"@ + lines[i])
}

/// The lines of one namespace in the companion module: as they are for the
/// nameless one, else inside a module of that name.
pub open spec fn namespace_lines(entry: NamedLinesView) -> Seq<Seq<char>> {
    if entry.name.len() > 0 {
        seq![
            "pub use "@ + entry.name + "::*;"@,
            "///"@ + entry.name + "  binder impl"@,
            "mod "@ + entry.name + "{"@,
            "\tuse super::*;"@,
        ] + tabbed(entry.lines) + seq!["}//end of "@ + entry.name]
    } else {
        entry.lines
    }
}

/// The lines of the namespaces before position `k`.
pub open spec fn namespaces_before(rust: Seq<NamedLinesView>, k: int) -> Seq<Seq<char>>
    decreases k,
{
    if k <= 0 || k > rust.len() {
        Seq::empty()
    } else {
        namespaces_before(rust, k - 1) + namespace_lines(rust[k - 1])
    }
}

/// The fixed head of the companion module.
pub open spec fn module_head(cross_types: Seq<char>) -> Seq<Seq<char>> {
    seq![
        "//! this is auto generated for unreal bindings by UnrealObject2RustBuilder"@,
        "#![allow(non_upper_case_globals)]"@,
        "#![allow(non_camel_case_types)]"@,
        "#![allow(non_snake_case)]"@,
        "#![allow(unused)]"@,
        "#![allow(dead_code)]"@,
        cross_types,
        "pub type string = &'static str;"@,
    ]
}

/// The text of the companion module.
pub open spec fn rust_module(rust: Seq<NamedLinesView>, cross_types: Seq<char>) -> Seq<char> {
    joined(module_head(cross_types) + namespaces_before(rust, rust.len() as int), "\r\n"@)
}

/// Each line behind one tab.
pub fn push_tabbed(list: &mut Vec<String>, lines: &Vec<String>)
    ensures
        views(final(list)@) == views(old(list)@) + tabbed(views(lines@)),
{
    let mut i: usize = 0;
    assert(views(list@) =~= views(old(list)@) + tabbed(views(lines@)).take(0));
    while i < lines.len()
        invariant
            i <= lines.len(),
            views(list@) == views(old(list)@) + tabbed(views(lines@)).take(i as int),
        decreases lines.len() - i,
    {
        let item = cat2("\t", lines[i].as_str());
        proof {
            assert((views(old(list)@) + tabbed(views(lines@)).take(i as int)).push(item@)
                =~= views(old(list)@) + tabbed(views(lines@)).take(i + 1));
        }
        push_text(list, item);
        i += 1;
    }
    assert(tabbed(views(lines@)).take(lines.len() as int) =~= tabbed(views(lines@)));
}

/// The lines of one namespace in the companion module: as they are for the
/// nameless one, else inside a module of that name.
pub fn push_namespace(list: &mut Vec<String>, entry: &NamedLines)
    ensures
        views(final(list)@) == views(old(list)@) + namespace_lines(entry@),
{
    if !entry.name.as_str().is_empty() {
        let ns = entry.name.as_str();
        push_text(list, cat3("pub use ", ns, "::*;"));
        push_text(list, cat3("///", ns, "  binder impl"));
        push_text(list, cat3("mod ", ns, "{"));
        push_text(list, String::from_str("\tuse super::*;"));
        push_tabbed(list, &entry.lines);
        push_text(list, cat2("}//end of ", ns));
        assert(views(list@) =~= views(old(list)@) + namespace_lines(entry@));
    } else {
        push_all(list, &entry.lines);
    }
}

/// Puts the companion module together. `cross_types` is the hand-written
/// part that every companion module starts with.
pub fn generate_rust(rust_binders: &Vec<NamedLines>, cross_types: &str) -> (r: String)
    ensures
        r@ == rust_module(views(rust_binders@), cross_types@),
{
    let mut file: Vec<String> = Vec::new();
    assert(views(file@) =~= Seq::empty());
    push_text(
        &mut file,
        String::from_str(
            "//! this is auto generated for unreal bindings by UnrealObject2RustBuilder",
        ),
    );
    push_text(&mut file, String::from_str("#![allow(non_upper_case_globals)]"));
    push_text(&mut file, String::from_str("#![allow(non_camel_case_types)]"));
    push_text(&mut file, String::from_str("#![allow(non_snake_case)]"));
    push_text(&mut file, String::from_str("#![allow(unused)]"));
    push_text(&mut file, String::from_str("#![allow(dead_code)]"));
    push_text(&mut file, String::from_str(cross_types));
    push_text(&mut file, String::from_str("pub type string = &'static str;"));
    assert(views(file@) =~= module_head(cross_types@) + namespaces_before(
        views(rust_binders@),
        0,
    ));
    let mut k: usize = 0;
    while k < rust_binders.len()
        invariant
            k <= rust_binders.len(),
            views(file@) == module_head(cross_types@) + namespaces_before(
                views(rust_binders@),
                k as int,
            ),
        decreases rust_binders.len() - k,
    {
        push_namespace(&mut file, &rust_binders[k]);
        assert(views(file@) =~= module_head(cross_types@) + namespaces_before(
            views(rust_binders@),
            k + 1,
        ));
        k += 1;
    }
    join(&file, "\r\n")
}

/// The registrations of the methods of one object, between two comments.
pub open spec fn binder_block(entry: NamedApisView) -> Seq<Seq<char>> {
    seq!["\t//binder "@ + entry.name + " begin"@] + Seq::new(
        entry.apis.len(),
        |i: int| "\t"@ + entry.apis[i].rust_api,
    ) + seq!["\t//binder "@ + entry.name + " end"@]
}

/// The registrations of the objects before position `k`.
pub open spec fn binder_blocks(cpp: Seq<NamedApisView>, k: int) -> Seq<Seq<char>>
    decreases k,
{
    if k <= 0 || k > cpp.len() {
        Seq::empty()
    } else {
        binder_blocks(cpp, k - 1) + binder_block(cpp[k - 1])
    }
}

/// The function-pointer types among the first `k` methods of one object.
pub open spec fn pointer_types(apis: Seq<CppBinderApiView>, k: int) -> Seq<Seq<char>>
    decreases k,
{
    if k <= 0 || k > apis.len() {
        Seq::empty()
    } else {
        match apis[k - 1].fptr {
            Some(f) => pointer_types(apis, k - 1).push(f),
            None => pointer_types(apis, k - 1),
        }
    }
}

/// The function-pointer types of the objects before position `k`.
pub open spec fn all_pointer_types(cpp: Seq<NamedApisView>, k: int) -> Seq<Seq<char>>
    decreases k,
{
    if k <= 0 || k > cpp.len() {
        Seq::empty()
    } else {
        all_pointer_types(cpp, k - 1) + pointer_types(cpp[k - 1].apis, cpp[k - 1].apis.len() as int)
    }
}

/// The fixed head of the native source.
pub open spec fn source_head() -> Seq<Seq<char>> {
    seq![
        "//auto generated binding file for UnrealRustApi by UnrealObject2RustBuilder"@,
        "#include \"CoreMinimal.h\""@,
        "#include \"RustBinders.h\""@,
        "#include \"core_api.h\""@,
        "void InitBindings(){"@,
    ]
}

/// The fixed head of the native header.
pub open spec fn header_head() -> Seq<Seq<char>> {
    seq![
        "//auto generated binding file for UnrealRustApi by UnrealObject2RustBuilder"@,
        "#pragma once"@,
        "void InitBindings();"@,
    ]
}

/// The text of the native source that registers every method.
pub open spec fn cpp_source(cpp: Seq<NamedApisView>) -> Seq<char> {
    joined(source_head() + binder_blocks(cpp, cpp.len() as int) + seq!["}"@], "\r\n"@)
}

/// The text of the native header that declares every function-pointer type.
pub open spec fn cpp_header(cpp: Seq<NamedApisView>) -> Seq<char> {
    joined(header_head() + all_pointer_types(cpp, cpp.len() as int), "\r\n"@)
}

/// The registrations of the methods of one object, between two comments.
pub fn push_binder_block(file: &mut Vec<String>, header: &mut Vec<String>, entry: &NamedApis)
    ensures
        views(final(file)@) == views(old(file)@) + binder_block(entry@),
        views(final(header)@) == views(old(header)@) + pointer_types(
            entry@.apis,
            entry@.apis.len() as int,
        ),
{
    push_text(file, cat3("\t//binder ", entry.name.as_str(), " begin"));
    let ghost start = views(file@);
    let mut i: usize = 0;
    assert(views(file@) =~= start + Seq::new(0nat, |j: int| "\t"@ + entry@.apis[j].rust_api));
    assert(views(header@) =~= views(old(header)@) + pointer_types(entry@.apis, 0));
    while i < entry.apis.len()
        invariant
            i <= entry.apis.len(),
            views(file@) == start + Seq::new(i as nat, |j: int| "\t"@ + entry@.apis[j].rust_api),
            views(header@) == views(old(header)@) + pointer_types(entry@.apis, i as int),
        decreases entry.apis.len() - i,
    {
        let api = &entry.apis[i];
        assert(entry@.apis[i as int] == api@);
        push_text(file, cat2("\t", api.rust_api.as_str()));
        match &api.fptr {
            Some(f) => {
                push_text(header, f.clone());
            },
            None => {},
        }
        proof {
            assert(views(file@) =~= start + Seq::new(
                (i + 1) as nat,
                |j: int| "\t"@ + entry@.apis[j].rust_api,
            ));
            assert(views(header@) =~= views(old(header)@) + pointer_types(entry@.apis, i + 1));
        }
        i += 1;
    }
    push_text(file, cat3("\t//binder ", entry.name.as_str(), " end"));
    assert(views(file@) =~= views(old(file)@) + binder_block(entry@));
}

/// Puts the native source and the native header together.
pub fn generate_cpp(cpp_binders: &Vec<NamedApis>) -> (r: (String, String))
    ensures
        r.0@ == cpp_source(views(cpp_binders@)),
        r.1@ == cpp_header(views(cpp_binders@)),
{
    let mut file: Vec<String> = Vec::new();
    let mut header: Vec<String> = Vec::new();
    assert(views(file@) =~= Seq::empty());
    assert(views(header@) =~= Seq::empty());
    push_text(
        &mut file,
        String::from_str(
            "//auto generated binding file for UnrealRustApi by UnrealObject2RustBuilder",
        ),
    );
    push_text(&mut file, String::from_str("#include \"CoreMinimal.h\""));
    push_text(&mut file, String::from_str("#include \"RustBinders.h\""));
    push_text(&mut file, String::from_str("#include \"core_api.h\""));
    push_text(&mut file, String::from_str("void InitBindings(){"));
    push_text(
        &mut header,
        String::from_str(
            "//auto generated binding file for UnrealRustApi by UnrealObject2RustBuilder",
        ),
    );
    push_text(&mut header, String::from_str("#pragma once"));
    push_text(&mut header, String::from_str("void InitBindings();"));
    assert(views(file@) =~= source_head() + binder_blocks(views(cpp_binders@), 0));
    assert(views(header@) =~= header_head() + all_pointer_types(views(cpp_binders@), 0));
    let mut k: usize = 0;
    while k < cpp_binders.len()
        invariant
            k <= cpp_binders.len(),
            views(file@) == source_head() + binder_blocks(views(cpp_binders@), k as int),
            views(header@) == header_head() + all_pointer_types(views(cpp_binders@), k as int),
        decreases cpp_binders.len() - k,
    {
        push_binder_block(&mut file, &mut header, &cpp_binders[k]);
        proof {
            assert(views(file@) =~= source_head() + binder_blocks(views(cpp_binders@), k + 1));
            assert(views(header@) =~= header_head() + all_pointer_types(
                views(cpp_binders@),
                k + 1,
            ));
        }
        k += 1;
    }
    push_text(&mut file, String::from_str("}"));
    assert(views(file@) =~= source_head() + binder_blocks(
        views(cpp_binders@),
        cpp_binders.len() as int,
    ) + seq!["}"@]);
    (join(&file, "\r\n"), join(&header, "\r\n"))
}

} // verus!
