//! The three artifacts of an exported method: the native function, the slot
//! with the function that fills it, and the companion method.

use crate::classify::api_denied;
use crate::classify::black_api;
use crate::classify::export_type;
use crate::classify::export_from;
use crate::classify::exported_type;
use crate::classify::find_export;
use crate::classify::get_wrapper_type;
use crate::classify::is_opaque;
use crate::classify::is_void;
use crate::classify::is_void_name;
use crate::classify::is_wrapper_name;
use crate::classify::is_wrapper_type;
use crate::classify::lemma_export_from;
use crate::classify::listed;
use crate::classify::opaque;
use crate::classify::wrapper_name;
use crate::model::CppApi;
use crate::model::CppApiView;
use crate::model::CustomSettings;
use crate::model::CustomSettingsView;
use crate::model::Engine;
use crate::model::EngineView;
use crate::model::ExportClass;
use crate::model::ExportClassView;
use crate::model::Parameter;
use crate::model::ParameterView;
use crate::model::UnrealClass;
use crate::model::UnrealClassView;
use crate::primitives::is_primary;
use crate::primitives::is_primary_name;
use crate::primitives::is_string_name;
use crate::primitives::is_string_type;
use crate::registry::rs_registry_after;
use crate::registry::rs_type_impl_of;
use crate::registry::rs_type_of;
use crate::registry::CodeGenerator;
use crate::registry::CodeGeneratorView;
use crate::registry::TypeImplView;
use crate::text::cat2;
use crate::text::cat3;
use crate::text::cat4;
use crate::text::cat5;
use crate::text::contains;
use crate::text::decimal;
use crate::text::decimal_text;
use crate::text::digit;
use crate::text::holds;
use crate::text::join;
use crate::text::joined;
use crate::text::push_text;
use crate::text::same;
use crate::text::views;
use vstd::prelude::*;
use vstd::string::StringExecFns;

verus! {

/// A string parameter that the native side may rewrite.
pub open spec fn is_mutable_string(p: ParameterView) -> bool {
    !p.const_param && p.ref_param
}

/// Whether a parameter keeps its method from being exported: a template, a
/// string kind behind a pointer that is not const, a handle type by value,
/// a type by value or reference that is neither exported nor aliased, or an
/// aliased type by reference. A string kind by value, by reference or behind
/// a const pointer keeps nothing out.
pub open spec fn param_blocks(p: ParameterView, engine: EngineView, settings: CustomSettingsView) -> bool {
    ||| p.is_generic
    ||| contains(p.type_str, "<"@)
    ||| (is_string_name(p.type_str) && p.ptr_param && !p.const_param)
    ||| (!is_string_name(p.type_str) && {
        ||| (opaque(p.type_str, engine, settings) && !(p.ptr_param || p.ref_param))
        ||| (!p.ptr_param && !exported_type(p.type_str, settings) && !is_wrapper_name(
            settings,
            p.type_str,
        ))
        ||| (is_wrapper_name(settings, p.type_str) && p.ref_param)
    })
}

/// A parameter taken by const reference whose type crosses by value: the
/// value itself crosses, with no pointer and no reference on the wire.
pub open spec fn crosses_as_value(p: ParameterView, engine: EngineView, settings: CustomSettingsView) -> bool {
    !p.ptr_param && p.ref_param && p.const_param && !opaque(p.type_str, engine, settings)
}

/// The result is a string handed over by value.
pub open spec fn is_string_ret(api: CppApiView) -> bool {
    is_string_name(api.rc_type) && !api.ptr_ret
}

/// The result crosses behind a handle.
pub open spec fn opaque_ret(api: CppApiView, engine: EngineView, settings: CustomSettingsView) -> bool {
    !is_string_ret(api) && opaque(api.rc_type, engine, settings)
}

/// Whether the result type keeps a method from being exported: a string
/// handed out by reference, a handle type handed out by value, or a type
/// that is neither exported nor aliased. A constructor's result is its own
/// entity and keeps nothing out.
pub open spec fn return_blocks(api: CppApiView, engine: EngineView, settings: CustomSettingsView) -> bool {
    if api.is_construstor {
        false
    } else if is_string_ret(api) {
        api.ref_ret
    } else if opaque_ret(api, engine, settings) {
        !api.ptr_ret && !api.ref_ret && !is_wrapper_name(settings, api.rc_type)
    } else {
        !exported_type(api.rc_type, settings) && !is_wrapper_name(settings, api.rc_type)
    }
}

/// Whether the export entry lets a member through: listed where there is a
/// list of members to keep, else not among those to leave out.
pub open spec fn member_allowed(name: Seq<char>, keep: Seq<Seq<char>>, leave: Seq<Seq<char>>) -> bool {
    if keep.len() > 0 {
        keep.contains(name)
    } else {
        !leave.contains(name)
    }
}

/// Whether a method is exported.
pub open spec fn method_passes(
    api: CppApiView,
    entry: ExportClassView,
    engine: EngineView,
    settings: CustomSettingsView,
) -> bool {
    &&& !api_denied(api, settings)
    &&& member_allowed(api.name, entry.functions, entry.ignore_functions)
    &&& !api.is_destructor
    &&& !api.is_generic
    &&& !contains(api.rc_type, "<"@)
    &&& forall|i: int|
        0 <= i < api.parameters.len() ==> !param_blocks(
            #[trigger] api.parameters[i],
            engine,
            settings,
        )
    &&& !return_blocks(api, engine, settings)
}

/// A transparent result handed out by reference, with no wrapper to copy it
/// into: nothing correct can be emitted for it.
pub open spec fn method_fails(api: CppApiView, engine: EngineView, settings: CustomSettingsView) -> bool {
    &&& !api.is_construstor
    &&& !opaque_ret(api, engine, settings)
    &&& !is_void_name(api.rc_type)
    &&& !api.ptr_ret
    &&& api.ref_ret
    &&& !is_wrapper_name(settings, api.rc_type)
}

/// How many of the methods before position `k` are exported under that name.
pub open spec fn emitted_before(
    apis: Seq<CppApiView>,
    entry: ExportClassView,
    engine: EngineView,
    settings: CustomSettingsView,
    k: int,
    name: Seq<char>,
) -> nat
    decreases k,
{
    if k <= 0 || k > apis.len() {
        0
    } else {
        let rest = emitted_before(apis, entry, engine, settings, k - 1, name);
        if apis[k - 1].name == name && method_passes(apis[k - 1], entry, engine, settings) {
            rest + 1
        } else {
            rest
        }
    }
}

/// The identifier of a method among its overloads: the first keeps the
/// name, each later one gets its rank behind it.
pub open spec fn designed_name(name: Seq<char>, before: nat) -> Seq<char> {
    if before == 0 {
        name
    } else {
        name + decimal(before + 1)
    }
}

/// The companion type that a method hands back: for a constructor its entity.
pub open spec fn result_companion(api: CppApiView) -> Seq<char> {
    if api.is_construstor {
        api.class_name
    } else {
        api.r_type
    }
}

/// The result is a handle that the companion side wraps in its entity type.
pub open spec fn wraps_handle(api: CppApiView, engine: EngineView, settings: CustomSettingsView) -> bool {
    if api.is_construstor {
        opaque(api.class_name, engine, settings) && exported_type(api.class_name, settings)
    } else {
        opaque_ret(api, engine, settings) && !api.ref_ret && exported_type(api.rc_type, settings)
    }
}

/// The result is borrowed: the companion method has a lifetime and the wire
/// carries a pointer.
pub open spec fn borrows_result(api: CppApiView, engine: EngineView, settings: CustomSettingsView) -> bool {
    !api.is_construstor && opaque_ret(api, engine, settings) && api.ref_ret
}

/// The result type of the native function.
pub open spec fn native_ret(api: CppApiView, engine: EngineView, settings: CustomSettingsView) -> Seq<char> {
    if api.is_construstor || opaque_ret(api, engine, settings) {
        "void*"@
    } else if is_void_name(api.rc_type) {
        "void"@
    } else if api.ptr_ret {
        api.rc_type + "*"@
    } else if api.ref_ret {
        wrapper_name(settings, api.rc_type)
    } else if is_string_ret(api) {
        "const char*"@
    } else {
        wrapper_name(settings, api.rc_type)
    }
}

/// The result of the function-pointer slot, arrow included.
pub open spec fn slot_ret(api: CppApiView, engine: EngineView, settings: CustomSettingsView) -> Seq<char> {
    let ts = rs_type_impl_of(result_companion(api), engine, settings);
    if api.is_construstor || opaque_ret(api, engine, settings) {
        " -> *mut "@ + ts.alis
    } else if is_void_name(api.rc_type) {
        ""@
    } else if api.ptr_ret {
        " -> *mut "@ + ts.alis
    } else if api.ref_ret {
        " -> "@ + wrapper_name(settings, api.rc_type)
    } else if is_string_ret(api) {
        " -> *const std::os::raw::c_char"@
    } else if is_wrapper_name(settings, api.rc_type) {
        " -> "@ + wrapper_name(settings, api.rc_type)
    } else {
        " -> "@ + ts.name
    }
}

/// The result of the companion method, arrow included.
pub open spec fn companion_ret(api: CppApiView, engine: EngineView, settings: CustomSettingsView) -> Seq<char> {
    let ts = rs_type_impl_of(result_companion(api), engine, settings);
    if borrows_result(api, engine, settings) {
        " -> &'a "@ + ts.alis
    } else if wraps_handle(api, engine, settings) {
        " -> Option<"@ + ts.name + ">"@
    } else if !api.is_construstor && !opaque_ret(api, engine, settings) && !is_void_name(api.rc_type)
        && !api.ptr_ret && !api.ref_ret && is_string_ret(api) {
        " -> String"@
    } else {
        slot_ret(api, engine, settings)
    }
}

/// What stands before, and what behind, the slot call in the companion method.
pub open spec fn call_wrap(api: CppApiView, engine: EngineView, settings: CustomSettingsView) -> (
    Seq<char>,
    Seq<char>,
) {
    if borrows_result(api, engine, settings) {
        ("&*"@, ""@)
    } else if !api.is_construstor && is_string_ret(api) {
        ("char_str_2_string("@, ")"@)
    } else if wraps_handle(api, engine, settings) {
        (result_companion(api) + "::from_ptr("@, ")"@)
    } else {
        (""@, ""@)
    }
}

/// The mark behind the type in the native declaration of a parameter.
pub open spec fn pointer_mark(p: ParameterView, engine: EngineView, settings: CustomSettingsView) -> Seq<char> {
    if p.ptr_param {
        "*"@
    } else if p.ref_param {
        if opaque(p.type_str, engine, settings) {
            "*"@
        } else if p.const_param {
            ""@
        } else {
            "&"@
        }
    } else {
        ""@
    }
}

/// The mark before the type in the slot's parameter list.
pub open spec fn ffi_mark(p: ParameterView, engine: EngineView, settings: CustomSettingsView) -> Seq<char> {
    if p.ptr_param {
        "*mut "@
    } else if p.ref_param {
        if opaque(p.type_str, engine, settings) {
            "*mut "@
        } else if p.const_param {
            ""@
        } else {
            "&mut "@
        }
    } else {
        ""@
    }
}

/// The mark before the type in the companion method's parameter list.
pub open spec fn rs_mark(p: ParameterView, engine: EngineView, settings: CustomSettingsView) -> Seq<char> {
    if is_void_name(p.type_str) && p.ptr_param {
        "*mut "@
    } else if p.ptr_param {
        if exported_type(p.type_str, settings) {
            if p.const_param {
                "&"@
            } else {
                "&mut "@
            }
        } else {
            "*mut "@
        }
    } else if p.ref_param {
        if opaque(p.type_str, engine, settings) {
            "&mut "@
        } else if p.const_param {
            ""@
        } else {
            "&mut "@
        }
    } else {
        ""@
    }
}

/// The type of a parameter in the companion method.
pub open spec fn rs_param_type(p: ParameterView, engine: EngineView, settings: CustomSettingsView) -> Seq<char> {
    let ts = rs_type_impl_of(p.r_type, engine, settings);
    if is_void_name(p.type_str) && p.ptr_param {
        "c_void"@
    } else if exported_type(p.type_str, settings) {
        ts.name
    } else {
        ts.alis
    }
}

/// A parameter in the native function's declaration.
pub open spec fn native_decl(p: ParameterView, engine: EngineView, settings: CustomSettingsView) -> Seq<char> {
    if is_string_name(p.type_str) {
        if is_mutable_string(p) {
            "RefString "@ + p.name
        } else {
            "NativeString "@ + p.name
        }
    } else {
        wrapper_name(settings, p.type_str) + pointer_mark(p, engine, settings) + " "@ + p.name
    }
}

/// A parameter in the slot's type.
pub open spec fn ffi_param(p: ParameterView, engine: EngineView, settings: CustomSettingsView) -> Seq<char> {
    if is_string_name(p.type_str) {
        if is_mutable_string(p) {
            "RefString"@
        } else {
            "NativeString"@
        }
    } else {
        ffi_mark(p, engine, settings) + rs_type_impl_of(p.r_type, engine, settings).alis
    }
}

/// The argument that the companion method hands to the slot.
pub open spec fn call_arg(p: ParameterView, engine: EngineView, settings: CustomSettingsView) -> Seq<char> {
    if is_string_name(p.type_str) || is_primary_name(p.type_str) || is_wrapper_name(
        settings,
        p.type_str,
    ) || crosses_as_value(p, engine, settings) {
        p.name
    } else if exported_type(p.type_str, settings) && (p.ptr_param || p.ref_param) {
        if opaque(p.type_str, engine, settings) {
            p.name + ".inner()"@
        } else {
            p.name + " as *mut _"@
        }
    } else {
        p.name
    }
}

/// A parameter of the companion method.
pub open spec fn fn_param(p: ParameterView, engine: EngineView, settings: CustomSettingsView) -> Seq<char> {
    if is_string_name(p.type_str) {
        if is_mutable_string(p) {
            p.name + ": &mut String"@
        } else {
            p.name + ": &str"@
        }
    } else {
        p.name + ": "@ + rs_mark(p, engine, settings) + rs_param_type(p, engine, settings)
    }
}

/// The statement that turns a companion string into its wire value.
pub open spec fn translation(p: ParameterView) -> Seq<char> {
    if is_mutable_string(p) {
        "string_2_rstr!("@ + p.name + ", "@ + p.name + ");"@
    } else {
        "string_2_cstr!("@ + p.name + ", "@ + p.name + ");"@
    }
}

/// The native local that holds the string of the parameter at `idx`.
pub open spec fn local_name(idx: nat) -> Seq<char> {
    "fstr"@ + decimal(idx)
}

/// The native statement that makes the local of a string parameter.
pub open spec fn local_var(p: ParameterView, idx: nat) -> Seq<char> {
    let conv = if is_mutable_string(p) {
        if p.type_str == "FString"@ {
            "Utf8Ref2FString("@
        } else {
            "Utf8Ref2FText("@
        }
    } else {
        if p.type_str == "FString"@ {
            "Utf82FString("@
        } else {
            "Utf82FText("@
        }
    };
    "auto "@ + local_name(idx) + " = "@ + conv + p.name + ");"@
}

/// The native statement that writes a rewritten string back.
pub open spec fn modifier(p: ParameterView, idx: nat) -> Seq<char> {
    let reset = if p.type_str == "FString"@ {
        "ResetFStringBuffer("@
    } else {
        "ResetFTextBuffer("@
    };
    reset + local_name(idx) + ", "@ + p.name + ");"@
}

/// The argument that the native function hands to the method.
pub open spec fn native_arg(
    p: ParameterView,
    idx: nat,
    engine: EngineView,
    settings: CustomSettingsView,
) -> Seq<char> {
    if is_string_name(p.type_str) {
        if p.ptr_param {
            "&"@ + local_name(idx)
        } else {
            local_name(idx)
        }
    } else if is_wrapper_name(settings, p.type_str) {
        if p.ptr_param {
            "To"@ + p.type_str + "(*"@ + p.name + ")"@
        } else {
            "To"@ + p.type_str + "("@ + p.name + ")"@
        }
    } else if p.ref_param && opaque(p.type_str, engine, settings) {
        "*"@ + p.name
    } else {
        p.name
    }
}

/// A method called on an instance: it takes the instance's handle first.
pub open spec fn takes_target(api: CppApiView) -> bool {
    !api.is_construstor && !api.is_static
}

/// The list with an entry for the instance in front, where the method is
/// called on one.
pub open spec fn with_target(api: CppApiView, first: Seq<char>, rest: Seq<Seq<char>>) -> Seq<Seq<char>> {
    if takes_target(api) {
        seq![first] + rest
    } else {
        rest
    }
}

/// The parameters of the native function.
pub open spec fn native_decls(api: CppApiView, engine: EngineView, settings: CustomSettingsView) -> Seq<
    Seq<char>,
> {
    with_target(
        api,
        "void* target"@,
        Seq::new(api.parameters.len(), |i: int| native_decl(api.parameters[i], engine, settings)),
    )
}

/// The parameters of the slot's type.
pub open spec fn ffi_params(api: CppApiView, engine: EngineView, settings: CustomSettingsView) -> Seq<
    Seq<char>,
> {
    with_target(
        api,
        "*mut c_void"@,
        Seq::new(api.parameters.len(), |i: int| ffi_param(api.parameters[i], engine, settings)),
    )
}

/// How the companion method hands itself to the slot.
pub open spec fn self_arg(api: CppApiView, class_opaque: bool) -> Seq<char> {
    if class_opaque {
        "self.inner"@
    } else if api.is_const {
        "self as *const Self as *mut c_void"@
    } else {
        "self as *mut Self as *mut c_void"@
    }
}

/// The arguments that the companion method hands to the slot.
pub open spec fn call_args(
    api: CppApiView,
    class_opaque: bool,
    engine: EngineView,
    settings: CustomSettingsView,
) -> Seq<Seq<char>> {
    with_target(
        api,
        self_arg(api, class_opaque),
        Seq::new(api.parameters.len(), |i: int| call_arg(api.parameters[i], engine, settings)),
    )
}

/// How the companion method takes its instance.
pub open spec fn self_param(api: CppApiView) -> Seq<char> {
    if api.is_const {
        "&self"@
    } else {
        "&mut self"@
    }
}

/// The parameters of the companion method.
pub open spec fn fn_params(api: CppApiView, engine: EngineView, settings: CustomSettingsView) -> Seq<
    Seq<char>,
> {
    with_target(
        api,
        self_param(api),
        Seq::new(api.parameters.len(), |i: int| fn_param(api.parameters[i], engine, settings)),
    )
}

/// The arguments that the native function hands to the method.
pub open spec fn native_args(api: CppApiView, engine: EngineView, settings: CustomSettingsView) -> Seq<
    Seq<char>,
> {
    Seq::new(
        api.parameters.len(),
        |i: int| native_arg(api.parameters[i], i as nat, engine, settings),
    )
}

/// The wire conversions of the string parameters, in order.
pub open spec fn translations(params: Seq<ParameterView>) -> Seq<Seq<char>>
    decreases params.len(),
{
    if params.len() == 0 {
        Seq::empty()
    } else if is_string_name(params.last().type_str) {
        translations(params.drop_last()).push(translation(params.last()))
    } else {
        translations(params.drop_last())
    }
}

/// The native locals of the string parameters, in order.
pub open spec fn locals(params: Seq<ParameterView>) -> Seq<Seq<char>>
    decreases params.len(),
{
    if params.len() == 0 {
        Seq::empty()
    } else if is_string_name(params.last().type_str) {
        locals(params.drop_last()).push(local_var(params.last(), (params.len() - 1) as nat))
    } else {
        locals(params.drop_last())
    }
}

/// The write-backs of the rewritable string parameters, in order.
pub open spec fn modifiers(params: Seq<ParameterView>) -> Seq<Seq<char>>
    decreases params.len(),
{
    if params.len() == 0 {
        Seq::empty()
    } else if is_string_name(params.last().type_str) && is_mutable_string(params.last()) {
        modifiers(params.drop_last()).push(modifier(params.last(), (params.len() - 1) as nat))
    } else {
        modifiers(params.drop_last())
    }
}

/// Each line behind two tabs.
pub open spec fn indented(lines: Seq<Seq<char>>) -> Seq<Seq<char>> {
    Seq::new(lines.len(), |i: int| "\t\t"@ + lines[i])
}

/// The name of the native function of a method.
pub open spec fn native_name(class: Seq<char>, api: CppApiView, designed: Seq<char>) -> Seq<char> {
    if api.is_construstor {
        "uapi_"@ + class + "_New"@ + decimal(api.parameters.len())
    } else {
        "uapi_"@ + class + "_"@ + designed
    }
}

/// The name of the slot's function type.
pub open spec fn callback_name(class: Seq<char>, designed: Seq<char>) -> Seq<char> {
    class + "_"@ + designed + "Invoker"@
}

/// The name of the slot.
pub open spec fn handler_name(class: Seq<char>, designed: Seq<char>) -> Seq<char> {
    callback_name(class, designed) + "Handler"@
}

/// The name of the function that the host calls to fill the slot.
pub open spec fn setter_name(class: Seq<char>, designed: Seq<char>) -> Seq<char> {
    "set_"@ + class + "_"@ + designed + "_handler"@
}

/// The cast in front of the native call.
pub open spec fn result_caster(api: CppApiView, engine: EngineView, settings: CustomSettingsView) -> Seq<char> {
    if borrows_result(api, engine, settings) {
        "("@ + native_ret(api, engine, settings) + ")&"@
    } else if api.ptr_ret {
        "("@ + native_ret(api, engine, settings) + ")"@
    } else {
        ""@
    }
}

/// The conversion that the native result goes through, up to its opening
/// bracket.
pub open spec fn result_open(api: CppApiView, settings: CustomSettingsView) -> Seq<char> {
    if !is_string_ret(api) && is_wrapper_name(settings, api.rc_type) {
        "To"@ + wrapper_name(settings, api.rc_type) + "("@
    } else if is_string_ret(api) {
        if api.rc_type == "FString"@ {
            "FString2Utf8("@
        } else {
            "FText2Utf8("@
        }
    } else {
        ""@
    }
}

/// The closing bracket of the conversion of the native result, if any.
pub open spec fn result_close(api: CppApiView, settings: CustomSettingsView) -> Seq<char> {
    if is_wrapper_name(settings, api.rc_type) || is_string_ret(api) {
        ")"@
    } else {
        ""@
    }
}

/// Whether the native function hands nothing back.
pub open spec fn returns_nothing(api: CppApiView, engine: EngineView, settings: CustomSettingsView) -> bool {
    native_ret(api, engine, settings) == "void"@
}

/// The first line of the native function.
pub open spec fn native_head(
    class: Seq<char>,
    api: CppApiView,
    designed: Seq<char>,
    engine: EngineView,
    settings: CustomSettingsView,
) -> Seq<char> {
    "\t"@ + native_ret(api, engine, settings) + " "@ + native_name(class, api, designed) + "("@
        + joined(native_decls(api, engine, settings), ", "@) + "){"@
}

/// The line of the native function that calls the method.
pub open spec fn call_line(
    class: Seq<char>,
    api: CppApiView,
    engine: EngineView,
    settings: CustomSettingsView,
) -> Seq<char> {
    let local = if returns_nothing(api, engine, settings) {
        ""@
    } else {
        "auto result = "@
    };
    let head = "\t\t"@ + local + result_open(api, settings) + result_caster(api, engine, settings);
    let args = joined(native_args(api, engine, settings), ", "@);
    if api.is_static {
        head + "("@ + class + "::"@ + api.name + "("@ + args + "))"@ + result_close(api, settings)
            + ";"@
    } else if is_wrapper_name(settings, api.class_name) {
        head + "(To"@ + class + "(*("@ + wrapper_name(settings, class) + "*)target))."@ + api.name
            + "("@ + args + ")"@ + result_close(api, settings) + ";"@
    } else {
        head + "(("@ + class + "*)target)->"@ + api.name + "("@ + args + ")"@ + result_close(
            api,
            settings,
        ) + ";"@
    }
}

/// The line of a native factory that makes the instance.
pub open spec fn new_line(
    class: Seq<char>,
    api: CppApiView,
    engine: EngineView,
    settings: CustomSettingsView,
) -> Seq<char> {
    "\t\tauto _this = new "@ + class + "("@ + joined(native_args(api, engine, settings), ", "@)
        + ");"@
}

/// The lines of the native function.
pub open spec fn native_lines(
    class: Seq<char>,
    api: CppApiView,
    designed: Seq<char>,
    engine: EngineView,
    settings: CustomSettingsView,
) -> Seq<Seq<char>> {
    let start = seq![native_head(class, api, designed, engine, settings)] + indented(
        locals(api.parameters),
    );
    if api.is_construstor {
        start + seq![new_line(class, api, engine, settings)] + indented(modifiers(api.parameters))
            + seq!["\t\treturn _this;\r\n\t}"@]
    } else if returns_nothing(api, engine, settings) {
        start + seq![call_line(class, api, engine, settings)] + indented(
            modifiers(api.parameters),
        ) + seq!["\t}"@]
    } else {
        start + seq![call_line(class, api, engine, settings)] + indented(
            modifiers(api.parameters),
        ) + seq!["\t\treturn result;"@] + seq!["\t}"@]
    }
}

/// The native function of a method.
pub open spec fn native_text(
    class: Seq<char>,
    api: CppApiView,
    designed: Seq<char>,
    engine: EngineView,
    settings: CustomSettingsView,
) -> Seq<char> {
    if api.is_construstor {
        joined(native_lines(class, api, designed, engine, settings), "\r\n"@)
    } else {
        joined(native_lines(class, api, designed, engine, settings), "\t\n"@)
    }
}

/// The slot of a method with its type and the function that fills it.
pub open spec fn slot_text(
    class: Seq<char>,
    api: CppApiView,
    designed: Seq<char>,
    engine: EngineView,
    settings: CustomSettingsView,
) -> Seq<char> {
    let cb = callback_name(class, designed);
    let handler = handler_name(class, designed);
    "\n    type "@ + cb + " = unsafe extern \"C\" fn("@ + joined(
        ffi_params(api, engine, settings),
        ", "@,
    ) + ")"@ + slot_ret(api, engine, settings) + ";\n    pub(super) static mut "@ + handler
        + ": Option<"@ + cb + "> = None;\n    #[no_mangle]\n    extern \"C\" fn "@ + setter_name(
        class,
        designed,
    ) + "(handler: "@ + cb + "){\n        unsafe{ "@ + handler + " = Some(handler) };\n    }"@
}

/// The native type of the function that fills the slot.
pub open spec fn define_text(
    class: Seq<char>,
    api: CppApiView,
    designed: Seq<char>,
    engine: EngineView,
    settings: CustomSettingsView,
) -> Seq<char> {
    "\nusing "@ + native_name(class, api, designed) + "Fn = void(*)("@ + native_ret(
        api,
        engine,
        settings,
    ) + "(*)("@ + joined(native_decls(api, engine, settings), ","@) + "));"@
}

/// The native statements that look the setter up and hand it the function.
pub open spec fn register_text(class: Seq<char>, api: CppApiView, designed: Seq<char>) -> Seq<char> {
    let nn = native_name(class, api, designed);
    "\n    auto const api"@ + nn + " = ("@ + nn + "Fn)plugin->GetDllExport(TEXT(\""@ + setter_name(
        class,
        designed,
    ) + "\\0\"));\n    if(api"@ + nn + "){\n        api"@ + nn + "(&"@ + nn + ");\n    }"@
}

/// The first line of the companion method.
pub open spec fn companion_head(
    api: CppApiView,
    designed: Seq<char>,
    engine: EngineView,
    settings: CustomSettingsView,
) -> Seq<char> {
    let tag = if borrows_result(api, engine, settings) {
        "<'a>"@
    } else {
        ""@
    };
    "\tpub fn "@ + designed + tag + "("@ + joined(fn_params(api, engine, settings), ", "@) + ")"@
        + companion_ret(api, engine, settings) + "{"@
}

/// The line of the companion method that calls through the slot.
pub open spec fn companion_call(
    class: Seq<char>,
    api: CppApiView,
    designed: Seq<char>,
    class_opaque: bool,
    engine: EngineView,
    settings: CustomSettingsView,
) -> Seq<char> {
    "\t\tunsafe{ "@ + call_wrap(api, engine, settings).0 + handler_name(class, designed)
        + ".as_ref().unwrap()("@ + joined(call_args(api, class_opaque, engine, settings), ", "@)
        + ")"@ + call_wrap(api, engine, settings).1 + " }"@
}

/// The companion method.
pub open spec fn companion_text(
    class: Seq<char>,
    api: CppApiView,
    designed: Seq<char>,
    class_opaque: bool,
    engine: EngineView,
    settings: CustomSettingsView,
) -> Seq<char> {
    joined(
        seq!["\t#[inline]"@, companion_head(api, designed, engine, settings)] + indented(
            translations(api.parameters),
        ) + seq![
            companion_call(class, api, designed, class_opaque, engine, settings),
            "\t}"@,
        ],
        "\r\n"@,
    )
}

/// The aliases after the types of the parameters were looked up.
pub open spec fn params_registry(
    reg: Seq<TypeImplView>,
    params: Seq<ParameterView>,
    engine: EngineView,
    settings: CustomSettingsView,
) -> Seq<TypeImplView>
    decreases params.len(),
{
    if params.len() == 0 {
        reg
    } else if is_string_name(params.last().type_str) {
        params_registry(reg, params.drop_last(), engine, settings)
    } else {
        rs_registry_after(
            params_registry(reg, params.drop_last(), engine, settings),
            params.last().r_type,
            engine,
            settings,
        )
    }
}

/// The aliases after the types of a method were looked up.
pub open spec fn method_registry(
    reg: Seq<TypeImplView>,
    api: CppApiView,
    engine: EngineView,
    settings: CustomSettingsView,
) -> Seq<TypeImplView> {
    params_registry(
        rs_registry_after(reg, result_companion(api), engine, settings),
        api.parameters,
        engine,
        settings,
    )
}

/// The emitter's state after one method was emitted under the identifier
/// `designed`.
pub open spec fn after_method(
    gen: CodeGeneratorView,
    class: Seq<char>,
    api: CppApiView,
    designed: Seq<char>,
    class_opaque: bool,
    engine: EngineView,
    settings: CustomSettingsView,
) -> CodeGeneratorView {
    CodeGeneratorView {
        type_impl: method_registry(gen.type_impl, api, engine, settings),
        source: gen.source.push(native_text(class, api, designed, engine, settings)),
        rs_ffis: gen.rs_ffis.push(slot_text(class, api, designed, engine, settings)),
        api_defines: gen.api_defines.push(define_text(class, api, designed, engine, settings)),
        registers: gen.registers.push(register_text(class, api, designed)),
        rs_source: gen.rs_source.push(
            companion_text(class, api, designed, class_opaque, engine, settings),
        ),
        ..gen
    }
}

/// The emitter's state after the methods from position `k` on were emitted,
/// or `None` where one of them cannot be emitted.
#[verifier::opaque]
pub open spec fn methods_from(
    gen: CodeGeneratorView,
    class: UnrealClassView,
    entry: ExportClassView,
    class_opaque: bool,
    engine: EngineView,
    settings: CustomSettingsView,
    k: int,
) -> Option<CodeGeneratorView>
    decreases class.public_apis.len() - k,
{
    if k < 0 || k >= class.public_apis.len() {
        Some(gen)
    } else {
        let api = class.public_apis[k];
        if !method_passes(api, entry, engine, settings) {
            methods_from(gen, class, entry, class_opaque, engine, settings, k + 1)
        } else if method_fails(api, engine, settings) {
            None
        } else {
            let designed = designed_name(
                api.name,
                emitted_before(class.public_apis, entry, engine, settings, k, api.name),
            );
            methods_from(
                after_method(gen, class.name, api, designed, class_opaque, engine, settings),
                class,
                entry,
                class_opaque,
                engine,
                settings,
                k + 1,
            )
        }
    }
}

/// A parameter taken by const reference whose type crosses by value
/// crosses as that value: neither the native declaration, nor the slot, nor
/// the companion method puts a pointer or a reference mark to its type, and
/// the companion method hands the value on as it is.
pub proof fn lemma_const_reference_crosses_as_value(
    p: ParameterView,
    engine: EngineView,
    settings: CustomSettingsView,
)
    requires
        crosses_as_value(p, engine, settings),
        !is_string_name(p.type_str),
    ensures
        native_decl(p, engine, settings) == wrapper_name(settings, p.type_str) + " "@ + p.name,
        ffi_param(p, engine, settings) == rs_type_impl_of(p.r_type, engine, settings).alis,
        fn_param(p, engine, settings) == p.name + ": "@ + rs_param_type(p, engine, settings),
        call_arg(p, engine, settings) == p.name,
{
    reveal_strlit("");
    let none = ""@;
    assert(wrapper_name(settings, p.type_str) + none =~= wrapper_name(settings, p.type_str));
    assert(none + rs_type_impl_of(p.r_type, engine, settings).alis =~= rs_type_impl_of(
        p.r_type,
        engine,
        settings,
    ).alis);
    assert(p.name + ": "@ + none =~= p.name + ": "@);
}

/// A string kind has no angle bracket in its name.
pub proof fn lemma_string_name_is_plain(t: Seq<char>)
    requires
        is_string_name(t),
    ensures
        !contains(t, "<"@),
{
    reveal_strlit("FString");
    reveal_strlit("FText");
    reveal_strlit("<");
    crate::text::lemma_index_from(t, "<"@, 0);
    assert forall|i: int| !crate::text::occurs_at(t, "<"@, i) by {
        if 0 <= i && i + 1 <= t.len() {
            assert(t.subrange(i, i + 1)[0] == t[i]);
        }
    }
}

/// A string parameter keeps its method out only behind a pointer that is
/// not const. One taken by a reference that is not const crosses as a
/// string that the native side may rewrite, and every other one as a string
/// that it only reads.
pub proof fn lemma_string_parameter_crosses(
    p: ParameterView,
    engine: EngineView,
    settings: CustomSettingsView,
)
    requires
        is_string_name(p.type_str),
        !p.is_generic,
    ensures
        param_blocks(p, engine, settings) <==> (p.ptr_param && !p.const_param),
        !p.const_param && p.ref_param ==> native_decl(p, engine, settings) == "RefString "@
            + p.name && ffi_param(p, engine, settings) == "RefString"@ && fn_param(
            p,
            engine,
            settings,
        ) == p.name + ": &mut String"@,
        !(!p.const_param && p.ref_param) ==> native_decl(p, engine, settings) == "NativeString "@
            + p.name && ffi_param(p, engine, settings) == "NativeString"@ && fn_param(
            p,
            engine,
            settings,
        ) == p.name + ": &str"@,
{
    lemma_string_name_is_plain(p.type_str);
}

/// A method that the deny-list names under its entity is not exported,
/// whatever else holds of it.
pub proof fn lemma_denied_method_is_left_out(
    api: CppApiView,
    entry: ExportClassView,
    engine: EngineView,
    settings: CustomSettingsView,
)
    requires
        api.class_name.len() > 0,
        settings.BlackList.contains(api.class_name + "."@ + api.name),
    ensures
        !method_passes(api, entry, engine, settings),
{
}

/// Emission passes over a method that is not exported: the state after it is
/// the state that the methods behind it give.
pub proof fn lemma_left_out_method_emits_nothing(
    gen: CodeGeneratorView,
    class: UnrealClassView,
    entry: ExportClassView,
    class_opaque: bool,
    engine: EngineView,
    settings: CustomSettingsView,
    k: int,
)
    requires
        0 <= k < class.public_apis.len(),
        !method_passes(class.public_apis[k], entry, engine, settings),
    ensures
        methods_from(gen, class, entry, class_opaque, engine, settings, k) == methods_from(
            gen,
            class,
            entry,
            class_opaque,
            engine,
            settings,
            k + 1,
        ),
{
    reveal(methods_from);
}

/// Of two exported methods of one name, with no third of that name before
/// the second, the first keeps the name and the second carries the suffix 2.
pub proof fn lemma_overload_suffix(
    apis: Seq<CppApiView>,
    entry: ExportClassView,
    engine: EngineView,
    settings: CustomSettingsView,
    i: int,
    j: int,
)
    requires
        0 <= i < j < apis.len(),
        apis[i].name == apis[j].name,
        method_passes(apis[i], entry, engine, settings),
        method_passes(apis[j], entry, engine, settings),
        forall|k: int|
            0 <= k < j && k != i && method_passes(apis[k], entry, engine, settings)
                ==> apis[k].name != apis[i].name,
    ensures
        designed_name(apis[i].name, emitted_before(apis, entry, engine, settings, i, apis[i].name))
            == apis[i].name,
        designed_name(apis[j].name, emitted_before(apis, entry, engine, settings, j, apis[j].name))
            == apis[j].name + "2"@,
        apis[j].name + "2"@ != apis[j].name,
{
    let name = apis[i].name;
    lemma_count_none(apis, entry, engine, settings, 0, i, name);
    lemma_count_none(apis, entry, engine, settings, i + 1, j, name);
    assert(emitted_before(apis, entry, engine, settings, i + 1, name) == 1);
    assert(emitted_before(apis, entry, engine, settings, j, name) == 1);
    reveal_strlit("2");
    assert(decimal(2) =~= "2"@) by {
        assert(decimal(2) == seq![digit(2)]);
    }
    assert((name + "2"@).len() == name.len() + 1);
}

/// Where no exported method between `lo` and `hi` has the name, the count
/// of exported methods of that name is the same at both.
pub proof fn lemma_count_none(
    apis: Seq<CppApiView>,
    entry: ExportClassView,
    engine: EngineView,
    settings: CustomSettingsView,
    lo: int,
    hi: int,
    name: Seq<char>,
)
    requires
        0 <= lo <= hi <= apis.len(),
        forall|k: int|
            lo <= k < hi && method_passes(apis[k], entry, engine, settings) ==> apis[k].name != name,
    ensures
        emitted_before(apis, entry, engine, settings, hi, name) == emitted_before(
            apis,
            entry,
            engine,
            settings,
            lo,
            name,
        ),
    decreases hi - lo,
{
    if lo < hi {
        lemma_count_none(apis, entry, engine, settings, lo, hi - 1, name);
    }
}

/// Whether a parameter keeps its method from being exported.
pub fn param_blocked(p: &Parameter, engine: &Engine, settings: &CustomSettings) -> (r: bool)
    ensures
        r == param_blocks(p@, engine@, settings@),
{
    let t = p.type_str.as_str();
    if p.is_generic || holds(t, "<") {
        return true;
    }
    let string = is_string_type(t);
    if string && p.ptr_param && !p.const_param {
        return true;
    }
    if string {
        return false;
    }
    if is_opaque(t, engine, settings) && !(p.ptr_param || p.ref_param) {
        return true;
    }
    let wrapper = is_wrapper_type(t, settings);
    if !p.ptr_param && !export_type(t, settings) && !wrapper {
        return true;
    }
    wrapper && p.ref_param
}

/// The result is a string handed over by value.
pub fn string_ret(api: &CppApi) -> (r: bool)
    ensures
        r == is_string_ret(api@),
{
    is_string_type(api.rc_type.as_str()) && !api.ptr_ret
}

pub fn handle_ret(api: &CppApi, engine: &Engine, settings: &CustomSettings) -> (r: bool)
    ensures
        r == opaque_ret(api@, engine@, settings@),
{
    !string_ret(api) && is_opaque(api.rc_type.as_str(), engine, settings)
}

/// Whether the result type keeps a method from being exported: a string
/// handed out by reference, a handle type handed out by value, or a type
/// that is neither exported nor aliased. A constructor's result is its own
/// entity and keeps nothing out.
pub fn return_blocked(api: &CppApi, engine: &Engine, settings: &CustomSettings) -> (r: bool)
    ensures
        r == return_blocks(api@, engine@, settings@),
{
    if api.is_construstor {
        false
    } else if string_ret(api) {
        api.ref_ret
    } else if handle_ret(api, engine, settings) {
        !api.ptr_ret && !api.ref_ret && !is_wrapper_type(api.rc_type.as_str(), settings)
    } else {
        !export_type(api.rc_type.as_str(), settings) && !is_wrapper_type(
            api.rc_type.as_str(),
            settings,
        )
    }
}

/// Whether the export entry lets a member through: listed where there is a
/// list of members to keep, else not among those to leave out.
pub fn allowed(name: &str, keep: &Vec<String>, leave: &Vec<String>) -> (r: bool)
    ensures
        r == member_allowed(name@, views(keep@), views(leave@)),
{
    if keep.len() > 0 {
        listed(keep, name)
    } else {
        !listed(leave, name)
    }
}

/// Whether a method is exported.
pub fn passes(api: &CppApi, entry: &ExportClass, engine: &Engine, settings: &CustomSettings) -> (r:
    bool)
    ensures
        r == method_passes(api@, entry@, engine@, settings@),
{
    if black_api(api, settings) {
        return false;
    }
    if !allowed(api.name.as_str(), &entry.functions, &entry.ignore_functions) {
        return false;
    }
    if api.is_destructor || api.is_generic || holds(api.rc_type.as_str(), "<") {
        return false;
    }
    let mut i: usize = 0;
    while i < api.parameters.len()
        invariant
            i <= api.parameters.len(),
            forall|k: int|
                0 <= k < i ==> !param_blocks(#[trigger] api@.parameters[k], engine@, settings@),
        decreases api.parameters.len() - i,
    {
        if param_blocked(&api.parameters[i], engine, settings) {
            assert(param_blocks(api@.parameters[i as int], engine@, settings@));
            return false;
        }
        i += 1;
    }
    !return_blocked(api, engine, settings)
}

/// A transparent result handed out by reference, with no wrapper to copy it
/// into: nothing correct can be emitted for it.
pub fn fails(api: &CppApi, engine: &Engine, settings: &CustomSettings) -> (r: bool)
    ensures
        r == method_fails(api@, engine@, settings@),
{
    !api.is_construstor && !handle_ret(api, engine, settings) && !is_void(api.rc_type.as_str())
        && !api.ptr_ret && api.ref_ret && !is_wrapper_type(api.rc_type.as_str(), settings)
}

/// The identifier of a method among its overloads: the first keeps the
/// name, each later one gets its rank behind it.
pub fn designed_text(name: &str, before: usize) -> (r: String)
    requires
        before < usize::MAX,
    ensures
        r@ == designed_name(name@, before as nat),
{
    if before == 0 {
        String::from_str(name)
    } else {
        let rank = decimal_text((before + 1) as u64);
        cat2(name, rank.as_str())
    }
}

/// The companion type that a method hands back: for a constructor its entity.
pub fn result_companion_text(api: &CppApi) -> (r: String)
    ensures
        r@ == result_companion(api@),
{
    if api.is_construstor {
        api.class_name.clone()
    } else {
        api.r_type.clone()
    }
}

/// The result is a handle that the companion side wraps in its entity type.
pub fn handle_wrapped(api: &CppApi, engine: &Engine, settings: &CustomSettings) -> (r: bool)
    ensures
        r == wraps_handle(api@, engine@, settings@),
{
    if api.is_construstor {
        is_opaque(api.class_name.as_str(), engine, settings) && export_type(
            api.class_name.as_str(),
            settings,
        )
    } else {
        handle_ret(api, engine, settings) && !api.ref_ret && export_type(
            api.rc_type.as_str(),
            settings,
        )
    }
}

/// The result is borrowed: the companion method has a lifetime and the wire
/// carries a pointer.
pub fn result_borrowed(api: &CppApi, engine: &Engine, settings: &CustomSettings) -> (r: bool)
    ensures
        r == borrows_result(api@, engine@, settings@),
{
    !api.is_construstor && handle_ret(api, engine, settings) && api.ref_ret
}

/// The result type of the native function.
pub fn native_ret_text(api: &CppApi, engine: &Engine, settings: &CustomSettings) -> (r: String)
    ensures
        r@ == native_ret(api@, engine@, settings@),
{
    if api.is_construstor || handle_ret(api, engine, settings) {
        String::from_str("void*")
    } else if is_void(api.rc_type.as_str()) {
        String::from_str("void")
    } else if api.ptr_ret {
        cat2(api.rc_type.as_str(), "*")
    } else if api.ref_ret {
        get_wrapper_type(api.rc_type.as_str(), settings)
    } else if string_ret(api) {
        String::from_str("const char*")
    } else {
        get_wrapper_type(api.rc_type.as_str(), settings)
    }
}

/// The result of the function-pointer slot, arrow included.
pub fn slot_ret_text(api: &CppApi, engine: &Engine, settings: &CustomSettings) -> (r: String)
    ensures
        r@ == slot_ret(api@, engine@, settings@),
{
    let rc = result_companion_text(api);
    let ts = rs_type_of(rc.as_str(), engine, settings);
    if api.is_construstor || handle_ret(api, engine, settings) {
        cat2(" -> *mut ", ts.alis.as_str())
    } else if is_void(api.rc_type.as_str()) {
        String::from_str("")
    } else if api.ptr_ret {
        cat2(" -> *mut ", ts.alis.as_str())
    } else if api.ref_ret {
        let w = get_wrapper_type(api.rc_type.as_str(), settings);
        cat2(" -> ", w.as_str())
    } else if string_ret(api) {
        String::from_str(" -> *const std::os::raw::c_char")
    } else if is_wrapper_type(api.rc_type.as_str(), settings) {
        let w = get_wrapper_type(api.rc_type.as_str(), settings);
        cat2(" -> ", w.as_str())
    } else {
        cat2(" -> ", ts.name.as_str())
    }
}

/// The result of the companion method, arrow included.
pub fn companion_ret_text(api: &CppApi, engine: &Engine, settings: &CustomSettings) -> (r: String)
    ensures
        r@ == companion_ret(api@, engine@, settings@),
{
    let rc = result_companion_text(api);
    let ts = rs_type_of(rc.as_str(), engine, settings);
    if result_borrowed(api, engine, settings) {
        cat2(" -> &'a ", ts.alis.as_str())
    } else if handle_wrapped(api, engine, settings) {
        cat3(" -> Option<", ts.name.as_str(), ">")
    } else if !api.is_construstor && !handle_ret(api, engine, settings) && !is_void(
        api.rc_type.as_str(),
    ) && !api.ptr_ret && !api.ref_ret && string_ret(api) {
        String::from_str(" -> String")
    } else {
        slot_ret_text(api, engine, settings)
    }
}

/// What stands before, and what behind, the slot call in the companion method.
pub fn call_wrap_text(api: &CppApi, engine: &Engine, settings: &CustomSettings) -> (r: (
    String,
    String,
))
    ensures
        (r.0@, r.1@) == call_wrap(api@, engine@, settings@),
{
    if result_borrowed(api, engine, settings) {
        (String::from_str("&*"), String::from_str(""))
    } else if !api.is_construstor && string_ret(api) {
        (String::from_str("char_str_2_string("), String::from_str(")"))
    } else if handle_wrapped(api, engine, settings) {
        let rc = result_companion_text(api);
        (cat2(rc.as_str(), "::from_ptr("), String::from_str(")"))
    } else {
        (String::from_str(""), String::from_str(""))
    }
}

/// The mark behind the type in the native declaration of a parameter.
pub fn pointer_mark_text(p: &Parameter, engine: &Engine, settings: &CustomSettings) -> (r:
    &'static str)
    ensures
        r@ == pointer_mark(p@, engine@, settings@),
{
    if p.ptr_param {
        "*"
    } else if p.ref_param {
        if is_opaque(p.type_str.as_str(), engine, settings) {
            "*"
        } else if p.const_param {
            ""
        } else {
            "&"
        }
    } else {
        ""
    }
}

/// The mark before the type in the slot's parameter list.
pub fn ffi_mark_text(p: &Parameter, engine: &Engine, settings: &CustomSettings) -> (r: &'static str)
    ensures
        r@ == ffi_mark(p@, engine@, settings@),
{
    if p.ptr_param {
        "*mut "
    } else if p.ref_param {
        if is_opaque(p.type_str.as_str(), engine, settings) {
            "*mut "
        } else if p.const_param {
            ""
        } else {
            "&mut "
        }
    } else {
        ""
    }
}

/// The mark before the type in the companion method's parameter list.
pub fn rs_mark_text(p: &Parameter, engine: &Engine, settings: &CustomSettings) -> (r: &'static str)
    ensures
        r@ == rs_mark(p@, engine@, settings@),
{
    if is_void(p.type_str.as_str()) && p.ptr_param {
        "*mut "
    } else if p.ptr_param {
        if export_type(p.type_str.as_str(), settings) {
            if p.const_param {
                "&"
            } else {
                "&mut "
            }
        } else {
            "*mut "
        }
    } else if p.ref_param {
        if is_opaque(p.type_str.as_str(), engine, settings) {
            "&mut "
        } else if p.const_param {
            ""
        } else {
            "&mut "
        }
    } else {
        ""
    }
}

/// The type of a parameter in the companion method.
pub fn rs_param_type_text(p: &Parameter, engine: &Engine, settings: &CustomSettings) -> (r: String)
    ensures
        r@ == rs_param_type(p@, engine@, settings@),
{
    let ts = rs_type_of(p.r_type.as_str(), engine, settings);
    if is_void(p.type_str.as_str()) && p.ptr_param {
        String::from_str("c_void")
    } else if export_type(p.type_str.as_str(), settings) {
        ts.name
    } else {
        ts.alis
    }
}

/// A string parameter that the native side may rewrite.
pub fn mutable_string(p: &Parameter) -> (r: bool)
    ensures
        r == is_mutable_string(p@),
{
    !p.const_param && p.ref_param
}

/// A parameter in the native function's declaration.
pub fn native_decl_text(p: &Parameter, engine: &Engine, settings: &CustomSettings) -> (r: String)
    ensures
        r@ == native_decl(p@, engine@, settings@),
{
    if is_string_type(p.type_str.as_str()) {
        if mutable_string(p) {
            cat2("RefString ", p.name.as_str())
        } else {
            cat2("NativeString ", p.name.as_str())
        }
    } else {
        let w = get_wrapper_type(p.type_str.as_str(), settings);
        cat4(w.as_str(), pointer_mark_text(p, engine, settings), " ", p.name.as_str())
    }
}

/// A parameter in the slot's type.
pub fn ffi_param_text(p: &Parameter, engine: &Engine, settings: &CustomSettings) -> (r: String)
    ensures
        r@ == ffi_param(p@, engine@, settings@),
{
    if is_string_type(p.type_str.as_str()) {
        if mutable_string(p) {
            String::from_str("RefString")
        } else {
            String::from_str("NativeString")
        }
    } else {
        let ts = rs_type_of(p.r_type.as_str(), engine, settings);
        cat2(ffi_mark_text(p, engine, settings), ts.alis.as_str())
    }
}

/// The argument that the companion method hands to the slot.
pub fn call_arg_text(p: &Parameter, engine: &Engine, settings: &CustomSettings) -> (r: String)
    ensures
        r@ == call_arg(p@, engine@, settings@),
{
    let t = p.type_str.as_str();
    if is_string_type(t) || is_primary(t) || is_wrapper_type(t, settings) || (!p.ptr_param
        && p.ref_param && p.const_param && !is_opaque(t, engine, settings)) {
        p.name.clone()
    } else if export_type(t, settings) && (p.ptr_param || p.ref_param) {
        if is_opaque(t, engine, settings) {
            cat2(p.name.as_str(), ".inner()")
        } else {
            cat2(p.name.as_str(), " as *mut _")
        }
    } else {
        p.name.clone()
    }
}

/// A parameter of the companion method.
pub fn fn_param_text(p: &Parameter, engine: &Engine, settings: &CustomSettings) -> (r: String)
    ensures
        r@ == fn_param(p@, engine@, settings@),
{
    if is_string_type(p.type_str.as_str()) {
        if mutable_string(p) {
            cat2(p.name.as_str(), ": &mut String")
        } else {
            cat2(p.name.as_str(), ": &str")
        }
    } else {
        let ty = rs_param_type_text(p, engine, settings);
        cat4(p.name.as_str(), ": ", rs_mark_text(p, engine, settings), ty.as_str())
    }
}

/// The statement that turns a companion string into its wire value.
pub fn translation_text(p: &Parameter) -> (r: String)
    ensures
        r@ == translation(p@),
{
    if mutable_string(p) {
        cat5("string_2_rstr!(", p.name.as_str(), ", ", p.name.as_str(), ");")
    } else {
        cat5("string_2_cstr!(", p.name.as_str(), ", ", p.name.as_str(), ");")
    }
}

/// The native local that holds the string of the parameter at `idx`.
pub fn local_name_text(idx: usize) -> (r: String)
    ensures
        r@ == local_name(idx as nat),
{
    let n = decimal_text(idx as u64);
    cat2("fstr", n.as_str())
}

/// The native statement that makes the local of a string parameter.
pub fn local_var_text(p: &Parameter, idx: usize) -> (r: String)
    ensures
        r@ == local_var(p@, idx as nat),
{
    let fstring = same(p.type_str.as_str(), "FString");
    let conv = if mutable_string(p) {
        if fstring {
            "Utf8Ref2FString("
        } else {
            "Utf8Ref2FText("
        }
    } else {
        if fstring {
            "Utf82FString("
        } else {
            "Utf82FText("
        }
    };
    let local = local_name_text(idx);
    let mut out = cat5("auto ", local.as_str(), " = ", conv, p.name.as_str());
    out.append(");");
    out
}

/// The native statement that writes a rewritten string back.
pub fn modifier_text(p: &Parameter, idx: usize) -> (r: String)
    ensures
        r@ == modifier(p@, idx as nat),
{
    let reset = if same(p.type_str.as_str(), "FString") {
        "ResetFStringBuffer("
    } else {
        "ResetFTextBuffer("
    };
    let local = local_name_text(idx);
    cat5(reset, local.as_str(), ", ", p.name.as_str(), ");")
}

/// The argument that the native function hands to the method.
pub fn native_arg_text(p: &Parameter, idx: usize, engine: &Engine, settings: &CustomSettings) -> (r:
    String)
    ensures
        r@ == native_arg(p@, idx as nat, engine@, settings@),
{
    let t = p.type_str.as_str();
    if is_string_type(t) {
        let local = local_name_text(idx);
        if p.ptr_param {
            cat2("&", local.as_str())
        } else {
            local
        }
    } else if is_wrapper_type(t, settings) {
        if p.ptr_param {
            cat5("To", t, "(*", p.name.as_str(), ")")
        } else {
            cat5("To", t, "(", p.name.as_str(), ")")
        }
    } else if p.ref_param && is_opaque(t, engine, settings) {
        cat2("*", p.name.as_str())
    } else {
        p.name.clone()
    }
}

/// A method called on an instance: it takes the instance's handle first.
pub fn target_first(api: &CppApi) -> (r: bool)
    ensures
        r == takes_target(api@),
{
    !api.is_construstor && !api.is_static
}

pub fn native_decl_list(api: &CppApi, engine: &Engine, settings: &CustomSettings) -> (r: Vec<String>)
    ensures
        views(r@) == native_decls(api@, engine@, settings@),
{
    let mut out: Vec<String> = Vec::new();
    if target_first(api) {
        push_text(&mut out, String::from_str("void* target"));
    }
    let ghost base = views(out@);
    assert(base =~= with_target(api@, "void* target"@, Seq::empty()));
    let mut i: usize = 0;
    while i < api.parameters.len()
        invariant
            i <= api.parameters.len(),
            views(out@) == base + Seq::new(
                i as nat,
                |k: int| native_decl(api@.parameters[k], engine@, settings@),
            ),
        decreases api.parameters.len() - i,
    {
        let item = native_decl_text(&api.parameters[i], engine, settings);
        push_text(&mut out, item);
        assert(views(out@) =~= base + Seq::new(
            (i + 1) as nat,
            |k: int| native_decl(api@.parameters[k], engine@, settings@),
        ));
        i += 1;
    }
    assert(views(out@) =~= native_decls(api@, engine@, settings@));
    out
}

pub fn ffi_param_list(api: &CppApi, engine: &Engine, settings: &CustomSettings) -> (r: Vec<String>)
    ensures
        views(r@) == ffi_params(api@, engine@, settings@),
{
    let mut out: Vec<String> = Vec::new();
    if target_first(api) {
        push_text(&mut out, String::from_str("*mut c_void"));
    }
    let ghost base = views(out@);
    assert(base =~= with_target(api@, "*mut c_void"@, Seq::empty()));
    let mut i: usize = 0;
    while i < api.parameters.len()
        invariant
            i <= api.parameters.len(),
            views(out@) == base + Seq::new(
                i as nat,
                |k: int| ffi_param(api@.parameters[k], engine@, settings@),
            ),
        decreases api.parameters.len() - i,
    {
        let item = ffi_param_text(&api.parameters[i], engine, settings);
        push_text(&mut out, item);
        assert(views(out@) =~= base + Seq::new(
            (i + 1) as nat,
            |k: int| ffi_param(api@.parameters[k], engine@, settings@),
        ));
        i += 1;
    }
    assert(views(out@) =~= ffi_params(api@, engine@, settings@));
    out
}

/// How the companion method hands itself to the slot.
pub fn self_arg_text(api: &CppApi, class_opaque: bool) -> (r: &'static str)
    ensures
        r@ == self_arg(api@, class_opaque),
{
    if class_opaque {
        "self.inner"
    } else if api.is_const {
        "self as *const Self as *mut c_void"
    } else {
        "self as *mut Self as *mut c_void"
    }
}

pub fn call_arg_list(api: &CppApi, class_opaque: bool, engine: &Engine, settings: &CustomSettings) -> (r:
    Vec<String>)
    ensures
        views(r@) == call_args(api@, class_opaque, engine@, settings@),
{
    let mut out: Vec<String> = Vec::new();
    if target_first(api) {
        push_text(&mut out, String::from_str(self_arg_text(api, class_opaque)));
    }
    let ghost base = views(out@);
    assert(base =~= with_target(api@, self_arg(api@, class_opaque), Seq::empty()));
    let mut i: usize = 0;
    while i < api.parameters.len()
        invariant
            i <= api.parameters.len(),
            views(out@) == base + Seq::new(
                i as nat,
                |k: int| call_arg(api@.parameters[k], engine@, settings@),
            ),
        decreases api.parameters.len() - i,
    {
        let item = call_arg_text(&api.parameters[i], engine, settings);
        push_text(&mut out, item);
        assert(views(out@) =~= base + Seq::new(
            (i + 1) as nat,
            |k: int| call_arg(api@.parameters[k], engine@, settings@),
        ));
        i += 1;
    }
    assert(views(out@) =~= call_args(api@, class_opaque, engine@, settings@));
    out
}

pub fn self_param_text(api: &CppApi) -> (r: &'static str)
    ensures
        r@ == self_param(api@),
{
    if api.is_const {
        "&self"
    } else {
        "&mut self"
    }
}

pub fn fn_param_list(api: &CppApi, engine: &Engine, settings: &CustomSettings) -> (r: Vec<String>)
    ensures
        views(r@) == fn_params(api@, engine@, settings@),
{
    let mut out: Vec<String> = Vec::new();
    if target_first(api) {
        push_text(&mut out, String::from_str(self_param_text(api)));
    }
    let ghost base = views(out@);
    assert(base =~= with_target(api@, self_param(api@), Seq::empty()));
    let mut i: usize = 0;
    while i < api.parameters.len()
        invariant
            i <= api.parameters.len(),
            views(out@) == base + Seq::new(
                i as nat,
                |k: int| fn_param(api@.parameters[k], engine@, settings@),
            ),
        decreases api.parameters.len() - i,
    {
        let item = fn_param_text(&api.parameters[i], engine, settings);
        push_text(&mut out, item);
        assert(views(out@) =~= base + Seq::new(
            (i + 1) as nat,
            |k: int| fn_param(api@.parameters[k], engine@, settings@),
        ));
        i += 1;
    }
    assert(views(out@) =~= fn_params(api@, engine@, settings@));
    out
}

pub fn native_arg_list(api: &CppApi, engine: &Engine, settings: &CustomSettings) -> (r: Vec<String>)
    ensures
        views(r@) == native_args(api@, engine@, settings@),
{
    let mut out: Vec<String> = Vec::new();
    assert(views(out@) =~= Seq::empty());
    let mut i: usize = 0;
    while i < api.parameters.len()
        invariant
            i <= api.parameters.len(),
            views(out@) == Seq::new(
                i as nat,
                |k: int| native_arg(api@.parameters[k], k as nat, engine@, settings@),
            ),
        decreases api.parameters.len() - i,
    {
        let item = native_arg_text(&api.parameters[i], i, engine, settings);
        push_text(&mut out, item);
        assert(views(out@) =~= Seq::new(
            (i + 1) as nat,
            |k: int| native_arg(api@.parameters[k], k as nat, engine@, settings@),
        ));
        i += 1;
    }
    assert(views(out@) =~= native_args(api@, engine@, settings@));
    out
}

/// The wire conversions of the string parameters, in order.
pub fn translation_list(params: &Vec<Parameter>) -> (r: Vec<String>)
    ensures
        views(r@) == translations(views(params@)),
{
    let mut out: Vec<String> = Vec::new();
    assert(views(out@) =~= Seq::empty());
    let mut i: usize = 0;
    while i < params.len()
        invariant
            i <= params.len(),
            views(out@) == translations(views(params@).take(i as int)),
        decreases params.len() - i,
    {
        assert(views(params@).take(i + 1).drop_last() =~= views(params@).take(i as int));
        if is_string_type(params[i].type_str.as_str()) {
            push_text(&mut out, translation_text(&params[i]));
        }
        i += 1;
    }
    assert(views(params@).take(params.len() as int) =~= views(params@));
    out
}

/// The native locals of the string parameters, in order.
pub fn local_list(params: &Vec<Parameter>) -> (r: Vec<String>)
    ensures
        views(r@) == locals(views(params@)),
{
    let mut out: Vec<String> = Vec::new();
    assert(views(out@) =~= Seq::empty());
    let mut i: usize = 0;
    while i < params.len()
        invariant
            i <= params.len(),
            views(out@) == locals(views(params@).take(i as int)),
        decreases params.len() - i,
    {
        assert(views(params@).take(i + 1).drop_last() =~= views(params@).take(i as int));
        if is_string_type(params[i].type_str.as_str()) {
            push_text(&mut out, local_var_text(&params[i], i));
        }
        i += 1;
    }
    assert(views(params@).take(params.len() as int) =~= views(params@));
    out
}

/// The write-backs of the rewritable string parameters, in order.
pub fn modifier_list(params: &Vec<Parameter>) -> (r: Vec<String>)
    ensures
        views(r@) == modifiers(views(params@)),
{
    let mut out: Vec<String> = Vec::new();
    assert(views(out@) =~= Seq::empty());
    let mut i: usize = 0;
    while i < params.len()
        invariant
            i <= params.len(),
            views(out@) == modifiers(views(params@).take(i as int)),
        decreases params.len() - i,
    {
        assert(views(params@).take(i + 1).drop_last() =~= views(params@).take(i as int));
        if is_string_type(params[i].type_str.as_str()) && mutable_string(&params[i]) {
            push_text(&mut out, modifier_text(&params[i], i));
        }
        i += 1;
    }
    assert(views(params@).take(params.len() as int) =~= views(params@));
    out
}

/// Appends each line behind two tabs.
pub fn push_indented(list: &mut Vec<String>, lines: &Vec<String>)
    ensures
        views(final(list)@) == views(old(list)@) + indented(views(lines@)),
{
    let mut i: usize = 0;
    while i < lines.len()
        invariant
            i <= lines.len(),
            views(list@) == views(old(list)@) + indented(views(lines@)).take(i as int),
        decreases lines.len() - i,
    {
        let item = cat2("\t\t", lines[i].as_str());
        proof {
            assert(indented(views(lines@)).take(i + 1) =~= indented(views(lines@)).take(
                i as int,
            ).push(item@));
            assert((views(old(list)@) + indented(views(lines@)).take(i as int)).push(item@)
                =~= views(old(list)@) + indented(views(lines@)).take(i + 1));
        }
        push_text(list, item);
        i += 1;
    }
    assert(indented(views(lines@)).take(lines.len() as int) =~= indented(views(lines@)));
}

/// The name of the native function of a method.
pub fn native_name_text(class: &str, api: &CppApi, designed: &str) -> (r: String)
    ensures
        r@ == native_name(class@, api@, designed@),
{
    if api.is_construstor {
        let n = decimal_text(api.parameters.len() as u64);
        cat4("uapi_", class, "_New", n.as_str())
    } else {
        cat4("uapi_", class, "_", designed)
    }
}

/// The name of the slot's function type.
pub fn callback_name_text(class: &str, designed: &str) -> (r: String)
    ensures
        r@ == callback_name(class@, designed@),
{
    cat4(class, "_", designed, "Invoker")
}

/// The name of the slot.
pub fn handler_name_text(class: &str, designed: &str) -> (r: String)
    ensures
        r@ == handler_name(class@, designed@),
{
    let cb = callback_name_text(class, designed);
    cat2(cb.as_str(), "Handler")
}

/// The name of the function that the host calls to fill the slot.
pub fn setter_name_text(class: &str, designed: &str) -> (r: String)
    ensures
        r@ == setter_name(class@, designed@),
{
    cat5("set_", class, "_", designed, "_handler")
}

/// The cast in front of the native call.
pub fn result_caster_text(api: &CppApi, engine: &Engine, settings: &CustomSettings) -> (r: String)
    ensures
        r@ == result_caster(api@, engine@, settings@),
{
    if result_borrowed(api, engine, settings) {
        let ret = native_ret_text(api, engine, settings);
        cat3("(", ret.as_str(), ")&")
    } else if api.ptr_ret {
        let ret = native_ret_text(api, engine, settings);
        cat3("(", ret.as_str(), ")")
    } else {
        String::from_str("")
    }
}

/// The conversion that the native result goes through, up to its opening
/// bracket.
pub fn result_open_text(api: &CppApi, settings: &CustomSettings) -> (r: String)
    ensures
        r@ == result_open(api@, settings@),
{
    if !string_ret(api) && is_wrapper_type(api.rc_type.as_str(), settings) {
        let w = get_wrapper_type(api.rc_type.as_str(), settings);
        cat3("To", w.as_str(), "(")
    } else if string_ret(api) {
        if same(api.rc_type.as_str(), "FString") {
            String::from_str("FString2Utf8(")
        } else {
            String::from_str("FText2Utf8(")
        }
    } else {
        String::from_str("")
    }
}

pub fn result_close_text(api: &CppApi, settings: &CustomSettings) -> (r: &'static str)
    ensures
        r@ == result_close(api@, settings@),
{
    if is_wrapper_type(api.rc_type.as_str(), settings) || string_ret(api) {
        ")"
    } else {
        ""
    }
}

pub fn nothing_returned(api: &CppApi, engine: &Engine, settings: &CustomSettings) -> (r: bool)
    ensures
        r == returns_nothing(api@, engine@, settings@),
{
    let ret = native_ret_text(api, engine, settings);
    same(ret.as_str(), "void")
}

/// The first line of the native function.
pub fn native_head_text(
    class: &str,
    api: &CppApi,
    designed: &str,
    engine: &Engine,
    settings: &CustomSettings,
) -> (r: String)
    ensures
        r@ == native_head(class@, api@, designed@, engine@, settings@),
{
    let ret = native_ret_text(api, engine, settings);
    let name = native_name_text(class, api, designed);
    let decls = native_decl_list(api, engine, settings);
    let list = join(&decls, ", ");
    let mut out = cat5("\t", ret.as_str(), " ", name.as_str(), "(");
    out.append(list.as_str());
    out.append("){");
    out
}

/// The line of the native function that calls the method.
pub fn call_line_text(class: &str, api: &CppApi, engine: &Engine, settings: &CustomSettings) -> (r:
    String)
    ensures
        r@ == call_line(class@, api@, engine@, settings@),
{
    let local = if nothing_returned(api, engine, settings) {
        ""
    } else {
        "auto result = "
    };
    let open = result_open_text(api, settings);
    let caster = result_caster_text(api, engine, settings);
    let mut out = cat4("\t\t", local, open.as_str(), caster.as_str());
    let list = native_arg_list(api, engine, settings);
    let args = join(&list, ", ");
    let close = result_close_text(api, settings);
    if api.is_static {
        out.append("(");
        out.append(class);
        out.append("::");
        out.append(api.name.as_str());
        out.append("(");
        out.append(args.as_str());
        out.append("))");
        out.append(close);
        out.append(";");
    } else if is_wrapper_type(api.class_name.as_str(), settings) {
        let w = get_wrapper_type(class, settings);
        out.append("(To");
        out.append(class);
        out.append("(*(");
        out.append(w.as_str());
        out.append("*)target)).");
        out.append(api.name.as_str());
        out.append("(");
        out.append(args.as_str());
        out.append(")");
        out.append(close);
        out.append(";");
    } else {
        out.append("((");
        out.append(class);
        out.append("*)target)->");
        out.append(api.name.as_str());
        out.append("(");
        out.append(args.as_str());
        out.append(")");
        out.append(close);
        out.append(";");
    }
    out
}

/// The line of a native factory that makes the instance.
pub fn new_line_text(class: &str, api: &CppApi, engine: &Engine, settings: &CustomSettings) -> (r:
    String)
    ensures
        r@ == new_line(class@, api@, engine@, settings@),
{
    let list = native_arg_list(api, engine, settings);
    let args = join(&list, ", ");
    cat5("\t\tauto _this = new ", class, "(", args.as_str(), ");")
}

/// The native function of a method.
pub fn render_native(
    class: &str,
    api: &CppApi,
    designed: &str,
    engine: &Engine,
    settings: &CustomSettings,
) -> (r: String)
    ensures
        r@ == native_text(class@, api@, designed@, engine@, settings@),
{
    let mut lines: Vec<String> = Vec::new();
    assert(views(lines@) =~= Seq::empty());
    push_text(&mut lines, native_head_text(class, api, designed, engine, settings));
    let loc = local_list(&api.parameters);
    push_indented(&mut lines, &loc);
    let mods = modifier_list(&api.parameters);
    assert(views(lines@) =~= seq![native_head(class@, api@, designed@, engine@, settings@)]
        + indented(locals(api@.parameters)));
    if api.is_construstor {
        push_text(&mut lines, new_line_text(class, api, engine, settings));
        push_indented(&mut lines, &mods);
        push_text(&mut lines, String::from_str("\t\treturn _this;\r\n\t}"));
        assert(views(lines@) =~= native_lines(class@, api@, designed@, engine@, settings@));
        join(&lines, "\r\n")
    } else {
        push_text(&mut lines, call_line_text(class, api, engine, settings));
        push_indented(&mut lines, &mods);
        if !nothing_returned(api, engine, settings) {
            push_text(&mut lines, String::from_str("\t\treturn result;"));
        }
        push_text(&mut lines, String::from_str("\t}"));
        assert(views(lines@) =~= native_lines(class@, api@, designed@, engine@, settings@));
        join(&lines, "\t\n")
    }
}

/// The slot of a method with its type and the function that fills it.
pub fn render_slot(
    class: &str,
    api: &CppApi,
    designed: &str,
    engine: &Engine,
    settings: &CustomSettings,
) -> (r: String)
    ensures
        r@ == slot_text(class@, api@, designed@, engine@, settings@),
{
    let cb = callback_name_text(class, designed);
    let handler = handler_name_text(class, designed);
    let setter = setter_name_text(class, designed);
    let list = ffi_param_list(api, engine, settings);
    let params = join(&list, ", ");
    let ret = slot_ret_text(api, engine, settings);
    let mut out = String::from_str("\n    type ");
    out.append(cb.as_str());
    out.append(" = unsafe extern \"C\" fn(");
    out.append(params.as_str());
    out.append(")");
    out.append(ret.as_str());
    out.append(";\n    pub(super) static mut ");
    out.append(handler.as_str());
    out.append(": Option<");
    out.append(cb.as_str());
    out.append("> = None;\n    #[no_mangle]\n    extern \"C\" fn ");
    out.append(setter.as_str());
    out.append("(handler: ");
    out.append(cb.as_str());
    out.append("){\n        unsafe{ ");
    out.append(handler.as_str());
    out.append(" = Some(handler) };\n    }");
    out
}

/// The native type of the function that fills the slot.
pub fn render_define(
    class: &str,
    api: &CppApi,
    designed: &str,
    engine: &Engine,
    settings: &CustomSettings,
) -> (r: String)
    ensures
        r@ == define_text(class@, api@, designed@, engine@, settings@),
{
    let name = native_name_text(class, api, designed);
    let ret = native_ret_text(api, engine, settings);
    let decls = native_decl_list(api, engine, settings);
    let list = join(&decls, ",");
    let mut out = cat5("\nusing ", name.as_str(), "Fn = void(*)(", ret.as_str(), "(*)(");
    out.append(list.as_str());
    out.append("));");
    out
}

/// The native statements that look the setter up and hand it the function.
pub fn render_register(class: &str, api: &CppApi, designed: &str) -> (r: String)
    ensures
        r@ == register_text(class@, api@, designed@),
{
    let nn = native_name_text(class, api, designed);
    let setter = setter_name_text(class, designed);
    let mut out = String::from_str("\n    auto const api");
    out.append(nn.as_str());
    out.append(" = (");
    out.append(nn.as_str());
    out.append("Fn)plugin->GetDllExport(TEXT(\"");
    out.append(setter.as_str());
    out.append("\\0\"));\n    if(api");
    out.append(nn.as_str());
    out.append("){\n        api");
    out.append(nn.as_str());
    out.append("(&");
    out.append(nn.as_str());
    out.append(");\n    }");
    out
}

/// The first line of the companion method.
pub fn companion_head_text(api: &CppApi, designed: &str, engine: &Engine, settings: &CustomSettings) -> (r:
    String)
    ensures
        r@ == companion_head(api@, designed@, engine@, settings@),
{
    let tag = if result_borrowed(api, engine, settings) {
        "<'a>"
    } else {
        ""
    };
    let list = fn_param_list(api, engine, settings);
    let params = join(&list, ", ");
    let ret = companion_ret_text(api, engine, settings);
    let mut out = cat5("\tpub fn ", designed, tag, "(", params.as_str());
    out.append(")");
    out.append(ret.as_str());
    out.append("{");
    out
}

/// The line of the companion method that calls through the slot.
pub fn companion_call_text(
    class: &str,
    api: &CppApi,
    designed: &str,
    class_opaque: bool,
    engine: &Engine,
    settings: &CustomSettings,
) -> (r: String)
    ensures
        r@ == companion_call(class@, api@, designed@, class_opaque, engine@, settings@),
{
    let wrap = call_wrap_text(api, engine, settings);
    let handler = handler_name_text(class, designed);
    let list = call_arg_list(api, class_opaque, engine, settings);
    let args = join(&list, ", ");
    let mut out = cat5(
        "\t\tunsafe{ ",
        wrap.0.as_str(),
        handler.as_str(),
        ".as_ref().unwrap()(",
        args.as_str(),
    );
    out.append(")");
    out.append(wrap.1.as_str());
    out.append(" }");
    out
}

/// The companion method.
pub fn render_companion(
    class: &str,
    api: &CppApi,
    designed: &str,
    class_opaque: bool,
    engine: &Engine,
    settings: &CustomSettings,
) -> (r: String)
    ensures
        r@ == companion_text(class@, api@, designed@, class_opaque, engine@, settings@),
{
    let mut lines: Vec<String> = Vec::new();
    assert(views(lines@) =~= Seq::empty());
    push_text(&mut lines, String::from_str("\t#[inline]"));
    push_text(&mut lines, companion_head_text(api, designed, engine, settings));
    let trans = translation_list(&api.parameters);
    push_indented(&mut lines, &trans);
    push_text(
        &mut lines,
        companion_call_text(class, api, designed, class_opaque, engine, settings),
    );
    push_text(&mut lines, String::from_str("\t}"));
    assert(views(lines@) =~= seq![
        "\t#[inline]"@,
        companion_head(api@, designed@, engine@, settings@),
    ] + indented(translations(api@.parameters)) + seq![
        companion_call(class@, api@, designed@, class_opaque, engine@, settings@),
        "\t}"@,
    ]);
    join(&lines, "\r\n")
}

/// Looks up the types of a method, which gives each one that crosses behind
/// a handle its alias.
pub fn register_method_types(
    generator: &mut CodeGenerator,
    api: &CppApi,
    engine: &Engine,
    settings: &CustomSettings,
)
    ensures
        final(generator)@ == (CodeGeneratorView {
            type_impl: method_registry(old(generator)@.type_impl, api@, engine@, settings@),
            ..old(generator)@
        }),
{
    let rc = result_companion_text(api);
    let _ = generator.insert_rs_type(rc.as_str(), engine, settings);
    let ghost first = generator@.type_impl;
    let mut i: usize = 0;
    while i < api.parameters.len()
        invariant
            i <= api.parameters.len(),
            generator@ == (CodeGeneratorView {
                type_impl: params_registry(
                    first,
                    api@.parameters.take(i as int),
                    engine@,
                    settings@,
                ),
                ..old(generator)@
            }),
        decreases api.parameters.len() - i,
    {
        assert(api@.parameters.take(i + 1).drop_last() =~= api@.parameters.take(i as int));
        if !is_string_type(api.parameters[i].type_str.as_str()) {
            let _ = generator.insert_rs_type(api.parameters[i].r_type.as_str(), engine, settings);
        }
        i += 1;
    }
    assert(api@.parameters.take(api.parameters.len() as int) =~= api@.parameters);
}

/// Emits one method under the identifier `designed`.
pub fn emit_method(
    generator: &mut CodeGenerator,
    class: &str,
    api: &CppApi,
    designed: &str,
    class_opaque: bool,
    engine: &Engine,
    settings: &CustomSettings,
)
    ensures
        final(generator)@ == after_method(
            old(generator)@,
            class@,
            api@,
            designed@,
            class_opaque,
            engine@,
            settings@,
        ),
{
    register_method_types(generator, api, engine, settings);
    push_text(&mut generator.source, render_native(class, api, designed, engine, settings));
    push_text(&mut generator.rs_ffis, render_slot(class, api, designed, engine, settings));
    push_text(&mut generator.api_defines, render_define(class, api, designed, engine, settings));
    push_text(&mut generator.registers, render_register(class, api, designed));
    push_text(
        &mut generator.rs_source,
        render_companion(class, api, designed, class_opaque, engine, settings),
    );
}

/// How many of the methods before position `k` are exported under that name.
pub fn count_before(apis: &Vec<CppApi>, flags: &Vec<bool>, k: usize, name: &str) -> (r: usize)
    requires
        k <= apis.len(),
        flags.len() == apis.len(),
    ensures
        r <= k,
        r as nat == counted(views(apis@), flags@, k as int, name@),
{
    let mut n: usize = 0;
    let mut j: usize = 0;
    while j < k
        invariant
            j <= k <= apis.len(),
            flags.len() == apis.len(),
            n <= j,
            n as nat == counted(views(apis@), flags@, j as int, name@),
        decreases k - j,
    {
        if flags[j] && same(apis[j].name.as_str(), name) {
            n += 1;
        }
        j += 1;
    }
    n
}

/// How many of the first `k` methods are flagged and have the name.
pub open spec fn counted(apis: Seq<CppApiView>, flags: Seq<bool>, k: int, name: Seq<char>) -> nat
    decreases k,
{
    if k <= 0 || k > apis.len() || k > flags.len() {
        0
    } else if apis[k - 1].name == name && flags[k - 1] {
        counted(apis, flags, k - 1, name) + 1
    } else {
        counted(apis, flags, k - 1, name)
    }
}

/// Counting by flags that say which methods are exported counts the
/// exported methods.
pub proof fn lemma_counted(
    apis: Seq<CppApiView>,
    flags: Seq<bool>,
    entry: ExportClassView,
    engine: EngineView,
    settings: CustomSettingsView,
    k: int,
    name: Seq<char>,
)
    requires
        flags.len() == apis.len(),
        k <= apis.len(),
        forall|j: int| 0 <= j < apis.len() ==> flags[j] == method_passes(apis[j], entry, engine, settings),
    ensures
        counted(apis, flags, k, name) == emitted_before(apis, entry, engine, settings, k, name),
    decreases k,
{
    if k > 0 {
        lemma_counted(apis, flags, entry, engine, settings, k - 1, name);
    }
}

/// Which of the methods of a class are exported.
pub fn passing_flags(class: &UnrealClass, entry: &ExportClass, engine: &Engine, settings: &CustomSettings) -> (r:
    Vec<bool>)
    ensures
        r.len() == class.public_apis.len(),
        forall|j: int|
            0 <= j < r.len() ==> r[j] == method_passes(
                class@.public_apis[j],
                entry@,
                engine@,
                settings@,
            ),
{
    let mut flags: Vec<bool> = Vec::new();
    let mut i: usize = 0;
    while i < class.public_apis.len()
        invariant
            i <= class.public_apis.len(),
            flags.len() == i,
            forall|j: int|
                0 <= j < i ==> flags[j] == method_passes(
                    class@.public_apis[j],
                    entry@,
                    engine@,
                    settings@,
                ),
        decreases class.public_apis.len() - i,
    {
        flags.push(passes(&class.public_apis[i], entry, engine, settings));
        i += 1;
    }
    flags
}

/// What `methods_from` is at a position inside the list.
pub proof fn lemma_methods_step(
    gen: CodeGeneratorView,
    class: UnrealClassView,
    entry: ExportClassView,
    class_opaque: bool,
    engine: EngineView,
    settings: CustomSettingsView,
    k: int,
)
    requires
        0 <= k < class.public_apis.len(),
    ensures
        !method_passes(class.public_apis[k], entry, engine, settings) ==> methods_from(
            gen,
            class,
            entry,
            class_opaque,
            engine,
            settings,
            k,
        ) == methods_from(gen, class, entry, class_opaque, engine, settings, k + 1),
        method_passes(class.public_apis[k], entry, engine, settings) && method_fails(
            class.public_apis[k],
            engine,
            settings,
        ) ==> methods_from(gen, class, entry, class_opaque, engine, settings, k) is None,
        method_passes(class.public_apis[k], entry, engine, settings) && !method_fails(
            class.public_apis[k],
            engine,
            settings,
        ) ==> methods_from(gen, class, entry, class_opaque, engine, settings, k) == methods_from(
            after_method(
                gen,
                class.name,
                class.public_apis[k],
                designed_name(
                    class.public_apis[k].name,
                    emitted_before(
                        class.public_apis,
                        entry,
                        engine,
                        settings,
                        k,
                        class.public_apis[k].name,
                    ),
                ),
                class_opaque,
                engine,
                settings,
            ),
            class,
            entry,
            class_opaque,
            engine,
            settings,
            k + 1,
        ),
{
    reveal(methods_from);
}

/// Why a run of the emitter ended without its artifacts.
#[derive(Debug, Clone, Copy, PartialEq, Eq, Structural)]
pub enum EmitError {
    /// A method hands out a transparent value by reference and no wrapper
    /// is declared for it.
    ReferenceResult,
    /// The settings do not export the class.
    NotExported,
}

/// Emits the exported methods of a class, in order. Overloads are told
/// apart by a rank behind the name, counted over the exported methods of the
/// class.
pub fn parse_functions(
    engine: &Engine,
    class: &UnrealClass,
    generator: &mut CodeGenerator,
    opaque: bool,
    settings: &CustomSettings,
) -> (r: Result<(), EmitError>)
    ensures
        match r {
            Ok(()) => {
                let e = export_from(settings@, class@.name, 0);
                &&& e >= 0
                &&& methods_from(
                    old(generator)@,
                    class@,
                    settings@.ExportClasses[e],
                    opaque,
                    engine@,
                    settings@,
                    0,
                ) == Some(final(generator)@)
            },
            Err(EmitError::NotExported) => export_from(settings@, class@.name, 0) == -1,
            Err(EmitError::ReferenceResult) => {
                let e = export_from(settings@, class@.name, 0);
                &&& e >= 0
                &&& methods_from(
                    old(generator)@,
                    class@,
                    settings@.ExportClasses[e],
                    opaque,
                    engine@,
                    settings@,
                    0,
                ) is None
            },
        },
{
    let e = match find_export(settings, class.name.as_str()) {
        Some(e) => e,
        None => {
            return Err(EmitError::NotExported);
        },
    };
    proof {
        lemma_export_from(settings@, class@.name, 0);
    }
    let entry = &settings.ExportClasses[e];
    let flags = passing_flags(class, entry, engine, settings);
    let ghost start = generator@;
    let mut i: usize = 0;
    while i < class.public_apis.len()
        invariant
            i <= class.public_apis.len(),
            flags.len() == class.public_apis.len(),
            start == old(generator)@,
            e as int == export_from(settings@, class@.name, 0),
            0 <= e < settings@.ExportClasses.len(),
            entry@ == settings@.ExportClasses[e as int],
            forall|j: int|
                0 <= j < flags.len() ==> flags[j] == method_passes(
                    class@.public_apis[j],
                    entry@,
                    engine@,
                    settings@,
                ),
            methods_from(start, class@, entry@, opaque, engine@, settings@, 0) == methods_from(
                generator@,
                class@,
                entry@,
                opaque,
                engine@,
                settings@,
                i as int,
            ),
        decreases class.public_apis.len() - i,
    {
        let api = &class.public_apis[i];
        proof {
            lemma_methods_step(generator@, class@, entry@, opaque, engine@, settings@, i as int);
        }
        if flags[i] {
            if fails(api, engine, settings) {
                return Err(EmitError::ReferenceResult);
            }
            let before = count_before(&class.public_apis, &flags, i, api.name.as_str());
            proof {
                lemma_counted(
                    class@.public_apis,
                    flags@,
                    entry@,
                    engine@,
                    settings@,
                    i as int,
                    api@.name,
                );
            }
            let designed = designed_text(api.name.as_str(), before);
            emit_method(
                generator,
                class.name.as_str(),
                api,
                designed.as_str(),
                opaque,
                engine,
                settings,
            );
        }
        i += 1;
    }
    proof {
        reveal(methods_from);
    }
    Ok(())
}

} // verus!
