//! The artifacts of an exported entity: its companion type, the accessors of
//! its fields and its methods.

use crate::classify::black_field;
use crate::classify::export_from;
use crate::classify::field_denied;
use crate::classify::find_export;
use crate::classify::get_wrapper_type;
use crate::classify::is_opaque;
use crate::classify::is_wrapper_name;
use crate::classify::is_wrapper_type;
use crate::classify::lemma_export_from;
use crate::classify::opaque;
use crate::classify::property_exportable;
use crate::classify::should_export_property;
use crate::classify::wrapper_name;
use crate::emit_method::allowed;
use crate::emit_method::member_allowed;
use crate::emit_method::methods_from;
use crate::emit_method::parse_functions;
use crate::emit_method::EmitError;
use crate::model::CppProperty;
use crate::model::CppPropertyView;
use crate::model::CustomSettings;
use crate::model::CustomSettingsView;
use crate::model::Engine;
use crate::model::EngineView;
use crate::model::ExportClass;
use crate::model::ExportClassView;
use crate::model::UnrealClass;
use crate::model::UnrealClassView;
use crate::primitives::is_string_name;
use crate::primitives::is_string_type;
use crate::registry::registry_after;
use crate::registry::type_impl_of;
use crate::registry::CodeGenerator;
use crate::registry::CodeGeneratorView;
use crate::registry::TypeImpl;
use crate::registry::TypeImplView;
use crate::text::cat2;
use crate::text::cat3;
use crate::text::cat4;
use crate::text::cat5;
use crate::text::join;
use crate::text::joined;
use crate::text::lemma_views_push;
use crate::text::push_text;
use crate::text::same;
use crate::text::views;
use vstd::prelude::*;
use vstd::string::StringExecFns;

verus! {

/// Whether a field of the class of that name gets accessors.
pub open spec fn property_passes(
    class: Seq<char>,
    p: CppPropertyView,
    entry: ExportClassView,
    engine: EngineView,
    settings: CustomSettingsView,
) -> bool {
    &&& !field_denied(class, p, settings)
    &&& member_allowed(p.name, entry.fields, entry.ignore_fields)
    &&& !p.is_const
    &&& !p.is_static
    &&& (property_exportable(engine, p) || is_wrapper_name(settings, p.type_str))
    &&& !is_string_name(p.type_str)
    &&& !opaque(p.type_str, engine, settings)
}

/// The type of a field on the native side of the accessors.
pub open spec fn field_native_type(p: CppPropertyView, settings: CustomSettingsView) -> Seq<char> {
    if is_wrapper_name(settings, p.type_str) {
        wrapper_name(settings, p.type_str)
    } else {
        p.type_str
    }
}

/// The type of a field on the companion side of the accessors.
pub open spec fn field_rs_type(p: CppPropertyView, settings: CustomSettingsView) -> Seq<char> {
    if is_wrapper_name(settings, p.type_str) {
        wrapper_name(settings, p.type_str)
    } else {
        p.r_type
    }
}

/// The name of the native function that reads a field.
pub open spec fn getter_native_name(class: Seq<char>, p: CppPropertyView) -> Seq<char> {
    "get_"@ + class + "_"@ + p.name
}

/// The name of the native function that writes a field.
pub open spec fn setter_native_name(class: Seq<char>, p: CppPropertyView) -> Seq<char> {
    "set_"@ + class + "_"@ + p.name
}

/// The name of the function that fills the slot of an accessor; `kind` is
/// `get` or `set`.
pub open spec fn accessor_setter_name(class: Seq<char>, p: CppPropertyView, kind: Seq<char>) -> Seq<char> {
    "set_"@ + class + "_"@ + p.name + "_"@ + kind + "_handler"@
}

/// The name of the slot type of an accessor; `prefix` is `Get` or `Set`.
pub open spec fn accessor_callback(p: CppPropertyView, prefix: Seq<char>) -> Seq<char> {
    prefix + p.name + "Invoker"@
}

/// The name of the slot of an accessor.
pub open spec fn accessor_handler(p: CppPropertyView, prefix: Seq<char>) -> Seq<char> {
    accessor_callback(p, prefix) + "Handler"@
}

/// The native function that reads a field.
pub open spec fn getter_native(class: Seq<char>, p: CppPropertyView, settings: CustomSettingsView) -> Seq<char> {
    let open = if is_wrapper_name(settings, p.type_str) {
        "To"@ + wrapper_name(settings, p.type_str) + "("@
    } else {
        ""@
    };
    let close = if is_wrapper_name(settings, p.type_str) {
        ")"@
    } else {
        ""@
    };
    "\n    "@ + field_native_type(p, settings) + " "@ + getter_native_name(class, p)
        + "(void* target) { return "@ + open + "(("@ + class + "*)target) -> "@ + p.name + close
        + ";};"@
}

/// The native function that writes a field.
pub open spec fn setter_native(class: Seq<char>, p: CppPropertyView, settings: CustomSettingsView) -> Seq<char> {
    let open = if is_wrapper_name(settings, p.type_str) {
        "To"@ + p.type_str + "("@
    } else {
        ""@
    };
    let close = if is_wrapper_name(settings, p.type_str) {
        ")"@
    } else {
        ""@
    };
    "\n    void "@ + setter_native_name(class, p) + "(void* target, "@ + field_native_type(
        p,
        settings,
    ) + " value){ (("@ + class + "*)target) -> "@ + p.name + " = "@ + open + "value"@ + close
        + ";};"@
}

/// The slot of the getter.
pub open spec fn getter_slot(
    class: Seq<char>,
    alias: Seq<char>,
    p: CppPropertyView,
    settings: CustomSettingsView,
) -> Seq<char> {
    let cb = accessor_callback(p, "Get"@);
    let handler = accessor_handler(p, "Get"@);
    "\n    type "@ + cb + " = unsafe extern \"C\" fn(target: *mut "@ + alias + ") -> "@
        + field_rs_type(p, settings) + ";\n    pub(super) static mut "@ + handler + ": Option<"@
        + cb + "> = None;\n    #[no_mangle]\n    extern \"C\" fn "@ + accessor_setter_name(
        class,
        p,
        "get"@,
    ) + "(handler: "@ + cb + "){\n        unsafe{ "@ + handler + " = Some(handler) };\n    }"@
}

/// The slot of the setter.
pub open spec fn setter_slot(
    class: Seq<char>,
    alias: Seq<char>,
    p: CppPropertyView,
    settings: CustomSettingsView,
) -> Seq<char> {
    let cb = accessor_callback(p, "Set"@);
    let handler = accessor_handler(p, "Set"@);
    "\n    type "@ + cb + " = unsafe extern \"C\" fn(target: *mut "@ + alias + ", value: "@
        + field_rs_type(p, settings) + ");\n    pub(super) static mut "@ + handler
        + ": Option<"@ + cb + "> = None;\n    #[no_mangle]\n    extern \"C\" fn "@
        + accessor_setter_name(class, p, "set"@) + "(handler: "@ + cb + "){\n        unsafe {"@
        + handler + " = Some(handler) };\n    }"@
}

/// The native type of the function that fills the getter's slot.
pub open spec fn getter_define(class: Seq<char>, p: CppPropertyView, settings: CustomSettingsView) -> Seq<char> {
    "\nusing "@ + accessor_setter_name(class, p, "get"@) + "Fn = void(*)("@ + field_native_type(
        p,
        settings,
    ) + "(*)(void* target));"@
}

/// The native type of the function that fills the setter's slot.
pub open spec fn setter_define(class: Seq<char>, p: CppPropertyView, settings: CustomSettingsView) -> Seq<char> {
    "\nusing "@ + accessor_setter_name(class, p, "set"@) + "Fn = void(*)(void(*)(void* target, "@
        + field_native_type(p, settings) + " value));"@
}

/// The native statements that look up the function which fills an accessor's
/// slot and hand it the native accessor.
pub open spec fn accessor_register(start: Seq<char>, api: Seq<char>, native: Seq<char>) -> Seq<char> {
    start + "    auto const api"@ + api + " = ("@ + api + "Fn)plugin->GetDllExport(TEXT(\""@ + api
        + "\\0\"));\n    if(api"@ + api + "){\n        api"@ + api + "(&"@ + native
        + ");\n    }"@
}

/// The native statements that register the getter.
pub open spec fn getter_register(class: Seq<char>, p: CppPropertyView) -> Seq<char> {
    accessor_register("\n"@, accessor_setter_name(class, p, "get"@), getter_native_name(class, p))
}

/// The native statements that register the setter.
pub open spec fn setter_register(class: Seq<char>, p: CppPropertyView) -> Seq<char> {
    accessor_register(""@, accessor_setter_name(class, p, "set"@), setter_native_name(class, p))
}

/// The companion method that reads a field.
pub open spec fn getter_companion(p: CppPropertyView, settings: CustomSettingsView) -> Seq<char> {
    "\n    #[inline]\n    pub fn get_"@ + p.name + "(&self) -> "@ + field_rs_type(p, settings)
        + "{\n        unsafe{ "@ + accessor_handler(p, "Get"@)
        + ".as_ref().unwrap()(self.inner) }\n    }"@
}

/// The companion method that writes a field.
pub open spec fn setter_companion(p: CppPropertyView, settings: CustomSettingsView) -> Seq<char> {
    "\n    #[inline]\n    pub fn set_"@ + p.name + "(&mut self, value: "@ + field_rs_type(
        p,
        settings,
    ) + "){\n        unsafe{ "@ + accessor_handler(p, "Set"@)
        + ".as_ref().unwrap()(self.inner, value) }\n    }"@
}

/// The name under which the companion side knows the native type of a class.
pub open spec fn class_alias(class: Seq<char>, class_opaque: bool) -> Seq<char> {
    if class_opaque {
        class + "Opaque"@
    } else {
        class
    }
}

/// The emitter's state after the accessors of one field were emitted.
pub open spec fn after_property(
    gen: CodeGeneratorView,
    class: Seq<char>,
    class_opaque: bool,
    p: CppPropertyView,
    settings: CustomSettingsView,
) -> CodeGeneratorView {
    let alias = class_alias(class, class_opaque);
    CodeGeneratorView {
        source: gen.source.push(getter_native(class, p, settings)).push(
            setter_native(class, p, settings),
        ),
        rs_ffis: gen.rs_ffis.push(getter_slot(class, alias, p, settings)).push(
            setter_slot(class, alias, p, settings),
        ),
        api_defines: gen.api_defines.push(getter_define(class, p, settings)).push(
            setter_define(class, p, settings),
        ),
        registers: gen.registers.push(getter_register(class, p)).push(setter_register(class, p)),
        rs_source: gen.rs_source.push(getter_companion(p, settings)).push(
            setter_companion(p, settings),
        ),
        ..gen
    }
}

/// The emitter's state after the accessors of the fields from position `k`
/// on were emitted.
#[verifier::opaque]
pub open spec fn properties_from(
    gen: CodeGeneratorView,
    class: UnrealClassView,
    entry: ExportClassView,
    class_opaque: bool,
    engine: EngineView,
    settings: CustomSettingsView,
    k: int,
) -> CodeGeneratorView
    decreases class.properties.len() - k,
{
    if k < 0 || k >= class.properties.len() {
        gen
    } else if property_passes(class.name, class.properties[k], entry, engine, settings) {
        properties_from(
            after_property(gen, class.name, class_opaque, class.properties[k], settings),
            class,
            entry,
            class_opaque,
            engine,
            settings,
            k + 1,
        )
    } else {
        properties_from(gen, class, entry, class_opaque, engine, settings, k + 1)
    }
}

/// Whether a field of the class of that name gets accessors.
pub fn property_allowed(
    class_name: &str,
    p: &CppProperty,
    entry: &ExportClass,
    engine: &Engine,
    settings: &CustomSettings,
) -> (r: bool)
    ensures
        r == property_passes(class_name@, p@, entry@, engine@, settings@),
{
    if black_field(class_name, p, settings) {
        return false;
    }
    if !allowed(p.name.as_str(), &entry.fields, &entry.ignore_fields) {
        return false;
    }
    if p.is_const || p.is_static || (!should_export_property(engine, p) && !is_wrapper_type(
        p.type_str.as_str(),
        settings,
    )) {
        return false;
    }
    if is_string_type(p.type_str.as_str()) {
        return false;
    }
    !is_opaque(p.type_str.as_str(), engine, settings)
}

/// The type of a field on the native side of the accessors.
pub fn field_native_type_text(p: &CppProperty, settings: &CustomSettings) -> (r: String)
    ensures
        r@ == field_native_type(p@, settings@),
{
    if is_wrapper_type(p.type_str.as_str(), settings) {
        get_wrapper_type(p.type_str.as_str(), settings)
    } else {
        p.type_str.clone()
    }
}

/// The type of a field on the companion side of the accessors.
pub fn field_rs_type_text(p: &CppProperty, settings: &CustomSettings) -> (r: String)
    ensures
        r@ == field_rs_type(p@, settings@),
{
    if is_wrapper_type(p.type_str.as_str(), settings) {
        get_wrapper_type(p.type_str.as_str(), settings)
    } else {
        p.r_type.clone()
    }
}

/// The name of the function that fills the slot of an accessor; `kind` is
/// `get` or `set`.
pub fn accessor_setter_name_text(class: &str, p: &CppProperty, kind: &str) -> (r: String)
    ensures
        r@ == accessor_setter_name(class@, p@, kind@),
{
    let mut out = cat5("set_", class, "_", p.name.as_str(), "_");
    out.append(kind);
    out.append("_handler");
    out
}

pub fn accessor_callback_text(p: &CppProperty, prefix: &str) -> (r: String)
    ensures
        r@ == accessor_callback(p@, prefix@),
{
    cat3(prefix, p.name.as_str(), "Invoker")
}

pub fn accessor_handler_text(p: &CppProperty, prefix: &str) -> (r: String)
    ensures
        r@ == accessor_handler(p@, prefix@),
{
    let cb = accessor_callback_text(p, prefix);
    cat2(cb.as_str(), "Handler")
}

/// The native function that reads a field.
pub fn getter_native_text(class: &str, p: &CppProperty, settings: &CustomSettings) -> (r: String)
    ensures
        r@ == getter_native(class@, p@, settings@),
{
    let wrapped = is_wrapper_type(p.type_str.as_str(), settings);
    let open = if wrapped {
        let w = get_wrapper_type(p.type_str.as_str(), settings);
        cat3("To", w.as_str(), "(")
    } else {
        String::from_str("")
    };
    let close = if wrapped {
        ")"
    } else {
        ""
    };
    let ty = field_native_type_text(p, settings);
    let name = cat4("get_", class, "_", p.name.as_str());
    let mut out = cat5("\n    ", ty.as_str(), " ", name.as_str(), "(void* target) { return ");
    out.append(open.as_str());
    out.append("((");
    out.append(class);
    out.append("*)target) -> ");
    out.append(p.name.as_str());
    out.append(close);
    out.append(";};");
    out
}

/// The native function that writes a field.
pub fn setter_native_text(class: &str, p: &CppProperty, settings: &CustomSettings) -> (r: String)
    ensures
        r@ == setter_native(class@, p@, settings@),
{
    let wrapped = is_wrapper_type(p.type_str.as_str(), settings);
    let open = if wrapped {
        cat3("To", p.type_str.as_str(), "(")
    } else {
        String::from_str("")
    };
    let close = if wrapped {
        ")"
    } else {
        ""
    };
    let ty = field_native_type_text(p, settings);
    let name = cat4("set_", class, "_", p.name.as_str());
    let mut out = cat5("\n    void ", name.as_str(), "(void* target, ", ty.as_str(), " value){ ((");
    out.append(class);
    out.append("*)target) -> ");
    out.append(p.name.as_str());
    out.append(" = ");
    out.append(open.as_str());
    out.append("value");
    out.append(close);
    out.append(";};");
    out
}

/// The slot of the getter.
pub fn getter_slot_text(class: &str, alias: &str, p: &CppProperty, settings: &CustomSettings) -> (r:
    String)
    ensures
        r@ == getter_slot(class@, alias@, p@, settings@),
{
    let cb = accessor_callback_text(p, "Get");
    let handler = accessor_handler_text(p, "Get");
    let api = accessor_setter_name_text(class, p, "get");
    let ty = field_rs_type_text(p, settings);
    let mut out = String::from_str("\n    type ");
    out.append(cb.as_str());
    out.append(" = unsafe extern \"C\" fn(target: *mut ");
    out.append(alias);
    out.append(") -> ");
    out.append(ty.as_str());
    out.append(";\n    pub(super) static mut ");
    out.append(handler.as_str());
    out.append(": Option<");
    out.append(cb.as_str());
    out.append("> = None;\n    #[no_mangle]\n    extern \"C\" fn ");
    out.append(api.as_str());
    out.append("(handler: ");
    out.append(cb.as_str());
    out.append("){\n        unsafe{ ");
    out.append(handler.as_str());
    out.append(" = Some(handler) };\n    }");
    out
}

/// The slot of the setter.
pub fn setter_slot_text(class: &str, alias: &str, p: &CppProperty, settings: &CustomSettings) -> (r:
    String)
    ensures
        r@ == setter_slot(class@, alias@, p@, settings@),
{
    let cb = accessor_callback_text(p, "Set");
    let handler = accessor_handler_text(p, "Set");
    let api = accessor_setter_name_text(class, p, "set");
    let ty = field_rs_type_text(p, settings);
    let mut out = String::from_str("\n    type ");
    out.append(cb.as_str());
    out.append(" = unsafe extern \"C\" fn(target: *mut ");
    out.append(alias);
    out.append(", value: ");
    out.append(ty.as_str());
    out.append(");\n    pub(super) static mut ");
    out.append(handler.as_str());
    out.append(": Option<");
    out.append(cb.as_str());
    out.append("> = None;\n    #[no_mangle]\n    extern \"C\" fn ");
    out.append(api.as_str());
    out.append("(handler: ");
    out.append(cb.as_str());
    out.append("){\n        unsafe {");
    out.append(handler.as_str());
    out.append(" = Some(handler) };\n    }");
    out
}

pub fn getter_define_text(class: &str, p: &CppProperty, settings: &CustomSettings) -> (r: String)
    ensures
        r@ == getter_define(class@, p@, settings@),
{
    let api = accessor_setter_name_text(class, p, "get");
    let ty = field_native_type_text(p, settings);
    cat5("\nusing ", api.as_str(), "Fn = void(*)(", ty.as_str(), "(*)(void* target));")
}

pub fn setter_define_text(class: &str, p: &CppProperty, settings: &CustomSettings) -> (r: String)
    ensures
        r@ == setter_define(class@, p@, settings@),
{
    let api = accessor_setter_name_text(class, p, "set");
    let ty = field_native_type_text(p, settings);
    cat5("\nusing ", api.as_str(), "Fn = void(*)(void(*)(void* target, ", ty.as_str(), " value));")
}

/// The native statements that look up the function which fills an accessor's
/// slot and hand it the native accessor.
pub fn accessor_register_text(start: &str, api: &str, native: &str) -> (r: String)
    ensures
        r@ == accessor_register(start@, api@, native@),
{
    let mut out = cat5(start, "    auto const api", api, " = (", api);
    out.append("Fn)plugin->GetDllExport(TEXT(\"");
    out.append(api);
    out.append("\\0\"));\n    if(api");
    out.append(api);
    out.append("){\n        api");
    out.append(api);
    out.append("(&");
    out.append(native);
    out.append(");\n    }");
    out
}

pub fn getter_companion_text(p: &CppProperty, settings: &CustomSettings) -> (r: String)
    ensures
        r@ == getter_companion(p@, settings@),
{
    let ty = field_rs_type_text(p, settings);
    let handler = accessor_handler_text(p, "Get");
    let mut out = cat5(
        "\n    #[inline]\n    pub fn get_",
        p.name.as_str(),
        "(&self) -> ",
        ty.as_str(),
        "{\n        unsafe{ ",
    );
    out.append(handler.as_str());
    out.append(".as_ref().unwrap()(self.inner) }\n    }");
    out
}

pub fn setter_companion_text(p: &CppProperty, settings: &CustomSettings) -> (r: String)
    ensures
        r@ == setter_companion(p@, settings@),
{
    let ty = field_rs_type_text(p, settings);
    let handler = accessor_handler_text(p, "Set");
    let mut out = cat5(
        "\n    #[inline]\n    pub fn set_",
        p.name.as_str(),
        "(&mut self, value: ",
        ty.as_str(),
        "){\n        unsafe{ ",
    );
    out.append(handler.as_str());
    out.append(".as_ref().unwrap()(self.inner, value) }\n    }");
    out
}

/// The name under which the companion side knows the native type of a class.
pub fn class_alias_text(class: &str, class_opaque: bool) -> (r: String)
    ensures
        r@ == class_alias(class@, class_opaque),
{
    if class_opaque {
        cat2(class, "Opaque")
    } else {
        String::from_str(class)
    }
}

/// Emits the getter and the setter of one field.
pub fn emit_property(
    generator: &mut CodeGenerator,
    class: &str,
    class_opaque: bool,
    p: &CppProperty,
    settings: &CustomSettings,
)
    ensures
        final(generator)@ == after_property(old(generator)@, class@, class_opaque, p@, settings@),
{
    let alias = class_alias_text(class, class_opaque);
    let get_api = accessor_setter_name_text(class, p, "get");
    let set_api = accessor_setter_name_text(class, p, "set");
    let get_name = cat4("get_", class, "_", p.name.as_str());
    let set_name = cat4("set_", class, "_", p.name.as_str());
    push_text(&mut generator.source, getter_native_text(class, p, settings));
    push_text(&mut generator.source, setter_native_text(class, p, settings));
    push_text(&mut generator.rs_ffis, getter_slot_text(class, alias.as_str(), p, settings));
    push_text(&mut generator.api_defines, getter_define_text(class, p, settings));
    push_text(
        &mut generator.registers,
        accessor_register_text("\n", get_api.as_str(), get_name.as_str()),
    );
    push_text(&mut generator.rs_ffis, setter_slot_text(class, alias.as_str(), p, settings));
    push_text(&mut generator.api_defines, setter_define_text(class, p, settings));
    push_text(
        &mut generator.registers,
        accessor_register_text("", set_api.as_str(), set_name.as_str()),
    );
    push_text(&mut generator.rs_source, getter_companion_text(p, settings));
    push_text(&mut generator.rs_source, setter_companion_text(p, settings));
}

/// Emits the accessors of the fields of a class, in order.
pub fn parse_properties(
    engine: &Engine,
    class: &UnrealClass,
    generator: &mut CodeGenerator,
    opaque: bool,
    settings: &CustomSettings,
) -> (r: Result<(), EmitError>)
    ensures
        match r {
            Ok(()) => {
                let e = export_from(settings@, class@.name, 0);
                &&& e >= 0
                &&& final(generator)@ == properties_from(
                    old(generator)@,
                    class@,
                    settings@.ExportClasses[e],
                    opaque,
                    engine@,
                    settings@,
                    0,
                )
            },
            Err(e) => e == EmitError::NotExported && export_from(settings@, class@.name, 0) == -1,
        },
{
    let e = match find_export(settings, class.name.as_str()) {
        Some(e) => e,
        None => {
            return Err(EmitError::NotExported);
        },
    };
    proof {
        lemma_export_from(settings@, class@.name, 0);
    }
    let entry = &settings.ExportClasses[e];
    let mut i: usize = 0;
    while i < class.properties.len()
        invariant
            i <= class.properties.len(),
            e as int == export_from(settings@, class@.name, 0),
            0 <= e < settings@.ExportClasses.len(),
            entry@ == settings@.ExportClasses[e as int],
            properties_from(old(generator)@, class@, entry@, opaque, engine@, settings@, 0)
                == properties_from(
                generator@,
                class@,
                entry@,
                opaque,
                engine@,
                settings@,
                i as int,
            ),
        decreases class.properties.len() - i,
    {
        proof {
            reveal(properties_from);
        }
        let p = &class.properties[i];
        if property_allowed(class.name.as_str(), p, entry, engine, settings) {
            emit_property(generator, class.name.as_str(), opaque, p, settings);
        }
        i += 1;
    }
    proof {
        reveal(properties_from);
    }
    Ok(())
}

/// The companion type of an entity that crosses behind a handle.
pub open spec fn handle_struct_text(name: Seq<char>, alis: Seq<char>) -> Seq<char> {
    "pub struct "@ + name + "{\n    inner: *mut "@ + alis + "\n}\nimpl IPtr for "@ + name
        + "{\n    #[inline]\n    fn inner(&self) -> *mut "@ + alis
        + " { self.inner }\n    #[inline]\n    fn from_ptr(ptr: *mut c_void) -> Option<Self>{\n        if_else!(\n            ptr.is_null(),\n            None,\n            Some(Self{inner: ptr})\n        )        \n    }\n}\nimpl "@
        + name + "{\n    "@
}

/// One field of the companion type of an entity that crosses by value.
pub open spec fn field_line(p: CppPropertyView) -> Seq<char> {
    "\tpub "@ + p.name + ": "@ + p.r_type
}

/// The fields of a value type, one line each.
pub open spec fn field_lines(props: Seq<CppPropertyView>) -> Seq<Seq<char>> {
    Seq::new(props.len(), |i: int| field_line(props[i]))
}

/// The companion type of an entity that crosses by value: its public fields
/// in declaration order, laid out as the native side lays them out.
pub open spec fn value_struct_text(class: UnrealClassView) -> Seq<char> {
    "#[repr(C)]\npub struct "@ + class.name + "{\n"@ + joined(
        field_lines(class.properties),
        ",\r\n"@,
    ) + "\n}\nimpl "@ + class.name + "{"@
}

/// How the companion text of an entity that crosses by value opens.
pub open spec fn transparent_head(class: UnrealClassView, settings: CustomSettingsView) -> Seq<char> {
    if is_wrapper_name(settings, class.name) {
        "impl "@ + class.name + " {"@
    } else {
        value_struct_text(class)
    }
}

/// The emitter's state after an entity behind a handle was emitted.
pub open spec fn after_opaque(
    gen: CodeGeneratorView,
    class: UnrealClassView,
    entry: ExportClassView,
    engine: EngineView,
    settings: CustomSettingsView,
) -> Option<CodeGeneratorView> {
    let g1 = CodeGeneratorView {
        type_impl: registry_after(gen.type_impl, class.name, engine, settings),
        rs_source: gen.rs_source.push(
            handle_struct_text(class.name, type_impl_of(class.name, engine, settings).alis),
        ),
        ..gen
    };
    let g2 = properties_from(g1, class, entry, true, engine, settings, 0);
    methods_from(g2, class, entry, true, engine, settings, 0)
}

/// The emitter's state after an entity that crosses by value was emitted.
pub open spec fn after_transparent(
    gen: CodeGeneratorView,
    class: UnrealClassView,
    entry: ExportClassView,
    engine: EngineView,
    settings: CustomSettingsView,
) -> Option<CodeGeneratorView> {
    let g1 = CodeGeneratorView {
        rs_source: gen.rs_source.push(transparent_head(class, settings)),
        ..gen
    };
    methods_from(g1, class, entry, false, engine, settings, 0)
}

/// The position of the first ledger entry of that name at or after `i`, or -1.
pub open spec fn ledger_from(exported: Seq<TypeImplView>, name: Seq<char>, i: int) -> int
    decreases exported.len() - i,
{
    if i < 0 || i >= exported.len() {
        -1
    } else if exported[i].name == name {
        i
    } else {
        ledger_from(exported, name, i + 1)
    }
}

/// The directive that makes the native source read the declaring file.
pub open spec fn header_line(path: Seq<char>) -> Seq<char> {
    "#include \""@ + path + "\""@
}

/// The emitter's state once an entity is entered in the ledger and its
/// declaring file is named among the files to read.
pub open spec fn class_started(
    gen: CodeGeneratorView,
    class: UnrealClassView,
    engine: EngineView,
    settings: CustomSettingsView,
) -> CodeGeneratorView {
    CodeGeneratorView {
        exported: gen.exported.push(
            TypeImplView {
                name: class.name,
                alis: class.path,
                is_opaque: opaque(class.name, engine, settings),
            },
        ),
        includes: if class.path.len() > 0 && !gen.includes.contains(header_line(class.path)) {
            gen.includes.push(header_line(class.path))
        } else {
            gen.includes
        },
        ..gen
    }
}

/// The emitter's state after an entity that the ledger does not hold yet was
/// emitted, or `None` where one of its methods cannot be emitted.
pub open spec fn class_emitted(
    gen: CodeGeneratorView,
    class: UnrealClassView,
    entry: ExportClassView,
    engine: EngineView,
    settings: CustomSettingsView,
) -> Option<CodeGeneratorView> {
    let g1 = class_started(gen, class, engine, settings);
    let body = if opaque(class.name, engine, settings) {
        after_opaque(g1, class, entry, engine, settings)
    } else {
        after_transparent(g1, class, entry, engine, settings)
    };
    match body {
        Some(g) => Some(CodeGeneratorView { rs_source: g.rs_source.push("}"@), ..g }),
        None => None,
    }
}

/// How the emission of one entity ended.
#[derive(Debug, PartialEq, Eq)]
pub enum ClassOutcome {
    Emitted,
    /// The entity had been exported before; nothing was emitted. Holds the
    /// declaring file of the first export.
    AlreadyExported(String),
}

/// The companion type of an entity that crosses behind a handle.
pub fn handle_struct(name: &str, alis: &str) -> (r: String)
    ensures
        r@ == handle_struct_text(name@, alis@),
{
    let mut out = cat5("pub struct ", name, "{\n    inner: *mut ", alis, "\n}\nimpl IPtr for ");
    out.append(name);
    out.append("{\n    #[inline]\n    fn inner(&self) -> *mut ");
    out.append(alis);
    out.append(
        " { self.inner }\n    #[inline]\n    fn from_ptr(ptr: *mut c_void) -> Option<Self>{\n        if_else!(\n            ptr.is_null(),\n            None,\n            Some(Self{inner: ptr})\n        )        \n    }\n}\nimpl ",
    );
    out.append(name);
    out.append("{\n    ");
    out
}

/// The companion type of an entity that crosses by value: its public fields
/// in declaration order, laid out as the native side lays them out.
pub fn value_struct(class: &UnrealClass) -> (r: String)
    ensures
        r@ == value_struct_text(class@),
{
    let mut lines: Vec<String> = Vec::new();
    assert(views(lines@) =~= Seq::empty());
    let mut i: usize = 0;
    while i < class.properties.len()
        invariant
            i <= class.properties.len(),
            views(lines@) == field_lines(class@.properties.take(i as int)),
        decreases class.properties.len() - i,
    {
        let p = &class.properties[i];
        let line = cat4("\tpub ", p.name.as_str(), ": ", p.r_type.as_str());
        push_text(&mut lines, line);
        assert(views(lines@) =~= field_lines(class@.properties.take(i + 1)));
        i += 1;
    }
    assert(class@.properties.take(class.properties.len() as int) =~= class@.properties);
    let fields = join(&lines, ",\r\n");
    let mut out = cat5(
        "#[repr(C)]\npub struct ",
        class.name.as_str(),
        "{\n",
        fields.as_str(),
        "\n}\nimpl ",
    );
    out.append(class.name.as_str());
    out.append("{");
    out
}

/// Emits an entity that crosses behind a handle: its handle type, the
/// accessors of its fields and its methods.
pub fn gen_opaque(
    engine: &Engine,
    class: &UnrealClass,
    generator: &mut CodeGenerator,
    settings: &CustomSettings,
) -> (r: Result<(), EmitError>)
    ensures
        match r {
            Ok(()) => {
                let e = export_from(settings@, class@.name, 0);
                &&& e >= 0
                &&& after_opaque(
                    old(generator)@,
                    class@,
                    settings@.ExportClasses[e],
                    engine@,
                    settings@,
                ) == Some(final(generator)@)
            },
            Err(EmitError::NotExported) => export_from(settings@, class@.name, 0) == -1,
            Err(EmitError::ReferenceResult) => {
                let e = export_from(settings@, class@.name, 0);
                &&& e >= 0
                &&& after_opaque(
                    old(generator)@,
                    class@,
                    settings@.ExportClasses[e],
                    engine@,
                    settings@,
                ) is None
            },
        },
{
    let ts = generator.insert_type(class.name.as_str(), engine, settings);
    push_text(
        &mut generator.rs_source,
        handle_struct(class.name.as_str(), ts.alis.as_str()),
    );
    match parse_properties(engine, class, generator, true, settings) {
        Ok(()) => {},
        Err(e) => {
            return Err(e);
        },
    }
    parse_functions(engine, class, generator, true, settings)
}

/// Emits an entity that crosses by value: its value type and its methods.
pub fn gen_none_opaque(
    engine: &Engine,
    class: &UnrealClass,
    generator: &mut CodeGenerator,
    settings: &CustomSettings,
) -> (r: Result<(), EmitError>)
    ensures
        match r {
            Ok(()) => {
                let e = export_from(settings@, class@.name, 0);
                &&& e >= 0
                &&& after_transparent(
                    old(generator)@,
                    class@,
                    settings@.ExportClasses[e],
                    engine@,
                    settings@,
                ) == Some(final(generator)@)
            },
            Err(EmitError::NotExported) => export_from(settings@, class@.name, 0) == -1,
            Err(EmitError::ReferenceResult) => {
                let e = export_from(settings@, class@.name, 0);
                &&& e >= 0
                &&& after_transparent(
                    old(generator)@,
                    class@,
                    settings@.ExportClasses[e],
                    engine@,
                    settings@,
                ) is None
            },
        },
{
    let head = if is_wrapper_type(class.name.as_str(), settings) {
        cat3("impl ", class.name.as_str(), " {")
    } else {
        value_struct(class)
    };
    push_text(&mut generator.rs_source, head);
    parse_functions(engine, class, generator, false, settings)
}

/// The first ledger entry of that name.
pub fn find_exported(exported: &Vec<TypeImpl>, name: &str) -> (r: Option<usize>)
    ensures
        match r {
            Some(i) => i as int == ledger_from(views(exported@), name@, 0) && i < exported.len(),
            None => ledger_from(views(exported@), name@, 0) == -1,
        },
{
    let mut i: usize = 0;
    while i < exported.len()
        invariant
            i <= exported.len(),
            ledger_from(views(exported@), name@, 0) == ledger_from(
                views(exported@),
                name@,
                i as int,
            ),
        decreases exported.len() - i,
    {
        if same(exported[i].name.as_str(), name) {
            return Some(i);
        }
        i += 1;
    }
    None
}

/// Emits one entity, unless the ledger holds its name already: the first
/// export of a name wins, and a later one changes nothing.
pub fn gen_class(
    engine: &Engine,
    class: &UnrealClass,
    generator: &mut CodeGenerator,
    settings: &CustomSettings,
) -> (r: Result<ClassOutcome, EmitError>)
    ensures
        match r {
            Ok(ClassOutcome::AlreadyExported(first)) => {
                let i = ledger_from(old(generator)@.exported, class@.name, 0);
                &&& i >= 0
                &&& first@ == old(generator)@.exported[i].alis
                &&& final(generator)@ == old(generator)@
            },
            Ok(ClassOutcome::Emitted) => {
                let e = export_from(settings@, class@.name, 0);
                &&& ledger_from(old(generator)@.exported, class@.name, 0) == -1
                &&& e >= 0
                &&& class_emitted(
                    old(generator)@,
                    class@,
                    settings@.ExportClasses[e],
                    engine@,
                    settings@,
                ) == Some(final(generator)@)
            },
            Err(EmitError::NotExported) => {
                &&& ledger_from(old(generator)@.exported, class@.name, 0) == -1
                &&& export_from(settings@, class@.name, 0) == -1
            },
            Err(EmitError::ReferenceResult) => {
                let e = export_from(settings@, class@.name, 0);
                &&& ledger_from(old(generator)@.exported, class@.name, 0) == -1
                &&& e >= 0
                &&& class_emitted(
                    old(generator)@,
                    class@,
                    settings@.ExportClasses[e],
                    engine@,
                    settings@,
                ) is None
            },
        },
{
    match find_exported(&generator.exported, class.name.as_str()) {
        Some(i) => {
            return Ok(ClassOutcome::AlreadyExported(generator.exported[i].alis.clone()));
        },
        None => {},
    }
    let class_opaque = is_opaque(class.name.as_str(), engine, settings);
    let entry = TypeImpl {
        name: class.name.clone(),
        alis: class.path.clone(),
        is_opaque: class_opaque,
    };
    proof {
        lemma_views_push(generator.exported@, entry);
    }
    generator.exported.push(entry);
    if !class.path.as_str().is_empty() {
        let line = cat3("#include \"", class.path.as_str(), "\"");
        if !crate::classify::listed(&generator.includes, line.as_str()) {
            push_text(&mut generator.includes, line);
        }
    }
    assert(generator@ == class_started(old(generator)@, class@, engine@, settings@));
    let body = if class_opaque {
        gen_opaque(engine, class, generator, settings)
    } else {
        gen_none_opaque(engine, class, generator, settings)
    };
    match body {
        Ok(()) => {
            push_text(&mut generator.rs_source, String::from_str("}"));
            Ok(ClassOutcome::Emitted)
        },
        Err(e) => Err(e),
    }
}

/// Every listed entity has an export entry: `export_from` finds one for
/// the name at position `k`.
pub proof fn lemma_listed_is_exported(settings: CustomSettingsView, k: int)
    requires
        0 <= k < settings.ExportClasses.len(),
    ensures
        0 <= export_from(settings, settings.ExportClasses[k].class_name, 0) <= k,
{
    lemma_export_upto(settings, settings.ExportClasses[k].class_name, 0, k);
}

/// The first export entry of a name lies at or before any entry of it.
pub proof fn lemma_export_upto(settings: CustomSettingsView, name: Seq<char>, i: int, k: int)
    requires
        0 <= i <= k < settings.ExportClasses.len(),
        settings.ExportClasses[k].class_name == name,
    ensures
        i <= export_from(settings, name, i) <= k,
    decreases k - i,
{
    if settings.ExportClasses[i].class_name != name {
        lemma_export_upto(settings, name, i + 1, k);
    }
}

} // verus!
