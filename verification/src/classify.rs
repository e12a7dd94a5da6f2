//! Which types cross the boundary behind a handle and which by value, and
//! which members may be exported at all.

use crate::model::CppApi;
use crate::model::CppApiView;
use crate::model::CppProperty;
use crate::model::CppPropertyView;
use crate::model::CustomSettings;
use crate::model::CustomSettingsView;
use crate::model::Engine;
use crate::model::EngineView;
use crate::model::UnrealClass;
use crate::model::UnrealClassView;
use crate::primitives::is_primary;
use crate::primitives::is_primary_name;
use crate::primitives::is_string_name;
use crate::primitives::is_string_type;
use crate::text::same;
use crate::text::views;
use vstd::prelude::*;
use vstd::string::StringExecFns;

verus! {

/// The position of the first class of that name at or after `i`, or -1.
pub open spec fn class_from(classes: Seq<UnrealClassView>, name: Seq<char>, i: int) -> int
    decreases classes.len() - i,
{
    if i < 0 || i >= classes.len() {
        -1
    } else if classes[i].name == name {
        i
    } else {
        class_from(classes, name, i + 1)
    }
}

/// The position of the first class of that name, or -1.
pub open spec fn class_position(classes: Seq<UnrealClassView>, name: Seq<char>) -> int {
    class_from(classes, name, 0)
}

/// Whether the headers declare a class of that name.
pub open spec fn has_class(engine: EngineView, name: Seq<char>) -> bool {
    class_position(engine.classes, name) >= 0
}

/// Whether the headers declare an enumeration of that name.
pub open spec fn has_enum(engine: EngineView, name: Seq<char>) -> bool {
    exists|i: int| 0 <= i < engine.enums.len() && #[trigger] engine.enums[i].name == name
}

/// A type that can cross at all: a scalar, a string kind, or a class or
/// enumeration that the headers declare.
pub open spec fn known_type(engine: EngineView, t: Seq<char>) -> bool {
    is_primary_name(t) || is_string_name(t) || has_class(engine, t) || has_enum(engine, t)
}

/// Whether a field can cross the boundary by itself.
pub open spec fn property_exportable(engine: EngineView, p: CppPropertyView) -> bool {
    !p.unsupported && !p.is_generic && known_type(engine, p.type_str)
}

/// Whether every type that a method mentions can cross the boundary.
pub open spec fn api_exportable(engine: EngineView, api: CppApiView) -> bool {
    &&& !api.is_destructor
    &&& !api.is_generic
    &&& known_type(engine, api.rc_type)
    &&& forall|i: int|
        0 <= i < api.parameters.len() ==> known_type(engine, #[trigger] api.parameters[i].type_str)
}

/// The position of the alias declared for a native type at or after `i`, or -1.
pub open spec fn alias_from(settings: CustomSettingsView, t: Seq<char>, i: int) -> int
    decreases settings.TypeWrapper.len() - i,
{
    if i < 0 || i >= settings.TypeWrapper.len() {
        -1
    } else if settings.TypeWrapper[i].native == t {
        i
    } else {
        alias_from(settings, t, i + 1)
    }
}

/// Whether the settings declare a wrapper for a native type.
pub open spec fn is_wrapper_name(settings: CustomSettingsView, t: Seq<char>) -> bool {
    alias_from(settings, t, 0) >= 0
}

/// The wrapper declared for a native type, or the type itself.
pub open spec fn wrapper_name(settings: CustomSettingsView, t: Seq<char>) -> Seq<char> {
    let i = alias_from(settings, t, 0);
    if i >= 0 {
        settings.TypeWrapper[i].wrapper
    } else {
        t
    }
}

/// Every field is public, none is a bit-field, and each can cross by itself.
pub open spec fn fields_transparent(engine: EngineView, class: UnrealClassView) -> bool {
    &&& class.none_public_properties.len() == 0
    &&& forall|k: int|
        0 <= k < class.properties.len() ==> !(#[trigger] class.properties[k]).bit_value
            && property_exportable(engine, class.properties[k])
}

/// Whether values of the type cross behind a handle.
pub open spec fn opaque(t: Seq<char>, engine: EngineView, settings: CustomSettingsView) -> bool {
    if is_wrapper_name(settings, t) {
        false
    } else if settings.ForceOpaque.contains(t) {
        true
    } else if is_primary_name(t) || is_string_name(t) {
        false
    } else {
        let i = class_position(engine.classes, t);
        if i >= 0 {
            !fields_transparent(engine, engine.classes[i])
        } else {
            true
        }
    }
}

/// The position of the export entry of a class at or after `i`, or -1.
pub open spec fn export_from(settings: CustomSettingsView, name: Seq<char>, i: int) -> int
    decreases settings.ExportClasses.len() - i,
{
    if i < 0 || i >= settings.ExportClasses.len() {
        -1
    } else if settings.ExportClasses[i].class_name == name {
        i
    } else {
        export_from(settings, name, i + 1)
    }
}

/// A scalar, or a class that the settings export.
pub open spec fn exported_type(t: Seq<char>, settings: CustomSettingsView) -> bool {
    is_primary_name(t) || export_from(settings, t, 0) >= 0
}

/// The name under which the deny-list knows a method.
pub open spec fn deny_key(api: CppApiView) -> Seq<char> {
    if api.class_name.len() == 0 {
        api.name
    } else {
        api.class_name + "."@ + api.name
    }
}

/// Whether the deny-list names a method.
pub open spec fn api_denied(api: CppApiView, settings: CustomSettingsView) -> bool {
    settings.BlackList.contains(deny_key(api))
}

/// Whether the deny-list names a field under its entity.
pub open spec fn field_denied(class: Seq<char>, field: CppPropertyView, settings: CustomSettingsView) -> bool {
    settings.BlackList.contains(class + "."@ + field.name)
}

/// Whether a result type stands for no result.
pub open spec fn is_void_name(t: Seq<char>) -> bool {
    t == "void"@ || t.len() == 0
}

/// `class_from` finds a class of that name, and the first one.
pub proof fn lemma_class_from(classes: Seq<UnrealClassView>, name: Seq<char>, i: int)
    requires
        0 <= i,
    ensures
        ({
            let r = class_from(classes, name, i);
            &&& r == -1 || (i <= r < classes.len() && classes[r].name == name)
            &&& forall|j: int| i <= j < classes.len() && (j < r || r == -1) ==> classes[j].name != name
        }),
    decreases classes.len() - i,
{
    if i < classes.len() && classes[i].name != name {
        lemma_class_from(classes, name, i + 1);
    }
}

/// `export_from` finds an entry of that name.
pub proof fn lemma_export_from(settings: CustomSettingsView, name: Seq<char>, i: int)
    requires
        0 <= i,
    ensures
        export_from(settings, name, i) == -1 || i <= export_from(settings, name, i)
            < settings.ExportClasses.len(),
    decreases settings.ExportClasses.len() - i,
{
    if i < settings.ExportClasses.len() && settings.ExportClasses[i].class_name != name {
        lemma_export_from(settings, name, i + 1);
    }
}

/// An entity crosses by value exactly when every one of its fields is
/// public, none is a bit-field and each can cross by itself. This holds of
/// the first entity of its name, unless the settings alias the name or force
/// it behind a handle, or the name is that of a scalar or a string kind.
pub proof fn lemma_transparent_iff_fields(engine: EngineView, settings: CustomSettingsView, i: int)
    requires
        0 <= i < engine.classes.len(),
        forall|j: int| 0 <= j < i ==> engine.classes[j].name != engine.classes[i].name,
        !is_wrapper_name(settings, engine.classes[i].name),
        !settings.ForceOpaque.contains(engine.classes[i].name),
        !is_primary_name(engine.classes[i].name),
        !is_string_name(engine.classes[i].name),
    ensures
        !opaque(engine.classes[i].name, engine, settings) <==> fields_transparent(
            engine,
            engine.classes[i],
        ),
{
    lemma_class_from(engine.classes, engine.classes[i].name, 0);
}

/// A type that the headers do not declare, that is no scalar and no string
/// kind, and that the settings do not alias, crosses behind a handle.
pub proof fn lemma_unknown_is_opaque(t: Seq<char>, engine: EngineView, settings: CustomSettingsView)
    requires
        !is_wrapper_name(settings, t),
        !is_primary_name(t),
        !is_string_name(t),
        !has_class(engine, t),
    ensures
        opaque(t, engine, settings),
{
}

/// The first class of that name.
pub fn find_class<'a>(engine: &'a Engine, name: &str) -> (r: Option<&'a UnrealClass>)
    ensures
        match r {
            Some(c) => class_position(engine@.classes, name@) >= 0 && c@
                == engine@.classes[class_position(engine@.classes, name@)],
            None => class_position(engine@.classes, name@) == -1,
        },
{
    let mut i: usize = 0;
    while i < engine.classes.len()
        invariant
            i <= engine.classes.len(),
            class_position(engine@.classes, name@) == class_from(engine@.classes, name@, i as int),
        decreases engine.classes.len() - i,
    {
        if same(engine.classes[i].name.as_str(), name) {
            return Some(&engine.classes[i]);
        }
        i += 1;
    }
    None
}

/// Whether the headers declare an enumeration of that name.
pub fn find_enum(engine: &Engine, name: &str) -> (r: bool)
    ensures
        r == has_enum(engine@, name@),
{
    let mut i: usize = 0;
    while i < engine.enums.len()
        invariant
            i <= engine.enums.len(),
            forall|k: int| 0 <= k < i ==> engine@.enums[k].name != name@,
        decreases engine.enums.len() - i,
    {
        if same(engine.enums[i].name.as_str(), name) {
            assert(engine@.enums[i as int].name == name@);
            return true;
        }
        i += 1;
    }
    false
}

/// Whether the list holds the text.
pub fn listed(list: &Vec<String>, item: &str) -> (r: bool)
    ensures
        r == views(list@).contains(item@),
{
    let mut i: usize = 0;
    while i < list.len()
        invariant
            i <= list.len(),
            forall|k: int| 0 <= k < i ==> views(list@)[k] != item@,
        decreases list.len() - i,
    {
        if same(list[i].as_str(), item) {
            assert(views(list@)[i as int] == item@);
            return true;
        }
        i += 1;
    }
    false
}

/// Whether a type can cross at all.
pub fn known(engine: &Engine, t: &str) -> (r: bool)
    ensures
        r == known_type(engine@, t@),
{
    is_primary(t) || is_string_type(t) || find_class(engine, t).is_some() || find_enum(engine, t)
}

/// Whether a field can cross the boundary by itself.
pub fn should_export_property(engine: &Engine, property: &CppProperty) -> (r: bool)
    ensures
        r == property_exportable(engine@, property@),
{
    !property.unsupported && !property.is_generic && known(engine, property.type_str.as_str())
}

/// Whether every type that a method mentions can cross the boundary.
pub fn should_export_api(engine: &Engine, api: &CppApi) -> (r: bool)
    ensures
        r == api_exportable(engine@, api@),
{
    if api.is_destructor || api.is_generic {
        return false;
    }
    if !known(engine, api.rc_type.as_str()) {
        return false;
    }
    let mut i: usize = 0;
    while i < api.parameters.len()
        invariant
            i <= api.parameters.len(),
            forall|k: int| 0 <= k < i ==> known_type(engine@, #[trigger] api@.parameters[k].type_str),
        decreases api.parameters.len() - i,
    {
        if !known(engine, api.parameters[i].type_str.as_str()) {
            assert(!known_type(engine@, api@.parameters[i as int].type_str));
            return false;
        }
        i += 1;
    }
    true
}

/// Whether the settings declare a wrapper for a native type.
pub fn is_wrapper_type(cpp_type: &str, settings: &CustomSettings) -> (r: bool)
    ensures
        r == is_wrapper_name(settings@, cpp_type@),
{
    let mut i: usize = 0;
    while i < settings.TypeWrapper.len()
        invariant
            i <= settings.TypeWrapper.len(),
            alias_from(settings@, cpp_type@, 0) == alias_from(settings@, cpp_type@, i as int),
        decreases settings.TypeWrapper.len() - i,
    {
        if same(settings.TypeWrapper[i].native.as_str(), cpp_type) {
            return true;
        }
        i += 1;
    }
    false
}

/// The wrapper declared for a native type, or the type itself.
pub fn get_wrapper_type(cpp_type: &str, settings: &CustomSettings) -> (r: String)
    ensures
        r@ == wrapper_name(settings@, cpp_type@),
{
    let mut i: usize = 0;
    while i < settings.TypeWrapper.len()
        invariant
            i <= settings.TypeWrapper.len(),
            alias_from(settings@, cpp_type@, 0) == alias_from(settings@, cpp_type@, i as int),
        decreases settings.TypeWrapper.len() - i,
    {
        if same(settings.TypeWrapper[i].native.as_str(), cpp_type) {
            return settings.TypeWrapper[i].wrapper.clone();
        }
        i += 1;
    }
    String::from_str(cpp_type)
}

/// Whether every field of the class is public, no bit-field, and can cross.
pub fn transparent_fields(engine: &Engine, class: &UnrealClass) -> (r: bool)
    ensures
        r == fields_transparent(engine@, class@),
{
    if class.none_public_properties.len() != 0 {
        return false;
    }
    let mut k: usize = 0;
    while k < class.properties.len()
        invariant
            k <= class.properties.len(),
            class@.none_public_properties.len() == 0,
            forall|j: int|
                0 <= j < k ==> !(#[trigger] class@.properties[j]).bit_value && property_exportable(
                    engine@,
                    class@.properties[j],
                ),
        decreases class.properties.len() - k,
    {
        let p = &class.properties[k];
        if p.bit_value || !should_export_property(engine, p) {
            assert(class@.properties[k as int] == p@);
            return false;
        }
        k += 1;
    }
    true
}

/// Whether values of the type cross behind a handle.
pub fn is_opaque(type_str: &str, engine: &Engine, settings: &CustomSettings) -> (r: bool)
    ensures
        r == opaque(type_str@, engine@, settings@),
{
    if is_wrapper_type(type_str, settings) {
        return false;
    }
    if listed(&settings.ForceOpaque, type_str) {
        return true;
    }
    if is_primary(type_str) {
        return false;
    }
    if is_string_type(type_str) {
        return false;
    }
    match find_class(engine, type_str) {
        Some(class) => !transparent_fields(engine, class),
        None => true,
    }
}

/// The export entry of a class.
pub fn find_export(settings: &CustomSettings, name: &str) -> (r: Option<usize>)
    ensures
        match r {
            Some(i) => i == export_from(settings@, name@, 0),
            None => export_from(settings@, name@, 0) == -1,
        },
{
    let mut i: usize = 0;
    while i < settings.ExportClasses.len()
        invariant
            i <= settings.ExportClasses.len(),
            export_from(settings@, name@, 0) == export_from(settings@, name@, i as int),
        decreases settings.ExportClasses.len() - i,
    {
        if same(settings.ExportClasses[i].class_name.as_str(), name) {
            return Some(i);
        }
        i += 1;
    }
    None
}

/// Whether a type is a scalar or a class that the settings export.
pub fn export_type(type_str: &str, settings: &CustomSettings) -> (r: bool)
    ensures
        r == exported_type(type_str@, settings@),
{
    is_primary(type_str) || find_export(settings, type_str).is_some()
}

/// Whether the deny-list names the method.
pub fn black_api(api: &CppApi, settings: &CustomSettings) -> (r: bool)
    ensures
        r == api_denied(api@, settings@),
{
    if api.class_name.as_str().is_empty() {
        listed(&settings.BlackList, api.name.as_str())
    } else {
        let mut key = api.class_name.clone();
        key.append(".");
        key.append(api.name.as_str());
        listed(&settings.BlackList, key.as_str())
    }
}

/// Whether the deny-list names the field under its entity.
pub fn black_field(class_name: &str, field: &CppProperty, settings: &CustomSettings) -> (r: bool)
    ensures
        r == field_denied(class_name@, field@, settings@),
{
    let mut key = String::from_str(class_name);
    key.append(".");
    key.append(field.name.as_str());
    listed(&settings.BlackList, key.as_str())
}

/// Whether a result type stands for no result.
pub fn is_void(type_str: &str) -> (r: bool)
    ensures
        r == is_void_name(type_str@),
{
    same(type_str, "void") || type_str.is_empty()
}

} // verus!
