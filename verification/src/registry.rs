//! The emitter's state: the texts gathered so far, the aliases of the types
//! that cross behind a handle, and the ledger of the entities already exported.

use crate::classify::export_type;
use crate::classify::exported_type;
use crate::classify::get_wrapper_type;
use crate::classify::is_opaque;
use crate::classify::is_wrapper_name;
use crate::classify::is_wrapper_type;
use crate::classify::opaque;
use crate::classify::wrapper_name;
use crate::model::CustomSettings;
use crate::model::CustomSettingsView;
use crate::model::Engine;
use crate::model::EngineView;
use crate::primitives::is_rs_primary;
use crate::primitives::is_rs_primary_name;
use crate::text::cut;
use crate::text::find;
use crate::text::index_of;
use crate::text::lemma_views_push;
use crate::text::same;
use crate::text::views;
use vstd::prelude::*;
use vstd::string::StringExecFns;

verus! {

/// A type name with the name it has on the companion side.
#[derive(Debug, PartialEq, Eq)]
pub struct TypeImpl {
    pub name: String,
    /// The companion name: the name itself, a handle alias or a wrapper.
    pub alis: String,
    pub is_opaque: bool,
}

/// What a `TypeImpl` holds, its texts as character sequences.
pub struct TypeImplView {
    pub name: Seq<char>,
    pub alis: Seq<char>,
    pub is_opaque: bool,
}

impl TypeImplView {
    /// The value with nothing in it.
    pub open spec fn empty() -> TypeImplView {
        TypeImplView {
            name: Seq::empty(),
            alis: Seq::empty(),
            is_opaque: false,
        }
    }
}

impl View for TypeImpl {
    type V = TypeImplView;

    open spec fn view(&self) -> TypeImplView {
        TypeImplView {
            name: self.name@,
            alis: self.alis@,
            is_opaque: self.is_opaque,
        }
    }
}

impl Default for TypeImpl {
    fn default() -> (r: Self)
        ensures
            r@ == TypeImplView::empty(),
    {
        let r = TypeImpl {
            name: String::new(),
            alis: String::new(),
            is_opaque: false,
        };
        r
    }
}

impl Clone for TypeImpl {
    fn clone(&self) -> (r: Self)
        ensures
            r@ == self@,
    {
        TypeImpl {
            name: self.name.clone(),
            alis: self.alis.clone(),
            is_opaque: self.is_opaque,
        }
    }
}

/// The texts gathered during emission.
#[derive(Debug, PartialEq, Eq)]
pub struct CodeGenerator {
    pub includes: Vec<String>,
    pub header: Vec<String>,
    pub source: Vec<String>,
    pub registers: Vec<String>,
    pub api_defines: Vec<String>,
    pub rs_source: Vec<String>,
    pub rs_ffis: Vec<String>,
    /// The handle aliases made so far, one for each name.
    pub type_impl: Vec<TypeImpl>,
    /// The entities already exported: name, declaring file, opacity.
    pub exported: Vec<TypeImpl>,
    pub default_rs_header: usize,
    pub default_source_header: usize,
}

/// What a `CodeGenerator` holds, its texts as character sequences.
pub struct CodeGeneratorView {
    pub includes: Seq<Seq<char>>,
    pub header: Seq<Seq<char>>,
    pub source: Seq<Seq<char>>,
    pub registers: Seq<Seq<char>>,
    pub api_defines: Seq<Seq<char>>,
    pub rs_source: Seq<Seq<char>>,
    pub rs_ffis: Seq<Seq<char>>,
    pub type_impl: Seq<TypeImplView>,
    pub exported: Seq<TypeImplView>,
    pub default_rs_header: nat,
    pub default_source_header: nat,
}

impl View for CodeGenerator {
    type V = CodeGeneratorView;

    open spec fn view(&self) -> CodeGeneratorView {
        CodeGeneratorView {
            includes: views(self.includes@),
            header: views(self.header@),
            source: views(self.source@),
            registers: views(self.registers@),
            api_defines: views(self.api_defines@),
            rs_source: views(self.rs_source@),
            rs_ffis: views(self.rs_ffis@),
            type_impl: views(self.type_impl@),
            exported: views(self.exported@),
            default_rs_header: self.default_rs_header as nat,
            default_source_header: self.default_source_header as nat,
        }
    }
}

/// The helper type that every companion file starts with.
pub open spec fn ref_result_text() -> Seq<char> {
    "pub struct RefResult<T: Sized>{\n    t: T,\n}\nimpl<T: Sized> RefResult<T>{\n    fn new(t: T) -> Self{\n        Self { t }\n    }\n    pub fn get(&self)-> &T{\n        &self.t\n    }\n    pub fn get_mut(&mut self)-> &mut T{\n        &mut self.t\n    }\n}\nimpl<T: Sized> Deref for RefResult<T> {\n    type Target = T;\n    fn deref(&self) -> &Self::Target {\n        &self.t\n    }\n}\nimpl<T: Sized> DerefMut for RefResult<T> {\n    fn deref_mut(&mut self) -> &mut Self::Target {\n        &mut self.t\n    }\n}"@
}

impl CodeGeneratorView {
    /// The state before anything is emitted.
    pub open spec fn initial() -> CodeGeneratorView {
        CodeGeneratorView {
            includes: Seq::empty(),
            header: Seq::empty(),
            source: seq!["#include \"Binder.h\""@, "extern \"C\"{"@],
            registers: seq![
                "\r\n\tauto const api_create_native_string = (create_native_string_handler)plugin->GetDllExport(TEXT(\"create_native_string\\0\"));"@,
                "\tif(api_create_native_string){ create_native_string = api_create_native_string; }"@,
                "\t\n\tauto const api_reset_rust_string = (reset_rust_string_handler)plugin->GetDllExport(TEXT(\"reset_rust_string\\0\"));"@,
                "\tif(api_reset_rust_string){ reset_rust_string = api_reset_rust_string; }"@,
            ],
            api_defines: Seq::empty(),
            rs_source: seq![
                "#![allow(non_snake_case)]"@,
                "#![allow(non_upper_case_globals)]"@,
                "#![allow(non_camel_case_types)]"@,
                "#![allow(dead_code)]"@,
                "#![allow(unused_imports)]"@,
                "use std::{ffi::{c_void, CString}, os::raw::c_char, ops::{Deref, DerefMut}};"@,
                "use ffis::*;"@,
                ref_result_text(),
            ],
            rs_ffis: seq!["mod ffis{"@, "\tuse super::*;"@],
            type_impl: Seq::empty(),
            exported: Seq::empty(),
            default_rs_header: 8,
            default_source_header: 1,
        }
    }
}

impl Default for CodeGenerator {
    fn default() -> (r: Self)
        ensures
            r@ == CodeGeneratorView::initial(),
    {
        let mut source: Vec<String> = Vec::new();
        source.push(String::from_str("#include \"Binder.h\""));
        source.push(String::from_str("extern \"C\"{"));
        let mut registers: Vec<String> = Vec::new();
        registers.push(
            String::from_str(
                "\r\n\tauto const api_create_native_string = (create_native_string_handler)plugin->GetDllExport(TEXT(\"create_native_string\\0\"));",
            ),
        );
        registers.push(
            String::from_str(
                "\tif(api_create_native_string){ create_native_string = api_create_native_string; }",
            ),
        );
        registers.push(
            String::from_str(
                "\t\n\tauto const api_reset_rust_string = (reset_rust_string_handler)plugin->GetDllExport(TEXT(\"reset_rust_string\\0\"));",
            ),
        );
        registers.push(
            String::from_str(
                "\tif(api_reset_rust_string){ reset_rust_string = api_reset_rust_string; }",
            ),
        );
        let mut rs_source: Vec<String> = Vec::new();
        rs_source.push(String::from_str("#![allow(non_snake_case)]"));
        rs_source.push(String::from_str("#![allow(non_upper_case_globals)]"));
        rs_source.push(String::from_str("#![allow(non_camel_case_types)]"));
        rs_source.push(String::from_str("#![allow(dead_code)]"));
        rs_source.push(String::from_str("#![allow(unused_imports)]"));
        rs_source.push(
            String::from_str(
                "use std::{ffi::{c_void, CString}, os::raw::c_char, ops::{Deref, DerefMut}};",
            ),
        );
        rs_source.push(String::from_str("use ffis::*;"));
        rs_source.push(
            String::from_str(
                "pub struct RefResult<T: Sized>{\n    t: T,\n}\nimpl<T: Sized> RefResult<T>{\n    fn new(t: T) -> Self{\n        Self { t }\n    }\n    pub fn get(&self)-> &T{\n        &self.t\n    }\n    pub fn get_mut(&mut self)-> &mut T{\n        &mut self.t\n    }\n}\nimpl<T: Sized> Deref for RefResult<T> {\n    type Target = T;\n    fn deref(&self) -> &Self::Target {\n        &self.t\n    }\n}\nimpl<T: Sized> DerefMut for RefResult<T> {\n    fn deref_mut(&mut self) -> &mut Self::Target {\n        &mut self.t\n    }\n}",
            ),
        );
        let mut rs_ffis: Vec<String> = Vec::new();
        rs_ffis.push(String::from_str("mod ffis{"));
        rs_ffis.push(String::from_str("\tuse super::*;"));
        let r = CodeGenerator {
            includes: Vec::new(),
            header: Vec::new(),
            source,
            registers,
            api_defines: Vec::new(),
            rs_source,
            rs_ffis,
            type_impl: Vec::new(),
            exported: Vec::new(),
            default_rs_header: 8,
            default_source_header: 1,
        };
        assert(r@.includes =~= Seq::empty());
        assert(r@.header =~= Seq::empty());
        assert(r@.api_defines =~= Seq::empty());
        assert(r@.type_impl =~= Seq::empty());
        assert(r@.exported =~= Seq::empty());
        assert(r@.source =~= CodeGeneratorView::initial().source);
        assert(r@.registers =~= CodeGeneratorView::initial().registers);
        assert(r@.rs_source =~= CodeGeneratorView::initial().rs_source);
        assert(r@.rs_ffis =~= CodeGeneratorView::initial().rs_ffis);
        r
    }
}

/// The part of a type name before the word `Opaque`, or all of it.
pub open spec fn base_name(t: Seq<char>) -> Seq<char> {
    let i = index_of(t, "Opaque"@);
    if i >= 0 {
        t.subrange(0, i)
    } else {
        t
    }
}

/// A type that crosses under its own name: one the settings export and that
/// is transparent.
pub open spec fn crosses_by_value(t: Seq<char>, engine: EngineView, settings: CustomSettingsView) -> bool {
    exported_type(t, settings) && !opaque(t, engine, settings)
}

/// Whether a native type name gets a handle alias.
pub open spec fn needs_alias(t: Seq<char>, engine: EngineView, settings: CustomSettingsView) -> bool {
    !crosses_by_value(t, engine, settings) && !is_wrapper_name(settings, t)
}

/// The handle alias of a type name.
pub open spec fn handle_alias(t: Seq<char>) -> TypeImplView {
    TypeImplView { name: base_name(t), alis: base_name(t) + "Opaque"@, is_opaque: true }
}

/// How a native type is named on the companion side.
pub open spec fn type_impl_of(t: Seq<char>, engine: EngineView, settings: CustomSettingsView) -> TypeImplView {
    if crosses_by_value(t, engine, settings) {
        TypeImplView { name: t, alis: t, is_opaque: false }
    } else if is_wrapper_name(settings, t) {
        TypeImplView { name: t, alis: wrapper_name(settings, t), is_opaque: false }
    } else {
        handle_alias(t)
    }
}

/// Whether a companion type name needs no lookup: the unit type, `String`
/// or a scalar.
pub open spec fn is_plain_rs(t: Seq<char>) -> bool {
    t == "()"@ || t == "String"@ || is_rs_primary_name(t)
}

/// How a companion type name is written in a signature.
pub open spec fn rs_type_impl_of(t: Seq<char>, engine: EngineView, settings: CustomSettingsView) -> TypeImplView {
    if t == "()"@ {
        TypeImplView { name: t, alis: "c_void"@, is_opaque: false }
    } else if t == "String"@ || is_rs_primary_name(t) {
        TypeImplView { name: t, alis: t, is_opaque: false }
    } else {
        type_impl_of(t, engine, settings)
    }
}

/// Whether an alias was made for the name.
pub open spec fn has_alias(reg: Seq<TypeImplView>, name: Seq<char>) -> bool {
    exists|i: int| 0 <= i < reg.len() && #[trigger] reg[i].name == name
}

/// The aliases after a native type name was looked up.
pub open spec fn registry_after(
    reg: Seq<TypeImplView>,
    t: Seq<char>,
    engine: EngineView,
    settings: CustomSettingsView,
) -> Seq<TypeImplView> {
    if needs_alias(t, engine, settings) && !has_alias(reg, base_name(t)) {
        reg.push(handle_alias(t))
    } else {
        reg
    }
}

/// The aliases after a companion type name was looked up.
pub open spec fn rs_registry_after(
    reg: Seq<TypeImplView>,
    t: Seq<char>,
    engine: EngineView,
    settings: CustomSettingsView,
) -> Seq<TypeImplView> {
    if is_plain_rs(t) {
        reg
    } else {
        registry_after(reg, t, engine, settings)
    }
}

pub fn registered(reg: &Vec<TypeImpl>, name: &str) -> (r: bool)
    ensures
        r == has_alias(views(reg@), name@),
{
    let mut i: usize = 0;
    while i < reg.len()
        invariant
            i <= reg.len(),
            forall|k: int| 0 <= k < i ==> views(reg@)[k].name != name@,
        decreases reg.len() - i,
    {
        if same(reg[i].name.as_str(), name) {
            assert(views(reg@)[i as int].name == name@);
            return true;
        }
        i += 1;
    }
    false
}

/// The part of a type name before the word `Opaque`, or all of it.
pub fn base_of(type_str: &str) -> (r: String)
    ensures
        r@ == base_name(type_str@),
{
    match find(type_str, "Opaque") {
        Some(i) => {
            proof {
                crate::text::lemma_index_from(type_str@, "Opaque"@, 0);
            }
            cut(type_str, 0, i)
        },
        None => String::from_str(type_str),
    }
}

/// How a native type is named on the companion side.
pub fn type_of(type_str: &str, engine: &Engine, settings: &CustomSettings) -> (r: TypeImpl)
    ensures
        r@ == type_impl_of(type_str@, engine@, settings@),
        r.is_opaque == needs_alias(type_str@, engine@, settings@),
{
    if export_type(type_str, settings) && !is_opaque(type_str, engine, settings) {
        return TypeImpl {
            name: String::from_str(type_str),
            alis: String::from_str(type_str),
            is_opaque: false,
        };
    }
    if is_wrapper_type(type_str, settings) {
        return TypeImpl {
            name: String::from_str(type_str),
            alis: get_wrapper_type(type_str, settings),
            is_opaque: false,
        };
    }
    let base = base_of(type_str);
    let mut alis = base.clone();
    alis.append("Opaque");
    TypeImpl { name: base, alis, is_opaque: true }
}

/// Whether a companion type name needs no lookup.
pub fn plain_rs(type_str: &str) -> (r: bool)
    ensures
        r == is_plain_rs(type_str@),
{
    same(type_str, "()") || same(type_str, "String") || is_rs_primary(type_str)
}

/// How a companion type name is written in a signature.
pub fn rs_type_of(type_str: &str, engine: &Engine, settings: &CustomSettings) -> (r: TypeImpl)
    ensures
        r@ == rs_type_impl_of(type_str@, engine@, settings@),
{
    if same(type_str, "()") {
        return TypeImpl {
            name: String::from_str(type_str),
            alis: String::from_str("c_void"),
            is_opaque: false,
        };
    }
    if same(type_str, "String") || is_rs_primary(type_str) {
        return TypeImpl {
            name: String::from_str(type_str),
            alis: String::from_str(type_str),
            is_opaque: false,
        };
    }
    type_of(type_str, engine, settings)
}

impl CodeGenerator {
    /// How a companion type name is written in a signature; a type that
    /// crosses behind a handle gets its alias, made on first use.
    pub fn insert_rs_type(&mut self, type_str: &str, engine: &Engine, settings: &CustomSettings) -> (r:
        TypeImpl)
        ensures
            r@ == rs_type_impl_of(type_str@, engine@, settings@),
            final(self)@ == (CodeGeneratorView {
                type_impl: rs_registry_after(old(self)@.type_impl, type_str@, engine@, settings@),
                ..old(self)@
            }),
    {
        if plain_rs(type_str) {
            return rs_type_of(type_str, engine, settings);
        }
        self.insert_type(type_str, engine, settings)
    }

    /// How a native type is named on the companion side; a type that crosses
    /// behind a handle gets its alias, made on first use.
    pub fn insert_type(&mut self, type_str: &str, engine: &Engine, settings: &CustomSettings) -> (r:
        TypeImpl)
        ensures
            r@ == type_impl_of(type_str@, engine@, settings@),
            final(self)@ == (CodeGeneratorView {
                type_impl: registry_after(old(self)@.type_impl, type_str@, engine@, settings@),
                ..old(self)@
            }),
    {
        let tp = type_of(type_str, engine, settings);
        if tp.is_opaque && !registered(&self.type_impl, tp.name.as_str()) {
            let stored = tp.clone();
            proof {
                lemma_views_push(self.type_impl@, stored);
            }
            self.type_impl.push(stored);
        }
        tp
    }
}

} // verus!
