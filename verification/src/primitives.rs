//! The scalar types that both sides understand without translation, and the
//! engine's string kinds.

use crate::model::ValueType;
use crate::text::same;
use vstd::prelude::*;
use vstd::string::StringExecFns;

verus! {

/// The companion name and category of a native scalar type, by its exact
/// native name.
pub open spec fn native_scalar(key: Seq<char>) -> Option<(Seq<char>, ValueType)> {
    if key == "int32"@ {
        Some(("i32"@, ValueType::I32))
    } else if key == "int64"@ {
        Some(("i64"@, ValueType::I64))
    } else if key == "uint32"@ {
        Some(("u32"@, ValueType::U32))
    } else if key == "uint64"@ {
        Some(("u64"@, ValueType::U64))
    } else if key == "size_t"@ {
        Some(("usize"@, ValueType::Usize))
    } else if key == "float"@ {
        Some(("f32"@, ValueType::F32))
    } else if key == "double"@ {
        Some(("f64"@, ValueType::F64))
    } else if key == "int16"@ {
        Some(("i16"@, ValueType::I16))
    } else if key == "uint16"@ {
        Some(("u16"@, ValueType::U16))
    } else if key == "uint8"@ {
        Some(("u8"@, ValueType::U8))
    } else if key == "int8"@ {
        Some(("i8"@, ValueType::I8))
    } else if key == "bool"@ {
        Some(("bool"@, ValueType::Bool))
    } else if key == "void"@ {
        Some(("()"@, ValueType::Void))
    } else {
        None
    }
}

/// The scalar that a native name stands for: the name itself, or else the
/// name with `_t` behind it.
pub open spec fn scalar_of(key: Seq<char>) -> Option<(Seq<char>, ValueType)> {
    match native_scalar(key) {
        Some(e) => Some(e),
        None => native_scalar(key + "_t"@),
    }
}

/// Whether a native name stands for a scalar.
pub open spec fn is_primary_name(t: Seq<char>) -> bool {
    scalar_of(t) is Some
}

/// Whether a companion name is that of a scalar.
pub open spec fn is_rs_primary_name(t: Seq<char>) -> bool {
    t == "i32"@ || t == "i64"@ || t == "u32"@ || t == "u64"@ || t == "usize"@ || t == "f32"@ || t
        == "f64"@ || t == "i16"@ || t == "u16"@ || t == "u8"@ || t == "i8"@ || t == "bool"@ || t
        == "()"@
}

/// The string kinds that cross as text.
pub open spec fn is_string_name(t: Seq<char>) -> bool {
    t == "FString"@ || t == "FText"@
}

/// The category of an engine string type or of a C string, all of which the
/// companion side holds as `String`.
pub open spec fn engine_string(t: Seq<char>) -> Option<ValueType> {
    if t == "FName"@ {
        Some(ValueType::FName)
    } else if t == "FText"@ {
        Some(ValueType::FText)
    } else if t == "FString"@ {
        Some(ValueType::FString)
    } else if t == "char*"@ || t == "const char*"@ {
        Some(ValueType::CStr)
    } else {
        None
    }
}

/// The companion name and the category of any native type name: a scalar, a
/// string, or else an object under its own name.
pub open spec fn resolved(t: Seq<char>) -> (Seq<char>, ValueType) {
    match scalar_of(t) {
        Some(e) => e,
        None => match engine_string(t) {
            Some(k) => ("String"@, k),
            None => (t, ValueType::Object),
        },
    }
}

/// The entry of a native scalar by its exact name.
fn native_scalar_entry(key: &str) -> (r: Option<(String, ValueType)>)
    ensures
        match r {
            Some(e) => native_scalar(key@) == Some((e.0@, e.1)),
            None => native_scalar(key@) is None,
        },
{
    if same(key, "int32") {
        Some((String::from_str("i32"), ValueType::I32))
    } else if same(key, "int64") {
        Some((String::from_str("i64"), ValueType::I64))
    } else if same(key, "uint32") {
        Some((String::from_str("u32"), ValueType::U32))
    } else if same(key, "uint64") {
        Some((String::from_str("u64"), ValueType::U64))
    } else if same(key, "size_t") {
        Some((String::from_str("usize"), ValueType::Usize))
    } else if same(key, "float") {
        Some((String::from_str("f32"), ValueType::F32))
    } else if same(key, "double") {
        Some((String::from_str("f64"), ValueType::F64))
    } else if same(key, "int16") {
        Some((String::from_str("i16"), ValueType::I16))
    } else if same(key, "uint16") {
        Some((String::from_str("u16"), ValueType::U16))
    } else if same(key, "uint8") {
        Some((String::from_str("u8"), ValueType::U8))
    } else if same(key, "int8") {
        Some((String::from_str("i8"), ValueType::I8))
    } else if same(key, "bool") {
        Some((String::from_str("bool"), ValueType::Bool))
    } else if same(key, "void") {
        Some((String::from_str("()"), ValueType::Void))
    } else {
        None
    }
}

/// The companion name and category of the scalar that a native name stands
/// for, if it stands for one.
pub fn get_c2r_types(key: &str) -> (r: Option<(String, ValueType)>)
    ensures
        match r {
            Some(e) => scalar_of(key@) == Some((e.0@, e.1)),
            None => scalar_of(key@) is None,
        },
{
    match native_scalar_entry(key) {
        Some(e) => Some(e),
        None => {
            let mut longer = String::from_str(key);
            longer.append("_t");
            native_scalar_entry(longer.as_str())
        },
    }
}

/// Whether a native name stands for a scalar.
pub fn is_primary(type_str: &str) -> (r: bool)
    ensures
        r == is_primary_name(type_str@),
{
    get_c2r_types(type_str).is_some()
}

/// Whether a companion name is that of a scalar.
pub fn is_rs_primary(type_str: &str) -> (r: bool)
    ensures
        r == is_rs_primary_name(type_str@),
{
    same(type_str, "i32") || same(type_str, "i64") || same(type_str, "u32") || same(type_str, "u64")
        || same(type_str, "usize") || same(type_str, "f32") || same(type_str, "f64") || same(
        type_str,
        "i16",
    ) || same(type_str, "u16") || same(type_str, "u8") || same(type_str, "i8") || same(
        type_str,
        "bool",
    ) || same(type_str, "()")
}

/// Whether a native type is one of the string kinds that cross as text.
pub fn is_string_type(cpp_type: &str) -> (r: bool)
    ensures
        r == is_string_name(cpp_type@),
{
    same(cpp_type, "FString") || same(cpp_type, "FText")
}

/// The companion name and the category of an engine string type or a C
/// string.
pub fn get_engine_str(type_str: &str) -> (r: Option<(String, ValueType)>)
    ensures
        match r {
            Some(e) => e.0@ == "String"@ && engine_string(type_str@) == Some(e.1),
            None => engine_string(type_str@) is None,
        },
{
    if same(type_str, "FName") {
        Some((String::from_str("String"), ValueType::FName))
    } else if same(type_str, "FText") {
        Some((String::from_str("String"), ValueType::FText))
    } else if same(type_str, "FString") {
        Some((String::from_str("String"), ValueType::FString))
    } else if same(type_str, "char*") || same(type_str, "const char*") {
        Some((String::from_str("String"), ValueType::CStr))
    } else {
        None
    }
}

/// A native type as an object under its own name.
pub fn get_object_type(type_str: &str) -> (r: (String, ValueType))
    ensures
        r.0@ == type_str@,
        r.1 == ValueType::Object,
{
    (String::from_str(type_str), ValueType::Object)
}

/// The companion name and the category of a native type name.
pub fn parse_c_type(type_str: &str) -> (r: (String, ValueType))
    ensures
        (r.0@, r.1) == resolved(type_str@),
{
    match get_c2r_types(type_str) {
        Some(e) => e,
        None => match get_engine_str(type_str) {
            Some(e) => e,
            None => get_object_type(type_str),
        },
    }
}

} // verus!
