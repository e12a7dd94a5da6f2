//! The structural model of the engine's headers and the generator's settings.
//!
//! Each type has a view that holds its texts as character sequences; the
//! contracts of the other modules speak of the views only.

use crate::text::lemma_views_push;
use crate::text::views;
use vstd::prelude::*;

verus! {

/// How a type is represented when a value of it crosses the boundary.
#[derive(Debug, Clone, Copy, PartialEq, Eq, Structural)]
pub enum ValueType {
    I32,
    U32,
    U64,
    I64,
    Usize,
    F32,
    F64,
    I16,
    U16,
    U8,
    I8,
    Bool,
    Void,
    CStr,
    Ptr,
    FName,
    FString,
    Object,
    FText,
    Undefined,
}

impl ValueType {
    /// The number under which the category is stored in the model.
    pub open spec fn spec_code(self) -> int {
        match self {
            ValueType::I32 => 0,
            ValueType::U32 => 1,
            ValueType::U64 => 2,
            ValueType::I64 => 3,
            ValueType::Usize => 4,
            ValueType::F32 => 5,
            ValueType::F64 => 6,
            ValueType::I16 => 7,
            ValueType::U16 => 8,
            ValueType::U8 => 9,
            ValueType::I8 => 10,
            ValueType::Bool => 11,
            ValueType::Void => 12,
            ValueType::CStr => 13,
            ValueType::Ptr => 14,
            ValueType::FName => 15,
            ValueType::FString => 16,
            ValueType::Object => 17,
            ValueType::FText => 18,
            ValueType::Undefined => 25,
        }
    }

    /// The category stored under a number; every unused number is `Undefined`.
    pub open spec fn spec_from(v: int) -> ValueType {
        if v == 0 {
            ValueType::I32
        } else if v == 1 {
            ValueType::U32
        } else if v == 2 {
            ValueType::U64
        } else if v == 3 {
            ValueType::I64
        } else if v == 4 {
            ValueType::Usize
        } else if v == 5 {
            ValueType::F32
        } else if v == 6 {
            ValueType::F64
        } else if v == 7 {
            ValueType::I16
        } else if v == 8 {
            ValueType::U16
        } else if v == 9 {
            ValueType::U8
        } else if v == 10 {
            ValueType::I8
        } else if v == 11 {
            ValueType::Bool
        } else if v == 12 {
            ValueType::Void
        } else if v == 13 {
            ValueType::CStr
        } else if v == 14 {
            ValueType::Ptr
        } else if v == 15 {
            ValueType::FName
        } else if v == 16 {
            ValueType::FString
        } else if v == 17 {
            ValueType::Object
        } else if v == 18 {
            ValueType::FText
        } else {
            ValueType::Undefined
        }
    }

    /// The number under which the category is stored in the model.
    pub fn code(self) -> (r: i32)
        ensures
            r == self.spec_code(),
    {
        match self {
            ValueType::I32 => 0,
            ValueType::U32 => 1,
            ValueType::U64 => 2,
            ValueType::I64 => 3,
            ValueType::Usize => 4,
            ValueType::F32 => 5,
            ValueType::F64 => 6,
            ValueType::I16 => 7,
            ValueType::U16 => 8,
            ValueType::U8 => 9,
            ValueType::I8 => 10,
            ValueType::Bool => 11,
            ValueType::Void => 12,
            ValueType::CStr => 13,
            ValueType::Ptr => 14,
            ValueType::FName => 15,
            ValueType::FString => 16,
            ValueType::Object => 17,
            ValueType::FText => 18,
            ValueType::Undefined => 25,
        }
    }

    /// Whether the category is the one stored under `other`.
    pub fn eq_code(self, other: i32) -> (r: bool)
        ensures
            r == (self == ValueType::spec_from(other as int)),
    {
        self == ValueType::from(other)
    }
}

impl From<i32> for ValueType {
    fn from(v: i32) -> (r: Self)
        ensures
            r == ValueType::spec_from(v as int),
    {
        match v {
            0 => ValueType::I32,
            1 => ValueType::U32,
            2 => ValueType::U64,
            3 => ValueType::I64,
            4 => ValueType::Usize,
            5 => ValueType::F32,
            6 => ValueType::F64,
            7 => ValueType::I16,
            8 => ValueType::U16,
            9 => ValueType::U8,
            10 => ValueType::I8,
            11 => ValueType::Bool,
            12 => ValueType::Void,
            13 => ValueType::CStr,
            14 => ValueType::Ptr,
            15 => ValueType::FName,
            16 => ValueType::FString,
            17 => ValueType::Object,
            18 => ValueType::FText,
            _ => ValueType::Undefined,
        }
    }
}

impl vstd::std_specs::convert::FromSpecImpl<i32> for ValueType {
    open spec fn obeys_from_spec() -> bool {
        true
    }

    open spec fn from_spec(v: i32) -> ValueType {
        ValueType::spec_from(v as int)
    }
}

/// The number a category is stored under leads back to the category.
pub proof fn lemma_code_round_trip(v: ValueType)
    ensures
        ValueType::spec_from(v.spec_code()) == v,
{
}

/// True exactly when the flag is unset.
pub fn is_false(val: &bool) -> (r: bool)
    ensures
        r == !*val,
{
    !*val
}

/// The characters of a text, if there is one.
pub open spec fn opt_view(o: Option<String>) -> Option<Seq<char>> {
    match o {
        Some(s) => Some(s@),
        None => None,
    }
}


/// A copy of a text, if there is one.
pub fn clone_opt(o: &Option<String>) -> (r: Option<String>)
    ensures
        opt_view(r) == opt_view(*o),
{
    match o {
        Some(s) => Some(s.clone()),
        None => None,
    }
}

/// A copy of a list of texts.
pub fn clone_strings(v: &Vec<String>) -> (r: Vec<String>)
    ensures
        views(r@) == views(v@),
{
    let mut out: Vec<String> = Vec::new();
    let mut i: usize = 0;
    while i < v.len()
        invariant
            i <= v.len(),
            views(out@) == views(v@).take(i as int),
        decreases v.len() - i,
    {
        let item = v[i].clone();
        proof {
            lemma_views_push(out@, item);
            assert(views(v@).take(i + 1) =~= views(v@).take(i as int).push(v@[i as int]@));
        }
        out.push(item);
        i += 1;
    }
    assert(views(v@).take(v.len() as int) =~= views(v@));
    out
}


/// One parameter of a method.
#[derive(Debug, PartialEq, Eq)]
pub struct Parameter {
    pub const_param: bool,
    pub ref_param: bool,
    pub move_param: bool,
    pub ptr_param: bool,
    pub is_generic: bool,
    /// The number of the crossing category.
    pub param_type: i32,
    pub name: String,
    /// The type as the header spells it.
    pub type_str: String,
    /// The type as the companion side spells it.
    pub r_type: String,
    pub default_value: Option<String>,
}

/// What a `Parameter` holds, its texts as character sequences.
pub struct ParameterView {
    pub const_param: bool,
    pub ref_param: bool,
    pub move_param: bool,
    pub ptr_param: bool,
    pub is_generic: bool,
    pub param_type: int,
    pub name: Seq<char>,
    pub type_str: Seq<char>,
    pub r_type: Seq<char>,
    pub default_value: Option<Seq<char>>,
}

impl ParameterView {
    /// The value with nothing in it.
    pub open spec fn empty() -> ParameterView {
        ParameterView {
            const_param: false,
            ref_param: false,
            move_param: false,
            ptr_param: false,
            is_generic: false,
            param_type: 0,
            name: Seq::empty(),
            type_str: Seq::empty(),
            r_type: Seq::empty(),
            default_value: None,
        }
    }
}

impl View for Parameter {
    type V = ParameterView;

    open spec fn view(&self) -> ParameterView {
        ParameterView {
            const_param: self.const_param,
            ref_param: self.ref_param,
            move_param: self.move_param,
            ptr_param: self.ptr_param,
            is_generic: self.is_generic,
            param_type: self.param_type as int,
            name: self.name@,
            type_str: self.type_str@,
            r_type: self.r_type@,
            default_value: opt_view(self.default_value),
        }
    }
}

impl Default for Parameter {
    fn default() -> (r: Self)
        ensures
            r@ == ParameterView::empty(),
    {
        let r = Parameter {
            const_param: false,
            ref_param: false,
            move_param: false,
            ptr_param: false,
            is_generic: false,
            param_type: 0,
            name: String::new(),
            type_str: String::new(),
            r_type: String::new(),
            default_value: None,
        };
        r
    }
}

impl Clone for Parameter {
    fn clone(&self) -> (r: Self)
        ensures
            r@ == self@,
    {
        Parameter {
            const_param: self.const_param,
            ref_param: self.ref_param,
            move_param: self.move_param,
            ptr_param: self.ptr_param,
            is_generic: self.is_generic,
            param_type: self.param_type,
            name: self.name.clone(),
            type_str: self.type_str.clone(),
            r_type: self.r_type.clone(),
            default_value: clone_opt(&self.default_value),
        }
    }
}

/// A copy of a list, element by element.
pub fn clone_parameter_list(v: &Vec<Parameter>) -> (r: Vec<Parameter>)
    ensures
        views(r@) == views(v@),
{
    let mut out: Vec<Parameter> = Vec::new();
    let mut i: usize = 0;
    while i < v.len()
        invariant
            i <= v.len(),
            views(out@) == views(v@).take(i as int),
        decreases v.len() - i,
    {
        let item = v[i].clone();
        proof {
            lemma_views_push(out@, item);
            assert(views(v@).take(i + 1) =~= views(v@).take(i as int).push(v@[i as int]@));
        }
        out.push(item);
        i += 1;
    }
    assert(views(v@).take(v.len() as int) =~= views(v@));
    out
}

/// A method, a constructor or a free function.
#[derive(Debug, PartialEq, Eq)]
pub struct CppApi {
    /// The number of the crossing category of the result.
    pub return_type: i32,
    pub is_static: bool,
    pub is_const: bool,
    pub is_virtual: bool,
    pub is_override: bool,
    pub is_construstor: bool,
    pub is_destructor: bool,
    pub is_generic: bool,
    pub ptr_ret: bool,
    pub const_ret: bool,
    pub ref_ret: bool,
    pub invalid: bool,
    /// The entity that owns the method; empty for a free function.
    pub class_name: String,
    pub name: String,
    pub parameters: Vec<Parameter>,
    /// The result type as the header spells it.
    pub rc_type: String,
    /// The result type as the companion side spells it.
    pub r_type: String,
    pub function_block: Option<String>,
}

/// What a `CppApi` holds, its texts as character sequences.
pub struct CppApiView {
    pub return_type: int,
    pub is_static: bool,
    pub is_const: bool,
    pub is_virtual: bool,
    pub is_override: bool,
    pub is_construstor: bool,
    pub is_destructor: bool,
    pub is_generic: bool,
    pub ptr_ret: bool,
    pub const_ret: bool,
    pub ref_ret: bool,
    pub invalid: bool,
    pub class_name: Seq<char>,
    pub name: Seq<char>,
    pub parameters: Seq<ParameterView>,
    pub rc_type: Seq<char>,
    pub r_type: Seq<char>,
    pub function_block: Option<Seq<char>>,
}

impl CppApiView {
    /// The value with nothing in it.
    pub open spec fn empty() -> CppApiView {
        CppApiView {
            return_type: 0,
            is_static: false,
            is_const: false,
            is_virtual: false,
            is_override: false,
            is_construstor: false,
            is_destructor: false,
            is_generic: false,
            ptr_ret: false,
            const_ret: false,
            ref_ret: false,
            invalid: false,
            class_name: Seq::empty(),
            name: Seq::empty(),
            parameters: Seq::empty(),
            rc_type: Seq::empty(),
            r_type: Seq::empty(),
            function_block: None,
        }
    }
}

impl View for CppApi {
    type V = CppApiView;

    open spec fn view(&self) -> CppApiView {
        CppApiView {
            return_type: self.return_type as int,
            is_static: self.is_static,
            is_const: self.is_const,
            is_virtual: self.is_virtual,
            is_override: self.is_override,
            is_construstor: self.is_construstor,
            is_destructor: self.is_destructor,
            is_generic: self.is_generic,
            ptr_ret: self.ptr_ret,
            const_ret: self.const_ret,
            ref_ret: self.ref_ret,
            invalid: self.invalid,
            class_name: self.class_name@,
            name: self.name@,
            parameters: views(self.parameters@),
            rc_type: self.rc_type@,
            r_type: self.r_type@,
            function_block: opt_view(self.function_block),
        }
    }
}

impl Default for CppApi {
    fn default() -> (r: Self)
        ensures
            r@ == CppApiView::empty(),
    {
        let r = CppApi {
            return_type: 0,
            is_static: false,
            is_const: false,
            is_virtual: false,
            is_override: false,
            is_construstor: false,
            is_destructor: false,
            is_generic: false,
            ptr_ret: false,
            const_ret: false,
            ref_ret: false,
            invalid: false,
            class_name: String::new(),
            name: String::new(),
            parameters: Vec::new(),
            rc_type: String::new(),
            r_type: String::new(),
            function_block: None,
        };
        assert(views(r.parameters@) =~= Seq::empty());
        r
    }
}

impl Clone for CppApi {
    fn clone(&self) -> (r: Self)
        ensures
            r@ == self@,
    {
        CppApi {
            return_type: self.return_type,
            is_static: self.is_static,
            is_const: self.is_const,
            is_virtual: self.is_virtual,
            is_override: self.is_override,
            is_construstor: self.is_construstor,
            is_destructor: self.is_destructor,
            is_generic: self.is_generic,
            ptr_ret: self.ptr_ret,
            const_ret: self.const_ret,
            ref_ret: self.ref_ret,
            invalid: self.invalid,
            class_name: self.class_name.clone(),
            name: self.name.clone(),
            parameters: clone_parameter_list(&self.parameters),
            rc_type: self.rc_type.clone(),
            r_type: self.r_type.clone(),
            function_block: clone_opt(&self.function_block),
        }
    }
}

/// A copy of a list, element by element.
pub fn clone_cpp_api_list(v: &Vec<CppApi>) -> (r: Vec<CppApi>)
    ensures
        views(r@) == views(v@),
{
    let mut out: Vec<CppApi> = Vec::new();
    let mut i: usize = 0;
    while i < v.len()
        invariant
            i <= v.len(),
            views(out@) == views(v@).take(i as int),
        decreases v.len() - i,
    {
        let item = v[i].clone();
        proof {
            lemma_views_push(out@, item);
            assert(views(v@).take(i + 1) =~= views(v@).take(i as int).push(v@[i as int]@));
        }
        out.push(item);
        i += 1;
    }
    assert(views(v@).take(v.len() as int) =~= views(v@));
    out
}

/// A list of parameters.
#[derive(Debug, PartialEq, Eq)]
pub struct Parameters {
    pub parameters: Vec<Parameter>,
}

/// What a `Parameters` holds, its texts as character sequences.
pub struct ParametersView {
    pub parameters: Seq<ParameterView>,
}

impl ParametersView {
    /// The value with nothing in it.
    pub open spec fn empty() -> ParametersView {
        ParametersView {
            parameters: Seq::empty(),
        }
    }
}

impl View for Parameters {
    type V = ParametersView;

    open spec fn view(&self) -> ParametersView {
        ParametersView {
            parameters: views(self.parameters@),
        }
    }
}

impl Default for Parameters {
    fn default() -> (r: Self)
        ensures
            r@ == ParametersView::empty(),
    {
        let r = Parameters {
            parameters: Vec::new(),
        };
        assert(views(r.parameters@) =~= Seq::empty());
        r
    }
}

impl Clone for Parameters {
    fn clone(&self) -> (r: Self)
        ensures
            r@ == self@,
    {
        Parameters {
            parameters: clone_parameter_list(&self.parameters),
        }
    }
}

/// A copy of a list, element by element.
pub fn clone_parameters_list(v: &Vec<Parameters>) -> (r: Vec<Parameters>)
    ensures
        views(r@) == views(v@),
{
    let mut out: Vec<Parameters> = Vec::new();
    let mut i: usize = 0;
    while i < v.len()
        invariant
            i <= v.len(),
            views(out@) == views(v@).take(i as int),
        decreases v.len() - i,
    {
        let item = v[i].clone();
        proof {
            lemma_views_push(out@, item);
            assert(views(v@).take(i + 1) =~= views(v@).take(i as int).push(v@[i as int]@));
        }
        out.push(item);
        i += 1;
    }
    assert(views(v@).take(v.len() as int) =~= views(v@));
    out
}

/// The name of an entity that crosses as a handle.
#[derive(Debug, PartialEq, Eq)]
pub struct CppClass {
    pub name: String,
}

/// What a `CppClass` holds, its texts as character sequences.
pub struct CppClassView {
    pub name: Seq<char>,
}

impl CppClassView {
    /// The value with nothing in it.
    pub open spec fn empty() -> CppClassView {
        CppClassView {
            name: Seq::empty(),
        }
    }
}

impl View for CppClass {
    type V = CppClassView;

    open spec fn view(&self) -> CppClassView {
        CppClassView {
            name: self.name@,
        }
    }
}

impl Default for CppClass {
    fn default() -> (r: Self)
        ensures
            r@ == CppClassView::empty(),
    {
        let r = CppClass {
            name: String::new(),
        };
        r
    }
}

impl Clone for CppClass {
    fn clone(&self) -> (r: Self)
        ensures
            r@ == self@,
    {
        CppClass {
            name: self.name.clone(),
        }
    }
}

/// A copy of a list, element by element.
pub fn clone_cpp_class_list(v: &Vec<CppClass>) -> (r: Vec<CppClass>)
    ensures
        views(r@) == views(v@),
{
    let mut out: Vec<CppClass> = Vec::new();
    let mut i: usize = 0;
    while i < v.len()
        invariant
            i <= v.len(),
            views(out@) == views(v@).take(i as int),
        decreases v.len() - i,
    {
        let item = v[i].clone();
        proof {
            lemma_views_push(out@, item);
            assert(views(v@).take(i + 1) =~= views(v@).take(i as int).push(v@[i as int]@));
        }
        out.push(item);
        i += 1;
    }
    assert(views(v@).take(v.len() as int) =~= views(v@));
    out
}

/// One constant of an enumeration.
#[derive(Debug, PartialEq, Eq)]
pub struct CppEnumConstant {
    pub name: String,
    pub value: i32,
}

/// What a `CppEnumConstant` holds, its texts as character sequences.
pub struct CppEnumConstantView {
    pub name: Seq<char>,
    pub value: int,
}

impl CppEnumConstantView {
    /// The value with nothing in it.
    pub open spec fn empty() -> CppEnumConstantView {
        CppEnumConstantView {
            name: Seq::empty(),
            value: 0,
        }
    }
}

impl View for CppEnumConstant {
    type V = CppEnumConstantView;

    open spec fn view(&self) -> CppEnumConstantView {
        CppEnumConstantView {
            name: self.name@,
            value: self.value as int,
        }
    }
}

impl Default for CppEnumConstant {
    fn default() -> (r: Self)
        ensures
            r@ == CppEnumConstantView::empty(),
    {
        let r = CppEnumConstant {
            name: String::new(),
            value: 0,
        };
        r
    }
}

impl Clone for CppEnumConstant {
    fn clone(&self) -> (r: Self)
        ensures
            r@ == self@,
    {
        CppEnumConstant {
            name: self.name.clone(),
            value: self.value,
        }
    }
}

/// A copy of a list, element by element.
pub fn clone_cpp_enum_constant_list(v: &Vec<CppEnumConstant>) -> (r: Vec<CppEnumConstant>)
    ensures
        views(r@) == views(v@),
{
    let mut out: Vec<CppEnumConstant> = Vec::new();
    let mut i: usize = 0;
    while i < v.len()
        invariant
            i <= v.len(),
            views(out@) == views(v@).take(i as int),
        decreases v.len() - i,
    {
        let item = v[i].clone();
        proof {
            lemma_views_push(out@, item);
            assert(views(v@).take(i + 1) =~= views(v@).take(i as int).push(v@[i as int]@));
        }
        out.push(item);
        i += 1;
    }
    assert(views(v@).take(v.len() as int) =~= views(v@));
    out
}

/// An enumeration whose constants are all literal integers.
#[derive(Debug, PartialEq, Eq)]
pub struct CppEnum {
    pub name: String,
    pub constants: Vec<CppEnumConstant>,
    /// Whether the constants are scoped.
    pub enum_class: bool,
}

/// What a `CppEnum` holds, its texts as character sequences.
pub struct CppEnumView {
    pub name: Seq<char>,
    pub constants: Seq<CppEnumConstantView>,
    pub enum_class: bool,
}

impl CppEnumView {
    /// The value with nothing in it.
    pub open spec fn empty() -> CppEnumView {
        CppEnumView {
            name: Seq::empty(),
            constants: Seq::empty(),
            enum_class: false,
        }
    }
}

impl View for CppEnum {
    type V = CppEnumView;

    open spec fn view(&self) -> CppEnumView {
        CppEnumView {
            name: self.name@,
            constants: views(self.constants@),
            enum_class: self.enum_class,
        }
    }
}

impl Default for CppEnum {
    fn default() -> (r: Self)
        ensures
            r@ == CppEnumView::empty(),
    {
        let r = CppEnum {
            name: String::new(),
            constants: Vec::new(),
            enum_class: false,
        };
        assert(views(r.constants@) =~= Seq::empty());
        r
    }
}

impl Clone for CppEnum {
    fn clone(&self) -> (r: Self)
        ensures
            r@ == self@,
    {
        CppEnum {
            name: self.name.clone(),
            constants: clone_cpp_enum_constant_list(&self.constants),
            enum_class: self.enum_class,
        }
    }
}

/// A copy of a list, element by element.
pub fn clone_cpp_enum_list(v: &Vec<CppEnum>) -> (r: Vec<CppEnum>)
    ensures
        views(r@) == views(v@),
{
    let mut out: Vec<CppEnum> = Vec::new();
    let mut i: usize = 0;
    while i < v.len()
        invariant
            i <= v.len(),
            views(out@) == views(v@).take(i as int),
        decreases v.len() - i,
    {
        let item = v[i].clone();
        proof {
            lemma_views_push(out@, item);
            assert(views(v@).take(i + 1) =~= views(v@).take(i as int).push(v@[i as int]@));
        }
        out.push(item);
        i += 1;
    }
    assert(views(v@).take(v.len() as int) =~= views(v@));
    out
}

/// A field of an entity.
#[derive(Debug, PartialEq, Eq)]
pub struct CppProperty {
    /// The number of the crossing category.
    pub value_type: i32,
    pub is_static: bool,
    pub is_const: bool,
    pub is_ptr: bool,
    pub is_generic: bool,
    /// A bit-field; such a field forces its entity behind a handle.
    pub bit_value: bool,
    pub unsupported: bool,
    pub name: String,
    /// The type as the header spells it.
    pub type_str: String,
    /// The type as the companion side spells it.
    pub r_type: String,
    pub value: Option<String>,
}

/// What a `CppProperty` holds, its texts as character sequences.
pub struct CppPropertyView {
    pub value_type: int,
    pub is_static: bool,
    pub is_const: bool,
    pub is_ptr: bool,
    pub is_generic: bool,
    pub bit_value: bool,
    pub unsupported: bool,
    pub name: Seq<char>,
    pub type_str: Seq<char>,
    pub r_type: Seq<char>,
    pub value: Option<Seq<char>>,
}

impl CppPropertyView {
    /// The value with nothing in it.
    pub open spec fn empty() -> CppPropertyView {
        CppPropertyView {
            value_type: 0,
            is_static: false,
            is_const: false,
            is_ptr: false,
            is_generic: false,
            bit_value: false,
            unsupported: false,
            name: Seq::empty(),
            type_str: Seq::empty(),
            r_type: Seq::empty(),
            value: None,
        }
    }
}

impl View for CppProperty {
    type V = CppPropertyView;

    open spec fn view(&self) -> CppPropertyView {
        CppPropertyView {
            value_type: self.value_type as int,
            is_static: self.is_static,
            is_const: self.is_const,
            is_ptr: self.is_ptr,
            is_generic: self.is_generic,
            bit_value: self.bit_value,
            unsupported: self.unsupported,
            name: self.name@,
            type_str: self.type_str@,
            r_type: self.r_type@,
            value: opt_view(self.value),
        }
    }
}

impl Default for CppProperty {
    fn default() -> (r: Self)
        ensures
            r@ == CppPropertyView::empty(),
    {
        let r = CppProperty {
            value_type: 0,
            is_static: false,
            is_const: false,
            is_ptr: false,
            is_generic: false,
            bit_value: false,
            unsupported: false,
            name: String::new(),
            type_str: String::new(),
            r_type: String::new(),
            value: None,
        };
        r
    }
}

impl Clone for CppProperty {
    fn clone(&self) -> (r: Self)
        ensures
            r@ == self@,
    {
        CppProperty {
            value_type: self.value_type,
            is_static: self.is_static,
            is_const: self.is_const,
            is_ptr: self.is_ptr,
            is_generic: self.is_generic,
            bit_value: self.bit_value,
            unsupported: self.unsupported,
            name: self.name.clone(),
            type_str: self.type_str.clone(),
            r_type: self.r_type.clone(),
            value: clone_opt(&self.value),
        }
    }
}

/// A copy of a list, element by element.
pub fn clone_cpp_property_list(v: &Vec<CppProperty>) -> (r: Vec<CppProperty>)
    ensures
        views(r@) == views(v@),
{
    let mut out: Vec<CppProperty> = Vec::new();
    let mut i: usize = 0;
    while i < v.len()
        invariant
            i <= v.len(),
            views(out@) == views(v@).take(i as int),
        decreases v.len() - i,
    {
        let item = v[i].clone();
        proof {
            lemma_views_push(out@, item);
            assert(views(v@).take(i + 1) =~= views(v@).take(i as int).push(v@[i as int]@));
        }
        out.push(item);
        i += 1;
    }
    assert(views(v@).take(v.len() as int) =~= views(v@));
    out
}

/// What a run exported.
#[allow(non_snake_case)]
#[derive(Debug, PartialEq, Eq)]
pub struct ExportDetails {
    pub ExportClasses: Vec<CppClass>,
    pub ExportApis: Vec<Parameters>,
    pub ExportEnums: Vec<CppEnum>,
    pub ExportConsts: Vec<CppProperty>,
}

/// What a `ExportDetails` holds, its texts as character sequences.
#[allow(non_snake_case)]
pub struct ExportDetailsView {
    pub ExportClasses: Seq<CppClassView>,
    pub ExportApis: Seq<ParametersView>,
    pub ExportEnums: Seq<CppEnumView>,
    pub ExportConsts: Seq<CppPropertyView>,
}

impl ExportDetailsView {
    /// The value with nothing in it.
    pub open spec fn empty() -> ExportDetailsView {
        ExportDetailsView {
            ExportClasses: Seq::empty(),
            ExportApis: Seq::empty(),
            ExportEnums: Seq::empty(),
            ExportConsts: Seq::empty(),
        }
    }
}

impl View for ExportDetails {
    type V = ExportDetailsView;

    open spec fn view(&self) -> ExportDetailsView {
        ExportDetailsView {
            ExportClasses: views(self.ExportClasses@),
            ExportApis: views(self.ExportApis@),
            ExportEnums: views(self.ExportEnums@),
            ExportConsts: views(self.ExportConsts@),
        }
    }
}

impl Default for ExportDetails {
    fn default() -> (r: Self)
        ensures
            r@ == ExportDetailsView::empty(),
    {
        let r = ExportDetails {
            ExportClasses: Vec::new(),
            ExportApis: Vec::new(),
            ExportEnums: Vec::new(),
            ExportConsts: Vec::new(),
        };
        assert(views(r.ExportClasses@) =~= Seq::empty());
        assert(views(r.ExportApis@) =~= Seq::empty());
        assert(views(r.ExportEnums@) =~= Seq::empty());
        assert(views(r.ExportConsts@) =~= Seq::empty());
        r
    }
}

impl Clone for ExportDetails {
    fn clone(&self) -> (r: Self)
        ensures
            r@ == self@,
    {
        ExportDetails {
            ExportClasses: clone_cpp_class_list(&self.ExportClasses),
            ExportApis: clone_parameters_list(&self.ExportApis),
            ExportEnums: clone_cpp_enum_list(&self.ExportEnums),
            ExportConsts: clone_cpp_property_list(&self.ExportConsts),
        }
    }
}

/// An entity to export, with the members to keep or to leave out.
#[derive(Debug, PartialEq, Eq)]
pub struct ExportClass {
    pub class_name: String,
    /// When not empty, only these methods are exported.
    pub functions: Vec<String>,
    /// Methods left out when `functions` is empty.
    pub ignore_functions: Vec<String>,
    /// When not empty, only these fields are exported.
    pub fields: Vec<String>,
    /// Fields left out when `fields` is empty.
    pub ignore_fields: Vec<String>,
}

/// What a `ExportClass` holds, its texts as character sequences.
pub struct ExportClassView {
    pub class_name: Seq<char>,
    pub functions: Seq<Seq<char>>,
    pub ignore_functions: Seq<Seq<char>>,
    pub fields: Seq<Seq<char>>,
    pub ignore_fields: Seq<Seq<char>>,
}

impl ExportClassView {
    /// The value with nothing in it.
    pub open spec fn empty() -> ExportClassView {
        ExportClassView {
            class_name: Seq::empty(),
            functions: Seq::empty(),
            ignore_functions: Seq::empty(),
            fields: Seq::empty(),
            ignore_fields: Seq::empty(),
        }
    }
}

impl View for ExportClass {
    type V = ExportClassView;

    open spec fn view(&self) -> ExportClassView {
        ExportClassView {
            class_name: self.class_name@,
            functions: views(self.functions@),
            ignore_functions: views(self.ignore_functions@),
            fields: views(self.fields@),
            ignore_fields: views(self.ignore_fields@),
        }
    }
}

impl Default for ExportClass {
    fn default() -> (r: Self)
        ensures
            r@ == ExportClassView::empty(),
    {
        let r = ExportClass {
            class_name: String::new(),
            functions: Vec::new(),
            ignore_functions: Vec::new(),
            fields: Vec::new(),
            ignore_fields: Vec::new(),
        };
        assert(views(r.functions@) =~= Seq::empty());
        assert(views(r.ignore_functions@) =~= Seq::empty());
        assert(views(r.fields@) =~= Seq::empty());
        assert(views(r.ignore_fields@) =~= Seq::empty());
        r
    }
}

impl Clone for ExportClass {
    fn clone(&self) -> (r: Self)
        ensures
            r@ == self@,
    {
        ExportClass {
            class_name: self.class_name.clone(),
            functions: clone_strings(&self.functions),
            ignore_functions: clone_strings(&self.ignore_functions),
            fields: clone_strings(&self.fields),
            ignore_fields: clone_strings(&self.ignore_fields),
        }
    }
}

/// A copy of a list, element by element.
pub fn clone_export_class_list(v: &Vec<ExportClass>) -> (r: Vec<ExportClass>)
    ensures
        views(r@) == views(v@),
{
    let mut out: Vec<ExportClass> = Vec::new();
    let mut i: usize = 0;
    while i < v.len()
        invariant
            i <= v.len(),
            views(out@) == views(v@).take(i as int),
        decreases v.len() - i,
    {
        let item = v[i].clone();
        proof {
            lemma_views_push(out@, item);
            assert(views(v@).take(i + 1) =~= views(v@).take(i as int).push(v@[i as int]@));
        }
        out.push(item);
        i += 1;
    }
    assert(views(v@).take(v.len() as int) =~= views(v@));
    out
}

/// A native type that crosses as a wrapper type the user declares.
#[derive(Debug, PartialEq, Eq)]
pub struct TypeAlias {
    pub native: String,
    pub wrapper: String,
}

/// What a `TypeAlias` holds, its texts as character sequences.
pub struct TypeAliasView {
    pub native: Seq<char>,
    pub wrapper: Seq<char>,
}

impl TypeAliasView {
    /// The value with nothing in it.
    pub open spec fn empty() -> TypeAliasView {
        TypeAliasView {
            native: Seq::empty(),
            wrapper: Seq::empty(),
        }
    }
}

impl View for TypeAlias {
    type V = TypeAliasView;

    open spec fn view(&self) -> TypeAliasView {
        TypeAliasView {
            native: self.native@,
            wrapper: self.wrapper@,
        }
    }
}

impl Default for TypeAlias {
    fn default() -> (r: Self)
        ensures
            r@ == TypeAliasView::empty(),
    {
        let r = TypeAlias {
            native: String::new(),
            wrapper: String::new(),
        };
        r
    }
}

impl Clone for TypeAlias {
    fn clone(&self) -> (r: Self)
        ensures
            r@ == self@,
    {
        TypeAlias {
            native: self.native.clone(),
            wrapper: self.wrapper.clone(),
        }
    }
}

/// A copy of a list, element by element.
pub fn clone_type_alias_list(v: &Vec<TypeAlias>) -> (r: Vec<TypeAlias>)
    ensures
        views(r@) == views(v@),
{
    let mut out: Vec<TypeAlias> = Vec::new();
    let mut i: usize = 0;
    while i < v.len()
        invariant
            i <= v.len(),
            views(out@) == views(v@).take(i as int),
        decreases v.len() - i,
    {
        let item = v[i].clone();
        proof {
            lemma_views_push(out@, item);
            assert(views(v@).take(i + 1) =~= views(v@).take(i as int).push(v@[i as int]@));
        }
        out.push(item);
        i += 1;
    }
    assert(views(v@).take(v.len() as int) =~= views(v@));
    out
}

/// The settings of a run; read only.
#[allow(non_snake_case)]
#[derive(Debug, PartialEq, Eq)]
pub struct CustomSettings {
    /// The root path to scan.
    pub EngineRoot: String,
    /// The entities to export, in the order of emission.
    pub ExportClasses: Vec<ExportClass>,
    /// Types that cross as handles whatever their fields are.
    pub ForceOpaque: Vec<String>,
    /// Members never exported, each as `Entity.member`; a free function by its bare name.
    pub BlackList: Vec<String>,
    pub ExportApis: Vec<String>,
    pub ExportEnums: Vec<String>,
    /// Patterns of file names to skip.
    pub IgnoreFiles: Vec<String>,
    /// Path fragments of which a scanned file must hold one.
    pub ExportPathRoot: Vec<String>,
    pub TypeWrapper: Vec<TypeAlias>,
}

/// What a `CustomSettings` holds, its texts as character sequences.
#[allow(non_snake_case)]
pub struct CustomSettingsView {
    pub EngineRoot: Seq<char>,
    pub ExportClasses: Seq<ExportClassView>,
    pub ForceOpaque: Seq<Seq<char>>,
    pub BlackList: Seq<Seq<char>>,
    pub ExportApis: Seq<Seq<char>>,
    pub ExportEnums: Seq<Seq<char>>,
    pub IgnoreFiles: Seq<Seq<char>>,
    pub ExportPathRoot: Seq<Seq<char>>,
    pub TypeWrapper: Seq<TypeAliasView>,
}

impl CustomSettingsView {
    /// The value with nothing in it.
    pub open spec fn empty() -> CustomSettingsView {
        CustomSettingsView {
            EngineRoot: Seq::empty(),
            ExportClasses: Seq::empty(),
            ForceOpaque: Seq::empty(),
            BlackList: Seq::empty(),
            ExportApis: Seq::empty(),
            ExportEnums: Seq::empty(),
            IgnoreFiles: Seq::empty(),
            ExportPathRoot: Seq::empty(),
            TypeWrapper: Seq::empty(),
        }
    }
}

impl View for CustomSettings {
    type V = CustomSettingsView;

    open spec fn view(&self) -> CustomSettingsView {
        CustomSettingsView {
            EngineRoot: self.EngineRoot@,
            ExportClasses: views(self.ExportClasses@),
            ForceOpaque: views(self.ForceOpaque@),
            BlackList: views(self.BlackList@),
            ExportApis: views(self.ExportApis@),
            ExportEnums: views(self.ExportEnums@),
            IgnoreFiles: views(self.IgnoreFiles@),
            ExportPathRoot: views(self.ExportPathRoot@),
            TypeWrapper: views(self.TypeWrapper@),
        }
    }
}

impl Default for CustomSettings {
    fn default() -> (r: Self)
        ensures
            r@ == CustomSettingsView::empty(),
    {
        let r = CustomSettings {
            EngineRoot: String::new(),
            ExportClasses: Vec::new(),
            ForceOpaque: Vec::new(),
            BlackList: Vec::new(),
            ExportApis: Vec::new(),
            ExportEnums: Vec::new(),
            IgnoreFiles: Vec::new(),
            ExportPathRoot: Vec::new(),
            TypeWrapper: Vec::new(),
        };
        assert(views(r.ExportClasses@) =~= Seq::empty());
        assert(views(r.ForceOpaque@) =~= Seq::empty());
        assert(views(r.BlackList@) =~= Seq::empty());
        assert(views(r.ExportApis@) =~= Seq::empty());
        assert(views(r.ExportEnums@) =~= Seq::empty());
        assert(views(r.IgnoreFiles@) =~= Seq::empty());
        assert(views(r.ExportPathRoot@) =~= Seq::empty());
        assert(views(r.TypeWrapper@) =~= Seq::empty());
        r
    }
}

impl Clone for CustomSettings {
    fn clone(&self) -> (r: Self)
        ensures
            r@ == self@,
    {
        CustomSettings {
            EngineRoot: self.EngineRoot.clone(),
            ExportClasses: clone_export_class_list(&self.ExportClasses),
            ForceOpaque: clone_strings(&self.ForceOpaque),
            BlackList: clone_strings(&self.BlackList),
            ExportApis: clone_strings(&self.ExportApis),
            ExportEnums: clone_strings(&self.ExportEnums),
            IgnoreFiles: clone_strings(&self.IgnoreFiles),
            ExportPathRoot: clone_strings(&self.ExportPathRoot),
            TypeWrapper: clone_type_alias_list(&self.TypeWrapper),
        }
    }
}

/// A class or struct found in a header.
#[derive(Debug, PartialEq, Eq)]
pub struct UnrealClass {
    pub name: String,
    pub inherit: String,
    /// The declaring file.
    pub path: String,
    pub is_struct: bool,
    pub opaque: bool,
    /// The public fields, in declaration order.
    pub properties: Vec<CppProperty>,
    /// The other fields; never emitted.
    pub none_public_properties: Vec<CppProperty>,
    pub public_apis: Vec<CppApi>,
}

/// What a `UnrealClass` holds, its texts as character sequences.
pub struct UnrealClassView {
    pub name: Seq<char>,
    pub inherit: Seq<char>,
    pub path: Seq<char>,
    pub is_struct: bool,
    pub opaque: bool,
    pub properties: Seq<CppPropertyView>,
    pub none_public_properties: Seq<CppPropertyView>,
    pub public_apis: Seq<CppApiView>,
}

impl UnrealClassView {
    /// The value with nothing in it.
    pub open spec fn empty() -> UnrealClassView {
        UnrealClassView {
            name: Seq::empty(),
            inherit: Seq::empty(),
            path: Seq::empty(),
            is_struct: false,
            opaque: false,
            properties: Seq::empty(),
            none_public_properties: Seq::empty(),
            public_apis: Seq::empty(),
        }
    }
}

impl View for UnrealClass {
    type V = UnrealClassView;

    open spec fn view(&self) -> UnrealClassView {
        UnrealClassView {
            name: self.name@,
            inherit: self.inherit@,
            path: self.path@,
            is_struct: self.is_struct,
            opaque: self.opaque,
            properties: views(self.properties@),
            none_public_properties: views(self.none_public_properties@),
            public_apis: views(self.public_apis@),
        }
    }
}

impl Default for UnrealClass {
    fn default() -> (r: Self)
        ensures
            r@ == UnrealClassView::empty(),
    {
        let r = UnrealClass {
            name: String::new(),
            inherit: String::new(),
            path: String::new(),
            is_struct: false,
            opaque: false,
            properties: Vec::new(),
            none_public_properties: Vec::new(),
            public_apis: Vec::new(),
        };
        assert(views(r.properties@) =~= Seq::empty());
        assert(views(r.none_public_properties@) =~= Seq::empty());
        assert(views(r.public_apis@) =~= Seq::empty());
        r
    }
}

impl Clone for UnrealClass {
    fn clone(&self) -> (r: Self)
        ensures
            r@ == self@,
    {
        UnrealClass {
            name: self.name.clone(),
            inherit: self.inherit.clone(),
            path: self.path.clone(),
            is_struct: self.is_struct,
            opaque: self.opaque,
            properties: clone_cpp_property_list(&self.properties),
            none_public_properties: clone_cpp_property_list(&self.none_public_properties),
            public_apis: clone_cpp_api_list(&self.public_apis),
        }
    }
}

/// A copy of a list, element by element.
pub fn clone_unreal_class_list(v: &Vec<UnrealClass>) -> (r: Vec<UnrealClass>)
    ensures
        views(r@) == views(v@),
{
    let mut out: Vec<UnrealClass> = Vec::new();
    let mut i: usize = 0;
    while i < v.len()
        invariant
            i <= v.len(),
            views(out@) == views(v@).take(i as int),
        decreases v.len() - i,
    {
        let item = v[i].clone();
        proof {
            lemma_views_push(out@, item);
            assert(views(v@).take(i + 1) =~= views(v@).take(i as int).push(v@[i as int]@));
        }
        out.push(item);
        i += 1;
    }
    assert(views(v@).take(v.len() as int) =~= views(v@));
    out
}

/// A scanned file: its name and its path below the scanned root.
#[derive(Debug, PartialEq, Eq)]
pub struct FilePath {
    pub name: String,
    pub path: String,
}

/// What a `FilePath` holds, its texts as character sequences.
pub struct FilePathView {
    pub name: Seq<char>,
    pub path: Seq<char>,
}

impl FilePathView {
    /// The value with nothing in it.
    pub open spec fn empty() -> FilePathView {
        FilePathView {
            name: Seq::empty(),
            path: Seq::empty(),
        }
    }
}

impl View for FilePath {
    type V = FilePathView;

    open spec fn view(&self) -> FilePathView {
        FilePathView {
            name: self.name@,
            path: self.path@,
        }
    }
}

impl Default for FilePath {
    fn default() -> (r: Self)
        ensures
            r@ == FilePathView::empty(),
    {
        let r = FilePath {
            name: String::new(),
            path: String::new(),
        };
        r
    }
}

impl Clone for FilePath {
    fn clone(&self) -> (r: Self)
        ensures
            r@ == self@,
    {
        FilePath {
            name: self.name.clone(),
            path: self.path.clone(),
        }
    }
}

/// A copy of a list, element by element.
pub fn clone_file_path_list(v: &Vec<FilePath>) -> (r: Vec<FilePath>)
    ensures
        views(r@) == views(v@),
{
    let mut out: Vec<FilePath> = Vec::new();
    let mut i: usize = 0;
    while i < v.len()
        invariant
            i <= v.len(),
            views(out@) == views(v@).take(i as int),
        decreases v.len() - i,
    {
        let item = v[i].clone();
        proof {
            lemma_views_push(out@, item);
            assert(views(v@).take(i + 1) =~= views(v@).take(i as int).push(v@[i as int]@));
        }
        out.push(item);
        i += 1;
    }
    assert(views(v@).take(v.len() as int) =~= views(v@));
    out
}

/// Everything found in the headers of one run.
#[derive(Debug, PartialEq, Eq)]
pub struct Engine {
    pub files: Vec<String>,
    pub file_paths: Vec<FilePath>,
    pub static_apis: Vec<CppApi>,
    pub classes: Vec<UnrealClass>,
    pub enums: Vec<CppEnum>,
    pub value_types: Vec<CppEnum>,
}

/// What a `Engine` holds, its texts as character sequences.
pub struct EngineView {
    pub files: Seq<Seq<char>>,
    pub file_paths: Seq<FilePathView>,
    pub static_apis: Seq<CppApiView>,
    pub classes: Seq<UnrealClassView>,
    pub enums: Seq<CppEnumView>,
    pub value_types: Seq<CppEnumView>,
}

impl EngineView {
    /// The value with nothing in it.
    pub open spec fn empty() -> EngineView {
        EngineView {
            files: Seq::empty(),
            file_paths: Seq::empty(),
            static_apis: Seq::empty(),
            classes: Seq::empty(),
            enums: Seq::empty(),
            value_types: Seq::empty(),
        }
    }
}

impl View for Engine {
    type V = EngineView;

    open spec fn view(&self) -> EngineView {
        EngineView {
            files: views(self.files@),
            file_paths: views(self.file_paths@),
            static_apis: views(self.static_apis@),
            classes: views(self.classes@),
            enums: views(self.enums@),
            value_types: views(self.value_types@),
        }
    }
}

impl Default for Engine {
    fn default() -> (r: Self)
        ensures
            r@ == EngineView::empty(),
    {
        let r = Engine {
            files: Vec::new(),
            file_paths: Vec::new(),
            static_apis: Vec::new(),
            classes: Vec::new(),
            enums: Vec::new(),
            value_types: Vec::new(),
        };
        assert(views(r.files@) =~= Seq::empty());
        assert(views(r.file_paths@) =~= Seq::empty());
        assert(views(r.static_apis@) =~= Seq::empty());
        assert(views(r.classes@) =~= Seq::empty());
        assert(views(r.enums@) =~= Seq::empty());
        assert(views(r.value_types@) =~= Seq::empty());
        r
    }
}

impl Clone for Engine {
    fn clone(&self) -> (r: Self)
        ensures
            r@ == self@,
    {
        Engine {
            files: clone_strings(&self.files),
            file_paths: clone_file_path_list(&self.file_paths),
            static_apis: clone_cpp_api_list(&self.static_apis),
            classes: clone_unreal_class_list(&self.classes),
            enums: clone_cpp_enum_list(&self.enums),
            value_types: clone_cpp_enum_list(&self.value_types),
        }
    }
}

/// A type as the front end spells it.
#[allow(non_snake_case)]
#[derive(Debug, PartialEq, Eq)]
pub struct QualType {
    pub qualType: Option<String>,
}

/// What a `QualType` holds, its texts as character sequences.
#[allow(non_snake_case)]
pub struct QualTypeView {
    pub qualType: Option<Seq<char>>,
}

impl QualTypeView {
    /// The value with nothing in it.
    pub open spec fn empty() -> QualTypeView {
        QualTypeView {
            qualType: None,
        }
    }
}

impl View for QualType {
    type V = QualTypeView;

    open spec fn view(&self) -> QualTypeView {
        QualTypeView {
            qualType: opt_view(self.qualType),
        }
    }
}

impl Default for QualType {
    fn default() -> (r: Self)
        ensures
            r@ == QualTypeView::empty(),
    {
        let r = QualType {
            qualType: None,
        };
        r
    }
}

impl Clone for QualType {
    fn clone(&self) -> (r: Self)
        ensures
            r@ == self@,
    {
        QualType {
            qualType: clone_opt(&self.qualType),
        }
    }
}

} // verus!
