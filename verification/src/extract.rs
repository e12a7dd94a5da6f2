//! Extraction from the syntax tree of one header: its classes with their
//! fields and methods, its enumerations and its free functions. Types are
//! read from the source text itself, between the offsets that the tree
//! gives, since the tree's own type strings lose the spelling.

use crate::model::CppApi;
use crate::model::CppApiView;
use crate::model::CppEnum;
use crate::model::CppEnumConstant;
use crate::model::CppEnumConstantView;
use crate::model::CppEnumView;
use crate::model::CppProperty;
use crate::model::CppPropertyView;
use crate::model::Engine;
use crate::model::EngineView;
use crate::model::Parameter;
use crate::model::ParameterView;
use crate::model::UnrealClass;
use crate::model::UnrealClassView;
use crate::primitives::parse_c_type;
use crate::primitives::resolved;
use crate::syntax::qual_text;
use crate::syntax::Clang;
use crate::syntax::Node;
use crate::syntax::NodeKind;
use crate::syntax::SourceSpot;
use crate::text::begins;
use crate::text::cat2;
use crate::text::contains;
use crate::text::count;
use crate::text::cut;
use crate::text::decimal;
use crate::text::decimal_text;
use crate::text::ends;
use crate::text::ends_with;
use crate::text::fields;
use crate::text::find;
use crate::text::holds;
use crate::text::index_of;
use crate::text::is_gap;
use crate::text::join;
use crate::text::joined;
use crate::text::lemma_views_push;
use crate::text::lex_le;
use crate::text::ordered;
use crate::text::parse_i32;
use crate::text::parsed_i32;
use crate::text::replace_all;
use crate::text::replaced;
use crate::text::same;
use crate::text::span_chars;
use crate::text::span_ok;
use crate::text::span_text;
use crate::text::split_fields;
use crate::text::starts_with;
use crate::text::to_chars;
use crate::text::trim;
use crate::text::trimmed;
use crate::text::views;
use vstd::prelude::*;
use vstd::string::StringExecFns;

verus! {

/// Where a walk over one header stands.
#[derive(Debug)]
pub struct ParseState {
    /// Whether the members met now are public.
    pub is_pub: bool,
    pub is_struct: bool,
    pub is_class: bool,
    /// The text of the header.
    pub content: String,
    pub file_path: String,
}

impl ParseState {
    /// A walk over the given text that has not met a declaration yet.
    pub fn new(content: String, file_path: String) -> (r: Self)
        ensures
            !r.is_pub && !r.is_struct && !r.is_class,
            r.content@ == content@,
            r.file_path@ == file_path@,
    {
        ParseState { is_pub: false, is_struct: false, is_class: false, content, file_path }
    }

    /// Forgets the declaration that the walk was in.
    pub fn clear(&mut self)
        ensures
            !final(self).is_pub && !final(self).is_struct && !final(self).is_class,
            final(self).content == old(self).content,
            final(self).file_path == old(self).file_path,
    {
        self.is_class = false;
        self.is_struct = false;
        self.is_pub = false;
    }
}

/// Whether a colon comes before the next semicolon in the bytes from `i` on.
pub open spec fn bit_marker_from(bytes: Seq<u8>, i: int) -> bool
    decreases bytes.len() - i,
{
    if i < 0 || i >= bytes.len() {
        false
    } else if bytes[i] == 59u8 {
        false
    } else if bytes[i] == 58u8 {
        true
    } else {
        bit_marker_from(bytes, i + 1)
    }
}

/// Whether the field declared at the byte offset is a bit-field: behind the
/// offset, a colon comes before the semicolon that ends the declaration.
pub open spec fn is_bit_field(content: Seq<char>, offset: int) -> bool {
    bit_marker_from(vstd::utf8::encode_utf8(content), offset + 1)
}

/// Whether the field declared at the byte offset is a bit-field: behind the
/// offset, a colon comes before the semicolon that ends the declaration.
pub fn is_bit_value(state: &ParseState, offset: usize) -> (r: bool)
    ensures
        r == is_bit_field(state.content@, offset as int),
{
    let bytes = state.content.as_str().as_bytes();
    if offset >= bytes.len() {
        return false;
    }
    let mut i: usize = offset + 1;
    while i < bytes.len()
        invariant
            bytes@ == vstd::utf8::encode_utf8(state.content@),
            offset < i <= bytes.len(),
            is_bit_field(state.content@, offset as int) == bit_marker_from(bytes@, i as int),
        decreases bytes.len() - i,
    {
        if bytes[i] == 59u8 {
            return false;
        } else if bytes[i] == 58u8 {
            return true;
        }
        i += 1;
    }
    false
}

/// The trimmed source text between two byte offsets, or nothing where the
/// offsets do not bound whole characters of the text.
pub open spec fn source_text(content: Seq<char>, start: int, end: int) -> Option<Seq<char>> {
    if span_ok(content, start, end) {
        Some(trimmed(span_chars(content, start, end)))
    } else {
        None
    }
}

/// The trimmed source text between two byte offsets, or nothing where the
/// offsets do not bound whole characters of the text.
pub fn source_slice(content: &str, start: usize, end: usize) -> (r: Option<String>)
    ensures
        match r {
            Some(t) => source_text(content@, start as int, end as int) == Some(t@),
            None => source_text(content@, start as int, end as int) is None,
        },
{
    match span_text(content, start, end) {
        Some(t) => Some(trim(t.as_str())),
        None => None,
    }
}

/// Both angle brackets stand in the text: a template.
pub open spec fn has_angles(s: Seq<char>) -> bool {
    contains(s, "<"@) && contains(s, ">"@)
}

/// Both angle brackets stand in the text: a template.
pub fn angles(s: &str) -> (r: bool)
    ensures
        r == has_angles(s@),
{
    holds(s, "<") && holds(s, ">")
}

/// The trimmed text before the first occurrence of a mark, where it occurs.
pub open spec fn peeled_at(s: Seq<char>, mark: Seq<char>) -> Option<Seq<char>> {
    if index_of(s, mark) >= 0 {
        Some(trimmed(s.subrange(0, index_of(s, mark))))
    } else {
        None
    }
}

/// The trimmed text before the first occurrence of a mark, where it occurs.
pub fn peel_at(s: &str, mark: &str) -> (r: Option<String>)
    ensures
        match r {
            Some(t) => peeled_at(s@, mark@) == Some(t@),
            None => peeled_at(s@, mark@) is None,
        },
{
    match find(s, mark) {
        Some(i) => {
            let head = cut(s, 0, i);
            Some(trim(head.as_str()))
        },
        None => None,
    }
}

/// The text without the word and trimmed, where the word stands in it
/// before a space or a tab; else the text itself.
pub open spec fn without_word(s: Seq<char>, word: Seq<char>) -> Seq<char> {
    if contains(s, word + " "@) || contains(s, word + "\t"@) {
        trimmed(replaced(s, word, ""@))
    } else {
        s
    }
}

/// Whether the word stands in the text before a space or a tab.
pub open spec fn holds_word(s: Seq<char>, word: Seq<char>) -> bool {
    contains(s, word + " "@) || contains(s, word + "\t"@)
}

pub fn word_held(s: &str, word: &str) -> (r: bool)
    ensures
        r == holds_word(s@, word@),
{
    let a = cat2(word, " ");
    let b = cat2(word, "\t");
    holds(s, a.as_str()) || holds(s, b.as_str())
}

/// The text without the word and trimmed, where the word stands in it
/// before a space or a tab; else the text itself.
pub fn drop_word(s: String, word: &str) -> (r: String)
    ensures
        r@ == without_word(s@, word@),
{
    if word_held(s.as_str(), word) {
        let t = replace_all(s.as_str(), word, "");
        trim(t.as_str())
    } else {
        s
    }
}

/// The declared type of a field: read from the source where the front end
/// flags the declaration, else the front end's type string.
pub open spec fn field_type_text(kind: Clang, content: Seq<char>) -> Seq<char> {
    if kind.is_invalid {
        match kind.range {
            Some(range) => match (range.begin.expansion, range.end.expansion) {
                (Some(start), Some(end)) => match source_text(content, start as int, end as int) {
                    Some(t) => t,
                    None => Seq::empty(),
                },
                _ => Seq::empty(),
            },
            None => Seq::empty(),
        }
    } else {
        match qual_text(kind) {
            Some(t) => t,
            None => Seq::empty(),
        }
    }
}

/// The byte offset at which a declaration's name stands, or 0.
pub open spec fn decl_offset(kind: Clang) -> int {
    match kind.loc {
        Some(spot) => match spot.expansion {
            Some(o) => o as int,
            None => 0,
        },
        None => 0,
    }
}

/// Whether a declaration has static storage.
pub open spec fn is_static_storage(kind: Clang) -> bool {
    match kind.storage_class {
        Some(sc) => sc@ == "static"@,
        None => false,
    }
}

/// The field that a field declaration gives.
pub open spec fn field_of(kind: Clang, content: Seq<char>) -> CppPropertyView {
    let raw = field_type_text(kind, content);
    let ty = match peeled_at(raw, "*"@) {
        Some(t) => t,
        None => raw,
    };
    CppPropertyView {
        name: kind.name@,
        type_str: ty,
        is_ptr: peeled_at(raw, "*"@) is Some,
        is_generic: has_angles(ty),
        bit_value: is_bit_field(content, decl_offset(kind)),
        r_type: resolved(ty).0,
        value_type: resolved(ty).1.spec_code(),
        is_static: is_static_storage(kind),
        ..CppPropertyView::empty()
    }
}

/// The declared type of a field: read from the source where the front end
/// flags the declaration, else the front end's type string.
pub fn field_type(kind: &Clang, content: &str) -> (r: String)
    ensures
        r@ == field_type_text(*kind, content@),
{
    if kind.is_invalid {
        match &kind.range {
            Some(range) => match (range.begin.expansion, range.end.expansion) {
                (Some(start), Some(end)) => match source_slice(content, start, end) {
                    Some(t) => t,
                    None => String::new(),
                },
                _ => String::new(),
            },
            None => String::new(),
        }
    } else {
        match &kind.ty {
            Some(q) => match &q.qualType {
                Some(t) => t.clone(),
                None => String::new(),
            },
            None => String::new(),
        }
    }
}

pub fn static_storage(kind: &Clang) -> (r: bool)
    ensures
        r == is_static_storage(*kind),
{
    match &kind.storage_class {
        Some(sc) => same(sc.as_str(), "static"),
        None => false,
    }
}

/// The byte offset at which a declaration's name stands, or 0.
pub fn decl_offset_of(kind: &Clang) -> (r: usize)
    ensures
        r as int == decl_offset(*kind),
{
    match &kind.loc {
        Some(spot) => match spot.expansion {
            Some(o) => o,
            None => 0,
        },
        None => 0,
    }
}

/// Reads a field declaration.
pub fn parse_field(kind: &Clang, state: &ParseState) -> (r: CppProperty)
    ensures
        r@ == field_of(*kind, state.content@),
{
    let raw = field_type(kind, state.content.as_str());
    let peeled = peel_at(raw.as_str(), "*");
    let is_ptr = peeled.is_some();
    let ty = match peeled {
        Some(t) => t,
        None => raw,
    };
    let is_generic = angles(ty.as_str());
    let bit_value = is_bit_value(state, decl_offset_of(kind));
    let res = parse_c_type(ty.as_str());
    CppProperty {
        value_type: res.1.code(),
        is_static: static_storage(kind),
        is_const: false,
        is_ptr,
        is_generic,
        bit_value,
        unsupported: false,
        name: kind.name.clone(),
        type_str: ty,
        r_type: res.0,
        value: None,
    }
}

/// Where the type of a parameter starts: the expansion offset of the
/// range's begin, or else its spelling offset.
pub open spec fn first_offset(spot: SourceSpot) -> Option<usize> {
    match spot.expansion {
        Some(o) => Some(o),
        None => spot.spelling,
    }
}

/// Where the declaration of a parameter ends: the expansion offset of the
/// range's end, else its spelling offset, else the place of the name.
pub open spec fn param_end(kind: Clang) -> Option<usize> {
    match kind.range {
        Some(range) => match first_offset(range.end) {
            Some(o) => Some(o),
            None => match kind.loc {
                Some(spot) => match spot.spelling {
                    Some(o) => Some(o),
                    None => spot.expansion,
                },
                None => None,
            },
        },
        None => None,
    }
}

/// Where the declaration of a parameter starts.
pub open spec fn param_start(kind: Clang) -> Option<usize> {
    match kind.range {
        Some(range) => first_offset(range.begin),
        None => None,
    }
}

/// The source text of a parameter's declaration, or nothing where its
/// offsets are missing or inconsistent.
pub open spec fn param_source(kind: Clang, content: Seq<char>) -> Option<Seq<char>> {
    match (param_start(kind), param_end(kind)) {
        (Some(start), Some(end)) => if start < end {
            source_text(content, start as int, end as int)
        } else {
            None
        },
        _ => None,
    }
}

/// The name without a default value behind it.
pub open spec fn name_without_default(name: Seq<char>) -> Seq<char> {
    match peeled_at(name, "="@) {
        Some(t) => t,
        None => name,
    }
}

/// Peels a leading `const` that a space or a tab follows.
pub open spec fn leading_const(p: ParameterView) -> ParameterView {
    let n = "const"@.len() as int;
    if starts_with(p.type_str, "const"@) && n < p.type_str.len() && is_gap(p.type_str[n]) {
        ParameterView {
            type_str: trimmed(p.type_str.subrange(n, p.type_str.len() as int)),
            const_param: true,
            ..p
        }
    } else {
        p
    }
}

/// Peels a trailing `const` that a space or a tab precedes.
pub open spec fn trailing_const(p: ParameterView) -> ParameterView {
    let at = p.type_str.len() - "const"@.len();
    if ends_with(p.type_str, "const"@) && at >= 1 && is_gap(p.type_str[at - 1]) {
        ParameterView { type_str: trimmed(p.type_str.subrange(0, at - 1)), const_param: true, ..p }
    } else {
        p
    }
}

/// Peels a trailing `const*`.
pub open spec fn trailing_const_ptr(p: ParameterView) -> ParameterView {
    if ends_with(p.type_str, "const*"@) {
        ParameterView {
            type_str: trimmed(p.type_str.subrange(0, p.type_str.len() - "const*"@.len())),
            const_param: true,
            ptr_param: true,
            ..p
        }
    } else {
        p
    }
}

/// Peels a trailing `const&`.
pub open spec fn trailing_const_ref(p: ParameterView) -> ParameterView {
    if ends_with(p.type_str, "const&"@) {
        ParameterView {
            type_str: trimmed(p.type_str.subrange(0, p.type_str.len() - "const&"@.len())),
            const_param: true,
            ref_param: true,
            ..p
        }
    } else {
        p
    }
}

/// Drops the words `class` and `struct` from the type.
pub open spec fn without_tags(p: ParameterView) -> ParameterView {
    ParameterView {
        type_str: without_word(without_word(p.type_str, "class"@), "struct"@),
        ..p
    }
}

/// Peels the first `&&`, else the first `&`, else the first `*`, with all
/// that follows it.
pub open spec fn peeled_marks(p: ParameterView) -> ParameterView {
    match peeled_at(p.type_str, "&&"@) {
        Some(t) => ParameterView { type_str: t, move_param: true, ..p },
        None => match peeled_at(p.type_str, "&"@) {
            Some(t) => ParameterView { type_str: t, ref_param: true, ..p },
            None => match peeled_at(p.type_str, "*"@) {
                Some(t) => ParameterView { type_str: t, ptr_param: true, ..p },
                None => p,
            },
        },
    }
}

/// Marks a parameter whose type holds both angle brackets.
pub open spec fn marked_generic(p: ParameterView) -> ParameterView {
    if has_angles(p.type_str) {
        ParameterView { is_generic: true, ..p }
    } else {
        p
    }
}

/// Where the type still holds several words, the last one is the name and
/// the others are the type.
pub open spec fn name_split(p: ParameterView) -> ParameterView {
    let parts = fields(p.type_str);
    if parts.len() > 1 {
        ParameterView {
            name: trimmed(parts.last()),
            type_str: trimmed(joined(parts.drop_last(), " "@)),
            ..p
        }
    } else {
        p
    }
}

/// Resolves the type, and names a nameless parameter by its position.
pub open spec fn finished(p: ParameterView, position: nat) -> ParameterView {
    ParameterView {
        r_type: resolved(p.type_str).0,
        param_type: resolved(p.type_str).1.spec_code(),
        name: if p.name.len() == 0 {
            "arg"@ + decimal(position)
        } else {
            p.name
        },
        ..p
    }
}

/// The parameter that a declaration with the given source text gives.
pub open spec fn param_from_text(name: Seq<char>, text: Seq<char>, position: nat) -> ParameterView {
    let p0 = ParameterView {
        name: name_without_default(name),
        type_str: match peeled_at(text, "="@) {
            Some(t) => t,
            None => text,
        },
        ..ParameterView::empty()
    };
    finished(
        name_split(
            marked_generic(
                peeled_marks(
                    without_tags(
                        trailing_const_ref(trailing_const_ptr(trailing_const(leading_const(p0)))),
                    ),
                ),
            ),
        ),
        position,
    )
}

/// The parameter that a parameter declaration gives, or nothing where its
/// offsets are missing or inconsistent.
pub open spec fn param_of(kind: Clang, content: Seq<char>, position: nat) -> Option<ParameterView> {
    match param_source(kind, content) {
        Some(text) => Some(param_from_text(kind.name@, text, position)),
        None => None,
    }
}

/// Where the type of a parameter starts: the expansion offset of the
/// range's begin, or else its spelling offset.
pub fn first_offset_of(spot: &SourceSpot) -> (r: Option<usize>)
    ensures
        r == first_offset(*spot),
{
    match spot.expansion {
        Some(o) => Some(o),
        None => spot.spelling,
    }
}

/// Where the declaration of a parameter ends: the expansion offset of the
/// range's end, else its spelling offset, else the place of the name.
pub fn param_end_of(kind: &Clang) -> (r: Option<usize>)
    ensures
        r == param_end(*kind),
{
    match &kind.range {
        Some(range) => match first_offset_of(&range.end) {
            Some(o) => Some(o),
            None => match &kind.loc {
                Some(spot) => match spot.spelling {
                    Some(o) => Some(o),
                    None => spot.expansion,
                },
                None => None,
            },
        },
        None => None,
    }
}

pub fn param_start_of(kind: &Clang) -> (r: Option<usize>)
    ensures
        r == param_start(*kind),
{
    match &kind.range {
        Some(range) => first_offset_of(&range.begin),
        None => None,
    }
}

/// The source text of a parameter's declaration, or nothing where its
/// offsets are missing or inconsistent.
pub fn param_source_of(kind: &Clang, content: &str) -> (r: Option<String>)
    ensures
        match r {
            Some(t) => param_source(*kind, content@) == Some(t@),
            None => param_source(*kind, content@) is None,
        },
{
    match (param_start_of(kind), param_end_of(kind)) {
        (Some(start), Some(end)) => if start < end {
            source_slice(content, start, end)
        } else {
            None
        },
        _ => None,
    }
}

/// Peels a leading `const` that a space or a tab follows.
pub fn peel_leading_const(p: &mut Parameter)
    ensures
        final(p)@ == leading_const(old(p)@),
{
    proof {
        reveal_strlit("const");
    }
    if begins(p.type_str.as_str(), "const") {
        let v = to_chars(p.type_str.as_str());
        if 5 < v.len() && crate::text::gap(v[5]) {
            let rest = cut(p.type_str.as_str(), 5, v.len());
            p.type_str = trim(rest.as_str());
            p.const_param = true;
        }
    }
}

/// Peels a trailing `const` that a space or a tab precedes.
pub fn peel_trailing_const(p: &mut Parameter)
    ensures
        final(p)@ == trailing_const(old(p)@),
{
    proof {
        reveal_strlit("const");
    }
    if ends(p.type_str.as_str(), "const") {
        let v = to_chars(p.type_str.as_str());
        let at = v.len() - 5;
        if at >= 1 && crate::text::gap(v[at - 1]) {
            let rest = cut(p.type_str.as_str(), 0, at - 1);
            p.type_str = trim(rest.as_str());
            p.const_param = true;
        }
    }
}

/// Peels a trailing `const*`.
pub fn peel_trailing_const_ptr(p: &mut Parameter)
    ensures
        final(p)@ == trailing_const_ptr(old(p)@),
{
    proof {
        reveal_strlit("const*");
    }
    if ends(p.type_str.as_str(), "const*") {
        let n = count(p.type_str.as_str());
        let rest = cut(p.type_str.as_str(), 0, n - 6);
        p.type_str = trim(rest.as_str());
        p.const_param = true;
        p.ptr_param = true;
    }
}

/// Peels a trailing `const&`.
pub fn peel_trailing_const_ref(p: &mut Parameter)
    ensures
        final(p)@ == trailing_const_ref(old(p)@),
{
    proof {
        reveal_strlit("const&");
    }
    if ends(p.type_str.as_str(), "const&") {
        let n = count(p.type_str.as_str());
        let rest = cut(p.type_str.as_str(), 0, n - 6);
        p.type_str = trim(rest.as_str());
        p.const_param = true;
        p.ref_param = true;
    }
}

/// Drops the words `class` and `struct` from the type.
pub fn drop_tags(p: &mut Parameter)
    ensures
        final(p)@ == without_tags(old(p)@),
{
    let a = drop_word(p.type_str.clone(), "class");
    p.type_str = drop_word(a, "struct");
}

/// Peels the first `&&`, else the first `&`, else the first `*`, with all
/// that follows it.
pub fn peel_marks(p: &mut Parameter)
    ensures
        final(p)@ == peeled_marks(old(p)@),
{
    match peel_at(p.type_str.as_str(), "&&") {
        Some(t) => {
            p.type_str = t;
            p.move_param = true;
        },
        None => match peel_at(p.type_str.as_str(), "&") {
            Some(t) => {
                p.type_str = t;
                p.ref_param = true;
            },
            None => match peel_at(p.type_str.as_str(), "*") {
                Some(t) => {
                    p.type_str = t;
                    p.ptr_param = true;
                },
                None => {},
            },
        },
    }
}

pub fn mark_generic(p: &mut Parameter)
    ensures
        final(p)@ == marked_generic(old(p)@),
{
    if angles(p.type_str.as_str()) {
        p.is_generic = true;
    }
}

/// Where the type still holds several words, the last one is the name and
/// the others are the type.
pub fn split_name(p: &mut Parameter)
    ensures
        final(p)@ == name_split(old(p)@),
{
    let mut parts = split_fields(p.type_str.as_str());
    if parts.len() > 1 {
        let ghost all = views(parts@);
        let last = parts.pop().unwrap();
        assert(views(parts@) =~= all.drop_last());
        assert(last@ == all.last());
        p.name = trim(last.as_str());
        let ty = join(&parts, " ");
        p.type_str = trim(ty.as_str());
    }
}

/// Resolves the type, and names a nameless parameter by its position.
pub fn finish(p: &mut Parameter, position: usize)
    ensures
        final(p)@ == finished(old(p)@, position as nat),
{
    let res = parse_c_type(p.type_str.as_str());
    p.r_type = res.0;
    p.param_type = res.1.code();
    if p.name.as_str().is_empty() {
        let n = decimal_text(position as u64);
        p.name = cat2("arg", n.as_str());
    }
}

/// The parameter that a declaration with the given source text gives.
pub fn param_of_text(name: &str, text: &str, position: usize) -> (r: Parameter)
    ensures
        r@ == param_from_text(name@, text@, position as nat),
{
    let mut p = Parameter::default();
    p.name = match peel_at(name, "=") {
        Some(t) => t,
        None => String::from_str(name),
    };
    p.type_str = match peel_at(text, "=") {
        Some(t) => t,
        None => String::from_str(text),
    };
    peel_leading_const(&mut p);
    peel_trailing_const(&mut p);
    peel_trailing_const_ptr(&mut p);
    peel_trailing_const_ref(&mut p);
    drop_tags(&mut p);
    peel_marks(&mut p);
    mark_generic(&mut p);
    split_name(&mut p);
    finish(&mut p, position);
    p
}

/// The parameters that the children from position `k` on declare, behind
/// those in `acc`, or nothing where one of them has inconsistent offsets.
/// `position` counts the parameter declarations met so far.
pub open spec fn params_from(
    inner: Seq<Node>,
    content: Seq<char>,
    k: int,
    position: nat,
    acc: Seq<ParameterView>,
) -> Option<Seq<ParameterView>>
    decreases inner.len() - k,
{
    if k < 0 || k >= inner.len() {
        Some(acc)
    } else if inner[k].kind.kind != NodeKind::ParmVarDecl {
        params_from(inner, content, k + 1, position, acc)
    } else {
        match param_of(inner[k].kind, content, position) {
            Some(p) => params_from(inner, content, k + 1, position + 1, acc.push(p)),
            None => None,
        }
    }
}

/// The parameters of a method, or nothing where the method is invalid.
pub open spec fn params_of(inner: Seq<Node>, content: Seq<char>) -> Option<Seq<ParameterView>> {
    params_from(inner, content, 0, 0, Seq::empty())
}

/// Reads the parameters of a method from its children. A parameter whose
/// offsets are missing or inconsistent marks the method invalid.
pub fn parse_parm_decl(inner: &Vec<Node>, api: &mut CppApi, state: &ParseState)
    ensures
        match params_of(inner@, state.content@) {
            Some(ps) => final(api)@ == (CppApiView { parameters: ps, ..old(api)@ }),
            None => final(api)@ == (CppApiView { invalid: true, ..old(api)@ }),
        },
{
    let mut params: Vec<Parameter> = Vec::new();
    assert(views(params@) =~= Seq::empty());
    let mut position: usize = 0;
    let mut k: usize = 0;
    while k < inner.len()
        invariant
            k <= inner.len(),
            position <= k,
            params_of(inner@, state.content@) == params_from(
                inner@,
                state.content@,
                k as int,
                position as nat,
                views(params@),
            ),
            api@ == old(api)@,
        decreases inner.len() - k,
    {
        let node = &inner[k];
        if node.kind.kind == NodeKind::ParmVarDecl {
            match param_source_of(&node.kind, state.content.as_str()) {
                Some(text) => {
                    let p = param_of_text(node.kind.name.as_str(), text.as_str(), position);
                    proof {
                        lemma_views_push(params@, p);
                    }
                    params.push(p);
                },
                None => {
                    api.invalid = true;
                    return ;
                },
            }
            position += 1;
        }
        k += 1;
    }
    api.parameters = params;
}

/// The source text in front of a method's name, or nothing where the
/// offsets are missing or do not bound whole characters.
pub open spec fn return_source(kind: Clang, content: Seq<char>) -> Option<Seq<char>> {
    match (kind.range, kind.loc) {
        (Some(range), Some(loc)) => match (range.begin.expansion, loc.spelling) {
            (Some(start), Some(end)) => source_text(content, start as int, end as int),
            _ => None,
        },
        _ => None,
    }
}

/// Peels the word `static` off the result type.
pub open spec fn peeled_static(a: CppApiView) -> CppApiView {
    if holds_word(a.rc_type, "static"@) {
        CppApiView { rc_type: trimmed(replaced(a.rc_type, "static"@, ""@)), is_static: true, ..a }
    } else {
        a
    }
}

/// Drops the words `class` and `struct` from the result type.
pub open spec fn untagged(a: CppApiView) -> CppApiView {
    CppApiView { rc_type: without_word(without_word(a.rc_type, "class"@), "struct"@), ..a }
}

/// Peels the first `virtual` out of the result type.
pub open spec fn peeled_virtual(a: CppApiView) -> CppApiView {
    let i = index_of(a.rc_type, "virtual"@);
    if i >= 0 {
        CppApiView {
            rc_type: trimmed(
                a.rc_type.subrange(0, i) + a.rc_type.subrange(
                    i + "virtual"@.len(),
                    a.rc_type.len() as int,
                ),
            ),
            is_virtual: true,
            ..a
        }
    } else {
        a
    }
}

/// Peels the first `const` out of the result type, wherever it stands.
pub open spec fn peeled_const(a: CppApiView) -> CppApiView {
    let i = index_of(a.rc_type, "const"@);
    if i >= 0 {
        CppApiView {
            rc_type: trimmed(
                a.rc_type.subrange(0, i) + a.rc_type.subrange(
                    i + "const"@.len(),
                    a.rc_type.len() as int,
                ),
            ),
            const_ret: true,
            ..a
        }
    } else {
        a
    }
}

/// Peels the first `&`, else the first `*`, with all that follows it.
pub open spec fn peeled_result_mark(a: CppApiView) -> CppApiView {
    match peeled_at(a.rc_type, "&"@) {
        Some(t) => CppApiView { rc_type: t, ref_ret: true, ..a },
        None => match peeled_at(a.rc_type, "*"@) {
            Some(t) => CppApiView { rc_type: t, ptr_ret: true, ..a },
            None => a,
        },
    }
}

/// Whether one of the parameters is marked as generic.
pub open spec fn any_generic(params: Seq<ParameterView>) -> bool {
    exists|i: int| 0 <= i < params.len() && (#[trigger] params[i]).is_generic
}

/// Marks a method with a template in its signature, and resolves its result.
pub open spec fn resolved_api(a: CppApiView) -> CppApiView {
    CppApiView {
        is_generic: any_generic(a.parameters) || has_angles(a.rc_type),
        r_type: resolved(a.rc_type).0,
        return_type: resolved(a.rc_type).1.spec_code(),
        ..a
    }
}

/// Whether the type string of a method ends in `const`.
pub open spec fn is_const_method(kind: Clang) -> bool {
    match qual_text(kind) {
        Some(t) => ends_with(t, "const"@),
        None => false,
    }
}

/// The method that a declaration gives, or nothing: for a deleted method,
/// an operator, one with an invalid parameter, or one whose result type
/// cannot be read from the source.
pub open spec fn api_of(node: Node, content: Seq<char>) -> Option<CppApiView> {
    if node.kind.explicitly_deleted || starts_with(node.kind.name@, "operator"@) {
        None
    } else {
        match (params_of(node.inner@, content), return_source(node.kind, content)) {
            (Some(ps), Some(rc)) => Some(
                resolved_api(
                    peeled_result_mark(
                        peeled_const(
                            peeled_virtual(
                                untagged(
                                    peeled_static(
                                        CppApiView {
                                            name: node.kind.name@,
                                            is_construstor: node.kind.kind
                                                == NodeKind::CXXConstructorDecl,
                                            parameters: ps,
                                            is_static: is_static_storage(node.kind),
                                            is_const: is_const_method(node.kind),
                                            rc_type: rc,
                                            ..CppApiView::empty()
                                        },
                                    ),
                                ),
                            ),
                        ),
                    ),
                ),
            ),
            _ => None,
        }
    }
}

/// The source text in front of a method's name, or nothing where the
/// offsets are missing or do not bound whole characters.
pub fn return_source_of(kind: &Clang, content: &str) -> (r: Option<String>)
    ensures
        match r {
            Some(t) => return_source(*kind, content@) == Some(t@),
            None => return_source(*kind, content@) is None,
        },
{
    match (&kind.range, &kind.loc) {
        (Some(range), Some(loc)) => match (range.begin.expansion, loc.spelling) {
            (Some(start), Some(end)) => source_slice(content, start, end),
            _ => None,
        },
        _ => None,
    }
}

/// Peels the word `static` off the result type.
pub fn peel_static(a: &mut CppApi)
    ensures
        final(a)@ == peeled_static(old(a)@),
{
    if word_held(a.rc_type.as_str(), "static") {
        let t = replace_all(a.rc_type.as_str(), "static", "");
        a.rc_type = trim(t.as_str());
        a.is_static = true;
    }
}

/// Drops the words `class` and `struct` from the result type.
pub fn untag(a: &mut CppApi)
    ensures
        final(a)@ == untagged(old(a)@),
{
    let t = drop_word(a.rc_type.clone(), "class");
    a.rc_type = drop_word(t, "struct");
}

/// Peels the first `virtual` out of the result type.
pub fn peel_virtual(a: &mut CppApi)
    ensures
        final(a)@ == peeled_virtual(old(a)@),
{
    proof {
        reveal_strlit("virtual");
    }
    match find(a.rc_type.as_str(), "virtual") {
        Some(i) => {
            let n = count(a.rc_type.as_str());
            let mut joined_text = cut(a.rc_type.as_str(), 0, i);
            let rest = cut(a.rc_type.as_str(), i + 7, n);
            joined_text.append(rest.as_str());
            a.rc_type = trim(joined_text.as_str());
            a.is_virtual = true;
        },
        None => {},
    }
}

/// Peels the first `const` out of the result type, wherever it stands.
pub fn peel_const(a: &mut CppApi)
    ensures
        final(a)@ == peeled_const(old(a)@),
{
    proof {
        reveal_strlit("const");
    }
    match find(a.rc_type.as_str(), "const") {
        Some(i) => {
            let n = count(a.rc_type.as_str());
            let mut joined_text = cut(a.rc_type.as_str(), 0, i);
            let rest = cut(a.rc_type.as_str(), i + 5, n);
            joined_text.append(rest.as_str());
            a.rc_type = trim(joined_text.as_str());
            a.const_ret = true;
        },
        None => {},
    }
}

/// Peels the first `&`, else the first `*`, with all that follows it.
pub fn peel_result_mark(a: &mut CppApi)
    ensures
        final(a)@ == peeled_result_mark(old(a)@),
{
    match peel_at(a.rc_type.as_str(), "&") {
        Some(t) => {
            a.rc_type = t;
            a.ref_ret = true;
        },
        None => match peel_at(a.rc_type.as_str(), "*") {
            Some(t) => {
                a.rc_type = t;
                a.ptr_ret = true;
            },
            None => {},
        },
    }
}

pub fn generic_among(params: &Vec<Parameter>) -> (r: bool)
    ensures
        r == any_generic(views(params@)),
{
    let mut i: usize = 0;
    while i < params.len()
        invariant
            i <= params.len(),
            forall|k: int| 0 <= k < i ==> !(#[trigger] views(params@)[k]).is_generic,
        decreases params.len() - i,
    {
        if params[i].is_generic {
            assert(views(params@)[i as int].is_generic);
            return true;
        }
        i += 1;
    }
    false
}

/// Marks a method with a template in its signature, and resolves its result.
pub fn resolve_api(a: &mut CppApi)
    ensures
        final(a)@ == resolved_api(old(a)@),
{
    a.is_generic = generic_among(&a.parameters) || angles(a.rc_type.as_str());
    let res = parse_c_type(a.rc_type.as_str());
    a.r_type = res.0;
    a.return_type = res.1.code();
}

pub fn const_method(kind: &Clang) -> (r: bool)
    ensures
        r == is_const_method(*kind),
{
    match &kind.ty {
        Some(q) => match &q.qualType {
            Some(t) => ends(t.as_str(), "const"),
            None => false,
        },
        None => false,
    }
}

/// Reads a method, a constructor or a free function.
pub fn parse_api(node: &Node, state: &ParseState) -> (r: Option<CppApi>)
    ensures
        match r {
            Some(a) => api_of(*node, state.content@) == Some(a@),
            None => api_of(*node, state.content@) is None,
        },
{
    let kind = &node.kind;
    if kind.explicitly_deleted || begins(kind.name.as_str(), "operator") {
        return None;
    }
    let mut api = CppApi::default();
    api.name = kind.name.clone();
    api.is_construstor = kind.kind == NodeKind::CXXConstructorDecl;
    parse_parm_decl(&node.inner, &mut api, state);
    if api.invalid {
        return None;
    }
    api.is_static = static_storage(kind);
    api.is_const = const_method(kind);
    match return_source_of(kind, state.content.as_str()) {
        Some(rc) => {
            api.rc_type = rc;
        },
        None => {
            return None;
        },
    }
    peel_static(&mut api);
    untag(&mut api);
    peel_virtual(&mut api);
    peel_const(&mut api);
    peel_result_mark(&mut api);
    resolve_api(&mut api);
    Some(api)
}

/// The value of an enumeration constant: the literal of its initializer, or
/// the running value where it has no initializer. Nothing where the
/// initializer is no literal integer: another kind of expression, a constant
/// expression without literal text, or text that is no 32-bit numeral.
pub open spec fn constant_value(child: Node, running: int) -> Option<int> {
    if child.inner@.len() == 0 {
        Some(running)
    } else if child.inner@[0].kind.kind != NodeKind::ConstantExpr {
        None
    } else {
        match child.inner@[0].kind.value {
            Some(text) => parsed_i32(text@),
            None => None,
        }
    }
}

/// The constants that the children from position `k` on declare, behind
/// those in `acc`; nothing where a constant has another type than the
/// enumeration, an initializer that is no literal, or a value out of range.
pub open spec fn constants_from(
    node: Node,
    k: int,
    running: int,
    acc: Seq<CppEnumConstantView>,
) -> Option<Seq<CppEnumConstantView>>
    decreases node.inner@.len() - k,
{
    if k < 0 || k >= node.inner@.len() {
        Some(acc)
    } else {
        let child = node.inner@[k];
        if child.kind.kind != NodeKind::EnumConstantDecl {
            constants_from(node, k + 1, running, acc)
        } else if qual_text(child.kind) != Some(node.kind.name@) {
            None
        } else {
            match constant_value(child, running) {
                Some(v) => if v <= 2147483647 {
                    constants_from(
                        node,
                        k + 1,
                        v + 1,
                        acc.push(CppEnumConstantView { name: child.kind.name@, value: v }),
                    )
                } else {
                    None
                },
                None => None,
            }
        }
    }
}

/// Whether the constants of an enumeration are scoped.
pub open spec fn is_scoped(kind: Clang) -> bool {
    match kind.scoped_enum_tag {
        Some(tag) => tag@ == "class"@,
        None => false,
    }
}

/// The enumeration that a declaration gives: whole, or not at all.
pub open spec fn enum_of(node: Node) -> Option<CppEnumView> {
    match constants_from(node, 0, 0, Seq::empty()) {
        Some(cs) => Some(
            CppEnumView { name: node.kind.name@, constants: cs, enum_class: is_scoped(node.kind) },
        ),
        None => None,
    }
}

/// A constant whose initializer is no literal integer.
pub open spec fn non_literal(child: Node) -> bool {
    &&& child.kind.kind == NodeKind::EnumConstantDecl
    &&& child.inner@.len() > 0
    &&& (child.inner@[0].kind.kind != NodeKind::ConstantExpr || match child.inner@[0].kind.value {
        Some(text) => parsed_i32(text@) is None,
        None => true,
    })
}

/// An enumeration with a constant whose initializer is no literal integer
/// is not extracted at all.
pub proof fn lemma_non_literal_discards_enum(node: Node, i: int)
    requires
        0 <= i < node.inner@.len(),
        non_literal(node.inner@[i]),
    ensures
        enum_of(node) is None,
{
    lemma_constants_stop(node, i, 0, 0, Seq::empty());
}

/// A constant whose initializer is no literal ends the reading of the
/// constants, wherever it started.
pub proof fn lemma_constants_stop(
    node: Node,
    i: int,
    k: int,
    running: int,
    acc: Seq<CppEnumConstantView>,
)
    requires
        0 <= k <= i < node.inner@.len(),
        non_literal(node.inner@[i]),
    ensures
        constants_from(node, k, running, acc) is None,
    decreases i - k,
{
    if k < i {
        let child = node.inner@[k];
        if child.kind.kind != NodeKind::EnumConstantDecl {
            lemma_constants_stop(node, i, k + 1, running, acc);
        } else if qual_text(child.kind) != Some(node.kind.name@) {
        } else {
            match constant_value(child, running) {
                Some(v) => {
                    if v <= 2147483647 {
                        lemma_constants_stop(
                            node,
                            i,
                            k + 1,
                            v + 1,
                            acc.push(CppEnumConstantView { name: child.kind.name@, value: v }),
                        );
                    }
                },
                None => {},
            }
        }
    }
}

/// The type string of a declaration, where the front end gave one.
pub fn named_type(kind: &Clang, name: &str) -> (r: bool)
    ensures
        r == (qual_text(*kind) == Some(name@)),
{
    match &kind.ty {
        Some(q) => match &q.qualType {
            Some(t) => same(t.as_str(), name),
            None => false,
        },
        None => false,
    }
}

/// The value of an enumeration constant: the literal of its initializer, or
/// the running value where it has no initializer. Nothing where the
/// initializer is no literal integer: another kind of expression, a constant
/// expression without literal text, or text that is no 32-bit numeral.
pub fn constant_value_of(child: &Node, running: i64) -> (r: Option<i64>)
    ensures
        match r {
            Some(v) => constant_value(*child, running as int) == Some(v as int),
            None => constant_value(*child, running as int) is None,
        },
{
    if child.inner.len() == 0 {
        return Some(running);
    }
    let expr = &child.inner[0];
    if expr.kind.kind != NodeKind::ConstantExpr {
        return None;
    }
    match &expr.kind.value {
        Some(text) => match parse_i32(text.as_str()) {
            Some(v) => Some(v as i64),
            None => None,
        },
        None => None,
    }
}

pub fn scoped(kind: &Clang) -> (r: bool)
    ensures
        r == is_scoped(*kind),
{
    match &kind.scoped_enum_tag {
        Some(tag) => same(tag.as_str(), "class"),
        None => false,
    }
}

/// Reads an enumeration. Its constants are literal integers, the first 0
/// and each next one more than the one before unless it says otherwise; an
/// enumeration with any other constant is discarded as a whole.
pub fn parse_enum(node: &Node, _state: &mut ParseState) -> (r: Option<CppEnum>)
    ensures
        match r {
            Some(e) => enum_of(*node) == Some(e@),
            None => enum_of(*node) is None,
        },
        *final(_state) == *old(_state),
{
    let mut constants: Vec<CppEnumConstant> = Vec::new();
    assert(views(constants@) =~= Seq::empty());
    let mut running: i64 = 0;
    let mut k: usize = 0;
    while k < node.inner.len()
        invariant
            k <= node.inner.len(),
            -2147483648 <= running <= 2147483648,
            constants_from(*node, 0, 0, Seq::empty()) == constants_from(
                *node,
                k as int,
                running as int,
                views(constants@),
            ),
        decreases node.inner.len() - k,
    {
        let child = &node.inner[k];
        if child.kind.kind == NodeKind::EnumConstantDecl {
            if !named_type(&child.kind, node.kind.name.as_str()) {
                return None;
            }
            match constant_value_of(child, running) {
                Some(v) => {
                    if v > 2147483647 {
                        return None;
                    }
                    let c = CppEnumConstant { name: child.kind.name.clone(), value: v as i32 };
                    proof {
                        lemma_views_push(constants@, c);
                    }
                    constants.push(c);
                    running = v + 1;
                },
                None => {
                    return None;
                },
            }
        }
        k += 1;
    }
    Some(CppEnum { name: node.kind.name.clone(), constants, enum_class: scoped(&node.kind) })
}

/// Where a method of that name goes into a list sorted by name: behind the
/// last method among the first `j` whose name does not come after it.
pub open spec fn slot(apis: Seq<CppApiView>, name: Seq<char>, j: int) -> int
    decreases j,
{
    if j <= 0 || j > apis.len() {
        0
    } else if lex_le(apis[j - 1].name, name) {
        j
    } else {
        slot(apis, name, j - 1)
    }
}

/// The methods sorted by name; methods of one name keep their order.
pub open spec fn sorted_by_name(apis: Seq<CppApiView>) -> Seq<CppApiView>
    decreases apis.len(),
{
    if apis.len() == 0 {
        Seq::empty()
    } else {
        let rest = sorted_by_name(apis.drop_last());
        rest.insert(slot(rest, apis.last().name, rest.len() as int), apis.last())
    }
}

/// Two methods that count as one: the same name and as many parameters.
pub open spec fn same_signature(a: CppApiView, b: CppApiView) -> bool {
    a.name == b.name && a.parameters.len() == b.parameters.len()
}

/// Whether a method among the first `k` counts as one with the given one.
pub open spec fn has_signature(apis: Seq<CppApiView>, k: int, a: CppApiView) -> bool {
    exists|i: int| 0 <= i < k && i < apis.len() && same_signature(#[trigger] apis[i], a)
}

/// The methods without each one that counts as one with a method before
/// it: of the methods of one name and one number of parameters, the first
/// stays.
pub open spec fn deduped(apis: Seq<CppApiView>) -> Seq<CppApiView>
    decreases apis.len(),
{
    if apis.len() == 0 {
        Seq::empty()
    } else {
        let rest = deduped(apis.drop_last());
        if has_signature(rest, rest.len() as int, apis.last()) {
            rest
        } else {
            rest.push(apis.last())
        }
    }
}

/// Whether no two methods share both their name and the number of their
/// parameters.
pub open spec fn distinct_signatures(apis: Seq<CppApiView>) -> bool {
    forall|i: int, j: int|
        0 <= i < j < apis.len() ==> !same_signature(#[trigger] apis[i], #[trigger] apis[j])
}

/// Whether each method's name comes before, or equals, the names of the
/// methods behind it.
pub open spec fn ordered_by_name(apis: Seq<CppApiView>) -> bool {
    forall|i: int, j: int|
        0 <= i < j < apis.len() ==> lex_le(#[trigger] apis[i].name, #[trigger] apis[j].name)
}

/// The place that `slot` finds: the method before it does not come after
/// the name, and every method from it on does.
pub proof fn lemma_slot(apis: Seq<CppApiView>, name: Seq<char>, j: int)
    requires
        0 <= j <= apis.len(),
    ensures
        0 <= slot(apis, name, j) <= j,
        slot(apis, name, j) > 0 ==> lex_le(apis[slot(apis, name, j) - 1].name, name),
        forall|k: int| slot(apis, name, j) <= k < j ==> !lex_le(#[trigger] apis[k].name, name),
    decreases j,
{
    if j > 0 && !lex_le(apis[j - 1].name, name) {
        lemma_slot(apis, name, j - 1);
    }
}

/// Sorting by name gives the same methods, each as often as before, with
/// their names in dictionary order.
pub proof fn lemma_sorted_by_name(apis: Seq<CppApiView>)
    ensures
        ordered_by_name(sorted_by_name(apis)),
        sorted_by_name(apis).len() == apis.len(),
        sorted_by_name(apis).to_multiset() == apis.to_multiset(),
    decreases apis.len(),
{
    if apis.len() == 0 {
        assert(apis =~= Seq::empty());
    } else {
        let rest = sorted_by_name(apis.drop_last());
        let x = apis.last();
        let j = slot(rest, x.name, rest.len() as int);
        lemma_sorted_by_name(apis.drop_last());
        lemma_slot(rest, x.name, rest.len() as int);
        let out = rest.insert(j, x);
        assert forall|a: int, b: int| 0 <= a < b < out.len() implies lex_le(
            #[trigger] out[a].name,
            #[trigger] out[b].name,
        ) by {
            if b < j {
                assert(out[a] == rest[a] && out[b] == rest[b]);
            } else if b == j {
                assert(out[a] == rest[a]);
                if a < j - 1 {
                    crate::text::lemma_lex_transitive(rest[a].name, rest[j - 1].name, x.name, 0);
                }
            } else if a == j {
                assert(out[b] == rest[b - 1]);
                crate::text::lemma_lex_total(rest[b - 1].name, x.name, 0);
            } else if a > j {
                assert(out[a] == rest[a - 1] && out[b] == rest[b - 1]);
            } else {
                assert(out[a] == rest[a] && out[b] == rest[b - 1]);
            }
        }
        vstd::seq_lib::to_multiset_insert(rest, j, x);
        vstd::seq_lib::to_multiset_build(apis.drop_last(), x);
        assert(apis.drop_last().push(x) =~= apis);
    }
}

/// Of a list without repeats: no two of its methods share both name and
/// number of parameters, every method of the list it came from has one in
/// it that counts as one with it, and its methods stand in the order that
/// they had.
pub proof fn lemma_deduped(apis: Seq<CppApiView>)
    ensures
        deduped(apis).len() <= apis.len(),
        distinct_signatures(deduped(apis)),
        forall|k: int|
            0 <= k < apis.len() ==> has_signature(
                deduped(apis),
                deduped(apis).len() as int,
                #[trigger] apis[k],
            ),
        ordered_by_name(apis) ==> ordered_by_name(deduped(apis)),
        forall|i: int|
            0 <= i < deduped(apis).len() ==> apis.contains(#[trigger] deduped(apis)[i]),
    decreases apis.len(),
{
    if apis.len() > 0 {
        let before = apis.drop_last();
        let rest = deduped(before);
        let out = deduped(apis);
        lemma_deduped(before);
        assert forall|k: int| 0 <= k < apis.len() implies has_signature(
            out,
            out.len() as int,
            #[trigger] apis[k],
        ) by {
            if k < before.len() {
                assert(apis[k] == before[k]);
                let i = choose|i: int|
                    0 <= i < rest.len() && same_signature(#[trigger] rest[i], before[k]);
                assert(out[i] == rest[i]);
            } else if has_signature(rest, rest.len() as int, apis.last()) {
                let i = choose|i: int|
                    0 <= i < rest.len() && same_signature(#[trigger] rest[i], apis.last());
                assert(out[i] == rest[i]);
            } else {
                assert(out[rest.len() as int] == apis.last());
                assert(same_signature(out[rest.len() as int], apis[k]));
            }
        }
        assert forall|i: int| 0 <= i < out.len() implies apis.contains(#[trigger] out[i]) by {
            if i < rest.len() {
                assert(out[i] == rest[i]);
                let m = choose|m: int| 0 <= m < before.len() && before[m] == rest[i];
                assert(apis[m] == out[i]);
            } else {
                assert(out[i] == apis[apis.len() - 1]);
            }
        }
        if ordered_by_name(apis) {
            assert(ordered_by_name(before)) by {
                assert forall|a: int, b: int| 0 <= a < b < before.len() implies lex_le(
                    #[trigger] before[a].name,
                    #[trigger] before[b].name,
                ) by {
                    assert(before[a] == apis[a] && before[b] == apis[b]);
                }
            }
            assert forall|a: int, b: int| 0 <= a < b < out.len() implies lex_le(
                #[trigger] out[a].name,
                #[trigger] out[b].name,
            ) by {
                if b < rest.len() {
                    assert(out[a] == rest[a] && out[b] == rest[b]);
                } else {
                    assert(out[a] == rest[a]);
                    let m = choose|m: int| 0 <= m < before.len() && before[m] == rest[a];
                    assert(apis[m] == out[a]);
                    assert(out[b] == apis[apis.len() - 1]);
                }
            }
        }
    }
}

/// Sorts methods by name, keeping the order of those of one name.
pub fn sort_by_name(apis: &Vec<CppApi>) -> (r: Vec<CppApi>)
    ensures
        views(r@) == sorted_by_name(views(apis@)),
{
    let mut out: Vec<CppApi> = Vec::new();
    assert(views(out@) =~= Seq::empty());
    let mut i: usize = 0;
    while i < apis.len()
        invariant
            i <= apis.len(),
            out.len() == i,
            views(out@) == sorted_by_name(views(apis@).take(i as int)),
        decreases apis.len() - i,
    {
        let item = apis[i].clone();
        let mut j: usize = out.len();
        while j > 0 && !ordered(out[j - 1].name.as_str(), item.name.as_str())
            invariant
                j <= out.len(),
                slot(views(out@), item@.name, out.len() as int) == slot(
                    views(out@),
                    item@.name,
                    j as int,
                ),
            decreases j,
        {
            j -= 1;
        }
        proof {
            assert(views(apis@).take(i + 1).drop_last() =~= views(apis@).take(i as int));
            assert(views(apis@).take(i + 1).last() == item@);
        }
        let ghost before = views(out@);
        out.insert(j, item);
        assert(views(out@) =~= before.insert(j as int, item@));
        i += 1;
    }
    assert(views(apis@).take(apis.len() as int) =~= views(apis@));
    out
}

/// Whether a list holds a method of that name and number of parameters.
pub fn signature_held(apis: &Vec<CppApi>, a: &CppApi) -> (r: bool)
    ensures
        r == has_signature(views(apis@), apis.len() as int, a@),
{
    let mut i: usize = 0;
    while i < apis.len()
        invariant
            i <= apis.len(),
            !has_signature(views(apis@), i as int, a@),
        decreases apis.len() - i,
    {
        if same(apis[i].name.as_str(), a.name.as_str()) && apis[i].parameters.len()
            == a.parameters.len() {
            assert(same_signature(views(apis@)[i as int], a@));
            return true;
        }
        i += 1;
    }
    false
}

/// Drops each method that counts as one with a method before it. No two
/// methods of the result share both their name and the number of their
/// parameters.
pub fn dedup(apis: &Vec<CppApi>) -> (r: Vec<CppApi>)
    ensures
        views(r@) == deduped(views(apis@)),
        distinct_signatures(views(r@)),
{
    let mut out: Vec<CppApi> = Vec::new();
    assert(views(out@) =~= Seq::empty());
    let mut i: usize = 0;
    while i < apis.len()
        invariant
            i <= apis.len(),
            views(out@) == deduped(views(apis@).take(i as int)),
        decreases apis.len() - i,
    {
        proof {
            assert(views(apis@).take(i + 1).drop_last() =~= views(apis@).take(i as int));
        }
        if !signature_held(&out, &apis[i]) {
            let item = apis[i].clone();
            proof {
                lemma_views_push(out@, item);
            }
            out.push(item);
        }
        i += 1;
    }
    proof {
        assert(views(apis@).take(apis.len() as int) =~= views(apis@));
        lemma_deduped(views(apis@));
    }
    out
}

/// The position of the first method of that name at or after `i`, or -1.
pub open spec fn method_from(apis: Seq<CppApiView>, name: Seq<char>, i: int) -> int
    decreases apis.len() - i,
{
    if i < 0 || i >= apis.len() {
        -1
    } else if apis[i].name == name {
        i
    } else {
        method_from(apis, name, i + 1)
    }
}

/// The class with one more method, unless its first method of that name has
/// as many parameters.
pub open spec fn with_method(class: UnrealClassView, found: Option<CppApiView>) -> UnrealClassView {
    match found {
        Some(a) => {
            let api = CppApiView { class_name: class.name, ..a };
            let e = method_from(class.public_apis, api.name, 0);
            if e >= 0 && class.public_apis[e].parameters.len() == api.parameters.len() {
                class
            } else {
                UnrealClassView { public_apis: class.public_apis.push(api), ..class }
            }
        },
        None => class,
    }
}

/// The class with one more field, among the public ones or the others.
pub open spec fn with_field(class: UnrealClassView, field: CppPropertyView, is_pub: bool) -> UnrealClassView {
    if is_pub {
        UnrealClassView { properties: class.properties.push(field), ..class }
    } else {
        UnrealClassView {
            none_public_properties: class.none_public_properties.push(field),
            ..class
        }
    }
}

/// The class with the fields of a struct that stood in a union of it.
pub open spec fn with_hoisted(class: UnrealClassView, found: Option<UnrealClassView>) -> UnrealClassView {
    match found {
        Some(s) => UnrealClassView {
            properties: class.properties + s.properties,
            none_public_properties: class.none_public_properties + s.none_public_properties,
            ..class
        },
        None => class,
    }
}

/// The class that a record declaration gives, and whether the walk stands
/// among public members behind it. A declaration without children gives no
/// class. Members are public from the start in a struct and not in a class,
/// until an access specifier says otherwise.
pub open spec fn class_of(node: Node, is_struct: bool, is_pub: bool, content: Seq<char>) -> (
    Option<UnrealClassView>,
    bool,
)
    decreases node, 2int, 0int,
{
    if node.inner@.len() == 0 {
        (None, is_pub)
    } else {
        let start = UnrealClassView {
            is_struct: is_struct,
            name: node.kind.name@,
            ..UnrealClassView::empty()
        };
        let walked = members_from(node, 0, start, is_struct, content);
        (Some(walked.0), walked.1)
    }
}

/// The class after the members from position `k` on were read.
pub open spec fn members_from(
    node: Node,
    k: int,
    class: UnrealClassView,
    is_pub: bool,
    content: Seq<char>,
) -> (UnrealClassView, bool)
    decreases node, 1int, node.inner@.len() - k,
{
    if k < 0 || k >= node.inner@.len() {
        (class, is_pub)
    } else {
        let child = node.inner@[k];
        if child.kind.kind == NodeKind::AccessSpecDecl {
            members_from(node, k + 1, class, child.kind.access@ == "public"@, content)
        } else if child.kind.kind == NodeKind::CXXConstructorDecl || child.kind.kind
            == NodeKind::CXXMethodDecl {
            if is_pub {
                members_from(
                    node,
                    k + 1,
                    with_method(class, api_of(child, content)),
                    is_pub,
                    content,
                )
            } else {
                members_from(node, k + 1, class, is_pub, content)
            }
        } else if child.kind.kind == NodeKind::FieldDecl {
            members_from(
                node,
                k + 1,
                with_field(class, field_of(child.kind, content), is_pub),
                is_pub,
                content,
            )
        } else if child.kind.kind == NodeKind::CXXRecordDecl && child.kind.tag_used@ == "union"@
            && class.is_struct {
            let hoisted = union_from(child, 0, class.is_struct, is_pub, content);
            members_from(node, k + 1, with_hoisted(class, hoisted.0), hoisted.1, content)
        } else {
            members_from(node, k + 1, class, is_pub, content)
        }
    }
}

/// The first struct in a union that gives a class, looked for from position
/// `j` on, and whether the walk stands among public members behind it.
/// `is_struct` says whether the walk stands in a struct; the class found
/// takes the flag over.
pub open spec fn union_from(unode: Node, j: int, is_struct: bool, is_pub: bool, content: Seq<char>) -> (
    Option<UnrealClassView>,
    bool,
)
    decreases unode, 1int, unode.inner@.len() - j,
{
    if j < 0 || j >= unode.inner@.len() {
        (None, is_pub)
    } else {
        let child = unode.inner@[j];
        if child.kind.kind == NodeKind::CXXRecordDecl && child.kind.tag_used@ == "struct"@ {
            let found = class_of(child, is_struct, is_pub, content);
            if found.0 is Some {
                found
            } else {
                union_from(unode, j + 1, is_struct, found.1, content)
            }
        } else {
            union_from(unode, j + 1, is_struct, is_pub, content)
        }
    }
}

/// The position of the first method of that name at or after `i`, or -1.
pub fn find_method(apis: &Vec<CppApi>, name: &str) -> (r: Option<usize>)
    ensures
        match r {
            Some(i) => i as int == method_from(views(apis@), name@, 0) && i < apis.len(),
            None => method_from(views(apis@), name@, 0) == -1,
        },
{
    let mut i: usize = 0;
    while i < apis.len()
        invariant
            i <= apis.len(),
            method_from(views(apis@), name@, 0) == method_from(views(apis@), name@, i as int),
        decreases apis.len() - i,
    {
        if same(apis[i].name.as_str(), name) {
            return Some(i);
        }
        i += 1;
    }
    None
}

/// Adds a method to a class, unless the first method of that name in it has
/// as many parameters.
pub fn add_method(class: &mut UnrealClass, found: Option<CppApi>)
    ensures
        final(class)@ == with_method(
            old(class)@,
            match found {
                Some(a) => Some(a@),
                None => None,
            },
        ),
{
    match found {
        Some(a) => {
            let mut api = a;
            api.class_name = class.name.clone();
            let twin = match find_method(&class.public_apis, api.name.as_str()) {
                Some(e) => class.public_apis[e].parameters.len() == api.parameters.len(),
                None => false,
            };
            if !twin {
                proof {
                    lemma_views_push(class.public_apis@, api);
                }
                class.public_apis.push(api);
            }
        },
        None => {},
    }
}

/// The class with one more field, among the public ones or the others.
pub fn add_field(class: &mut UnrealClass, field: CppProperty, is_pub: bool)
    ensures
        final(class)@ == with_field(old(class)@, field@, is_pub),
{
    if is_pub {
        proof {
            lemma_views_push(class.properties@, field);
        }
        class.properties.push(field);
    } else {
        proof {
            lemma_views_push(class.none_public_properties@, field);
        }
        class.none_public_properties.push(field);
    }
}

/// Appends fields to a list of fields.
pub fn push_fields(list: &mut Vec<CppProperty>, more: Vec<CppProperty>)
    ensures
        views(final(list)@) == views(old(list)@) + views(more@),
{
    let mut more = more;
    let ghost a = list@;
    let ghost b = more@;
    list.append(&mut more);
    assert(views(list@) =~= views(a) + views(b));
}

/// Reads a class or struct with its members.
pub fn parse_class(node: &Node, state: &mut ParseState) -> (r: Option<UnrealClass>)
    ensures
        ({
            let found = class_of(*node, old(state).is_struct, old(state).is_pub, old(state).content@);
            &&& found.0 == match r {
                Some(c) => Some(c@),
                None => None,
            }
            &&& final(state).is_pub == found.1
        }),
        final(state).is_struct == old(state).is_struct,
        final(state).is_class == old(state).is_class,
        final(state).content == old(state).content,
        final(state).file_path == old(state).file_path,
    decreases node,
{
    if node.inner.len() == 0 {
        return None;
    }
    let mut class = UnrealClass::default();
    class.is_struct = state.is_struct;
    class.name = node.kind.name.clone();
    state.is_pub = state.is_struct;
    let ghost content = state.content@;
    let mut k: usize = 0;
    while k < node.inner.len()
        invariant
            k <= node.inner.len(),
            state.content@ == content,
            state.content == old(state).content,
            state.file_path == old(state).file_path,
            state.is_struct == old(state).is_struct,
            state.is_class == old(state).is_class,
            class.is_struct == state.is_struct,
            members_from(
                *node,
                0,
                UnrealClassView {
                    is_struct: old(state).is_struct,
                    name: node.kind.name@,
                    ..UnrealClassView::empty()
                },
                old(state).is_struct,
                content,
            ) == members_from(*node, k as int, class@, state.is_pub, content),
        decreases node.inner.len() - k,
    {
        let child = &node.inner[k];
        match child.kind.kind {
            NodeKind::AccessSpecDecl => {
                state.is_pub = same(child.kind.access.as_str(), "public");
            },
            NodeKind::CXXConstructorDecl | NodeKind::CXXMethodDecl => {
                if state.is_pub {
                    let found = parse_api(child, state);
                    add_method(&mut class, found);
                }
            },
            NodeKind::FieldDecl => {
                let field = parse_field(&child.kind, state);
                add_field(&mut class, field, state.is_pub);
            },
            NodeKind::CXXRecordDecl => {
                if same(child.kind.tag_used.as_str(), "union") {
                    parse_union(child, &mut class, state);
                }
            },
            _ => {},
        }
        k += 1;
    }
    Some(class)
}

/// Folds the fields of the first struct in a union into the class that
/// holds the union, where that class is a struct.
pub fn parse_union(node: &Node, class: &mut UnrealClass, state: &mut ParseState)
    ensures
        ({
            let found = union_from(
                *node,
                0,
                old(state).is_struct,
                old(state).is_pub,
                old(state).content@,
            );
            if old(class).is_struct {
                &&& final(class)@ == with_hoisted(old(class)@, found.0)
                &&& final(state).is_pub == found.1
            } else {
                &&& final(class)@ == old(class)@
                &&& final(state).is_pub == old(state).is_pub
            }
        }),
        final(state).is_struct == old(state).is_struct,
        final(state).is_class == old(state).is_class,
        final(state).content == old(state).content,
        final(state).file_path == old(state).file_path,
    decreases node,
{
    if !class.is_struct {
        return ;
    }
    let mut hoisted: Option<UnrealClass> = None;
    let mut j: usize = 0;
    while j < node.inner.len() && hoisted.is_none()
        invariant
            j <= node.inner.len(),
            state.content == old(state).content,
            state.file_path == old(state).file_path,
            state.is_struct == old(state).is_struct,
            state.is_class == old(state).is_class,
            match hoisted {
                Some(s) => union_from(
                    *node,
                    0,
                    old(state).is_struct,
                    old(state).is_pub,
                    old(state).content@,
                ) == (Some(s@), state.is_pub),
                None => union_from(
                    *node,
                    0,
                    old(state).is_struct,
                    old(state).is_pub,
                    old(state).content@,
                ) == union_from(
                    *node,
                    j as int,
                    old(state).is_struct,
                    state.is_pub,
                    old(state).content@,
                ),
            },
        decreases node.inner.len() - j, hoisted.is_none() as int,
    {
        let child = &node.inner[j];
        if child.kind.kind == NodeKind::CXXRecordDecl && same(child.kind.tag_used.as_str(), "struct") {
            let ghost before = state.is_pub;
            hoisted = parse_class(child, state);
            proof {
                let found = class_of(*child, old(state).is_struct, before, old(state).content@);
                if found.0 is Some {
                    assert(union_from(
                        *node,
                        j as int,
                        old(state).is_struct,
                        before,
                        old(state).content@,
                    ) == found);
                }
            }
        }
        if hoisted.is_none() {
            j += 1;
        }
    }
    match hoisted {
        Some(structure) => {
            let UnrealClass { properties, none_public_properties, .. } = structure;
            push_fields(&mut class.properties, properties);
            push_fields(&mut class.none_public_properties, none_public_properties);
        },
        None => {},
    }
}

/// The class as it enters the model: with its declaring file, its methods
/// sorted by name and without repeated signatures.
pub open spec fn settled(class: UnrealClassView, file_path: Seq<char>) -> UnrealClassView {
    UnrealClassView {
        path: file_path,
        public_apis: deduped(sorted_by_name(class.public_apis)),
        ..class
    }
}

/// A class that entered the model has its declaring file, its methods in
/// dictionary order of their names, and no two methods of one name and one
/// number of parameters; each of the methods that were found has one in it
/// that counts as one with it.
pub proof fn lemma_settled(class: UnrealClassView, file_path: Seq<char>)
    ensures
        settled(class, file_path).path == file_path,
        ordered_by_name(settled(class, file_path).public_apis),
        distinct_signatures(settled(class, file_path).public_apis),
        forall|k: int|
            0 <= k < class.public_apis.len() ==> has_signature(
                settled(class, file_path).public_apis,
                settled(class, file_path).public_apis.len() as int,
                #[trigger] class.public_apis[k],
            ),
{
    let sorted = sorted_by_name(class.public_apis);
    lemma_sorted_by_name(class.public_apis);
    lemma_deduped(sorted);
    assert forall|k: int| 0 <= k < class.public_apis.len() implies has_signature(
        deduped(sorted),
        deduped(sorted).len() as int,
        #[trigger] class.public_apis[k],
    ) by {
        let x = class.public_apis[k];
        assert(class.public_apis.to_multiset().count(x) > 0) by {
            vstd::seq_lib::to_multiset_contains(class.public_apis, x);
            assert(class.public_apis.contains(x));
        }
        vstd::seq_lib::to_multiset_contains(sorted, x);
        assert(sorted.contains(x));
        let m = choose|m: int| 0 <= m < sorted.len() && sorted[m] == x;
        assert(has_signature(deduped(sorted), deduped(sorted).len() as int, sorted[m]));
    }
}

/// The model after a free function was found.
pub open spec fn with_static_api(engine: EngineView, api: CppApiView) -> EngineView {
    EngineView { static_apis: deduped(sorted_by_name(engine.static_apis.push(api))), ..engine }
}

/// The model after one node was read with all below it.
pub open spec fn found_in(node: Node, engine: EngineView, content: Seq<char>, file_path: Seq<char>) -> EngineView
    decreases node, 1int, 0int,
{
    if node.kind.kind == NodeKind::CXXRecordDecl {
        if node.kind.name@ == "_GUID"@ || node.kind.name@ == "type_info"@ {
            engine
        } else if node.kind.tag_used@ == "class"@ || node.kind.tag_used@ == "struct"@ {
            match class_of(
                node,
                node.kind.tag_used@ != "class"@,
                node.kind.tag_used@ != "class"@,
                content,
            ).0 {
                Some(c) => EngineView {
                    classes: engine.classes.push(settled(c, file_path)),
                    ..engine
                },
                None => engine,
            }
        } else {
            engine
        }
    } else if node.kind.kind == NodeKind::EnumDecl {
        match enum_of(node) {
            Some(e) => EngineView { enums: engine.enums.push(e), ..engine },
            None => engine,
        }
    } else if node.kind.kind == NodeKind::FunctionDecl {
        match api_of(node, content) {
            Some(a) => with_static_api(engine, a),
            None => engine,
        }
    } else {
        found_below(node, 0, engine, content, file_path)
    }
}

/// The model after the children from position `k` on were read.
pub open spec fn found_below(
    node: Node,
    k: int,
    engine: EngineView,
    content: Seq<char>,
    file_path: Seq<char>,
) -> EngineView
    decreases node, 0int, node.inner@.len() - k,
{
    if k < 0 || k >= node.inner@.len() {
        engine
    } else {
        found_below(
            node,
            k + 1,
            found_in(node.inner@[k], engine, content, file_path),
            content,
            file_path,
        )
    }
}

/// The class as it enters the model: with its declaring file, its methods
/// sorted by name and without repeated signatures.
pub fn settle(class: UnrealClass, file_path: &str) -> (r: UnrealClass)
    ensures
        r@ == settled(class@, file_path@),
        r@.path == file_path@,
        ordered_by_name(r@.public_apis),
        distinct_signatures(r@.public_apis),
{
    let ghost before = class@;
    let mut class = class;
    class.path = String::from_str(file_path);
    let sorted = sort_by_name(&class.public_apis);
    class.public_apis = dedup(&sorted);
    proof {
        lemma_settled(before, file_path@);
    }
    class
}

/// Reads a node and all below it into the model.
pub fn parse_node(ast: &Node, engine: &mut Engine, state: &mut ParseState)
    ensures
        final(engine)@ == found_in(*ast, old(engine)@, old(state).content@, old(state).file_path@),
        final(state).content == old(state).content,
        final(state).file_path == old(state).file_path,
    decreases ast,
{
    state.clear();
    match ast.kind.kind {
        NodeKind::CXXRecordDecl => {
            let name = ast.kind.name.as_str();
            if same(name, "_GUID") || same(name, "type_info") {
                return ;
            }
            let tag = ast.kind.tag_used.as_str();
            if same(tag, "class") {
                state.is_class = true;
            } else if same(tag, "struct") {
                state.is_struct = true;
            } else {
                return ;
            }
            match parse_class(ast, state) {
                Some(class) => {
                    let class = settle(class, state.file_path.as_str());
                    proof {
                        lemma_views_push(engine.classes@, class);
                    }
                    engine.classes.push(class);
                },
                None => {},
            }
        },
        NodeKind::EnumDecl => {
            match parse_enum(ast, state) {
                Some(e) => {
                    proof {
                        lemma_views_push(engine.enums@, e);
                    }
                    engine.enums.push(e);
                },
                None => {},
            }
        },
        NodeKind::FunctionDecl => {
            match parse_api(ast, state) {
                Some(api) => {
                    proof {
                        lemma_views_push(engine.static_apis@, api);
                    }
                    engine.static_apis.push(api);
                    let sorted = sort_by_name(&engine.static_apis);
                    engine.static_apis = dedup(&sorted);
                },
                None => {},
            }
        },
        _ => {
            let mut k: usize = 0;
            while k < ast.inner.len()
                invariant
                    k <= ast.inner.len(),
                    state.content == old(state).content,
                    state.file_path == old(state).file_path,
                    found_below(*ast, 0, old(engine)@, old(state).content@, old(state).file_path@)
                        == found_below(
                        *ast,
                        k as int,
                        engine@,
                        old(state).content@,
                        old(state).file_path@,
                    ),
                decreases ast.inner.len() - k,
            {
                parse_node(&ast.inner[k], engine, state);
                k += 1;
            }
        },
    }
}

/// The model after a header was read: nothing is added for an empty text.
pub open spec fn found_in_file(ast: Node, engine: EngineView, content: Seq<char>, file_path: Seq<char>) -> EngineView {
    if content.len() == 0 {
        engine
    } else {
        found_in(ast, engine, content, file_path)
    }
}

/// Reads the syntax tree of one header into the model. `content` is the
/// text of the header, which the tree's offsets point into, and `file_path`
/// the path under which its classes are recorded.
pub fn parse_file(ast: &Node, content: String, file_path: String, engine: &mut Engine)
    ensures
        final(engine)@ == found_in_file(*ast, old(engine)@, content@, file_path@),
{
    if content.as_str().is_empty() {
        return ;
    }
    let mut state = ParseState::new(content, file_path);
    parse_node(ast, engine, &mut state);
}

} // verus!
