//! Extraction from normalised lines, for headers of which no syntax tree
//! can be had: a walk over the lines that follows braces and visibility.

use crate::extract::angles;
use crate::extract::has_angles;
use crate::model::CppApi;
use crate::model::CppApiView;
use crate::model::CppEnum;
use crate::model::CppProperty;
use crate::model::CppPropertyView;
use crate::model::Engine;
use crate::model::EngineView;
use crate::model::UnrealClass;
use crate::model::UnrealClassView;
use crate::normalize::cut_out;
use crate::normalize::Fault;
use crate::primitives::parse_c_type;
use crate::primitives::resolved;
use crate::signature::forwards;
use crate::signature::function_read;
use crate::signature::parameters_from;
use crate::signature::word_lists;
use crate::text::begins;
use crate::text::cat2;
use crate::text::cat3;
use crate::text::contains;
use crate::text::count;
use crate::text::cut;
use crate::text::ends;
use crate::text::ends_with;
use crate::text::find;
use crate::text::holds;
use crate::text::index_of;
use crate::text::insert_line;
use crate::text::is_gap;
use crate::text::last_index_of;
use crate::text::lemma_views_push;
use crate::text::push_text;
use crate::text::remove_line;
use crate::text::replace_all;
use crate::text::replaced;
use crate::text::rfind;
use crate::text::same;
use crate::text::set_line;
use crate::text::split;
use crate::text::split_on;
use crate::text::split_words;
use crate::text::starts_with;
use crate::text::to_chars;
use crate::text::trim;
use crate::text::trimmed;
use crate::text::views;
use crate::text::words;
use vstd::prelude::*;
use vstd::string::StringExecFns;

verus! {

/// The text with a space behind its last `&`, where another character than
/// a space or a tab follows it.
pub open spec fn spaced_ref(param: Seq<char>) -> Seq<char> {
    let i = last_index_of(param, "&"@);
    if i >= 0 && i + 1 < param.len() && !is_gap(param[i + 1]) {
        param.subrange(0, i + 1) + " "@ + param.subrange(i + 1, param.len() as int)
    } else {
        param
    }
}

/// The text with reference marks and angle brackets drawn to their types.
pub open spec fn tight(s: Seq<char>) -> Seq<char> {
    replaced(replaced(replaced(s, " &"@, "&"@), "< "@, "<"@), " >"@, ">"@)
}

/// The text with pointer marks drawn to their types too.
pub open spec fn tight_head(s: Seq<char>) -> Seq<char> {
    tight(replaced(s, " *"@, "*"@))
}

/// Each text trimmed.
pub open spec fn each_trimmed(parts: Seq<Seq<char>>) -> Seq<Seq<char>> {
    Seq::new(parts.len(), |i: int| trimmed(parts[i]))
}

/// The words of one parameter of a prototype.
pub open spec fn param_words(piece: Seq<char>) -> Seq<Seq<char>> {
    each_trimmed(words(spaced_ref(piece)))
}

/// The word lists of the parameters between the brackets of a prototype.
pub open spec fn param_lists(inner: Seq<char>) -> Seq<Seq<Seq<char>>> {
    let pieces = forwards(split(tight(inner), ','));
    Seq::new(pieces.len(), |i: int| param_words(pieces[i]))
}

/// Whether `const` stands behind the closing bracket at position `e`: the
/// method does not change its object.
pub open spec fn says_const(line: Seq<char>, e: int) -> bool {
    e < line.len() && contains(line.subrange(e + 1, line.len() as int), "const"@)
}

/// What a line gives as a method.
pub enum Prototype {
    /// The line declares no method.
    NoMethod,
    /// The line declares a method.
    Method(CppApiView),
    /// The line cannot be made sense of.
    Broken,
}

/// The method that a line declares: its parameters from between the
/// brackets, its name and result from before them, and `const` from behind
/// them. A line with both angle brackets gives a method without a name,
/// which is not kept. An equals sign before the opening bracket makes the
/// line no method.
pub open spec fn prototype(line0: Seq<char>, class_name: Seq<char>) -> Prototype {
    let line = trimmed(line0);
    let s = index_of(line, "("@);
    let e = last_index_of(line, ")"@);
    let q = index_of(line, "="@);
    let ov = contains(line, "override"@);
    let l2 = if ov {
        trimmed(replaced(line, "override"@, ""@))
    } else {
        line
    };
    if s < 0 || e < 0 {
        Prototype::NoMethod
    } else if has_angles(line) {
        Prototype::Method(CppApiView::empty())
    } else if q >= 0 && q < s {
        Prototype::NoMethod
    } else if s + 1 > e || e > l2.len() {
        Prototype::Broken
    } else {
        match parameters_from(param_lists(l2.subrange(s + 1, e)), 0, 0, Seq::empty()) {
            Some(ps) => match function_read(
                CppApiView {
                    is_override: ov,
                    is_const: says_const(l2, e),
                    class_name: class_name,
                    parameters: ps,
                    ..CppApiView::empty()
                },
                words(tight_head(l2.subrange(0, s))),
            ) {
                Some(a) => Prototype::Method(a),
                None => Prototype::Broken,
            },
            None => Prototype::Broken,
        }
    }
}

/// The text with a space behind its last `&`, where another character than
/// a space or a tab follows it.
pub fn space_ref(param: &str) -> (r: String)
    ensures
        r@ == spaced_ref(param@),
{
    proof {
        reveal_strlit("&");
    }
    match rfind(param, "&") {
        Some(i) => {
            let v = to_chars(param);
            if i < v.len() && i + 1 < v.len() && !crate::text::gap(v[i + 1]) {
                let head = cut(param, 0, i + 1);
                let rest = cut(param, i + 1, v.len());
                cat3(head.as_str(), " ", rest.as_str())
            } else {
                String::from_str(param)
            }
        },
        None => String::from_str(param),
    }
}

/// The text with reference marks and angle brackets drawn to their types.
pub fn tighten(s: &str) -> (r: String)
    ensures
        r@ == tight(s@),
{
    let a = replace_all(s, " &", "&");
    let b = replace_all(a.as_str(), "< ", "<");
    replace_all(b.as_str(), " >", ">")
}

/// The text with pointer marks drawn to their types too.
pub fn tighten_head(s: &str) -> (r: String)
    ensures
        r@ == tight_head(s@),
{
    let a = replace_all(s, " *", "*");
    tighten(a.as_str())
}

/// Each text trimmed.
pub fn trim_each(parts: &Vec<String>) -> (r: Vec<String>)
    ensures
        views(r@) == each_trimmed(views(parts@)),
{
    let mut out: Vec<String> = Vec::new();
    assert(views(out@) =~= each_trimmed(views(parts@).take(0)));
    let mut i: usize = 0;
    while i < parts.len()
        invariant
            i <= parts.len(),
            views(out@) == each_trimmed(views(parts@).take(i as int)),
        decreases parts.len() - i,
    {
        push_text(&mut out, trim(parts[i].as_str()));
        assert(views(out@) =~= each_trimmed(views(parts@).take(i + 1)));
        i += 1;
    }
    assert(views(parts@).take(parts.len() as int) =~= views(parts@));
    out
}

/// The words of one parameter of a prototype.
pub fn param_words_of(piece: &str) -> (r: Vec<String>)
    ensures
        views(r@) == param_words(piece@),
{
    let spaced = space_ref(piece);
    let w = split_words(spaced.as_str());
    trim_each(&w)
}

/// The texts that are not empty, in order.
pub fn non_empty(parts: &Vec<String>) -> (r: Vec<String>)
    ensures
        views(r@) == forwards(views(parts@)),
{
    let mut out: Vec<String> = Vec::new();
    assert(views(parts@).take(0) =~= Seq::<Seq<char>>::empty());
    assert(views(out@) =~= forwards(views(parts@).take(0)));
    let mut i: usize = 0;
    while i < parts.len()
        invariant
            i <= parts.len(),
            views(out@) == forwards(views(parts@).take(i as int)),
        decreases parts.len() - i,
    {
        assert(views(parts@).take(i + 1).drop_last() =~= views(parts@).take(i as int));
        if !parts[i].as_str().is_empty() {
            push_text(&mut out, parts[i].clone());
        }
        i += 1;
    }
    assert(views(parts@).take(parts.len() as int) =~= views(parts@));
    out
}

/// The word lists of some parameters, each as sequences of characters.
pub fn param_lists_of(inner: &str) -> (r: Vec<Vec<String>>)
    ensures
        word_lists(r@) == param_lists(inner@),
{
    let t = tighten(inner);
    let all = split_on(t.as_str(), ',');
    let pieces = non_empty(&all);
    let mut out: Vec<Vec<String>> = Vec::new();
    let mut i: usize = 0;
    while i < pieces.len()
        invariant
            i <= pieces.len(),
            out.len() == i,
            forall|k: int| 0 <= k < i ==> views(#[trigger] out@[k]@) == param_words(views(pieces@)[k]),
        decreases pieces.len() - i,
    {
        out.push(param_words_of(pieces[i].as_str()));
        i += 1;
    }
    assert(word_lists(out@) =~= param_lists(inner@));
    out
}

/// Reads the line at a position as the prototype of a method.
pub fn parse_function(lines: &Vec<String>, read_line: usize, class_name: Option<&String>) -> (r:
    Result<Option<CppApi>, Fault>)
    requires
        read_line < lines.len(),
    ensures
        match r {
            Ok(Some(a)) => prototype(
                views(lines@)[read_line as int],
                match class_name {
                    Some(c) => c@,
                    None => Seq::empty(),
                },
            ) == Prototype::Method(a@),
            Ok(None) => prototype(
                views(lines@)[read_line as int],
                match class_name {
                    Some(c) => c@,
                    None => Seq::empty(),
                },
            ) == Prototype::NoMethod,
            Err(_) => prototype(
                views(lines@)[read_line as int],
                match class_name {
                    Some(c) => c@,
                    None => Seq::empty(),
                },
            ) == Prototype::Broken,
        },
{
    let line = trim(lines[read_line].as_str());
    let start = find(line.as_str(), "(");
    let end = rfind(line.as_str(), ")");
    let equal = find(line.as_str(), "=");
    let (s, e) = match (start, end) {
        (Some(s), Some(e)) => (s, e),
        _ => {
            return Ok(None);
        },
    };
    if angles(line.as_str()) {
        return Ok(Some(CppApi::default()));
    }
    match equal {
        Some(q) => {
            if q < s {
                return Ok(None);
            }
        },
        None => {},
    }
    let ov = holds(line.as_str(), "override");
    let l2 = if ov {
        let t = replace_all(line.as_str(), "override", "");
        trim(t.as_str())
    } else {
        line
    };
    let n = count(l2.as_str());
    if s >= e || e > n {
        return Err(Fault);
    }
    let inner = cut(l2.as_str(), s + 1, e);
    let lists = param_lists_of(inner.as_str());
    let params = match crate::signature::parse_parameter(&lists) {
        Ok(ps) => ps,
        Err(f) => {
            return Err(f);
        },
    };
    let head = cut(l2.as_str(), 0, s);
    let tight_text = tighten_head(head.as_str());
    let fn_impl = split_words(tight_text.as_str());
    let mut c_fn = CppApi::default();
    c_fn.is_override = ov;
    c_fn.is_const = if e < n {
        let behind = cut(l2.as_str(), e + 1, n);
        holds(behind.as_str(), "const")
    } else {
        false
    };
    c_fn.class_name = match class_name {
        Some(c) => c.clone(),
        None => String::new(),
    };
    c_fn.parameters = params;
    match crate::signature::parse_function(&mut c_fn, &fn_impl) {
        Ok(()) => Ok(Some(c_fn)),
        Err(f) => Err(f),
    }
}

/// The text without the character at a position.
pub open spec fn without_char(s: Seq<char>, i: int) -> Seq<char> {
    s.subrange(0, i) + s.subrange(i + 1, s.len() as int)
}

/// The text with a space put in at a position.
pub open spec fn with_space_at(s: Seq<char>, i: int) -> Seq<char> {
    s.subrange(0, i) + " "@ + s.subrange(i, s.len() as int)
}

/// The text with a space behind the colon at position `c` unless a space or
/// a tab follows it, and with a space before the colon unless a space or a
/// tab precedes it.
pub open spec fn spaced_colon(l: Seq<char>, c: int) -> Seq<char> {
    let la = if c + 1 < l.len() && is_gap(l[c + 1]) {
        l
    } else {
        with_space_at(l, c + 1)
    };
    if is_gap(l[c - 1]) {
        la
    } else {
        with_space_at(la, c)
    }
}

/// The declaration without the words and marks that say nothing of the
/// field's name and type.
pub open spec fn field_cleaned(l: Seq<char>) -> Seq<char> {
    replaced(
        replaced(
            replaced(
                replaced(
                    replaced(
                        replaced(
                            replaced(replaced(l, "enum "@, ""@), "struct "@, ""@),
                            "class "@,
                            ""@,
                        ),
                        "< "@,
                        "<"@,
                    ),
                    " >"@,
                    ">"@,
                ),
                " *"@,
                "*"@,
            ),
            ";"@,
            ""@,
        ),
        ", "@,
        ""@,
    )
}

/// What a line gives as a field.
pub enum FieldRead {
    NoField,
    Field(CppPropertyView),
    Broken,
}

/// Whether a word before the type of a field is one that may stand there.
pub open spec fn is_field_flag(flag: Seq<char>) -> bool {
    flag == "static"@ || flag == "const"@ || flag == "extern"@ || flag == "mutable"@ || flag
        == "constexpr"@ || flag == "volatile"@
}

/// The field that the words of a declaration give; `at` is the position of
/// the word that holds the name, and `bit` says whether the declaration is
/// that of a bit-field.
pub open spec fn field_from_words(info: Seq<Seq<char>>, at: int, name: Seq<char>, bit: bool) -> FieldRead {
    let word = info[at - 1];
    let star = index_of(word, "*"@);
    let ty = if star >= 0 {
        word.subrange(0, star)
    } else {
        word
    };
    let flag = trimmed(info[at - 2]);
    if at >= 2 && !is_field_flag(flag) {
        FieldRead::Broken
    } else {
        FieldRead::Field(
            CppPropertyView {
                name: name,
                type_str: ty,
                is_ptr: star >= 0,
                bit_value: bit,
                r_type: resolved(ty).0,
                value_type: resolved(ty).1.spec_code(),
                is_static: at >= 2 && flag == "static"@,
                is_const: at >= 2 && flag == "const"@,
                ..CppPropertyView::empty()
            },
        )
    }
}

/// The field that a line declares. Arrays and templates give a field that
/// is marked as unsupported. A declaration with a colon is that of a
/// bit-field, and the field is marked as one.
pub open spec fn field_read(line0: Seq<char>) -> FieldRead {
    let line = trimmed(line0);
    let q = index_of(line, "="@);
    let bs = index_of(line, "("@);
    let be = index_of(line, ")"@);
    let cast = q >= 0 && bs >= 0 && be >= 0;
    let l1 = without_char(line, be);
    let l2 = if cast {
        replaced(l1, l1.subrange(q + 1, bs + 1), " "@)
    } else {
        line
    };
    let c = index_of(l2, ":"@);
    let l3 = if c >= 1 {
        spaced_colon(l2, c)
    } else {
        l2
    };
    let info = words(split(field_cleaned(l3), '=')[0]);
    let count = info.len() as int;
    if !contains(line, ";"@) || contains(line, "}"@) {
        FieldRead::NoField
    } else if (contains(line, "["@) && contains(line, "]"@)) || has_angles(line) {
        FieldRead::Field(CppPropertyView { unsupported: true, ..CppPropertyView::empty() })
    } else if cast && q > bs {
        FieldRead::NoField
    } else if cast && bs + 1 > l1.len() {
        FieldRead::Broken
    } else if c == 0 {
        FieldRead::Broken
    } else if count < 2 {
        FieldRead::NoField
    } else if count > 5 {
        FieldRead::Broken
    } else if !contains(l3, ":"@) {
        field_from_words(info, count - 1, info[count - 1], false)
    } else if count > 3 {
        field_from_words(info, count - 3, info[count - 3], true)
    } else {
        field_from_words(info, count - 1, split(info[count - 1], ':')[0], true)
    }
}

/// The text without the character at a position.
pub fn drop_char(s: &str, i: usize) -> (r: String)
    requires
        i < s@.len(),
    ensures
        r@ == without_char(s@, i as int),
{
    let n = count(s);
    let head = cut(s, 0, i);
    let rest = cut(s, i + 1, n);
    cat2(head.as_str(), rest.as_str())
}

/// The text with a space put in at a position.
pub fn space_at(s: &str, i: usize) -> (r: String)
    requires
        i <= s@.len(),
    ensures
        r@ == with_space_at(s@, i as int),
{
    let n = count(s);
    let head = cut(s, 0, i);
    let rest = cut(s, i, n);
    cat3(head.as_str(), " ", rest.as_str())
}

/// The text with a space behind the colon at position `c` unless a space or
/// a tab follows it, and then with a space before the character in front of
/// the colon unless that is a space or a tab.
pub fn space_colon(l: &str, c: usize) -> (r: String)
    requires
        1 <= c < l@.len(),
    ensures
        r@ == spaced_colon(l@, c as int),
{
    let v = to_chars(l);
    assert(c < v.len());
    let la = if c + 1 < v.len() && crate::text::gap(v[c + 1]) {
        String::from_str(l)
    } else {
        space_at(l, c + 1)
    };
    if crate::text::gap(v[c - 1]) {
        la
    } else {
        space_at(la.as_str(), c)
    }
}

/// The declaration without the words and marks that say nothing of the
/// field's name and type.
pub fn clean_field(l: &str) -> (r: String)
    ensures
        r@ == field_cleaned(l@),
{
    let a = replace_all(l, "enum ", "");
    let b = replace_all(a.as_str(), "struct ", "");
    let c = replace_all(b.as_str(), "class ", "");
    let d = replace_all(c.as_str(), "< ", "<");
    let e = replace_all(d.as_str(), " >", ">");
    let f = replace_all(e.as_str(), " *", "*");
    let g = replace_all(f.as_str(), ";", "");
    replace_all(g.as_str(), ", ", "")
}

/// Whether a word before the type of a field is one that may stand there.
pub fn field_flag(flag: &str) -> (r: bool)
    ensures
        r == is_field_flag(flag@),
{
    same(flag, "static") || same(flag, "const") || same(flag, "extern") || same(flag, "mutable")
        || same(flag, "constexpr") || same(flag, "volatile")
}

/// The field that the words of a declaration give; `at` is the position of
/// the word that holds the name.
pub fn field_of_words(info: &Vec<String>, at: usize, name: String, bit: bool) -> (r: Result<
    CppProperty,
    Fault,
>)
    requires
        1 <= at < info.len(),
    ensures
        match r {
            Ok(p) => field_from_words(views(info@), at as int, name@, bit) == FieldRead::Field(
                p@,
            ),
            Err(_) => field_from_words(views(info@), at as int, name@, bit) == FieldRead::Broken,
        },
{
    let word = info[at - 1].as_str();
    let star = find(word, "*");
    let ty = match star {
        Some(i) => cut(word, 0, i),
        None => String::from_str(word),
    };
    let mut p = CppProperty::default();
    if at >= 2 {
        let flag = trim(info[at - 2].as_str());
        if !field_flag(flag.as_str()) {
            return Err(Fault);
        }
        p.is_static = same(flag.as_str(), "static");
        p.is_const = same(flag.as_str(), "const");
    }
    let res = parse_c_type(ty.as_str());
    p.name = name;
    p.is_ptr = star.is_some();
    p.bit_value = bit;
    p.type_str = ty;
    p.r_type = res.0;
    p.value_type = res.1.code();
    Ok(p)
}

/// The first of the pieces that a separator cuts a text into.
pub fn first_piece(s: &str, sep: char) -> (r: String)
    ensures
        r@ == split(s@, sep)[0],
{
    let pieces = split_on(s, sep);
    proof {
        lemma_split_nonempty(s@, sep, 0, 0);
    }
    assert(views(pieces@)[0] == pieces@[0]@);
    pieces[0].clone()
}

/// A text is cut into one piece at least.
pub proof fn lemma_split_nonempty(s: Seq<char>, sep: char, start: int, i: int)
    requires
        0 <= i,
    ensures
        crate::text::split_from(s, sep, start, i).len() >= 1,
    decreases s.len() - i,
{
    if i < s.len() && s[i] != sep {
        lemma_split_nonempty(s, sep, start, i + 1);
    }
}

/// Reads the line at a position as the declaration of a field.
pub fn parse_field(lines: &Vec<String>, read_line: usize) -> (r: Result<Option<CppProperty>, Fault>)
    requires
        read_line < lines.len(),
    ensures
        match r {
            Ok(Some(p)) => field_read(views(lines@)[read_line as int]) == FieldRead::Field(p@),
            Ok(None) => field_read(views(lines@)[read_line as int]) == FieldRead::NoField,
            Err(_) => field_read(views(lines@)[read_line as int]) == FieldRead::Broken,
        },
{
    let line = trim(lines[read_line].as_str());
    if !holds(line.as_str(), ";") || holds(line.as_str(), "}") {
        return Ok(None);
    }
    if (holds(line.as_str(), "[") && holds(line.as_str(), "]")) || angles(line.as_str()) {
        let mut p = CppProperty::default();
        p.unsupported = true;
        return Ok(Some(p));
    }
    proof {
        reveal_strlit(")");
        reveal_strlit("(");
        reveal_strlit("=");
        reveal_strlit(":");
    }
    let l2 = match (find(line.as_str(), "="), find(line.as_str(), "("), find(line.as_str(), ")")) {
        (Some(q), Some(bs), Some(be)) => {
            if q > bs {
                return Ok(None);
            }
            let l1 = drop_char(line.as_str(), be);
            let n1 = count(l1.as_str());
            if bs >= n1 {
                return Err(Fault);
            }
            let pattern = cut(l1.as_str(), q + 1, bs + 1);
            replace_all(l1.as_str(), pattern.as_str(), " ")
        },
        _ => line,
    };
    let l3 = match find(l2.as_str(), ":") {
        Some(c) => {
            if c == 0 {
                return Err(Fault);
            }
            space_colon(l2.as_str(), c)
        },
        None => l2,
    };
    let cleaned = clean_field(l3.as_str());
    let first = first_piece(cleaned.as_str(), '=');
    let info = split_words(first.as_str());
    let n = info.len();
    if n < 2 {
        return Ok(None);
    }
    if n > 5 {
        return Err(Fault);
    }
    let found = if !holds(l3.as_str(), ":") {
        field_of_words(&info, n - 1, info[n - 1].clone(), false)
    } else if n > 3 {
        field_of_words(&info, n - 3, info[n - 3].clone(), true)
    } else {
        let name = first_piece(info[n - 1].as_str(), ':');
        field_of_words(&info, n - 1, name, true)
    };
    match found {
        Ok(p) => Ok(Some(p)),
        Err(f) => Err(f),
    }
}

/// What a line shows of braces.
#[derive(Debug, PartialEq, Eq)]
pub enum BraceType {
    Start,
    End,
    /// Both braces; holds the text from the opening brace up to the closing
    /// one.
    StartAndEnd(String),
}

/// What a line shows of braces, its text as a character sequence.
pub enum BraceKind {
    Start,
    End,
    StartAndEnd(Seq<char>),
}

impl View for BraceType {
    type V = BraceKind;

    open spec fn view(&self) -> BraceKind {
        match self {
            BraceType::Start => BraceKind::Start,
            BraceType::End => BraceKind::End,
            BraceType::StartAndEnd(s) => BraceKind::StartAndEnd(s@),
        }
    }
}

/// The view of what a line shows of braces, if anything.
pub open spec fn opt_brace(b: Option<BraceType>) -> Option<BraceKind> {
    match b {
        Some(x) => Some(x@),
        None => None,
    }
}

/// What a line that holds braces only shows.
pub open spec fn brace_line(line: Seq<char>) -> Option<BraceKind> {
    if trimmed(line) == "}"@ {
        Some(BraceKind::End)
    } else if trimmed(line) == "{"@ {
        Some(BraceKind::Start)
    } else if trimmed(line) == "{}"@ {
        Some(BraceKind::StartAndEnd(Seq::empty()))
    } else {
        None
    }
}

/// What a line that holds braces only shows.
pub fn parse_brace_line(lines: &Vec<String>, read_line: usize) -> (r: Option<BraceType>)
    requires
        read_line < lines.len(),
    ensures
        opt_brace(r) == brace_line(views(lines@)[read_line as int]),
{
    let line = trim(lines[read_line].as_str());
    if same(line.as_str(), "}") {
        Some(BraceType::End)
    } else if same(line.as_str(), "{") {
        Some(BraceType::Start)
    } else if same(line.as_str(), "{}") {
        Some(BraceType::StartAndEnd(String::new()))
    } else {
        None
    }
}

/// The lines without the line at `r` where that line is empty.
pub open spec fn without_empty(lines: Seq<Seq<char>>, r: int) -> Seq<Seq<char>> {
    if lines[r].len() == 0 {
        lines.remove(r)
    } else {
        lines
    }
}

/// The braces that the line at position `r` shows, and the lines with the
/// braces taken out of that line where `remove` is set. Nothing where the
/// closing brace comes first.
pub open spec fn brace_step(lines: Seq<Seq<char>>, r: int, remove: bool) -> Option<
    (Seq<Seq<char>>, Option<BraceKind>),
> {
    let line = trimmed(lines[r]);
    let s = index_of(line, "{"@);
    let e = index_of(line, "}"@);
    if s >= 0 && e < 0 {
        Some(
            (
                without_empty(
                    if remove {
                        lines.update(r, line.subrange(0, s))
                    } else {
                        lines
                    },
                    r,
                ),
                Some(BraceKind::Start),
            ),
        )
    } else if s >= 0 && e >= 0 {
        if s > e {
            None
        } else {
            Some(
                (
                    without_empty(
                        if remove {
                            lines.update(
                                r,
                                line.subrange(0, s) + line.subrange(e + 1, line.len() as int),
                            )
                        } else {
                            lines
                        },
                        r,
                    ),
                    Some(BraceKind::StartAndEnd(line.subrange(s, e))),
                ),
            )
        }
    } else if e >= 0 {
        Some(
            (
                without_empty(
                    if remove {
                        lines.update(r, line.subrange(0, e))
                    } else {
                        lines
                    },
                    r,
                ),
                Some(BraceKind::End),
            ),
        )
    } else {
        Some((without_empty(lines, r), None))
    }
}

/// Says what braces the line at a position shows, and takes them out of it
/// where `remove` is set; a line that is empty then is removed.
pub fn parse_remove_brace(lines: &mut Vec<String>, read_line: usize, remove: bool) -> (r: Result<
    Option<BraceType>,
    Fault,
>)
    requires
        read_line < old(lines).len(),
    ensures
        match r {
            Ok(b) => brace_step(views(old(lines)@), read_line as int, remove) == Some(
                (views(final(lines)@), opt_brace(b)),
            ),
            Err(_) => brace_step(views(old(lines)@), read_line as int, remove) is None,
        },
        final(lines).len() <= old(lines).len(),
        final(lines).len() + 1 >= old(lines).len(),
{
    proof {
        reveal_strlit("}");
        reveal_strlit("{");
    }
    let line = trim(lines[read_line].as_str());
    let n = count(line.as_str());
    let start = find(line.as_str(), "{");
    let end = find(line.as_str(), "}");
    let ret = match (start, end) {
        (Some(s), None) => {
            if remove {
                set_line(lines, read_line, cut(line.as_str(), 0, s));
            }
            Some(BraceType::Start)
        },
        (Some(s), Some(e)) => {
            if s > e {
                return Err(Fault);
            }
            if remove {
                let head = cut(line.as_str(), 0, s);
                let rest = cut(line.as_str(), e + 1, n);
                set_line(lines, read_line, cat2(head.as_str(), rest.as_str()));
            }
            Some(BraceType::StartAndEnd(cut(line.as_str(), s, e)))
        },
        (None, Some(e)) => {
            if remove {
                set_line(lines, read_line, cut(line.as_str(), 0, e));
            }
            Some(BraceType::End)
        },
        (None, None) => None,
    };
    assert(views(lines@)[read_line as int] == lines@[read_line as int]@);
    if lines[read_line].as_str().is_empty() {
        let _ = remove_line(lines, read_line);
    }
    Ok(ret)
}

/// How many lines go from position `i` up to the first one that holds a
/// closing brace, that one counted; nothing where no line does.
pub open spec fn closing_len(lines: Seq<Seq<char>>, i: int) -> Option<nat>
    decreases lines.len() - i,
{
    if i < 0 || i >= lines.len() {
        None
    } else if contains(lines[i], "}"@) {
        Some(1)
    } else {
        match closing_len(lines, i + 1) {
            Some(n) => Some(n + 1),
            None => None,
        }
    }
}

/// The closing brace of an enumeration lies within the lines.
pub proof fn lemma_closing_len(lines: Seq<Seq<char>>, i: int)
    requires
        0 <= i,
    ensures
        match closing_len(lines, i) {
            Some(n) => 1 <= n <= lines.len() - i,
            None => true,
        },
    decreases lines.len() - i,
{
    if i < lines.len() && !contains(lines[i], "}"@) {
        lemma_closing_len(lines, i + 1);
    }
}

/// The lines without the enumeration that starts at position `r`: its first
/// line, and the lines behind it up to the first that holds a closing
/// brace. `Some(None)` where no enumeration starts there; nothing where the
/// closing brace is missing.
pub open spec fn enum_step(lines: Seq<Seq<char>>, r: int) -> Option<Option<Seq<Seq<char>>>> {
    if !contains(lines[r], "enum"@) {
        Some(None)
    } else {
        match closing_len(lines, r + 1) {
            Some(n) => Some(Some(cut_out(lines, r, n as int + 1))),
            None => None,
        }
    }
}

/// Removes the enumeration that starts at a position.
pub fn remove_enum(lines: &mut Vec<String>, read_line: usize) -> (r: Result<Option<CppEnum>, Fault>)
    requires
        read_line < old(lines).len(),
    ensures
        match r {
            Ok(Some(e)) => enum_step(views(old(lines)@), read_line as int) == Some(
                Some(views(final(lines)@)),
            ) && e@ == crate::model::CppEnumView::empty() && final(lines).len() + 2 <= old(
                lines,
            ).len(),
            Ok(None) => enum_step(views(old(lines)@), read_line as int) == Some(
                None::<Seq<Seq<char>>>,
            ) && views(final(lines)@) == views(old(lines)@),
            Err(_) => enum_step(views(old(lines)@), read_line as int) is None,
        },
{
    if !holds(lines[read_line].as_str(), "enum") {
        return Ok(None);
    }
    let ghost before = views(lines@);
    let _ = remove_line(lines, read_line);
    let ghost mut n: int = 1;
    assert(views(lines@) =~= cut_out(before, read_line as int, 1));
    loop
        invariant
            before == views(old(lines)@),
            before.len() == old(lines).len(),
            contains(before[read_line as int], "enum"@),
            1 <= n,
            read_line + n <= before.len(),
            lines.len() == before.len() - n,
            views(lines@) == cut_out(before, read_line as int, n),
            match closing_len(before, read_line + n) {
                Some(m) => closing_len(before, read_line + 1) == Some((m + n - 1) as nat),
                None => closing_len(before, read_line + 1) is None,
            },
        decreases lines.len(),
    {
        if read_line >= lines.len() {
            return Err(Fault);
        }
        let removed = remove_line(lines, read_line);
        proof {
            assert(removed@ == before[read_line + n]);
            assert(views(lines@) =~= cut_out(before, read_line as int, n + 1));
            lemma_closing_len(before, read_line + n + 1);
            n = n + 1;
        }
        if holds(removed.as_str(), "}") {
            assert(closing_len(before, read_line + 1) == Some((n - 1) as nat));
            return Ok(Some(CppEnum::default()));
        }
    }
}

/// Whether a line opens the declaration of a class or struct.
pub open spec fn opens_type(line: Seq<char>) -> bool {
    starts_with(trimmed(line), "class"@) || starts_with(trimmed(line), "struct"@)
}

/// How many lines the head of a nested type takes from position `i` on: up
/// to the first line that ends in a semicolon or an opening brace, that one
/// counted.
pub open spec fn type_head_len(lines: Seq<Seq<char>>, i: int) -> nat
    decreases lines.len() - i,
{
    if i < 0 || i >= lines.len() {
        0
    } else if ends_with(trimmed(lines[i]), ";"@) || ends_with(trimmed(lines[i]), "{"@) {
        1
    } else {
        1 + type_head_len(lines, i + 1)
    }
}

/// Whether the head of a nested type ends in a semicolon: a declaration
/// without a body.
pub open spec fn type_head_closed(lines: Seq<Seq<char>>, i: int) -> bool
    decreases lines.len() - i,
{
    if i < 0 || i >= lines.len() {
        false
    } else if ends_with(trimmed(lines[i]), ";"@) {
        true
    } else if ends_with(trimmed(lines[i]), "{"@) {
        false
    } else {
        type_head_closed(lines, i + 1)
    }
}

/// How many lines the body of a nested type takes from position `i` on,
/// entered `depth` braces deep. Only braces at the end of a line count.
pub open spec fn type_body_len(lines: Seq<Seq<char>>, i: int, depth: nat) -> nat
    decreases lines.len() - i,
{
    if i < 0 || i >= lines.len() {
        0
    } else if ends_with(trimmed(lines[i]), "{"@) {
        1 + type_body_len(lines, i + 1, depth + 1)
    } else if ends_with(trimmed(lines[i]), "}"@) || ends_with(trimmed(lines[i]), "};"@) {
        if depth == 0 {
            1
        } else {
            1 + type_body_len(lines, i + 1, (depth - 1) as nat)
        }
    } else {
        1 + type_body_len(lines, i + 1, depth)
    }
}

/// The head of a nested type takes one line at least where there is one,
/// and none behind the last.
pub proof fn lemma_type_head_len(lines: Seq<Seq<char>>, i: int)
    requires
        0 <= i <= lines.len(),
    ensures
        type_head_len(lines, i) <= lines.len() - i,
        i < lines.len() ==> type_head_len(lines, i) >= 1,
    decreases lines.len() - i,
{
    if i < lines.len() && !(ends_with(trimmed(lines[i]), ";"@) || ends_with(
        trimmed(lines[i]),
        "{"@,
    )) {
        lemma_type_head_len(lines, i + 1);
    }
}

/// The body of a nested type takes no line behind the last.
pub proof fn lemma_type_body_len(lines: Seq<Seq<char>>, i: int, depth: nat)
    requires
        0 <= i <= lines.len(),
    ensures
        type_body_len(lines, i, depth) <= lines.len() - i,
    decreases lines.len() - i,
{
    if i < lines.len() {
        if ends_with(trimmed(lines[i]), "{"@) {
            lemma_type_body_len(lines, i + 1, depth + 1);
        } else if ends_with(trimmed(lines[i]), "}"@) || ends_with(trimmed(lines[i]), "};"@) {
            if depth != 0 {
                lemma_type_body_len(lines, i + 1, (depth - 1) as nat);
            }
        } else {
            lemma_type_body_len(lines, i + 1, depth);
        }
    }
}

/// The lines without the nested type that starts at position `r`, and
/// whether one started there. A nested type with a body leaves an empty
/// line in its place; one that opens right behind its head is skipped with
/// it.
pub open spec fn type_skipped(lines: Seq<Seq<char>>, r: int) -> (Seq<Seq<char>>, bool)
    decreases lines.len(),
{
    if r < 0 || r >= lines.len() || !opens_type(lines[r]) {
        (lines, false)
    } else {
        let l1 = cut_out(lines, r, type_head_len(lines, r) as int);
        if type_head_closed(lines, r) {
            (l1, true)
        } else {
            proof {
                lemma_type_head_len(lines, r);
            }
            let l2 = type_skipped(l1, r).0;
            (
                cut_out(l2, r, type_body_len(l2, r, 0) as int).insert(r, Seq::empty()),
                true,
            )
        }
    }
}

/// Skipping a nested type adds no line, and changes nothing where none
/// starts.
pub proof fn lemma_type_skipped(lines: Seq<Seq<char>>, r: int)
    requires
        0 <= r,
    ensures
        type_skipped(lines, r).0.len() <= lines.len(),
        r <= lines.len() ==> r <= type_skipped(lines, r).0.len(),
        !type_skipped(lines, r).1 ==> type_skipped(lines, r).0 == lines,
    decreases lines.len(),
{
    if r < lines.len() && opens_type(lines[r]) {
        lemma_type_head_len(lines, r);
        let l1 = cut_out(lines, r, type_head_len(lines, r) as int);
        if !type_head_closed(lines, r) {
            lemma_type_skipped(l1, r);
            let l2 = type_skipped(l1, r).0;
            lemma_type_body_len(l2, r, 0);
        }
    }
}

/// Whether a line opens the declaration of a class or struct.
pub fn type_opener(line: &str) -> (r: bool)
    ensures
        r == opens_type(line@),
{
    let t = trim(line);
    begins(t.as_str(), "class") || begins(t.as_str(), "struct")
}

/// Removes the head of a nested type; says whether it ends in a semicolon.
pub fn remove_type_head(lines: &mut Vec<String>, at: usize) -> (r: bool)
    requires
        at <= old(lines).len(),
    ensures
        views(final(lines)@) == cut_out(
            views(old(lines)@),
            at as int,
            type_head_len(views(old(lines)@), at as int) as int,
        ),
        r == type_head_closed(views(old(lines)@), at as int),
        final(lines).len() == old(lines).len() - type_head_len(views(old(lines)@), at as int),
{
    let ghost before = views(lines@);
    let ghost mut n: int = 0;
    assert(views(lines@) =~= cut_out(before, at as int, 0));
    loop
        invariant
            before == views(old(lines)@),
            before.len() == old(lines).len(),
            0 <= n,
            at + n <= before.len(),
            lines.len() == before.len() - n,
            views(lines@) == cut_out(before, at as int, n),
            type_head_len(before, at as int) == n + type_head_len(before, at + n),
            type_head_closed(before, at as int) == type_head_closed(before, at + n),
        decreases lines.len(),
    {
        if at >= lines.len() {
            return false;
        }
        let removed = remove_line(lines, at);
        let t = trim(removed.as_str());
        proof {
            assert(removed@ == before[at + n]);
            assert(views(lines@) =~= cut_out(before, at as int, n + 1));
            n = n + 1;
        }
        if ends(t.as_str(), ";") {
            return true;
        } else if ends(t.as_str(), "{") {
            return false;
        }
    }
}

/// Removes the body of a nested type.
pub fn remove_type_body(lines: &mut Vec<String>, at: usize)
    requires
        at <= old(lines).len(),
    ensures
        views(final(lines)@) == cut_out(
            views(old(lines)@),
            at as int,
            type_body_len(views(old(lines)@), at as int, 0) as int,
        ),
        final(lines).len() == old(lines).len() - type_body_len(views(old(lines)@), at as int, 0),
{
    let ghost before = views(lines@);
    let ghost mut n: int = 0;
    let mut depth: usize = 0;
    assert(views(lines@) =~= cut_out(before, at as int, 0));
    loop
        invariant
            before == views(old(lines)@),
            before.len() == old(lines).len(),
            0 <= n,
            depth <= n,
            at + n <= before.len(),
            lines.len() == before.len() - n,
            views(lines@) == cut_out(before, at as int, n),
            type_body_len(before, at as int, 0) == n + type_body_len(
                before,
                at + n,
                depth as nat,
            ),
        decreases lines.len(),
    {
        if at >= lines.len() {
            return ;
        }
        let removed = remove_line(lines, at);
        let t = trim(removed.as_str());
        proof {
            assert(removed@ == before[at + n]);
            assert(views(lines@) =~= cut_out(before, at as int, n + 1));
            n = n + 1;
        }
        if ends(t.as_str(), "{") {
            depth += 1;
        } else if ends(t.as_str(), "}") || ends(t.as_str(), "};") {
            if depth == 0 {
                return ;
            }
            depth -= 1;
        }
    }
}

/// Skips the nested class or struct that starts at a position; says whether
/// one started there.
pub fn ignore_class_or_struct(lines: &mut Vec<String>, read_line: usize) -> (r: bool)
    ensures
        (views(final(lines)@), r) == type_skipped(views(old(lines)@), read_line as int),
    decreases old(lines).len(),
{
    if read_line >= lines.len() {
        return false;
    }
    if !type_opener(lines[read_line].as_str()) {
        return false;
    }
    proof {
        lemma_type_head_len(views(lines@), read_line as int);
    }
    if remove_type_head(lines, read_line) {
        return true;
    }
    let ghost l1 = views(lines@);
    let _ = ignore_class_or_struct(lines, read_line);
    proof {
        lemma_type_skipped(l1, read_line as int);
        lemma_type_body_len(views(lines@), read_line as int, 0);
    }
    remove_type_body(lines, read_line);
    insert_line(lines, read_line, String::new());
    true
}

/// A member of a class, as the walk found it.
#[derive(Debug, PartialEq, Eq)]
pub enum ClassMember {
    Property(CppProperty),
    Function(CppApi),
    Brace(BraceType),
    /// A nested enumeration that was skipped: no member of the class.
    Empty,
}

/// A member of a class as the walk sees it.
pub enum Member {
    Nothing,
    /// A nested enumeration, whose lines were taken out.
    Skipped,
    Property(CppPropertyView),
    Function(CppApiView),
    Brace,
}

/// The view of a member that was found, if any.
pub open spec fn member_view(m: Option<ClassMember>) -> Member {
    match m {
        Some(ClassMember::Property(p)) => Member::Property(p@),
        Some(ClassMember::Function(f)) => Member::Function(f@),
        Some(ClassMember::Brace(_)) => Member::Brace,
        Some(ClassMember::Empty) => Member::Skipped,
        None => Member::Nothing,
    }
}

/// What reading one member gives: the lines and the position behind it, the
/// member, and whether the class ends with it.
pub struct MemberStep {
    pub lines: Seq<Seq<char>>,
    pub r: int,
    pub member: Member,
    pub end: bool,
}

/// The name of the class, or the empty name outside any.
pub open spec fn name_or_empty(class_name: Option<&String>) -> Seq<char> {
    match class_name {
        Some(c) => c@,
        None => Seq::empty(),
    }
}

/// Reads the member at position `r`: a nested type is skipped, and the walk
/// steps back one line; else the line is a method, a field, an enumeration,
/// which is removed and leaves no member, or braces. Nothing where the line
/// cannot be made sense of.
pub open spec fn member_step(lines: Seq<Seq<char>>, r: int, class_name: Seq<char>) -> Option<
    MemberStep,
> {
    let skipped = type_skipped(lines, r);
    if skipped.1 {
        Some(
            MemberStep {
                lines: skipped.0,
                r: if r >= 1 {
                    r - 1
                } else {
                    0
                },
                member: Member::Nothing,
                end: false,
            },
        )
    } else if r < 0 || r >= lines.len() {
        None
    } else {
        match prototype(lines[r], class_name) {
            Prototype::Broken => None,
            Prototype::Method(a) => Some(
                MemberStep { lines: lines, r: r, member: Member::Function(a), end: false },
            ),
            Prototype::NoMethod => match field_read(lines[r]) {
                FieldRead::Broken => None,
                FieldRead::Field(p) => Some(
                    MemberStep { lines: lines, r: r, member: Member::Property(p), end: false },
                ),
                FieldRead::NoField => match enum_step(lines, r) {
                    None => None,
                    Some(Some(l2)) => Some(
                        MemberStep { lines: l2, r: r, member: Member::Skipped, end: false },
                    ),
                    Some(None) => match brace_step(lines, r, true) {
                        None => None,
                        Some(b) => Some(
                            MemberStep {
                                lines: b.0,
                                r: r,
                                member: if b.1 is Some {
                                    Member::Brace
                                } else {
                                    Member::Nothing
                                },
                                end: b.1 is Some && !(b.1 == Some(BraceKind::Start)),
                            },
                        ),
                    },
                },
            },
        }
    }
}

/// Reads the member of a class at a position; says also whether the class
/// ends with it.
pub fn parse_class_member(
    lines: &mut Vec<String>,
    read_line: &mut usize,
    class_name: Option<&String>,
) -> (r: Result<(Option<ClassMember>, bool), Fault>)
    ensures
        match r {
            Ok(found) => member_step(
                views(old(lines)@),
                *old(read_line) as int,
                name_or_empty(class_name),
            ) == Some(
                MemberStep {
                    lines: views(final(lines)@),
                    r: *final(read_line) as int,
                    member: member_view(found.0),
                    end: found.1,
                },
            ),
            Err(_) => member_step(
                views(old(lines)@),
                *old(read_line) as int,
                name_or_empty(class_name),
            ) is None,
        },
{
    let at = *read_line;
    proof {
        lemma_type_skipped(views(lines@), at as int);
    }
    if ignore_class_or_struct(lines, at) {
        *read_line = if at >= 1 {
            at - 1
        } else {
            0
        };
        return Ok((None, false));
    }
    if at >= lines.len() {
        return Err(Fault);
    }
    match parse_function(lines, at, class_name) {
        Ok(Some(function)) => {
            return Ok((Some(ClassMember::Function(function)), false));
        },
        Ok(None) => {},
        Err(f) => {
            return Err(f);
        },
    }
    match parse_field(lines, at) {
        Ok(Some(property)) => {
            return Ok((Some(ClassMember::Property(property)), false));
        },
        Ok(None) => {},
        Err(f) => {
            return Err(f);
        },
    }
    match remove_enum(lines, at) {
        Ok(Some(_)) => {
            return Ok((Some(ClassMember::Empty), false));
        },
        Ok(None) => {},
        Err(f) => {
            return Err(f);
        },
    }
    match parse_remove_brace(lines, at, true) {
        Ok(Some(brace)) => {
            let end = match &brace {
                BraceType::Start => false,
                _ => true,
            };
            Ok((Some(ClassMember::Brace(brace)), end))
        },
        Ok(None) => Ok((None, false)),
        Err(f) => Err(f),
    }
}

/// Where the walk stands with respect to classes.
#[derive(Debug, Clone, Copy, PartialEq, Eq, Structural)]
pub enum ClassBlock {
    /// Outside any class.
    NotIn,
    /// Behind the head of a class, before its opening brace.
    AwaitingBrace,
    /// Between the braces of a class.
    Inside,
}

/// The state of a walk over normalised lines.
pub struct Walk {
    pub lines: Seq<Seq<char>>,
    pub r: int,
    /// The line read last, trimmed; a line that repeats it is passed over.
    pub last_line: Seq<char>,
    pub block: ClassBlock,
    pub public: bool,
    /// The class being read.
    pub class: UnrealClassView,
    /// The classes read so far.
    pub classes: Seq<UnrealClassView>,
    /// The path under which the classes of the header are recorded.
    pub file_path: Seq<char>,
}

/// The class with a member that was found among those that are not
/// public: a field is recorded with the fields that are never emitted, and
/// a method is dropped.
pub open spec fn with_hidden_member(class: UnrealClassView, member: Member) -> UnrealClassView {
    match member {
        Member::Property(p) => UnrealClassView {
            none_public_properties: class.none_public_properties.push(p),
            ..class
        },
        _ => class,
    }
}

/// Whether a member is a method or a field: something that a line declares.
pub open spec fn is_declared(member: Member) -> bool {
    member is Property || member is Function
}

/// The class at its end: the walk is outside again, a closing line is put
/// in at the position, and the class joins those read, with the header's
/// path as its declaring file and its methods sorted by name and without
/// repeated signatures. Nothing where the position lies behind the lines.
pub open spec fn class_closed(w: Walk) -> Option<Walk> {
    if 0 <= w.r <= w.lines.len() {
        Some(
            Walk {
                lines: w.lines.insert(w.r, "};"@),
                block: ClassBlock::NotIn,
                classes: w.classes.push(crate::extract::settled(w.class, w.file_path)),
                class: UnrealClassView::empty(),
                ..w
            },
        )
    } else {
        None
    }
}

/// The class with a member that was found among its public ones: a field,
/// or a method that has a name.
pub open spec fn with_member(class: UnrealClassView, member: Member) -> UnrealClassView {
    match member {
        Member::Property(p) => UnrealClassView { properties: class.properties.push(p), ..class },
        Member::Function(f) => if f.name.len() > 0 {
            UnrealClassView { public_apis: class.public_apis.push(f), ..class }
        } else {
            class
        },
        _ => class,
    }
}

/// The walk after the head of a class was read from a trimmed line, or
/// nothing where the head has no name.
pub open spec fn class_opened(w: Walk, line: Seq<char>) -> Option<Walk> {
    let ws = words(line);
    if ws.len() < 2 {
        None
    } else {
        Some(
            Walk {
                public: !starts_with(line, "class"@),
                class: UnrealClassView {
                    name: replaced(trimmed(ws[1]), ":"@, ""@),
                    is_struct: starts_with(line, "struct"@),
                    ..w.class
                },
                block: if ends_with(line, "{"@) {
                    ClassBlock::Inside
                } else {
                    ClassBlock::AwaitingBrace
                },
                r: w.r + 1,
                ..w
            },
        )
    }
}

/// The walk after a member was read inside a class; `public` says whether
/// the member stands among the public ones. A public member joins the class
/// and the walk goes on behind its line; behind a nested enumeration, whose
/// lines are gone, it goes on where it stands. A member that is not public has its
/// line taken out; a field among them is recorded, since it decides whether
/// the class can cross by value.
pub open spec fn member_taken(w: Walk, public: bool) -> Option<Walk> {
    match member_step(w.lines, w.r, w.class.name) {
        None => None,
        Some(m) => if !public {
            let w2 = Walk {
                lines: if is_declared(m.member) {
                    m.lines.remove(m.r)
                } else {
                    m.lines
                },
                r: m.r,
                public: public,
                class: with_hidden_member(w.class, m.member),
                ..w
            };
            if m.end {
                class_closed(w2)
            } else {
                Some(w2)
            }
        } else {
            let w2 = Walk {
                lines: m.lines,
                r: m.r,
                public: public,
                class: with_member(w.class, m.member),
                ..w
            };
            if m.end {
                match class_closed(w2) {
                    Some(w3) => Some(Walk { r: w3.r + 1, ..w3 }),
                    None => None,
                }
            } else if m.member is Skipped {
                Some(w2)
            } else {
                Some(Walk { r: w2.r + 1, ..w2 })
            }
        },
    }
}

/// One step of the walk at its position, or nothing where the line there
/// cannot be made sense of.
pub open spec fn walk_step(w: Walk) -> Option<Walk> {
    let line = trimmed(w.lines[w.r]);
    let w1 = Walk { last_line: line, ..w };
    if line == w.last_line {
        Some(Walk { r: w.r + 1, ..w })
    } else if w.block == ClassBlock::NotIn {
        if (starts_with(line, "class"@) || starts_with(line, "struct"@)) && !ends_with(line, ";"@) {
            class_opened(w1, line)
        } else {
            Some(Walk { r: w.r + 1, ..w1 })
        }
    } else if w.block == ClassBlock::AwaitingBrace {
        Some(
            Walk {
                block: if starts_with(line, "{"@) {
                    ClassBlock::Inside
                } else {
                    w.block
                },
                r: w.r + 1,
                ..w1
            },
        )
    } else {
        let public = if starts_with(line, "public:"@) {
            true
        } else if starts_with(line, "private:"@) || starts_with(line, "protected:"@) {
            false
        } else {
            w.public
        };
        let rest = if starts_with(line, "public:"@) {
            trimmed(replaced(line, "public:"@, ""@))
        } else if starts_with(line, "private:"@) || starts_with(line, "protected:"@) {
            trimmed(replaced(replaced(line, "private:"@, ""@), "protected:"@, ""@))
        } else {
            line
        };
        if rest.len() == 0 {
            Some(Walk { lines: w.lines.remove(w.r), public: public, ..w1 })
        } else {
            member_taken(w1, public)
        }
    }
}

/// The walk after at most `fuel` steps: at the end of the lines, or nothing
/// where a line cannot be made sense of or the steps run out.
pub open spec fn walked(w: Walk, fuel: nat) -> Option<Walk>
    decreases fuel,
{
    if w.r < 0 || w.r >= w.lines.len() {
        Some(w)
    } else if fuel == 0 {
        None
    } else {
        match walk_step(w) {
            Some(w2) => walked(w2, (fuel - 1) as nat),
            None => None,
        }
    }
}

/// Whether every class from position `n` on has the path as its declaring
/// file.
pub open spec fn recorded_under(classes: Seq<UnrealClassView>, n: int, path: Seq<char>) -> bool {
    forall|i: int| n <= i < classes.len() ==> (#[trigger] classes[i]).path == path
}

/// A step of the walk keeps the classes read before it, and records each
/// class that it closes under the path of the header.
pub proof fn lemma_step_records_path(w: Walk, n: int)
    requires
        0 <= n <= w.classes.len(),
        recorded_under(w.classes, n, w.file_path),
    ensures
        match walk_step(w) {
            Some(w2) => w2.file_path == w.file_path && w.classes.len() <= w2.classes.len()
                && recorded_under(w2.classes, n, w.file_path) && w2.classes.take(n)
                == w.classes.take(n),
            None => true,
        },
{
    match walk_step(w) {
        Some(w2) => {
            assert(w2.classes.take(n) =~= w.classes.take(n));
        },
        None => {},
    }
}

/// A walk keeps the classes read before it, and records each class that it
/// reads under the path of the header.
pub proof fn lemma_walk_records_path(w: Walk, fuel: nat, n: int)
    requires
        0 <= n <= w.classes.len(),
        recorded_under(w.classes, n, w.file_path),
    ensures
        match walked(w, fuel) {
            Some(w2) => w2.file_path == w.file_path && w.classes.len() <= w2.classes.len()
                && recorded_under(w2.classes, n, w.file_path) && w2.classes.take(n)
                == w.classes.take(n),
            None => true,
        },
    decreases fuel,
{
    if !(w.r < 0 || w.r >= w.lines.len()) && fuel > 0 {
        lemma_step_records_path(w, n);
        match walk_step(w) {
            Some(w2) => {
                lemma_walk_records_path(w2, (fuel - 1) as nat, n);
            },
            None => {},
        }
    }
}

/// The number of steps that a walk over so many lines may take.
pub open spec fn step_budget(len: nat) -> nat {
    if len <= 500000000 {
        8 * len + 64
    } else {
        4000000064
    }
}

/// The state of a walk besides the lines and the classes read.
#[derive(Debug)]
pub struct WalkState {
    pub read_line: usize,
    pub last_line: String,
    pub block: ClassBlock,
    pub public: bool,
    pub class_info: UnrealClass,
    /// The path under which the classes of the header are recorded.
    pub file_path: String,
}

/// The walk that the lines, the state and the classes read so far make up.
pub open spec fn walk_view(lines: Seq<Seq<char>>, st: WalkState, classes: Seq<UnrealClassView>) -> Walk {
    Walk {
        lines: lines,
        r: st.read_line as int,
        last_line: st.last_line@,
        block: st.block,
        public: st.public,
        class: st.class_info@,
        classes: classes,
        file_path: st.file_path@,
    }
}

/// The walk before its first step.
pub open spec fn walk_start(
    lines: Seq<Seq<char>>,
    classes: Seq<UnrealClassView>,
    file_path: Seq<char>,
) -> Walk {
    Walk {
        lines: lines,
        r: 0,
        last_line: Seq::empty(),
        block: ClassBlock::NotIn,
        public: false,
        class: UnrealClassView::empty(),
        classes: classes,
        file_path: file_path,
    }
}

/// Ends the class that the walk is in.
pub fn close_class(lines: &mut Vec<String>, st: &mut WalkState, engine: &mut Engine) -> (r: Result<
    (),
    Fault,
>)
    ensures
        match r {
            Ok(()) => class_closed(walk_view(views(old(lines)@), *old(st), old(engine)@.classes))
                == Some(walk_view(views(final(lines)@), *final(st), final(engine)@.classes)),
            Err(_) => class_closed(walk_view(views(old(lines)@), *old(st), old(engine)@.classes))
                is None,
        },
        final(engine)@ == (EngineView { classes: final(engine)@.classes, ..old(engine)@ }),
{
    if st.read_line > lines.len() {
        return Err(Fault);
    }
    insert_line(lines, st.read_line, String::from_str("};"));
    st.block = ClassBlock::NotIn;
    let done = crate::extract::settle(st.class_info.clone(), st.file_path.as_str());
    proof {
        lemma_views_push(engine.classes@, done);
    }
    engine.classes.push(done);
    st.class_info = UnrealClass::default();
    Ok(())
}

/// The class with a member that was found among its public ones: a field,
/// or a method that has a name.
pub fn add_member(class: &mut UnrealClass, member: Option<ClassMember>)
    ensures
        final(class)@ == with_member(old(class)@, member_view(member)),
{
    match member {
        Some(ClassMember::Property(p)) => {
            proof {
                lemma_views_push(class.properties@, p);
            }
            class.properties.push(p);
        },
        Some(ClassMember::Function(f)) => {
            if !f.name.as_str().is_empty() {
                proof {
                    lemma_views_push(class.public_apis@, f);
                }
                class.public_apis.push(f);
            }
        },
        _ => {},
    }
}

/// The walk after the head of a class was read from a trimmed line, or
/// nothing where the head has no name.
pub fn open_class(st: &mut WalkState, line: &str) -> (r: Result<(), Fault>)
    requires
        old(st).read_line < usize::MAX,
    ensures
        match r {
            Ok(()) => forall|lines: Seq<Seq<char>>, classes: Seq<UnrealClassView>|
                class_opened(#[trigger] walk_view(lines, *old(st), classes), line@) == Some(
                    walk_view(lines, *final(st), classes),
                ),
            Err(_) => words(line@).len() < 2,
        },
{
    let ws = split_words(line);
    if ws.len() < 2 {
        return Err(Fault);
    }
    assert(views(ws@)[1] == ws@[1]@);
    let t = trim(ws[1].as_str());
    st.public = !begins(line, "class");
    st.class_info.name = replace_all(t.as_str(), ":", "");
    st.class_info.is_struct = begins(line, "struct");
    st.block = if ends(line, "{") {
        ClassBlock::Inside
    } else {
        ClassBlock::AwaitingBrace
    };
    st.read_line = st.read_line + 1;
    Ok(())
}

/// Reads a member inside a class.
pub fn take_member(lines: &mut Vec<String>, st: &mut WalkState, engine: &mut Engine, public: bool) -> (r:
    Result<(), Fault>)
    ensures
        match r {
            Ok(()) => member_taken(
                walk_view(views(old(lines)@), *old(st), old(engine)@.classes),
                public,
            ) == Some(walk_view(views(final(lines)@), *final(st), final(engine)@.classes)),
            Err(_) => member_taken(
                walk_view(views(old(lines)@), *old(st), old(engine)@.classes),
                public,
            ) is None,
        },
        final(engine)@ == (EngineView { classes: final(engine)@.classes, ..old(engine)@ }),
{
    let start_line = st.read_line;
    let name = st.class_info.name.clone();
    let mut at = st.read_line;
    let found = match parse_class_member(lines, &mut at, Some(&name)) {
        Ok(found) => found,
        Err(f) => {
            return Err(f);
        },
    };
    proof {
        let before = views(old(lines)@);
        assert(before.len() == old(lines).len());
        if start_line >= before.len() {
            assert(!type_skipped(before, start_line as int).1);
        }
        assert(start_line < before.len());
        assert(at <= start_line);
    }
    st.read_line = at;
    st.public = public;
    let end = found.1;
    if !public {
        match found.0 {
            Some(ClassMember::Property(p)) => {
                let _ = remove_line(lines, at);
                proof {
                    lemma_views_push(st.class_info.none_public_properties@, p);
                }
                st.class_info.none_public_properties.push(p);
            },
            Some(ClassMember::Function(_)) => {
                let _ = remove_line(lines, at);
            },
            _ => {},
        }
        if end {
            return close_class(lines, st, engine);
        }
        Ok(())
    } else {
        let skipped = match &found.0 {
            Some(ClassMember::Empty) => true,
            _ => false,
        };
        add_member(&mut st.class_info, found.0);
        if end {
            match close_class(lines, st, engine) {
                Ok(()) => {},
                Err(f) => {
                    return Err(f);
                },
            }
        }
        if !skipped || end {
            st.read_line = st.read_line + 1;
        }
        Ok(())
    }
}

/// One step of the walk.
pub fn walk_once(lines: &mut Vec<String>, st: &mut WalkState, engine: &mut Engine) -> (r: Result<
    (),
    Fault,
>)
    requires
        old(st).read_line < old(lines).len(),
    ensures
        match r {
            Ok(()) => walk_step(walk_view(views(old(lines)@), *old(st), old(engine)@.classes))
                == Some(walk_view(views(final(lines)@), *final(st), final(engine)@.classes)),
            Err(_) => walk_step(walk_view(views(old(lines)@), *old(st), old(engine)@.classes))
                is None,
        },
        final(engine)@ == (EngineView { classes: final(engine)@.classes, ..old(engine)@ }),
{
    let at = st.read_line;
    let line = trim(lines[at].as_str());
    if same(line.as_str(), st.last_line.as_str()) {
        st.read_line = at + 1;
        return Ok(());
    }
    st.last_line = line.clone();
    match st.block {
        ClassBlock::NotIn => {
            if (begins(line.as_str(), "class") || begins(line.as_str(), "struct")) && !ends(
                line.as_str(),
                ";",
            ) {
                let ghost held = *st;
                match open_class(st, line.as_str()) {
                    Ok(()) => {
                        assert(class_opened(
                            walk_view(views(lines@), held, engine@.classes),
                            line@,
                        ) == Some(walk_view(views(lines@), *st, engine@.classes)));
                        Ok(())
                    },
                    Err(f) => Err(f),
                }
            } else {
                st.read_line = at + 1;
                Ok(())
            }
        },
        ClassBlock::AwaitingBrace => {
            if begins(line.as_str(), "{") {
                st.block = ClassBlock::Inside;
            }
            st.read_line = at + 1;
            Ok(())
        },
        ClassBlock::Inside => {
            let mut public = st.public;
            let mut rest = line.clone();
            if begins(line.as_str(), "public:") {
                public = true;
                let t = replace_all(line.as_str(), "public:", "");
                rest = trim(t.as_str());
            } else if begins(line.as_str(), "private:") || begins(line.as_str(), "protected:") {
                public = false;
                let t = replace_all(line.as_str(), "private:", "");
                let u = replace_all(t.as_str(), "protected:", "");
                rest = trim(u.as_str());
            }
            if rest.as_str().is_empty() {
                let _ = remove_line(lines, at);
                st.public = public;
                Ok(())
            } else {
                take_member(lines, st, engine, public)
            }
        },
    }
}

/// The number of steps that a walk over so many lines may take.
pub fn budget(len: usize) -> (r: usize)
    ensures
        r as nat == step_budget(len as nat),
{
    if len <= 500000000 {
        8 * len + 64
    } else {
        4000000064
    }
}

/// Walks over the normalised lines of a header and reads its classes and
/// structs into the model, each under the path of the header, with its
/// public fields and methods; the methods are sorted by name and without
/// repeated signatures. A member that is not public is taken out of the
/// lines; where it is a field it is recorded with the fields that are never
/// emitted. A nested class, struct or enumeration is skipped. The walk gives
/// up on a header whose lines it cannot make sense of, and after eight steps
/// for each line.
pub fn load_public_exports(lines: &mut Vec<String>, engine: &mut Engine, file_path: &str) -> (r:
    Result<(), Fault>)
    ensures
        match walked(
            walk_start(views(old(lines)@), old(engine)@.classes, file_path@),
            step_budget(old(lines).len() as nat),
        ) {
            Some(w) => r is Ok && views(final(lines)@) == w.lines && final(engine)@ == (EngineView {
                classes: w.classes,
                ..old(engine)@
            }),
            None => r is Err,
        },
        r is Ok ==> old(engine)@.classes.len() <= final(engine)@.classes.len()
            && final(engine)@.classes.take(old(engine)@.classes.len() as int) == old(
            engine,
        )@.classes && recorded_under(
            final(engine)@.classes,
            old(engine)@.classes.len() as int,
            file_path@,
        ),
{
    proof {
        let w0 = walk_start(views(lines@), engine@.classes, file_path@);
        lemma_walk_records_path(
            w0,
            step_budget(lines.len() as nat),
            engine@.classes.len() as int,
        );
        assert(engine@.classes.take(engine@.classes.len() as int) =~= engine@.classes);
    }
    let mut st = WalkState {
        read_line: 0,
        last_line: String::new(),
        block: ClassBlock::NotIn,
        public: false,
        class_info: UnrealClass::default(),
        file_path: String::from_str(file_path),
    };
    let mut fuel = budget(lines.len());
    let ghost start = walk_start(views(lines@), engine@.classes, file_path@);
    let ghost total = step_budget(lines.len() as nat);
    assert(walk_view(views(lines@), st, engine@.classes) == start);
    while st.read_line < lines.len() && fuel > 0
        invariant
            start == walk_start(views(old(lines)@), old(engine)@.classes, file_path@),
            total == step_budget(old(lines).len() as nat),
            walked(start, total) == walked(
                walk_view(views(lines@), st, engine@.classes),
                fuel as nat,
            ),
            engine@ == (EngineView { classes: engine@.classes, ..old(engine)@ }),
        decreases fuel,
    {
        match walk_once(lines, &mut st, engine) {
            Ok(()) => {},
            Err(f) => {
                return Err(f);
            },
        }
        fuel -= 1;
    }
    if st.read_line < lines.len() {
        return Err(Fault);
    }
    Ok(())
}

/// One step of the spacing of a declaration, at position `index` of the
/// line: the line, the position before, and whether the walk stands inside
/// angle brackets. `len0` is the length that the line had at first. Nothing
/// where the position lies behind the line.
pub open spec fn spacing_step(s: Seq<char>, index: int, sharp: bool, len0: int) -> Option<
    (Seq<char>, int, bool),
> {
    if index < 0 || index >= s.len() {
        None
    } else if is_gap(s[index]) {
        if sharp && !(index > 5 && (ends_with(s.subrange(0, index), "const"@) || ends_with(
            s.subrange(0, index),
            "const&"@,
        ))) {
            Some((without_char(s, index), index - 1, sharp))
        } else {
            Some((s, index - 1, sharp))
        }
    } else if s[index] == '*' && !sharp && index + 1 < len0 {
        if index + 1 >= s.len() {
            None
        } else if !is_gap(s[index + 1]) {
            Some((with_space_at(s, index + 1), index - 1, sharp))
        } else {
            Some((s, index - 1, sharp))
        }
    } else if s[index] == '>' {
        if index >= 1 && is_gap(s[index - 1]) {
            Some((without_char(s, index - 1), index - 2, true))
        } else {
            Some((s, index - 1, true))
        }
    } else if s[index] == '<' && index + 1 < len0 {
        if index + 1 >= s.len() {
            None
        } else if is_gap(s[index + 1]) {
            Some((without_char(s, index + 1), index - 1, false))
        } else {
            Some((s, index - 1, false))
        }
    } else if s[index] == '&' && index + 1 < len0 {
        if index + 1 >= s.len() {
            None
        } else if s[index + 1] != '&' && !is_gap(s[index + 1]) {
            Some((with_space_at(s, index + 1), index - 1, sharp))
        } else {
            Some((s, index - 1, sharp))
        }
    } else {
        Some((s, index - 1, sharp))
    }
}

/// The line after its positions from `index` down to the third were spaced.
pub open spec fn spaced_from(s: Seq<char>, index: int, sharp: bool, len0: int) -> Option<Seq<char>>
    decreases index,
{
    if index <= 1 {
        Some(s)
    } else {
        match spacing_step(s, index, sharp, len0) {
            Some(next) => if next.1 < index {
                spaced_from(next.0, next.1, next.2, len0)
            } else {
                None
            },
            None => None,
        }
    }
}

/// The declaration with its spacing set right: a space behind each pointer
/// or reference mark, none before a closing angle bracket or behind an
/// opening one, and none inside angle brackets but behind `const`. The line
/// is read from its end to its third character.
pub open spec fn line_spaced(s: Seq<char>) -> Option<Seq<char>> {
    if s.len() == 0 {
        Some(s)
    } else {
        spaced_from(s, s.len() - 1, false, s.len() as int)
    }
}

/// Sets the spacing of a declaration right.
pub fn normalize_line(line: &mut String) -> (r: Result<(), Fault>)
    ensures
        match r {
            Ok(()) => line_spaced(old(line)@) == Some(final(line)@),
            Err(_) => line_spaced(old(line)@) is None,
        },
{
    let len0 = count(line.as_str());
    if len0 == 0 {
        return Ok(());
    }
    let mut index: usize = len0 - 1;
    let mut sharp = false;
    while index > 1
        invariant
            len0 == old(line)@.len(),
            line_spaced(old(line)@) == spaced_from(line@, index as int, sharp, len0 as int),
        decreases index,
    {
        let v = to_chars(line.as_str());
        if index >= v.len() {
            return Err(Fault);
        }
        let c = v[index];
        if crate::text::gap(c) {
            let head = cut(line.as_str(), 0, index);
            let keep = index > 5 && (ends(head.as_str(), "const") || ends(head.as_str(), "const&"));
            if sharp && !keep {
                *line = drop_char(line.as_str(), index);
            }
            index -= 1;
        } else if c == '*' && !sharp && index + 1 < len0 {
            if index + 1 >= v.len() {
                return Err(Fault);
            }
            if !crate::text::gap(v[index + 1]) {
                *line = space_at(line.as_str(), index + 1);
            }
            index -= 1;
        } else if c == '>' {
            sharp = true;
            if crate::text::gap(v[index - 1]) {
                *line = drop_char(line.as_str(), index - 1);
                index -= 2;
            } else {
                index -= 1;
            }
        } else if c == '<' && index + 1 < len0 {
            if index + 1 >= v.len() {
                return Err(Fault);
            }
            if crate::text::gap(v[index + 1]) {
                *line = drop_char(line.as_str(), index + 1);
            }
            sharp = false;
            index -= 1;
        } else if c == '&' && index + 1 < len0 {
            if index + 1 >= v.len() {
                return Err(Fault);
            }
            if v[index + 1] != '&' && !crate::text::gap(v[index + 1]) {
                *line = space_at(line.as_str(), index + 1);
            }
            index -= 1;
        } else {
            index -= 1;
        }
    }
    Ok(())
}

/// The lines from position `k` on, each with its spacing set right; nothing
/// where one of them cannot be read.
pub open spec fn lines_spaced_from(lines: Seq<Seq<char>>, k: int) -> Option<Seq<Seq<char>>>
    decreases lines.len() - k,
{
    if k < 0 || k >= lines.len() {
        Some(lines)
    } else {
        match line_spaced(lines[k]) {
            Some(s) => lines_spaced_from(lines.update(k, s), k + 1),
            None => None,
        }
    }
}

/// Sets the spacing of every line right.
pub fn normalize_all(lines: &mut Vec<String>) -> (r: Result<(), Fault>)
    ensures
        match r {
            Ok(()) => lines_spaced_from(views(old(lines)@), 0) == Some(views(final(lines)@)),
            Err(_) => lines_spaced_from(views(old(lines)@), 0) is None,
        },
{
    let mut k: usize = 0;
    while k < lines.len()
        invariant
            lines_spaced_from(views(old(lines)@), 0) == lines_spaced_from(views(lines@), k as int),
        decreases lines.len() - k,
    {
        let mut line = lines[k].clone();
        match normalize_line(&mut line) {
            Ok(()) => {},
            Err(f) => {
                return Err(f);
            },
        }
        set_line(lines, k, line);
        k += 1;
    }
    Ok(())
}

} // verus!
