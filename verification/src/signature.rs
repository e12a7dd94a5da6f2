//! Declarations read from their words: the parameters of a method and what
//! stands before its name.

use crate::model::CppApi;
use crate::model::CppApiView;
use crate::model::Parameter;
use crate::model::ParameterView;
use crate::normalize::Fault;
use crate::primitives::parse_c_type;
use crate::primitives::resolved;
use crate::text::cat2;
use crate::text::contains;
use crate::text::cut;
use crate::text::decimal;
use crate::text::decimal_text;
use crate::text::equals_lowered;
use crate::text::find;
use crate::text::holds;
use crate::text::index_of;
use crate::text::lemma_views_push;
use crate::text::same;
use crate::text::same_lowered;
use crate::text::views;
use vstd::prelude::*;
use vstd::string::StringExecFns;

verus! {

/// The words that are not empty, last first.
pub open spec fn backwards(words: Seq<Seq<char>>) -> Seq<Seq<char>>
    decreases words.len(),
{
    if words.len() == 0 {
        Seq::empty()
    } else if words.last().len() == 0 {
        backwards(words.drop_last())
    } else {
        seq![words.last()] + backwards(words.drop_last())
    }
}

/// The words that are not empty, first first.
pub open spec fn forwards(words: Seq<Seq<char>>) -> Seq<Seq<char>>
    decreases words.len(),
{
    if words.len() == 0 {
        Seq::empty()
    } else if words.last().len() == 0 {
        forwards(words.drop_last())
    } else {
        forwards(words.drop_last()).push(words.last())
    }
}

/// A parameter after one more word of its declaration was read. Words are
/// read from the last to the first: the first plain word met is the name
/// and a later one the type.
pub open spec fn absorb(p: ParameterView, word: Seq<char>) -> ParameterView {
    if word == "const"@ {
        ParameterView { const_param: true, ..p }
    } else if word == "const&"@ {
        ParameterView { const_param: true, ref_param: true, ..p }
    } else if word == "const&&"@ {
        ParameterView { const_param: true, move_param: true, ..p }
    } else if word == "enum"@ || word == "class"@ || word == "struct"@ {
        p
    } else if word == "&"@ {
        ParameterView { ref_param: true, ..p }
    } else if word == "*"@ {
        ParameterView { ptr_param: true, ..p }
    } else if word == "&&"@ {
        ParameterView { move_param: true, ..p }
    } else if index_of(word, "&&"@) >= 0 {
        ParameterView { type_str: word.subrange(0, index_of(word, "&&"@)), move_param: true, ..p }
    } else if index_of(word, "&"@) >= 0 {
        ParameterView { type_str: word.subrange(0, index_of(word, "&"@)), ref_param: true, ..p }
    } else if index_of(word, "*"@) >= 0 {
        ParameterView { type_str: word.subrange(0, index_of(word, "*"@)), ptr_param: true, ..p }
    } else if p.name.len() == 0 {
        ParameterView { name: word, ..p }
    } else {
        ParameterView { type_str: word, ..p }
    }
}

/// A parameter after the words from position `k` on were read.
pub open spec fn absorbed(p: ParameterView, words: Seq<Seq<char>>, k: int) -> ParameterView
    decreases words.len() - k,
{
    if k < 0 || k >= words.len() {
        p
    } else {
        absorbed(absorb(p, words[k]), words, k + 1)
    }
}

/// The words of a parameter that stand for a parameter at all: not an empty
/// list, and not the lone word `void`.
pub open spec fn is_parameter(words: Seq<Seq<char>>) -> bool {
    words.len() > 0 && !(words.len() == 1 && words[0] == "void"@)
}

/// The parameter before its type is resolved: where an equals sign is among
/// the words, the last word is the default value and the one before it is
/// passed over.
pub open spec fn parameter_read(words: Seq<Seq<char>>) -> ParameterView {
    let back = backwards(words);
    if words.contains("="@) {
        absorbed(
            ParameterView {
                default_value: if back.len() > 0 {
                    Some(back[0])
                } else {
                    None
                },
                ..ParameterView::empty()
            },
            back,
            2,
        )
    } else {
        absorbed(ParameterView::empty(), back, 0)
    }
}

/// The parameter with a type where only a name was found, and with a name by
/// its position where none was; nothing where no type was found at all.
pub open spec fn parameter_settled(p: ParameterView, position: nat) -> Option<ParameterView> {
    let ty = if p.type_str.len() == 0 {
        p.name
    } else {
        p.type_str
    };
    let name = if p.type_str.len() == 0 || p.name.len() == 0 {
        "arg"@ + decimal(position)
    } else {
        p.name
    };
    if ty.len() == 0 {
        None
    } else {
        Some(
            ParameterView {
                type_str: ty,
                name: name,
                r_type: resolved(ty).0,
                param_type: resolved(ty).1.spec_code(),
                ..p
            },
        )
    }
}

/// The parameters that the word lists from position `k` on give, behind
/// those in `acc`; nothing where one of them shows no type.
pub open spec fn parameters_from(
    lists: Seq<Seq<Seq<char>>>,
    k: int,
    position: nat,
    acc: Seq<ParameterView>,
) -> Option<Seq<ParameterView>>
    decreases lists.len() - k,
{
    if k < 0 || k >= lists.len() {
        Some(acc)
    } else if !is_parameter(lists[k]) {
        parameters_from(lists, k + 1, position, acc)
    } else {
        match parameter_settled(parameter_read(lists[k]), position) {
            Some(p) => parameters_from(lists, k + 1, position + 1, acc.push(p)),
            None => None,
        }
    }
}

/// The word lists of some parameters, each as sequences of characters.
pub open spec fn word_lists(parameters: Seq<Vec<String>>) -> Seq<Seq<Seq<char>>> {
    Seq::new(parameters.len(), |i: int| views(parameters[i]@))
}

/// The words that are not empty, last first.
pub fn reversed_words(words: &Vec<String>) -> (r: Vec<String>)
    ensures
        views(r@) == backwards(views(words@)),
{
    let mut out: Vec<String> = Vec::new();
    let mut i: usize = words.len();
    proof {
        assert(views(out@) =~= Seq::empty());
        assert(views(words@).take(i as int) =~= views(words@));
        assert(Seq::<Seq<char>>::empty() + backwards(views(words@)) =~= backwards(views(words@)));
    }
    while i > 0
        invariant
            i <= words.len(),
            backwards(views(words@)) == views(out@) + backwards(views(words@).take(i as int)),
        decreases i,
    {
        proof {
            if i == words.len() {
                assert(views(words@).take(i as int) =~= views(words@));
            }
            assert(views(words@).take(i as int).drop_last() =~= views(words@).take(i - 1));
        }
        i -= 1;
        if !words[i].as_str().is_empty() {
            let w = words[i].clone();
            proof {
                lemma_views_push(out@, w);
                assert(views(out@).push(w@) + backwards(views(words@).take(i as int)) =~= views(
                    out@,
                ) + (seq![w@] + backwards(views(words@).take(i as int))));
            }
            out.push(w);
        }
    }
    proof {
        if words.len() == 0 {
            assert(views(words@).take(0) =~= views(words@));
        }
        assert(views(words@).take(0) =~= Seq::<Seq<char>>::empty());
        assert(views(out@) + Seq::<Seq<char>>::empty() =~= views(out@));
    }
    out
}

/// A parameter after one more word of its declaration was read. Words are
/// read from the last to the first: the first plain word met is the name
/// and a later one the type.
pub fn absorb_word(p: &mut Parameter, word: &str)
    ensures
        final(p)@ == absorb(old(p)@, word@),
{
    if same(word, "const") {
        p.const_param = true;
    } else if same(word, "const&") {
        p.const_param = true;
        p.ref_param = true;
    } else if same(word, "const&&") {
        p.const_param = true;
        p.move_param = true;
    } else if same(word, "enum") || same(word, "class") || same(word, "struct") {
    } else if same(word, "&") {
        p.ref_param = true;
    } else if same(word, "*") {
        p.ptr_param = true;
    } else if same(word, "&&") {
        p.move_param = true;
    } else {
        match find(word, "&&") {
            Some(i) => {
                p.type_str = cut(word, 0, i);
                p.move_param = true;
            },
            None => match find(word, "&") {
                Some(i) => {
                    p.type_str = cut(word, 0, i);
                    p.ref_param = true;
                },
                None => match find(word, "*") {
                    Some(i) => {
                        p.type_str = cut(word, 0, i);
                        p.ptr_param = true;
                    },
                    None => {
                        if p.name.as_str().is_empty() {
                            p.name = String::from_str(word);
                        } else {
                            p.type_str = String::from_str(word);
                        }
                    },
                },
            },
        }
    }
}

/// The parameter before its type is resolved: where an equals sign is among
/// the words, the last word is the default value and the one before it is
/// passed over.
pub fn read_parameter(words: &Vec<String>) -> (r: Parameter)
    ensures
        r@ == parameter_read(views(words@)),
{
    let back = reversed_words(words);
    let mut p = Parameter::default();
    let mut k: usize = 0;
    if crate::classify::listed(words, "=") {
        if back.len() > 0 {
            p.default_value = Some(back[0].clone());
        }
        k = 2;
    }
    let ghost start = p@;
    let ghost from = k as int;
    while k < back.len()
        invariant
            absorbed(start, views(back@), from) == absorbed(p@, views(back@), k as int),
        decreases back.len() - k,
    {
        absorb_word(&mut p, back[k].as_str());
        k += 1;
    }
    p
}

/// The parameter with a type where only a name was found, and with a name by
/// its position where none was; nothing where no type was found at all.
pub fn settle_parameter(p: Parameter, position: usize) -> (r: Option<Parameter>)
    ensures
        match r {
            Some(q) => parameter_settled(p@, position as nat) == Some(q@),
            None => parameter_settled(p@, position as nat) is None,
        },
{
    let mut p = p;
    let unnamed = p.type_str.as_str().is_empty() || p.name.as_str().is_empty();
    if p.type_str.as_str().is_empty() {
        p.type_str = p.name.clone();
    }
    if unnamed {
        let n = decimal_text(position as u64);
        p.name = cat2("arg", n.as_str());
    }
    if p.type_str.as_str().is_empty() {
        return None;
    }
    let res = parse_c_type(p.type_str.as_str());
    p.r_type = res.0;
    p.param_type = res.1.code();
    Some(p)
}

/// Reads the parameters of a method, each from the words of its
/// declaration. An empty list and the lone word `void` stand for no
/// parameter. A parameter that shows no type is a fault.
pub fn parse_parameter(parameters: &Vec<Vec<String>>) -> (r: Result<Vec<Parameter>, Fault>)
    ensures
        match r {
            Ok(list) => parameters_from(word_lists(parameters@), 0, 0, Seq::empty()) == Some(
                views(list@),
            ),
            Err(_) => parameters_from(word_lists(parameters@), 0, 0, Seq::empty()) is None,
        },
{
    let mut list: Vec<Parameter> = Vec::new();
    assert(views(list@) =~= Seq::empty());
    let mut position: usize = 0;
    let mut k: usize = 0;
    while k < parameters.len()
        invariant
            k <= parameters.len(),
            position <= k,
            parameters_from(word_lists(parameters@), 0, 0, Seq::empty()) == parameters_from(
                word_lists(parameters@),
                k as int,
                position as nat,
                views(list@),
            ),
        decreases parameters.len() - k,
    {
        let words = &parameters[k];
        assert(word_lists(parameters@)[k as int] == views(words@));
        let skip = words.len() == 0 || (words.len() == 1 && same(words[0].as_str(), "void"));
        if !skip {
            let p = read_parameter(words);
            match settle_parameter(p, position) {
                Some(q) => {
                    proof {
                        lemma_views_push(list@, q);
                    }
                    list.push(q);
                },
                None => {
                    return Err(Fault);
                },
            }
            position += 1;
        }
        k += 1;
    }
    Ok(list)
}

/// A word that says nothing of the result: a storage or linkage specifier.
pub open spec fn is_passed_over(word: Seq<char>) -> bool {
    equals_lowered(word, "friend"@) || equals_lowered(word, "stdcall"@) || equals_lowered(
        word,
        "constexpr"@,
    ) || equals_lowered(word, "extern"@) || equals_lowered(word, "struct"@) || equals_lowered(
        word,
        "class"@,
    )
}

/// Whether a word before the name of a method is a qualifier: it says
/// nothing of the type of the result.
pub open spec fn is_qualifier(word: Seq<char>) -> bool {
    equals_lowered(word, "static"@) || equals_lowered(word, "const"@) || equals_lowered(
        word,
        "const*"@,
    ) || equals_lowered(word, "const&"@) || equals_lowered(word, "virtual"@) || is_passed_over(
        word,
    )
}

/// A method after a qualifier before its name was read. A `const` before
/// the name belongs to the result.
pub open spec fn qualified_by(a: CppApiView, word: Seq<char>) -> CppApiView {
    if equals_lowered(word, "static"@) {
        CppApiView { is_static: true, ..a }
    } else if equals_lowered(word, "const"@) {
        CppApiView { const_ret: true, ..a }
    } else if equals_lowered(word, "const*"@) {
        CppApiView { const_ret: true, ptr_ret: true, ..a }
    } else if equals_lowered(word, "const&"@) {
        CppApiView { const_ret: true, ref_ret: true, ..a }
    } else if equals_lowered(word, "virtual"@) {
        CppApiView { is_virtual: true, ..a }
    } else {
        a
    }
}

/// A method after the word that holds the type of its result was read: the
/// type loses its first `&`, else its first `*`, with all that follows.
pub open spec fn result_taken(a: CppApiView, word: Seq<char>) -> CppApiView {
    if index_of(word, "&"@) >= 0 {
        CppApiView { rc_type: word.subrange(0, index_of(word, "&"@)), ref_ret: true, ..a }
    } else if index_of(word, "*"@) >= 0 {
        CppApiView { rc_type: word.subrange(0, index_of(word, "*"@)), ptr_ret: true, ..a }
    } else {
        CppApiView { rc_type: word, ..a }
    }
}

/// A method after one more of the words before its name was read, or
/// nothing where a second word claims to be the result type.
pub open spec fn qualify(a: CppApiView, word: Seq<char>) -> Option<CppApiView> {
    if is_qualifier(word) {
        Some(qualified_by(a, word))
    } else if a.rc_type.len() != 0 {
        None
    } else {
        Some(result_taken(a, word))
    }
}

/// A method after the words from position `k` down to the first were read.
pub open spec fn qualified(a: CppApiView, words: Seq<Seq<char>>, k: int) -> Option<CppApiView>
    decreases k,
{
    if k <= 0 || k > words.len() {
        Some(a)
    } else {
        match qualify(a, words[k - 1]) {
            Some(b) => qualified(b, words, k - 1),
            None => None,
        }
    }
}

/// The method that the words in front of its parameter list give: the last
/// word is the name; the name of the class makes a constructor, a tilde a
/// destructor; the words before the name give the result type and the
/// qualifiers. Nothing where there is no word, where two words claim to be
/// the result type, or where none does.
pub open spec fn function_read(a: CppApiView, words: Seq<Seq<char>>) -> Option<CppApiView> {
    if words.len() == 0 {
        None
    } else if a.class_name == words.last() {
        Some(
            CppApiView {
                name: words.last(),
                is_construstor: true,
                rc_type: a.class_name,
                ..a
            },
        )
    } else if contains(words.last(), "~"@) {
        Some(CppApiView { name: words.last(), is_destructor: true, ..a })
    } else {
        match qualified(CppApiView { name: words.last(), ..a }, words, words.len() - 1) {
            Some(b) => if b.rc_type.len() == 0 || b.name.len() == 0 {
                None
            } else {
                Some(
                    CppApiView {
                        r_type: resolved(b.rc_type).0,
                        return_type: resolved(b.rc_type).1.spec_code(),
                        ..b
                    },
                )
            },
            None => None,
        }
    }
}

/// A word that says nothing of the result: a storage or linkage specifier.
pub fn passed_over(word: &str) -> (r: bool)
    ensures
        r == is_passed_over(word@),
{
    same_lowered(word, "friend") || same_lowered(word, "stdcall") || same_lowered(
        word,
        "constexpr",
    ) || same_lowered(word, "extern") || same_lowered(word, "struct") || same_lowered(
        word,
        "class",
    )
}

/// Reads a qualifier before the name of a method; says whether the word
/// was one.
pub fn read_qualifier(a: &mut CppApi, word: &str) -> (r: bool)
    ensures
        r == is_qualifier(word@),
        r ==> final(a)@ == qualified_by(old(a)@, word@),
        !r ==> final(a)@ == old(a)@,
{
    if same_lowered(word, "static") {
        a.is_static = true;
        true
    } else if same_lowered(word, "const") {
        a.const_ret = true;
        true
    } else if same_lowered(word, "const*") {
        a.const_ret = true;
        a.ptr_ret = true;
        true
    } else if same_lowered(word, "const&") {
        a.const_ret = true;
        a.ref_ret = true;
        true
    } else if same_lowered(word, "virtual") {
        a.is_virtual = true;
        true
    } else {
        passed_over(word)
    }
}

/// Reads the word that holds the type of the result.
pub fn take_result(a: &mut CppApi, word: &str)
    ensures
        final(a)@ == result_taken(old(a)@, word@),
{
    match find(word, "&") {
        Some(i) => {
            a.rc_type = cut(word, 0, i);
            a.ref_ret = true;
        },
        None => match find(word, "*") {
            Some(i) => {
                a.rc_type = cut(word, 0, i);
                a.ptr_ret = true;
            },
            None => {
                a.rc_type = String::from_str(word);
            },
        },
    }
}

/// Reads one more of the words before the name of a method; says whether
/// that went well.
pub fn qualify_by(a: &mut CppApi, word: &str) -> (r: bool)
    ensures
        match qualify(old(a)@, word@) {
            Some(b) => r && final(a)@ == b,
            None => !r,
        },
{
    if read_qualifier(a, word) {
        true
    } else if !a.rc_type.as_str().is_empty() {
        false
    } else {
        take_result(a, word);
        true
    }
}

/// Reads the words from position `upto` down to the first as qualifiers
/// and result type; says whether that went well.
pub fn read_qualifiers(api: &mut CppApi, words: &Vec<String>, upto: usize) -> (r: bool)
    requires
        upto <= words.len(),
    ensures
        match qualified(old(api)@, views(words@), upto as int) {
            Some(b) => r && final(api)@ == b,
            None => !r,
        },
{
    let mut k: usize = upto;
    while k > 0
        invariant
            k <= upto <= words.len(),
            qualified(old(api)@, views(words@), upto as int) == qualified(
                api@,
                views(words@),
                k as int,
            ),
        decreases k,
    {
        let ok = qualify_by(api, words[k - 1].as_str());
        if !ok {
            return false;
        }
        k -= 1;
    }
    true
}

/// Resolves the result type of a method, where it has one and a name.
pub fn resolve_result(api: &mut CppApi) -> (r: bool)
    ensures
        r == !(old(api)@.rc_type.len() == 0 || old(api)@.name.len() == 0),
        r ==> final(api)@ == (CppApiView {
            r_type: resolved(old(api)@.rc_type).0,
            return_type: resolved(old(api)@.rc_type).1.spec_code(),
            ..old(api)@
        }),
{
    if api.rc_type.as_str().is_empty() || api.name.as_str().is_empty() {
        return false;
    }
    let res = parse_c_type(api.rc_type.as_str());
    api.r_type = res.0;
    api.return_type = res.1.code();
    true
}

/// Reads what stands in front of the parameter list of a method.
pub fn parse_function(api: &mut CppApi, fn_impl: &Vec<String>) -> (r: Result<(), Fault>)
    ensures
        match r {
            Ok(()) => function_read(old(api)@, views(fn_impl@)) == Some(final(api)@),
            Err(_) => function_read(old(api)@, views(fn_impl@)) is None,
        },
{
    if fn_impl.len() == 0 {
        return Err(Fault);
    }
    let last = fn_impl.len() - 1;
    api.name = fn_impl[last].clone();
    if same(api.class_name.as_str(), api.name.as_str()) {
        api.is_construstor = true;
        api.rc_type = api.class_name.clone();
        return Ok(());
    }
    if holds(api.name.as_str(), "~") {
        api.is_destructor = true;
        return Ok(());
    }
    if !read_qualifiers(api, fn_impl, last) {
        return Err(Fault);
    }
    if !resolve_result(api) {
        return Err(Fault);
    }
    Ok(())
}

} // verus!
