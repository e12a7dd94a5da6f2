//! Normalisation of header text: comments, marker macros, guarded blocks,
//! macro definitions, templates and function bodies are taken out, line by
//! line, so that declarations are left.

use crate::text::begins;
use crate::text::cat2;
use crate::text::contains;
use crate::text::contains_lowered;
use crate::text::count;
use crate::text::cut;
use crate::text::ends;
use crate::text::ends_with;
use crate::text::fields;
use crate::text::find;
use crate::text::holds;
use crate::text::has_lowered;
use crate::text::index_of;
use crate::text::join;
use crate::text::joined;
use crate::text::last_index_of;
use crate::text::lemma_views_push;
use crate::text::push_text;
use crate::text::push_all;
use crate::text::remove_line;
use crate::text::replace_all;
use crate::text::replaced;
use crate::text::rfind;
use crate::text::set_line;
use crate::text::split_fields;
use crate::text::split_on;
use crate::text::starts_with;
use crate::text::trim;
use crate::text::trimmed;
use crate::text::views;
use vstd::prelude::*;
use vstd::string::StringExecFns;

verus! {

/// A header that normalisation cannot make sense of: its braces or its
/// lines do not match up.
#[derive(Debug, Clone, Copy, PartialEq, Eq, Structural)]
pub struct Fault;

/// The lines without the `n` lines from position `at` on.
pub open spec fn cut_out(lines: Seq<Seq<char>>, at: int, n: int) -> Seq<Seq<char>> {
    lines.subrange(0, at) + lines.subrange(at + n, lines.len() as int)
}

/// How many lines a macro definition takes from position `i` on: each line
/// that ends in a backslash goes on in the next.
pub open spec fn define_len(lines: Seq<Seq<char>>, i: int) -> nat
    decreases lines.len() - i,
{
    if i < 0 || i >= lines.len() {
        0
    } else if ends_with(trimmed(lines[i]), "\\"@) {
        1 + define_len(lines, i + 1)
    } else {
        1
    }
}

/// A macro definition takes one line at least, and none behind the last.
pub proof fn lemma_define_len(lines: Seq<Seq<char>>, i: int)
    requires
        0 <= i < lines.len(),
    ensures
        1 <= define_len(lines, i) <= lines.len() - i,
    decreases lines.len() - i,
{
    if ends_with(trimmed(lines[i]), "\\"@) {
        if i + 1 < lines.len() {
            lemma_define_len(lines, i + 1);
        } else {
            assert(define_len(lines, i + 1) == 0);
        }
    }
}

/// Whether a line starts a macro definition.
pub open spec fn is_define(line: Seq<char>) -> bool {
    starts_with(trimmed(line), "#define"@)
}

/// The lines without the macro definitions at or after position `r`.
pub open spec fn defines_removed_from(lines: Seq<Seq<char>>, r: int) -> Seq<Seq<char>>
    decreases lines.len() - r,
{
    if r < 0 || r >= lines.len() {
        lines
    } else if is_define(lines[r]) {
        proof {
            lemma_define_len(lines, r);
        }
        defines_removed_from(cut_out(lines, r, define_len(lines, r) as int), r)
    } else {
        defines_removed_from(lines, r + 1)
    }
}

/// Whether a line starts a macro definition.
pub fn define_line(line: &str) -> (r: bool)
    ensures
        r == is_define(line@),
{
    let t = trim(line);
    begins(t.as_str(), "#define")
}

/// Removes the lines of the macro definition that starts at a position.
pub fn remove_define(lines: &mut Vec<String>, at: usize)
    requires
        at < old(lines).len(),
    ensures
        views(final(lines)@) == cut_out(
            views(old(lines)@),
            at as int,
            define_len(views(old(lines)@), at as int) as int,
        ),
{
    let ghost before = views(lines@);
    let ghost mut n: int = 0;
    assert(views(lines@) =~= cut_out(before, at as int, 0));
    loop
        invariant
            before == views(old(lines)@),
            0 <= n,
            at + n <= before.len(),
            lines.len() == before.len() - n,
            views(lines@) == cut_out(before, at as int, n),
            define_len(before, at as int) == n + define_len(before, at + n),
        decreases lines.len(),
    {
        if at >= lines.len() {
            return ;
        }
        let removed = remove_line(lines, at);
        let t = trim(removed.as_str());
        proof {
            assert(removed@ == before[at + n]);
            assert(views(lines@) =~= cut_out(before, at as int, n + 1));
            n = n + 1;
        }
        if !ends(t.as_str(), "\\") {
            return ;
        }
    }
}

/// Removes every macro definition with its continuation lines.
pub fn remove_defines(lines: &mut Vec<String>)
    ensures
        views(final(lines)@) == defines_removed_from(views(old(lines)@), 0),
{
    let mut r: usize = 0;
    while r < lines.len()
        invariant
            defines_removed_from(views(old(lines)@), 0) == defines_removed_from(
                views(lines@),
                r as int,
            ),
        decreases lines.len() - r,
    {
        if define_line(lines[r].as_str()) {
            proof {
                lemma_define_len(views(lines@), r as int);
            }
            remove_define(lines, r);
        } else {
            r += 1;
        }
    }
}

/// How many lines go from position `i` up to the first one that holds an
/// opening brace, that one counted.
pub open spec fn head_len(lines: Seq<Seq<char>>, i: int) -> nat
    decreases lines.len() - i,
{
    if i < 0 || i >= lines.len() {
        0
    } else if contains(lines[i], "{"@) {
        1
    } else {
        1 + head_len(lines, i + 1)
    }
}

/// How many lines a block takes from position `i` on, entered `depth`
/// braces deep: up to the line whose closing brace leaves the block, that
/// one counted. A line counts for one brace of each kind at most.
pub open spec fn body_len(lines: Seq<Seq<char>>, i: int, depth: nat) -> nat
    decreases lines.len() - i,
{
    if i < 0 || i >= lines.len() {
        0
    } else {
        let d = if contains(lines[i], "{"@) {
            depth + 1
        } else {
            depth
        };
        if contains(lines[i], "}"@) {
            if d == 0 {
                1
            } else {
                1 + body_len(lines, i + 1, (d - 1) as nat)
            }
        } else {
            1 + body_len(lines, i + 1, d)
        }
    }
}

/// A head takes one line at least where there is one, and none behind the
/// last.
pub proof fn lemma_head_len(lines: Seq<Seq<char>>, i: int)
    requires
        0 <= i <= lines.len(),
    ensures
        head_len(lines, i) <= lines.len() - i,
        i < lines.len() ==> head_len(lines, i) >= 1,
    decreases lines.len() - i,
{
    if i < lines.len() && !contains(lines[i], "{"@) {
        lemma_head_len(lines, i + 1);
    }
}

/// A block takes one line at least where there is one, and none behind the
/// last.
pub proof fn lemma_body_len(lines: Seq<Seq<char>>, i: int, depth: nat)
    requires
        0 <= i <= lines.len(),
    ensures
        body_len(lines, i, depth) <= lines.len() - i,
        i < lines.len() ==> body_len(lines, i, depth) >= 1,
    decreases lines.len() - i,
{
    if i < lines.len() {
        let d = if contains(lines[i], "{"@) {
            depth + 1
        } else {
            depth
        };
        if contains(lines[i], "}"@) {
            if d != 0 {
                lemma_body_len(lines, i + 1, (d - 1) as nat);
            }
        } else {
            lemma_body_len(lines, i + 1, d as nat);
        }
    }
}

/// Removes the lines from a position up to the first one that holds an
/// opening brace, that one too.
pub fn remove_head(lines: &mut Vec<String>, at: usize)
    requires
        at <= old(lines).len(),
    ensures
        views(final(lines)@) == cut_out(
            views(old(lines)@),
            at as int,
            head_len(views(old(lines)@), at as int) as int,
        ),
        final(lines).len() == old(lines).len() - head_len(views(old(lines)@), at as int),
{
    let ghost before = views(lines@);
    let ghost mut n: int = 0;
    assert(views(lines@) =~= cut_out(before, at as int, 0));
    loop
        invariant
            before == views(old(lines)@),
            before.len() == old(lines).len(),
            0 <= n,
            at + n <= before.len(),
            lines.len() == before.len() - n,
            views(lines@) == cut_out(before, at as int, n),
            head_len(before, at as int) == n + head_len(before, at + n),
        decreases lines.len(),
    {
        if at >= lines.len() {
            return ;
        }
        let removed = remove_line(lines, at);
        proof {
            assert(removed@ == before[at + n]);
            assert(views(lines@) =~= cut_out(before, at as int, n + 1));
            n = n + 1;
        }
        if holds(removed.as_str(), "{") {
            return ;
        }
    }
}

/// The text, or no text where it is empty.
pub open spec fn kept(t: Seq<char>) -> Seq<Seq<char>> {
    if t.len() > 0 {
        seq![t]
    } else {
        Seq::empty()
    }
}

/// What a block holds from position `i` on, entered `depth` braces deep:
/// its lines as they stand, and of the line whose closing brace leaves the
/// block what stands before the brace, trimmed, unless that is empty.
pub open spec fn body_texts(lines: Seq<Seq<char>>, i: int, depth: nat) -> Seq<Seq<char>>
    decreases lines.len() - i,
{
    if i < 0 || i >= lines.len() {
        Seq::empty()
    } else {
        let d = if contains(lines[i], "{"@) {
            depth + 1
        } else {
            depth
        };
        if contains(lines[i], "}"@) {
            if d == 0 {
                kept(trimmed(lines[i].subrange(0, index_of(lines[i], "}"@))))
            } else {
                seq![lines[i]] + body_texts(lines, i + 1, (d - 1) as nat)
            }
        } else {
            seq![lines[i]] + body_texts(lines, i + 1, d)
        }
    }
}

/// Removes the lines of a block from a position on, up to the line whose
/// closing brace leaves the block; gives what the block held.
pub fn remove_body(lines: &mut Vec<String>, at: usize) -> (r: Vec<String>)
    requires
        at <= old(lines).len(),
    ensures
        views(final(lines)@) == cut_out(
            views(old(lines)@),
            at as int,
            body_len(views(old(lines)@), at as int, 0) as int,
        ),
        final(lines).len() == old(lines).len() - body_len(views(old(lines)@), at as int, 0),
        views(r@) == body_texts(views(old(lines)@), at as int, 0),
{
    let ghost before = views(lines@);
    let ghost mut n: int = 0;
    let mut depth: usize = 0;
    let mut contents: Vec<String> = Vec::new();
    assert(views(lines@) =~= cut_out(before, at as int, 0));
    assert(views(contents@) + body_texts(before, at as int, 0) =~= body_texts(
        before,
        at as int,
        0,
    ));
    loop
        invariant
            before == views(old(lines)@),
            before.len() == old(lines).len(),
            0 <= n,
            depth <= n,
            at + n <= before.len(),
            lines.len() == before.len() - n,
            views(lines@) == cut_out(before, at as int, n),
            body_len(before, at as int, 0) == n + body_len(before, at + n, depth as nat),
            body_texts(before, at as int, 0) == views(contents@) + body_texts(
                before,
                at + n,
                depth as nat,
            ),
        decreases lines.len(),
    {
        if at >= lines.len() {
            assert(views(contents@) + Seq::<Seq<char>>::empty() =~= views(contents@));
            return contents;
        }
        let removed = remove_line(lines, at);
        let ghost held = views(contents@);
        let ghost was = depth as nat;
        proof {
            assert(removed@ == before[at + n]);
            assert(views(lines@) =~= cut_out(before, at as int, n + 1));
        }
        if holds(removed.as_str(), "{") {
            depth += 1;
        }
        match find(removed.as_str(), "}") {
            Some(index) => {
                if depth == 0 {
                    let head = cut(removed.as_str(), 0, index);
                    let left = trim(head.as_str());
                    if !left.as_str().is_empty() {
                        push_text(&mut contents, left);
                    }
                    proof {
                        assert(views(contents@) =~= held + body_texts(before, at + n, was));
                    }
                    return contents;
                }
                depth -= 1;
            },
            None => {},
        }
        push_text(&mut contents, removed);
        proof {
            assert(views(contents@) + body_texts(before, at + n + 1, depth as nat) =~= held
                + body_texts(before, at + n, was));
            n = n + 1;
        }
    }
}

/// How many lines a template takes from position `i` on: its head up to the
/// first opening brace, and the block behind it.
pub open spec fn template_len(lines: Seq<Seq<char>>, i: int) -> nat {
    head_len(lines, i) + body_len(lines, i + head_len(lines, i), 0)
}

/// Whether a line starts a template.
pub open spec fn is_template(line: Seq<char>) -> bool {
    contains(trimmed(line), "template"@)
}

/// The lines without the templates at or after position `r`.
pub open spec fn templates_removed_from(lines: Seq<Seq<char>>, r: int) -> Seq<Seq<char>>
    decreases lines.len() - r,
{
    if r < 0 || r >= lines.len() {
        lines
    } else if is_template(lines[r]) {
        proof {
            lemma_head_len(lines, r);
            lemma_body_len(lines, r + head_len(lines, r), 0);
        }
        templates_removed_from(cut_out(lines, r, template_len(lines, r) as int), r)
    } else {
        templates_removed_from(lines, r + 1)
    }
}

/// Whether a line starts a template.
pub fn template_line(line: &str) -> (r: bool)
    ensures
        r == is_template(line@),
{
    let t = trim(line);
    holds(t.as_str(), "template")
}

/// Removes every template with its body.
pub fn remove_templates(lines: &mut Vec<String>)
    ensures
        views(final(lines)@) == templates_removed_from(views(old(lines)@), 0),
{
    let mut r: usize = 0;
    while r < lines.len()
        invariant
            templates_removed_from(views(old(lines)@), 0) == templates_removed_from(
                views(lines@),
                r as int,
            ),
        decreases lines.len() - r,
    {
        if template_line(lines[r].as_str()) {
            let ghost before = views(lines@);
            proof {
                lemma_head_len(before, r as int);
                lemma_body_len(before, r + head_len(before, r as int), 0);
            }
            remove_head(lines, r);
            let _ = remove_body(lines, r);
            proof {
                let n1 = head_len(before, r as int) as int;
                lemma_cut_then_body(before, r as int, n1);
                assert(views(lines@) =~= cut_out(before, r as int, template_len(before, r as int) as int));
            }
        } else {
            r += 1;
        }
    }
}

/// A block behind lines that were cut out is as long as it was in the
/// lines before the cut.
pub proof fn lemma_cut_then_body(lines: Seq<Seq<char>>, at: int, n: int)
    requires
        0 <= at,
        0 <= n,
        at + n <= lines.len(),
    ensures
        body_len(cut_out(lines, at, n), at, 0) == body_len(lines, at + n, 0),
        cut_out(cut_out(lines, at, n), at, body_len(lines, at + n, 0) as int) =~= cut_out(
            lines,
            at,
            n + body_len(lines, at + n, 0),
        ),
{
    lemma_body_shift(lines, at, n, at, 0);
    lemma_body_len(lines, at + n, 0);
}

/// Cutting lines out before a position shifts the blocks behind it.
pub proof fn lemma_body_shift(lines: Seq<Seq<char>>, at: int, n: int, i: int, depth: nat)
    requires
        0 <= at <= i,
        0 <= n,
        at + n <= lines.len(),
    ensures
        body_len(cut_out(lines, at, n), i, depth) == body_len(lines, i + n, depth),
    decreases lines.len() - i,
{
    let cut = cut_out(lines, at, n);
    if i < cut.len() {
        assert(cut[i] == lines[i + n]);
        let d = if contains(lines[i + n], "{"@) {
            depth + 1
        } else {
            depth
        };
        if contains(lines[i + n], "}"@) {
            if d != 0 {
                lemma_body_shift(lines, at, n, i + 1, (d - 1) as nat);
            }
        } else {
            lemma_body_shift(lines, at, n, i + 1, d as nat);
        }
    }
}

/// A forward declaration or a type definition on one line.
pub open spec fn is_type_line(line: Seq<char>) -> bool {
    (starts_with(line, "typedef "@) || starts_with(line, "struct "@) || starts_with(
        line,
        "class "@,
    ) || starts_with(line, "friend class "@)) && contains(line, ";"@)
}

/// A line that says nothing of a declaration: an empty one, a comment, a
/// `using`, a directive other than a macro definition, or a type line.
pub open spec fn is_idle_line(line: Seq<char>) -> bool {
    line.len() == 0 || starts_with(line, "//"@) || starts_with(line, "using "@) || (starts_with(
        line,
        "#"@,
    ) && !starts_with(line, "#define"@)) || is_type_line(line)
}

/// One step of comment removal at position `r`: the lines, the position and
/// whether a block comment is open behind it.
pub open spec fn comment_step(lines: Seq<Seq<char>>, r: int, in_comment: bool) -> (
    Seq<Seq<char>>,
    int,
    bool,
) {
    let line = trimmed(lines[r]);
    let open = index_of(line, "/*"@);
    let close = index_of(line, "*/"@);
    if !in_comment {
        if is_idle_line(line) {
            (lines.remove(r), r, false)
        } else if index_of(line, "//"@) >= 0 {
            (lines.update(r, line.subrange(0, index_of(line, "//"@))), r + 1, false)
        } else if starts_with(line, "enum class"@) {
            (lines.update(r, replaced(lines[r], "enum class"@, "enum"@)), r + 1, false)
        } else if contains(line, "/*"@) {
            (lines, r, true)
        } else {
            (lines, r + 1, false)
        }
    } else if ends_with(line, "*/"@) {
        if open >= 0 {
            (lines.update(r, line.subrange(0, open)), r + 1, false)
        } else {
            (lines.remove(r), r, false)
        }
    } else if close >= 0 {
        if open >= 0 {
            (
                lines.update(
                    r,
                    line.subrange(0, open) + line.subrange(
                        close + "*/"@.len(),
                        line.len() as int,
                    ),
                ),
                r + 1,
                false,
            )
        } else {
            (lines.update(r, line.subrange(close + "*/"@.len(), line.len() as int)), r + 1, false)
        }
    } else if open >= 0 {
        (lines.update(r, line.subrange(0, open)), r + 1, true)
    } else {
        (lines.remove(r), r, true)
    }
}

/// The lines without comments and idle lines at or after position `r`.
pub open spec fn comments_removed_from(lines: Seq<Seq<char>>, r: int, in_comment: bool) -> Seq<
    Seq<char>,
>
    decreases lines.len() - r, (if in_comment {
            0int
        } else {
            1int
        }),
{
    if r < 0 || r >= lines.len() {
        lines
    } else {
        let next = comment_step(lines, r, in_comment);
        comments_removed_from(next.0, next.1, next.2)
    }
}

/// A forward declaration or a type definition on one line.
pub fn type_line(line: &str) -> (r: bool)
    ensures
        r == is_type_line(line@),
{
    (begins(line, "typedef ") || begins(line, "struct ") || begins(line, "class ") || begins(
        line,
        "friend class ",
    )) && holds(line, ";")
}

/// A line that says nothing of a declaration: an empty one, a comment, a
/// `using`, a directive other than a macro definition, or a type line.
pub fn idle_line(line: &str) -> (r: bool)
    ensures
        r == is_idle_line(line@),
{
    line.is_empty() || begins(line, "//") || begins(line, "using ") || (begins(line, "#")
        && !begins(line, "#define")) || type_line(line)
}

/// Removes comments, and with them the lines that say nothing of a
/// declaration.
pub fn remove_comment_and_mic(lines: &mut Vec<String>)
    ensures
        views(final(lines)@) == comments_removed_from(views(old(lines)@), 0, false),
{
    let mut r: usize = 0;
    let mut in_comment = false;
    while r < lines.len()
        invariant
            comments_removed_from(views(old(lines)@), 0, false) == comments_removed_from(
                views(lines@),
                r as int,
                in_comment,
            ),
        decreases lines.len() - r, (if in_comment {
                0int
            } else {
                1int
            }),
    {
        let line = trim(lines[r].as_str());
        let n = count(line.as_str());
        proof {
            reveal_strlit("*/");
        }
        if !in_comment {
            if idle_line(line.as_str()) {
                let _ = remove_line(lines, r);
            } else {
                match find(line.as_str(), "//") {
                    Some(i) => {
                        set_line(lines, r, cut(line.as_str(), 0, i));
                        r += 1;
                    },
                    None => {
                        if begins(line.as_str(), "enum class") {
                            let t = replace_all(lines[r].as_str(), "enum class", "enum");
                            set_line(lines, r, t);
                            r += 1;
                        } else if holds(line.as_str(), "/*") {
                            in_comment = true;
                        } else {
                            r += 1;
                        }
                    },
                }
            }
        } else {
            let open = find(line.as_str(), "/*");
            if ends(line.as_str(), "*/") {
                in_comment = false;
                match open {
                    Some(s) => {
                        set_line(lines, r, cut(line.as_str(), 0, s));
                        r += 1;
                    },
                    None => {
                        let _ = remove_line(lines, r);
                    },
                }
            } else {
                match find(line.as_str(), "*/") {
                    Some(e) => {
                        in_comment = false;
                        match open {
                            Some(s) => {
                                let mut t = cut(line.as_str(), 0, s);
                                let rest = cut(line.as_str(), e + 2, n);
                                t.append(rest.as_str());
                                set_line(lines, r, t);
                            },
                            None => {
                                set_line(lines, r, cut(line.as_str(), e + 2, n));
                            },
                        }
                        r += 1;
                    },
                    None => {
                        match open {
                            Some(s) => {
                                set_line(lines, r, cut(line.as_str(), 0, s));
                                r += 1;
                            },
                            None => {
                                let _ = remove_line(lines, r);
                            },
                        }
                    },
                }
            }
        }
    }
}

/// A line that holds one of the engine's declaration macros.
pub open spec fn is_tag_line(line: Seq<char>) -> bool {
    ||| contains(line, "UENUM"@)
    ||| contains(line, "UCLASS"@)
    ||| contains(line, "UPROPERTY"@)
    ||| contains(line, "DEPRECATED_"@)
    ||| contains(line, "UINTERFACE"@)
    ||| contains(line, "DECLARE_"@)
    ||| contains(line, "PRAGMA_"@)
    ||| contains(line, "BINDING_"@)
    ||| contains(line, "STAT"@)
    ||| contains(line, "SHADER_"@)
    ||| contains(line, "LAYOUT_"@)
    ||| contains(line, "_HIDE"@)
    ||| contains(line, "HIDE_"@)
    ||| contains(line, "JSON_"@)
    ||| contains(line, "IMPL_"@)
    ||| contains(line, "IMPLEMENT_"@)
    ||| contains(line, "UE_NONCOPYABLE"@)
    ||| contains(line, "UE_TRACE"@)
    ||| contains(line, "UE_LOG"@)
    ||| contains(line, "VARARGS"@)
    ||| contains(line, "DEFINE_"@)
    ||| contains(line, "SEQUENCER_INSTANCE_PLAYER_TYPE"@)
    ||| contains(line, "USTRUCT"@)
    ||| contains(line, "UFUNCTION"@)
    ||| contains(line, "EFFECT_PRESET_METHODS"@)
    ||| contains(line, "GENERATED_"@)
}

/// A word that only marks a declaration: an export or alignment macro, or
/// an inline specifier in any case of its letters.
pub open spec fn is_marker_key(key: Seq<char>) -> bool {
    ||| contains(key, "_API"@)
    ||| contains(key, "STD_"@)
    ||| contains(key, "MS_ALIGN"@)
    ||| contains(key, "GCC_ALIGN"@)
    ||| contains(key, "STDCAll"@)
    ||| contains_lowered(key, "inline"@)
}

/// The text without the marker words among `keys` from position `k` on, each
/// taken out wherever it stands.
pub open spec fn markers_cleared(cur: Seq<char>, keys: Seq<Seq<char>>, k: int) -> Seq<char>
    decreases keys.len() - k,
{
    if k < 0 || k >= keys.len() {
        cur
    } else if is_marker_key(keys[k]) {
        markers_cleared(replaced(cur, keys[k], ""@), keys, k + 1)
    } else {
        markers_cleared(cur, keys, k + 1)
    }
}

/// Whether taking out one of the marker words left only white space.
pub open spec fn markers_emptied(cur: Seq<char>, keys: Seq<Seq<char>>, k: int) -> bool
    decreases keys.len() - k,
{
    if k < 0 || k >= keys.len() {
        false
    } else if is_marker_key(keys[k]) {
        trimmed(replaced(cur, keys[k], ""@)).len() == 0 || markers_emptied(
            replaced(cur, keys[k], ""@),
            keys,
            k + 1,
        )
    } else {
        markers_emptied(cur, keys, k + 1)
    }
}

/// The text without the `UMETA(..)` annotation that the trimmed line holds,
/// from the word to the last closing bracket.
pub open spec fn umeta_cleared(cur: Seq<char>, line: Seq<char>) -> Seq<char> {
    let i = index_of(line, "UMETA("@);
    let e = last_index_of(line.subrange(i, line.len() as int), ")"@);
    if i >= 0 && e >= 0 {
        replaced(cur, line.subrange(i, i + e + 1), ""@)
    } else {
        cur
    }
}

/// Whether a line opens a block that is compiled for the editor only.
pub open spec fn is_editor_guard(line: Seq<char>) -> bool {
    starts_with(line, "#if UE_EDITOR"@) || starts_with(line, "#if WITH_EDITOR"@)
}

/// How many lines a conditional block takes from position `i` on, entered
/// `depth` conditionals deep: up to its `#endif`, that one counted.
pub open spec fn guard_len(lines: Seq<Seq<char>>, i: int, depth: nat) -> nat
    decreases lines.len() - i,
{
    if i < 0 || i >= lines.len() {
        0
    } else {
        let d = if starts_with(lines[i], "#if"@) {
            depth + 1
        } else {
            depth
        };
        if starts_with(lines[i], "#endif"@) {
            if d == 0 {
                1
            } else {
                1 + guard_len(lines, i + 1, (d - 1) as nat)
            }
        } else {
            1 + guard_len(lines, i + 1, d)
        }
    }
}

/// A conditional block takes no line behind the last.
pub proof fn lemma_guard_len(lines: Seq<Seq<char>>, i: int, depth: nat)
    requires
        0 <= i <= lines.len(),
    ensures
        guard_len(lines, i, depth) <= lines.len() - i,
    decreases lines.len() - i,
{
    if i < lines.len() {
        let d = if starts_with(lines[i], "#if"@) {
            depth + 1
        } else {
            depth
        };
        if starts_with(lines[i], "#endif"@) {
            if d != 0 {
                lemma_guard_len(lines, i + 1, (d - 1) as nat);
            }
        } else {
            lemma_guard_len(lines, i + 1, d as nat);
        }
    }
}

/// One step of marker removal at position `r`: the lines and the position
/// behind it. A macro definition is passed over; a line with a declaration
/// macro goes; a line that opens a block for the editor only is emptied and
/// the block behind it goes, up to its `#endif`; any other line loses its
/// marker words and its annotation, and goes where nothing is left of it.
pub open spec fn tags_step(lines: Seq<Seq<char>>, r: int) -> (Seq<Seq<char>>, int) {
    let line = trimmed(lines[r]);
    let keys = fields(line);
    let emptied = line.len() == 0 || markers_emptied(lines[r], keys, 0);
    let cleaned = umeta_cleared(markers_cleared(lines[r], keys, 0), line);
    if starts_with(line, "#define"@) {
        (lines, r + 1)
    } else if is_tag_line(line) {
        (lines.remove(r), r)
    } else if is_editor_guard(line) {
        let cleared = lines.update(r, Seq::empty());
        (cut_out(cleared, r + 1, guard_len(cleared, r + 1, 0) as int), r + 1)
    } else if emptied {
        (lines.update(r, cleaned).remove(r), r)
    } else {
        (lines.update(r, cleaned), r + 1)
    }
}

/// A step of marker removal leaves fewer lines behind its position.
pub proof fn lemma_tags_step(lines: Seq<Seq<char>>, r: int)
    requires
        0 <= r < lines.len(),
    ensures
        0 <= tags_step(lines, r).1 <= tags_step(lines, r).0.len(),
        tags_step(lines, r).0.len() - tags_step(lines, r).1 < lines.len() - r,
{
    let cleared = lines.update(r, Seq::empty());
    lemma_guard_len(cleared, r + 1, 0);
}

/// The lines without the engine's marker macros at or after position `r`.
pub open spec fn tags_removed_from(lines: Seq<Seq<char>>, r: int) -> Seq<Seq<char>>
    decreases lines.len() - r,
{
    if r < 0 || r >= lines.len() {
        lines
    } else {
        proof {
            lemma_tags_step(lines, r);
        }
        tags_removed_from(tags_step(lines, r).0, tags_step(lines, r).1)
    }
}

/// A line that holds one of the engine's declaration macros.
pub fn tag_line(line: &str) -> (r: bool)
    ensures
        r == is_tag_line(line@),
{
    holds(line, "UENUM") || holds(line, "UCLASS") || holds(line, "UPROPERTY") || holds(
        line,
        "DEPRECATED_",
    ) || holds(line, "UINTERFACE") || holds(line, "DECLARE_") || holds(line, "PRAGMA_") || holds(
        line,
        "BINDING_",
    ) || holds(line, "STAT") || holds(line, "SHADER_") || holds(line, "LAYOUT_") || holds(line, "_HIDE")
        || holds(line, "HIDE_") || holds(line, "JSON_") || holds(line, "IMPL_") || holds(
        line,
        "IMPLEMENT_",
    ) || holds(line, "UE_NONCOPYABLE") || holds(line, "UE_TRACE") || holds(line, "UE_LOG") || holds(
        line,
        "VARARGS",
    ) || holds(line, "DEFINE_") || holds(line, "SEQUENCER_INSTANCE_PLAYER_TYPE") || holds(
        line,
        "USTRUCT",
    ) || holds(line, "UFUNCTION") || holds(line, "EFFECT_PRESET_METHODS") || holds(line, "GENERATED_")
}

/// A word that only marks a declaration: an export or alignment macro, or
/// an inline specifier in any case of its letters.
pub fn marker_key(key: &str) -> (r: bool)
    ensures
        r == is_marker_key(key@),
{
    holds(key, "_API") || holds(key, "STD_") || holds(key, "MS_ALIGN") || holds(key, "GCC_ALIGN") || holds(
        key,
        "STDCAll",
    ) || has_lowered(key, "inline")
}

/// Takes the marker words of a line out of it; says also whether one of
/// them left only white space.
pub fn clear_markers(cur: &str, keys: &Vec<String>) -> (r: (String, bool))
    ensures
        r.0@ == markers_cleared(cur@, views(keys@), 0),
        r.1 == markers_emptied(cur@, views(keys@), 0),
{
    let mut text = String::from_str(cur);
    let mut emptied = false;
    let mut k: usize = 0;
    while k < keys.len()
        invariant
            k <= keys.len(),
            markers_cleared(cur@, views(keys@), 0) == markers_cleared(
                text@,
                views(keys@),
                k as int,
            ),
            markers_emptied(cur@, views(keys@), 0) == (emptied || markers_emptied(
                text@,
                views(keys@),
                k as int,
            )),
        decreases keys.len() - k,
    {
        if marker_key(keys[k].as_str()) {
            text = replace_all(text.as_str(), keys[k].as_str(), "");
            let t = trim(text.as_str());
            if t.as_str().is_empty() {
                emptied = true;
            }
        }
        k += 1;
    }
    (text, emptied)
}

/// The text without the `UMETA(..)` annotation that the trimmed line holds,
/// from the word to the last closing bracket.
pub fn clear_umeta(cur: String, line: &str) -> (r: String)
    ensures
        r@ == umeta_cleared(cur@, line@),
{
    match find(line, "UMETA(") {
        Some(i) => {
            let n = count(line);
            let sub = cut(line, i, n);
            match rfind(sub.as_str(), ")") {
                Some(e) => {
                    proof {
                        reveal_strlit(")");
                    }
                    let umeta = cut(line, i, i + e + 1);
                    replace_all(cur.as_str(), umeta.as_str(), "")
                },
                None => cur,
            }
        },
        None => {
            proof {
                crate::text::lemma_last_index_upto(
                    line@.subrange(-1, line@.len() as int),
                    ")"@,
                    line@.subrange(-1, line@.len() as int).len() - ")"@.len(),
                );
            }
            cur
        },
    }
}

/// Whether a line opens a block that is compiled for the editor only.
pub fn editor_guard(line: &str) -> (r: bool)
    ensures
        r == is_editor_guard(line@),
{
    begins(line, "#if UE_EDITOR") || begins(line, "#if WITH_EDITOR")
}

/// Removes the lines of a conditional block from a position on, up to the
/// `#endif` that closes it.
pub fn remove_guarded(lines: &mut Vec<String>, at: usize)
    requires
        at <= old(lines).len(),
    ensures
        views(final(lines)@) == cut_out(
            views(old(lines)@),
            at as int,
            guard_len(views(old(lines)@), at as int, 0) as int,
        ),
        final(lines).len() == old(lines).len() - guard_len(views(old(lines)@), at as int, 0),
{
    let ghost before = views(lines@);
    let ghost mut n: int = 0;
    let mut depth: usize = 0;
    assert(views(lines@) =~= cut_out(before, at as int, 0));
    loop
        invariant
            before == views(old(lines)@),
            before.len() == old(lines).len(),
            0 <= n,
            depth <= n,
            at + n <= before.len(),
            lines.len() == before.len() - n,
            views(lines@) == cut_out(before, at as int, n),
            guard_len(before, at as int, 0) == n + guard_len(before, at + n, depth as nat),
        decreases lines.len(),
    {
        if at >= lines.len() {
            return ;
        }
        let removed = remove_line(lines, at);
        proof {
            assert(removed@ == before[at + n]);
            assert(views(lines@) =~= cut_out(before, at as int, n + 1));
            n = n + 1;
        }
        if begins(removed.as_str(), "#if") {
            depth += 1;
        }
        if begins(removed.as_str(), "#endif") {
            if depth == 0 {
                return ;
            }
            depth -= 1;
        }
    }
}

/// Removes the engine's marker macros: lines that hold a declaration macro,
/// marker words inside a line, annotations, and blocks that are compiled
/// for the editor only.
pub fn remove_unreal_tags(lines: &mut Vec<String>)
    ensures
        views(final(lines)@) == tags_removed_from(views(old(lines)@), 0),
{
    let mut r: usize = 0;
    while r < lines.len()
        invariant
            tags_removed_from(views(old(lines)@), 0) == tags_removed_from(views(lines@), r as int),
        decreases lines.len() - r,
    {
        proof {
            lemma_tags_step(views(lines@), r as int);
        }
        let line = trim(lines[r].as_str());
        let ghost before = views(lines@);
        let ghost at = r as int;
        if begins(line.as_str(), "#define") {
            r += 1;
        } else if tag_line(line.as_str()) {
            let _ = remove_line(lines, r);
        } else if editor_guard(line.as_str()) {
            set_line(lines, r, String::new());
            proof {
                lemma_guard_len(views(lines@), r + 1, 0);
            }
            remove_guarded(lines, r + 1);
            r += 1;
            assert(tags_step(before, at) == (views(lines@), at + 1));
        } else {
            let keys = split_fields(line.as_str());
            let cleared = clear_markers(lines[r].as_str(), &keys);
            let emptied = line.as_str().is_empty() || cleared.1;
            let cleaned = clear_umeta(cleared.0, line.as_str());
            set_line(lines, r, cleaned);
            if emptied {
                let _ = remove_line(lines, r);
                assert(tags_step(before, at) == (views(lines@), at));
            } else {
                r += 1;
                assert(tags_step(before, at) == (views(lines@), at + 1));
            }
        }
    }
}

/// A line that opens a section of a class by visibility.
pub open spec fn is_visibility_line(line: Seq<char>) -> bool {
    starts_with(trimmed(line), "public:"@) || starts_with(trimmed(line), "private:"@)
        || starts_with(trimmed(line), "protected:"@)
}

/// The position of the line at or after `i` that closes the parameter list
/// of a declaration, or -1 where the lines from `i` on do not continue one:
/// a semicolon comes first, a second opening bracket, or a closing bracket
/// with none open.
pub open spec fn bracket_end(lines: Seq<Seq<char>>, i: int, opened: bool) -> int
    decreases lines.len() - i,
{
    if i < 0 || i >= lines.len() {
        -1
    } else if contains(lines[i], ")"@) {
        if opened {
            i
        } else {
            -1
        }
    } else if contains(lines[i], ";"@) {
        -1
    } else if contains(lines[i], "("@) {
        if opened {
            -1
        } else {
            bracket_end(lines, i + 1, true)
        }
    } else {
        bracket_end(lines, i + 1, opened)
    }
}

/// The line that closes a parameter list lies within the lines.
pub proof fn lemma_bracket_end(lines: Seq<Seq<char>>, i: int, opened: bool)
    requires
        0 <= i,
    ensures
        bracket_end(lines, i, opened) == -1 || i <= bracket_end(lines, i, opened) < lines.len(),
    decreases lines.len() - i,
{
    if i < lines.len() && !contains(lines[i], ")"@) && !contains(lines[i], ";"@) {
        if contains(lines[i], "("@) {
            if !opened {
                lemma_bracket_end(lines, i + 1, true);
            }
        } else {
            lemma_bracket_end(lines, i + 1, opened);
        }
    }
}

/// The lines with the declaration at position `r` drawn into one line, and
/// whether a function is declared there. A parameter list that runs over
/// several lines is joined to its first line with spaces between.
pub open spec fn function_joined(lines: Seq<Seq<char>>, r: int) -> (Seq<Seq<char>>, bool) {
    if r < 0 || r >= lines.len() {
        (lines, false)
    } else if is_visibility_line(lines[r]) {
        (lines, false)
    } else if contains(lines[r], "("@) && contains(lines[r], ")"@) {
        (lines, true)
    } else if contains(lines[r], ";"@) {
        (lines, false)
    } else {
        let e = bracket_end(lines, r + 1, contains(lines[r], "("@));
        if e < 0 {
            (lines, false)
        } else {
            (
                cut_out(lines, r + 1, e - r).update(
                    r,
                    lines[r] + joined(lines.subrange(r + 1, e + 1), " "@),
                ),
                true,
            )
        }
    }
}

/// A line that opens a section of a class by visibility.
pub fn visibility_line(line: &str) -> (r: bool)
    ensures
        r == is_visibility_line(line@),
{
    let t = trim(line);
    begins(t.as_str(), "public:") || begins(t.as_str(), "private:") || begins(
        t.as_str(),
        "protected:",
    )
}

/// The position of the line at or after `i` that closes the parameter list
/// of a declaration, or -1 where the lines from `i` on do not continue one:
/// a semicolon comes first, a second opening bracket, or a closing bracket
/// with none open.
pub fn find_bracket_end(lines: &Vec<String>, from: usize, opened: bool) -> (r: Option<usize>)
    ensures
        match r {
            Some(e) => e as int == bracket_end(views(lines@), from as int, opened) && from <= e
                < lines.len(),
            None => bracket_end(views(lines@), from as int, opened) == -1,
        },
{
    let mut i: usize = from;
    let mut open = opened;
    while i < lines.len()
        invariant
            from <= i,
            bracket_end(views(lines@), from as int, opened) == bracket_end(
                views(lines@),
                i as int,
                open,
            ),
        decreases lines.len() - i,
    {
        let this = lines[i].as_str();
        if holds(this, ")") {
            if open {
                return Some(i);
            } else {
                return None;
            }
        } else if holds(this, ";") {
            return None;
        } else if holds(this, "(") {
            if open {
                return None;
            }
            open = true;
        }
        i += 1;
    }
    None
}

/// Draws the declaration at a position into one line; says whether a
/// function is declared there.
pub fn normalize_function(lines: &mut Vec<String>, read_line: &mut usize) -> (r: bool)
    ensures
        (views(final(lines)@), r) == function_joined(views(old(lines)@), *old(read_line) as int),
        *final(read_line) == *old(read_line),
        final(lines).len() <= old(lines).len(),
{
    let at = *read_line;
    if at >= lines.len() {
        return false;
    }
    if visibility_line(lines[at].as_str()) {
        return false;
    }
    let opened = holds(lines[at].as_str(), "(");
    if opened && holds(lines[at].as_str(), ")") {
        return true;
    }
    if holds(lines[at].as_str(), ";") {
        return false;
    }
    let end = match find_bracket_end(lines, at + 1, opened) {
        Some(e) => e,
        None => {
            return false;
        },
    };
    let ghost before = views(lines@);
    let mut parameters: Vec<String> = Vec::new();
    assert(views(parameters@) =~= before.subrange(at + 1, at + 1));
    let mut n: usize = 0;
    while n < end - at
        invariant
            before == views(old(lines)@),
            at == *old(read_line),
            *read_line == at,
            before.len() == old(lines).len(),
            end as int == bracket_end(before, at + 1, opened),
            at < end < before.len(),
            n <= end - at,
            lines.len() == before.len() - n,
            views(lines@) == cut_out(before, at + 1, n as int),
            views(parameters@) == before.subrange(at + 1, at + 1 + n),
        decreases end - at - n,
    {
        let removed = remove_line(lines, at + 1);
        proof {
            assert(removed@ == before[at + 1 + n]);
            assert(views(lines@) =~= cut_out(before, at + 1, n + 1));
            lemma_views_push(parameters@, removed);
            assert(before.subrange(at + 1, at + 1 + n).push(removed@) =~= before.subrange(
                at + 1,
                at + 2 + n,
            ));
        }
        parameters.push(removed);
        n += 1;
    }
    let tail = join(&parameters, " ");
    assert(views(lines@)[at as int] == before[at as int]);
    let whole = cat2(lines[at].as_str(), tail.as_str());
    set_line(lines, at, whole);
    true
}

/// One step of body removal at position `r`: the lines without the body of
/// the function declared there, its prototype left and closed by a
/// semicolon, and the position, which stays; nothing where the braces do
/// not match up. The body stands on the line of the declaration, or opens
/// there, or opens on a line behind it.
pub open spec fn fn_block(lines: Seq<Seq<char>>, r: int) -> Option<(Seq<Seq<char>>, int)> {
    if r < 0 || r >= lines.len() {
        Some((lines, r))
    } else {
        let line = trimmed(lines[r]);
        let s = index_of(line, "{"@);
        let e = last_index_of(line, "}"@);
        if s >= 0 && e >= 0 {
            if s < e {
                Some((lines.update(r, line.subrange(0, s) + ";"@), r))
            } else {
                None
            }
        } else if e >= 0 {
            None
        } else if s >= 0 {
            let l2 = lines.update(r, line.subrange(0, s) + ";"@);
            Some((cut_out(l2, r + 1, body_len(l2, r + 1, 0) as int), r))
        } else if ends_with(line, ";"@) {
            Some((lines, r))
        } else {
            let l2 = lines.update(r, lines[r] + ";"@);
            let n1 = head_len(l2, r + 1) as int;
            if n1 >= 1 && contains(l2[r + n1], "{"@) && contains(l2[r + n1], "}"@) {
                if index_of(l2[r + n1], "}"@) < index_of(l2[r + n1], "{"@) {
                    None
                } else {
                    Some((cut_out(l2, r + 1, n1), r))
                }
            } else {
                Some((cut_out(l2, r + 1, n1 + body_len(l2, r + 1 + n1, 0)), r))
            }
        }
    }
}

/// The texts as one text, a line break between them; no text where there
/// is none.
pub open spec fn text_of(parts: Seq<Seq<char>>) -> Option<Seq<char>> {
    if parts.len() == 0 {
        None
    } else {
        Some(joined(parts, "\r\n"@))
    }
}

/// What the line that opens a body holds behind its opening brace, up to
/// its closing brace where it has one, trimmed.
pub open spec fn opener_text(line: Seq<char>) -> Seq<char> {
    trimmed(
        line.subrange(
            index_of(line, "{"@) + 1,
            if contains(line, "}"@) {
                index_of(line, "}"@)
            } else {
                line.len() as int
            },
        ),
    )
}

/// The body that body removal takes away at position `r`, where it takes
/// one away: what stands between the braces of a body on one line; else the
/// texts of the lines that go, a line break between them. No body where the
/// declaration ends in a semicolon, or where no opening brace follows it.
pub open spec fn fn_block_text(lines: Seq<Seq<char>>, r: int) -> Option<Seq<char>> {
    if r < 0 || r >= lines.len() {
        None
    } else {
        let line = trimmed(lines[r]);
        let s = index_of(line, "{"@);
        let e = last_index_of(line, "}"@);
        if s >= 0 && e >= 0 {
            Some(trimmed(line.subrange(s + 1, e)))
        } else if s >= 0 {
            let l2 = lines.update(r, line.subrange(0, s) + ";"@);
            text_of(
                kept(trimmed(line.subrange(s + 1, line.len() as int))) + body_texts(
                    l2,
                    r + 1,
                    0,
                ),
            )
        } else if ends_with(line, ";"@) {
            None
        } else {
            let l2 = lines.update(r, lines[r] + ";"@);
            let n1 = head_len(l2, r + 1) as int;
            if n1 >= 1 && contains(l2[r + n1], "{"@) {
                if contains(l2[r + n1], "}"@) {
                    Some(joined(kept(opener_text(l2[r + n1])), "\r\n"@))
                } else {
                    text_of(kept(opener_text(l2[r + n1])) + body_texts(l2, r + 1 + n1, 0))
                }
            } else {
                None
            }
        }
    }
}

/// Cutting lines out before a position shifts what the blocks behind it
/// hold.
pub proof fn lemma_texts_shift(lines: Seq<Seq<char>>, at: int, n: int, i: int, depth: nat)
    requires
        0 <= at <= i,
        0 <= n,
        at + n <= lines.len(),
    ensures
        body_texts(cut_out(lines, at, n), i, depth) == body_texts(lines, i + n, depth),
    decreases lines.len() - i,
{
    let cut = cut_out(lines, at, n);
    if i < cut.len() {
        assert(cut[i] == lines[i + n]);
        let d = if contains(lines[i + n], "{"@) {
            depth + 1
        } else {
            depth
        };
        if contains(lines[i + n], "}"@) {
            if d != 0 {
                lemma_texts_shift(lines, at, n, i + 1, (d - 1) as nat);
            }
        } else {
            lemma_texts_shift(lines, at, n, i + 1, d as nat);
        }
    }
}

/// Body removal stays at its position, keeps the line there, and adds no
/// line.
pub proof fn lemma_fn_block(lines: Seq<Seq<char>>, r: int)
    requires
        0 <= r,
    ensures
        match fn_block(lines, r) {
            Some(next) => next.1 == r && next.0.len() <= lines.len() && (r < lines.len() ==> r
                < next.0.len()),
            None => true,
        },
{
    if r < lines.len() {
        let line = trimmed(lines[r]);
        let s = index_of(line, "{"@);
        let l2 = lines.update(r, line.subrange(0, s) + ";"@);
        lemma_body_len(l2, r + 1, 0);
        let l3 = lines.update(r, lines[r] + ";"@);
        lemma_head_len(l3, r + 1);
        lemma_body_len(l3, r + 1 + head_len(l3, r + 1), 0);
    }
}

/// The view of a text, if there is one.
pub open spec fn text_view(t: Option<String>) -> Option<Seq<char>> {
    match t {
        Some(x) => Some(x@),
        None => None,
    }
}

/// Removes the body of the function declared at a position and leaves its
/// prototype, closed by a semicolon; gives the body that went, if there was
/// one.
pub fn remove_fn_block(lines: &mut Vec<String>, read_line: &mut usize) -> (r: Result<
    Option<String>,
    Fault,
>)
    ensures
        match r {
            Ok(body) => fn_block(views(old(lines)@), *old(read_line) as int) == Some(
                (views(final(lines)@), *final(read_line) as int),
            ) && text_view(body) == fn_block_text(views(old(lines)@), *old(read_line) as int),
            Err(_) => fn_block(views(old(lines)@), *old(read_line) as int) is None,
        },
{
    let at = *read_line;
    if at >= lines.len() {
        return Ok(None);
    }
    let line = trim(lines[at].as_str());
    let n = count(line.as_str());
    let start = find(line.as_str(), "{");
    let end = rfind(line.as_str(), "}");
    proof {
        reveal_strlit("{");
        reveal_strlit("}");
    }
    match (start, end) {
        (Some(s), Some(e)) => {
            if s >= e {
                return Err(Fault);
            }
            let inner = cut(line.as_str(), s + 1, e);
            let head = cut(line.as_str(), 0, s);
            set_line(lines, at, cat2(head.as_str(), ";"));
            Ok(Some(trim(inner.as_str())))
        },
        (None, Some(_)) => Err(Fault),
        (Some(s), None) => {
            let rest = cut(line.as_str(), s + 1, n);
            let first = trim(rest.as_str());
            let head = cut(line.as_str(), 0, s);
            set_line(lines, at, cat2(head.as_str(), ";"));
            let mut contents: Vec<String> = Vec::new();
            assert(views(contents@) =~= Seq::empty());
            if !first.as_str().is_empty() {
                push_text(&mut contents, first);
            }
            let body = remove_body(lines, at + 1);
            push_all(&mut contents, &body);
            assert(views(contents@) =~= kept(trimmed(line@.subrange(s + 1, n as int))) + views(
                body@,
            ));
            if contents.len() == 0 {
                Ok(None)
            } else {
                Ok(Some(join(&contents, "\r\n")))
            }
        },
        (None, None) => {
            if ends(line.as_str(), ";") {
                return Ok(None);
            }
            let whole = cat2(lines[at].as_str(), ";");
            set_line(lines, at, whole);
            let ghost l2 = views(lines@);
            proof {
                lemma_head_len(l2, at + 1);
            }
            let opener = match remove_head_opener(lines, at + 1) {
                Some(opener) => opener,
                None => {
                    assert(body_len(l2, at + 1 + head_len(l2, at + 1), 0) == 0);
                    return Ok(None);
                },
            };
            let ghost n1 = head_len(l2, at + 1) as int;
            let opened = match find(opener.as_str(), "{") {
                Some(i) => i,
                None => {
                    return Err(Fault);
                },
            };
            let width = count(opener.as_str());
            let closing = find(opener.as_str(), "}");
            let stop = match closing {
                Some(e) => e,
                None => width,
            };
            proof {
                crate::text::lemma_index_from(opener@, "{"@, 0);
                crate::text::lemma_index_from(opener@, "}"@, 0);
                assert(opener@.subrange(opened as int, opened + 1)[0] == opener@[opened as int]);
                if closing is Some {
                    assert(opener@.subrange(stop as int, stop + 1)[0] == opener@[stop as int]);
                }
            }
            if stop < opened + 1 {
                return Err(Fault);
            }
            let inner = cut(opener.as_str(), opened + 1, stop);
            let text = trim(inner.as_str());
            let mut contents: Vec<String> = Vec::new();
            assert(views(contents@) =~= Seq::empty());
            if !text.as_str().is_empty() {
                push_text(&mut contents, text);
            }
            assert(views(contents@) =~= kept(opener_text(opener@)));
            if closing.is_some() {
                return Ok(Some(join(&contents, "\r\n")));
            }
            let body = remove_body(lines, at + 1);
            proof {
                lemma_cut_then_body(l2, at + 1, n1);
                lemma_texts_shift(l2, at + 1, n1, at + 1, 0);
            }
            push_all(&mut contents, &body);
            if contents.len() == 0 {
                Ok(None)
            } else {
                Ok(Some(join(&contents, "\r\n")))
            }
        },
    }
}

/// Removes the lines from a position up to the first one that holds an
/// opening brace; gives that line, where there is one.
pub fn remove_head_opener(lines: &mut Vec<String>, at: usize) -> (r: Option<String>)
    requires
        at <= old(lines).len(),
    ensures
        views(final(lines)@) == cut_out(
            views(old(lines)@),
            at as int,
            head_len(views(old(lines)@), at as int) as int,
        ),
        final(lines).len() == old(lines).len() - head_len(views(old(lines)@), at as int),
        ({
            let n = head_len(views(old(lines)@), at as int) as int;
            match r {
                Some(opener) => n >= 1 && opener@ == views(old(lines)@)[at + n - 1] && contains(
                    opener@,
                    "{"@,
                ),
                None => !(n >= 1 && contains(views(old(lines)@)[at + n - 1], "{"@)) && at + n
                    == old(lines).len(),
            }
        }),
{
    let ghost before = views(lines@);
    let ghost mut n: int = 0;
    assert(views(lines@) =~= cut_out(before, at as int, 0));
    loop
        invariant
            before == views(old(lines)@),
            before.len() == old(lines).len(),
            0 <= n,
            at + n <= before.len(),
            lines.len() == before.len() - n,
            views(lines@) == cut_out(before, at as int, n),
            head_len(before, at as int) == n + head_len(before, at + n),
            n >= 1 ==> !contains(before[at + n - 1], "{"@),
        decreases lines.len(),
    {
        if at >= lines.len() {
            return None;
        }
        let removed = remove_line(lines, at);
        proof {
            assert(removed@ == before[at + n]);
            assert(views(lines@) =~= cut_out(before, at as int, n + 1));
            n = n + 1;
        }
        if holds(removed.as_str(), "{") {
            return Some(removed);
        }
    }
}

/// Whether a line marks the declaration behind it as deprecated.
pub open spec fn is_deprecated(line: Seq<char>) -> bool {
    starts_with(trimmed(line), "UE_DEPRECATED"@)
}

/// One step of the removal of deprecated declarations at position `r`,
/// where such a declaration starts.
pub open spec fn deprecated_step(lines: Seq<Seq<char>>, r: int) -> Option<(Seq<Seq<char>>, int)> {
    let l1 = function_joined(lines.remove(r), r).0;
    match fn_block(l1, r) {
        Some(next) => if 0 <= next.1 < next.0.len() {
            Some((next.0.remove(next.1), next.1))
        } else {
            Some(next)
        },
        None => None,
    }
}

/// Drawing a declaration into one line adds no line and keeps the line at
/// its position.
pub proof fn lemma_function_joined(lines: Seq<Seq<char>>, r: int)
    requires
        0 <= r,
    ensures
        function_joined(lines, r).0.len() <= lines.len(),
        r < lines.len() ==> r < function_joined(lines, r).0.len(),
{
    if r < lines.len() {
        lemma_bracket_end(lines, r + 1, contains(lines[r], "("@));
    }
}

/// A step of the removal of deprecated declarations leaves fewer lines
/// behind its position.
pub proof fn lemma_deprecated_step(lines: Seq<Seq<char>>, r: int)
    requires
        0 <= r < lines.len(),
    ensures
        match deprecated_step(lines, r) {
            Some(next) => 0 <= next.1 <= next.0.len() && next.0.len() - next.1 < lines.len() - r,
            None => true,
        },
{
    lemma_function_joined(lines.remove(r), r);
    lemma_fn_block(function_joined(lines.remove(r), r).0, r);
}

/// The lines without the deprecated declarations at or after position `r`,
/// or nothing where the braces of one do not match up.
pub open spec fn deprecated_removed_from(lines: Seq<Seq<char>>, r: int) -> Option<Seq<Seq<char>>>
    decreases lines.len() - r,
{
    if r < 0 || r >= lines.len() {
        Some(lines)
    } else if is_deprecated(lines[r]) {
        match deprecated_step(lines, r) {
            Some(next) => {
                proof {
                    lemma_deprecated_step(lines, r);
                }
                deprecated_removed_from(next.0, next.1)
            },
            None => None,
        }
    } else {
        deprecated_removed_from(lines, r + 1)
    }
}

/// Whether a line marks the declaration behind it as deprecated.
pub fn deprecated_line(line: &str) -> (r: bool)
    ensures
        r == is_deprecated(line@),
{
    let t = trim(line);
    begins(t.as_str(), "UE_DEPRECATED")
}

/// Removes every declaration that is marked as deprecated, with its body.
pub fn remove_deprecated(lines: &mut Vec<String>) -> (r: Result<(), Fault>)
    ensures
        match r {
            Ok(()) => deprecated_removed_from(views(old(lines)@), 0) == Some(views(final(lines)@)),
            Err(_) => deprecated_removed_from(views(old(lines)@), 0) is None,
        },
{
    let mut r: usize = 0;
    while r < lines.len()
        invariant
            deprecated_removed_from(views(old(lines)@), 0) == deprecated_removed_from(
                views(lines@),
                r as int,
            ),
        decreases lines.len() - r,
    {
        if deprecated_line(lines[r].as_str()) {
            proof {
                lemma_deprecated_step(views(lines@), r as int);
            }
            let _ = remove_line(lines, r);
            let _ = normalize_function(lines, &mut r);
            match remove_fn_block(lines, &mut r) {
                Ok(_) => {},
                Err(f) => {
                    return Err(f);
                },
            }
            if r < lines.len() {
                let _ = remove_line(lines, r);
            }
        } else {
            r += 1;
        }
    }
    Ok(())
}

/// A pure virtual method: nothing of it is kept.
pub open spec fn is_pure_virtual(line: Seq<char>) -> bool {
    starts_with(line, "virtual"@) && (ends_with(line, "=0;"@) || ends_with(line, "= 0;"@)
        || ends_with(line, "= 0 ;"@))
}

/// A declaration with a body behind it: with both brackets, and either no
/// semicolon and no closing brace, or both.
pub open spec fn has_body(line: Seq<char>) -> bool {
    contains(line, "("@) && contains(line, ")"@) && (contains(line, ";"@) == contains(line, "}"@))
}

/// A definition outside its class, an operator or a linkage declaration.
pub open spec fn is_foreign(line: Seq<char>) -> bool {
    contains(line, "::"@) || contains(line, "operator"@) || starts_with(line, "extern "@)
}

/// One step of the removal of function bodies at position `r`.
pub open spec fn bodies_step(lines: Seq<Seq<char>>, r: int) -> Option<(Seq<Seq<char>>, int)> {
    if is_pure_virtual(trimmed(lines[r])) {
        Some((lines.remove(r), r))
    } else {
        let joined_lines = function_joined(lines, r);
        if !joined_lines.1 {
            Some((lines, r + 1))
        } else {
            let after = if has_body(trimmed(joined_lines.0[r])) {
                fn_block(joined_lines.0, r)
            } else {
                Some((joined_lines.0, r))
            };
            match after {
                Some(next) => if next.1 < 0 || next.1 >= next.0.len() {
                    None
                } else if is_foreign(next.0[next.1]) {
                    Some((next.0.remove(next.1), next.1))
                } else {
                    Some((next.0, next.1 + 1))
                },
                None => None,
            }
        }
    }
}

/// A step of body removal leaves fewer lines behind its position.
pub proof fn lemma_bodies_step(lines: Seq<Seq<char>>, r: int)
    requires
        0 <= r < lines.len(),
    ensures
        match bodies_step(lines, r) {
            Some(next) => 0 <= next.1 <= next.0.len() && next.0.len() - next.1 < lines.len() - r,
            None => true,
        },
{
    lemma_function_joined(lines, r);
    lemma_fn_block(function_joined(lines, r).0, r);
}

/// The lines with every function body removed from position `r` on, or
/// nothing where the braces of one do not match up.
pub open spec fn bodies_removed_from(lines: Seq<Seq<char>>, r: int) -> Option<Seq<Seq<char>>>
    decreases lines.len() - r,
{
    if r < 0 || r >= lines.len() {
        Some(lines)
    } else {
        match bodies_step(lines, r) {
            Some(next) => {
                proof {
                    lemma_bodies_step(lines, r);
                }
                bodies_removed_from(next.0, next.1)
            },
            None => None,
        }
    }
}

/// A pure virtual method: nothing of it is kept.
pub fn pure_virtual(line: &str) -> (r: bool)
    ensures
        r == is_pure_virtual(line@),
{
    begins(line, "virtual") && (ends(line, "=0;") || ends(line, "= 0;") || ends(line, "= 0 ;"))
}

/// A declaration with a body behind it: with both brackets, and either no
/// semicolon and no closing brace, or both.
pub fn body_follows(line: &str) -> (r: bool)
    ensures
        r == has_body(line@),
{
    holds(line, "(") && holds(line, ")") && (holds(line, ";") == holds(line, "}"))
}

/// A definition outside its class, an operator or a linkage declaration.
pub fn foreign(line: &str) -> (r: bool)
    ensures
        r == is_foreign(line@),
{
    holds(line, "::") || holds(line, "operator") || begins(line, "extern ")
}

/// Removes the body of every function and leaves its prototype; removes
/// pure virtual methods, definitions outside their class, operators and
/// linkage declarations.
pub fn remove_all_fn_block(lines: &mut Vec<String>) -> (r: Result<(), Fault>)
    ensures
        match r {
            Ok(()) => bodies_removed_from(views(old(lines)@), 0) == Some(views(final(lines)@)),
            Err(_) => bodies_removed_from(views(old(lines)@), 0) is None,
        },
{
    let mut r: usize = 0;
    while r < lines.len()
        invariant
            bodies_removed_from(views(old(lines)@), 0) == bodies_removed_from(
                views(lines@),
                r as int,
            ),
        decreases lines.len() - r,
    {
        proof {
            lemma_bodies_step(views(lines@), r as int);
        }
        let check = trim(lines[r].as_str());
        let ghost before = views(lines@);
        if pure_virtual(check.as_str()) {
            let _ = remove_line(lines, r);
        } else if !normalize_function(lines, &mut r) {
            r += 1;
        } else {
            proof {
                lemma_function_joined(before, r as int);
            }
            let line = trim(lines[r].as_str());
            if body_follows(line.as_str()) {
                match remove_fn_block(lines, &mut r) {
                    Ok(_) => {},
                    Err(f) => {
                        return Err(f);
                    },
                }
            }
            if r >= lines.len() {
                return Err(Fault);
            }
            if foreign(lines[r].as_str()) {
                let _ = remove_line(lines, r);
            } else {
                r += 1;
            }
        }
    }
    Ok(())
}

/// The lines of a text: cut at each line feed, carriage returns dropped.
pub open spec fn text_lines(content: Seq<char>) -> Seq<Seq<char>> {
    crate::text::split(replaced(content, "\r"@, ""@), '\n')
}

/// The normalised lines of a header, or nothing where its braces or lines
/// do not match up.
pub open spec fn normalized(content: Seq<char>) -> Option<Seq<Seq<char>>> {
    let l4 = templates_removed_from(
        defines_removed_from(
            comments_removed_from(tags_removed_from(text_lines(content), 0), 0, false),
            0,
        ),
        0,
    );
    match deprecated_removed_from(l4, 0) {
        Some(l5) => bodies_removed_from(l5, 0),
        None => None,
    }
}

/// Normalises the text of one header: takes out marker macros, comments,
/// macro definitions, templates, deprecated declarations and function
/// bodies, in this order. A header that cannot be reconciled is a fault;
/// it is for the caller to skip it and go on with the next.
pub fn normalize_header(content: &str) -> (r: Result<Vec<String>, Fault>)
    ensures
        match r {
            Ok(lines) => normalized(content@) == Some(views(lines@)),
            Err(_) => normalized(content@) is None,
        },
{
    let flat = replace_all(content, "\r", "");
    let mut lines = split_on(flat.as_str(), '\n');
    remove_unreal_tags(&mut lines);
    remove_comment_and_mic(&mut lines);
    remove_defines(&mut lines);
    remove_templates(&mut lines);
    match remove_deprecated(&mut lines) {
        Ok(()) => {},
        Err(f) => {
            return Err(f);
        },
    }
    match remove_all_fn_block(&mut lines) {
        Ok(()) => {},
        Err(f) => {
            return Err(f);
        },
    }
    Ok(lines)
}

} // verus!
