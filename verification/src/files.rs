//! Which headers a run reads, and under which paths it records them.

use crate::model::CustomSettings;
use crate::model::CustomSettingsView;
use crate::model::Engine;
use crate::model::EngineView;
use crate::model::FilePath;
use crate::model::FilePathView;
use crate::normalize::normalize_header;
use crate::normalize::normalized;
use crate::text::begins;
use crate::text::cat2;
use crate::text::cat3;
use crate::text::cat4;
use crate::text::contains;
use crate::text::count;
use crate::text::cut;
use crate::text::ends;
use crate::text::ends_with;
use crate::text::find;
use crate::text::holds;
use crate::text::index_of;
use crate::text::last_index_of;
use crate::text::lemma_views_push;
use crate::text::push_text;
use crate::text::replace_all;
use crate::text::replaced;
use crate::text::rfind;
use crate::text::same;
use crate::text::starts_with;
use crate::text::views;
use vstd::prelude::*;
use vstd::string::StringExecFns;

verus! {

/// The last part of a path: what follows its last slash, or all of it.
pub open spec fn base_name(file: Seq<char>) -> Seq<char> {
    let i = last_index_of(file, "/"@);
    if i >= 0 {
        file.subrange(i + 1, file.len() as int)
    } else {
        file
    }
}

/// The name of a file without what follows its first dot.
pub open spec fn stem(file: Seq<char>) -> Seq<char> {
    let name = base_name(file);
    let i = index_of(name, "."@);
    if i >= 0 {
        name.subrange(0, i)
    } else {
        name
    }
}

/// The pattern without an asterisk at its start.
pub open spec fn unstarred_front(pat: Seq<char>) -> Seq<char> {
    if starts_with(pat, "*"@) {
        pat.subrange(1, pat.len() as int)
    } else {
        pat
    }
}

/// The pattern without an asterisk at its end.
pub open spec fn unstarred_back(pat: Seq<char>) -> Seq<char> {
    if ends_with(pat, "*"@) {
        pat.subrange(0, pat.len() - 1)
    } else {
        pat
    }
}

/// Whether a file name matches a pattern. An asterisk at the start of the
/// pattern stands for any start of the name, one at the end for any end;
/// without an asterisk the name must be the pattern.
pub open spec fn pattern_matches(name: Seq<char>, pat: Seq<char>) -> bool {
    if starts_with(pat, "*"@) && ends_with(pat, "*"@) {
        contains(name, unstarred_back(unstarred_front(pat)))
    } else if starts_with(pat, "*"@) {
        ends_with(name, unstarred_front(pat))
    } else if ends_with(pat, "*"@) {
        starts_with(name, unstarred_back(pat))
    } else {
        name == pat
    }
}

/// Whether a path lies under one of the accepted roots: holds one of them.
pub open spec fn under_root(file: Seq<char>, settings: CustomSettingsView) -> bool {
    exists|i: int|
        0 <= i < settings.ExportPathRoot.len() && contains(
            file,
            #[trigger] settings.ExportPathRoot[i],
        )
}

/// Whether one of the patterns of files to skip matches the file's name.
pub open spec fn name_ignored(file: Seq<char>, settings: CustomSettingsView) -> bool {
    exists|i: int|
        0 <= i < settings.IgnoreFiles.len() && pattern_matches(
            stem(file),
            #[trigger] settings.IgnoreFiles[i],
        )
}

/// Whether a run passes over a file.
pub open spec fn file_ignored(file: Seq<char>, settings: CustomSettingsView) -> bool {
    !under_root(file, settings) || name_ignored(file, settings)
}

/// The part of a type name before the word `Opaque`, or all of it.
pub fn base_name_of(file: &str) -> (r: String)
    ensures
        r@ == base_name(file@),
{
    proof {
        reveal_strlit("/");
    }
    match rfind(file, "/") {
        Some(i) => {
            let n = count(file);
            cut(file, i + 1, n)
        },
        None => String::from_str(file),
    }
}

/// The name of a file without what follows its first dot.
pub fn stem_of(file: &str) -> (r: String)
    ensures
        r@ == stem(file@),
{
    let name = base_name_of(file);
    match find(name.as_str(), ".") {
        Some(i) => cut(name.as_str(), 0, i),
        None => name,
    }
}

/// The pattern without an asterisk at its start.
pub fn unstar_front(pat: &str) -> (r: String)
    ensures
        r@ == unstarred_front(pat@),
{
    proof {
        reveal_strlit("*");
    }
    if begins(pat, "*") {
        let n = count(pat);
        cut(pat, 1, n)
    } else {
        String::from_str(pat)
    }
}

/// The pattern without an asterisk at its end.
pub fn unstar_back(pat: &str) -> (r: String)
    ensures
        r@ == unstarred_back(pat@),
{
    proof {
        reveal_strlit("*");
    }
    if ends(pat, "*") {
        let n = count(pat);
        cut(pat, 0, n - 1)
    } else {
        String::from_str(pat)
    }
}

/// Whether a file name matches a pattern. An asterisk at the start of the
/// pattern stands for any start of the name, one at the end for any end;
/// without an asterisk the name must be the pattern.
pub fn matches_pattern(name: &str, pat: &str) -> (r: bool)
    ensures
        r == pattern_matches(name@, pat@),
{
    let front = begins(pat, "*");
    let back = ends(pat, "*");
    if front && back {
        let a = unstar_front(pat);
        let b = unstar_back(a.as_str());
        holds(name, b.as_str())
    } else if front {
        let a = unstar_front(pat);
        ends(name, a.as_str())
    } else if back {
        let b = unstar_back(pat);
        begins(name, b.as_str())
    } else {
        same(name, pat)
    }
}

/// Whether a run passes over a file: it lies under none of the accepted
/// roots, or its name matches one of the patterns of files to skip.
pub fn ignore(file: &str, settings: &CustomSettings) -> (r: bool)
    ensures
        r == file_ignored(file@, settings@),
{
    let mut found = false;
    let mut i: usize = 0;
    while i < settings.ExportPathRoot.len() && !found
        invariant
            i <= settings.ExportPathRoot.len(),
            found ==> under_root(file@, settings@),
            !found ==> forall|k: int|
                0 <= k < i ==> !contains(file@, #[trigger] settings@.ExportPathRoot[k]),
        decreases settings.ExportPathRoot.len() - i, !found as int,
    {
        if holds(file, settings.ExportPathRoot[i].as_str()) {
            assert(contains(file@, settings@.ExportPathRoot[i as int]));
            found = true;
        } else {
            i += 1;
        }
    }
    if !found {
        return true;
    }
    let name = stem_of(file);
    let mut k: usize = 0;
    while k < settings.IgnoreFiles.len()
        invariant
            k <= settings.IgnoreFiles.len(),
            name@ == stem(file@),
            under_root(file@, settings@),
            forall|j: int|
                0 <= j < k ==> !pattern_matches(stem(file@), #[trigger] settings@.IgnoreFiles[j]),
        decreases settings.IgnoreFiles.len() - k,
    {
        if matches_pattern(name.as_str(), settings.IgnoreFiles[k].as_str()) {
            assert(pattern_matches(stem(file@), settings@.IgnoreFiles[k as int]));
            return true;
        }
        k += 1;
    }
    false
}

/// The directory of the engine's runtime sources below its root, with
/// forward slashes.
pub open spec fn runtime_root_of(engine_root: Seq<char>) -> Seq<char> {
    let joint = if engine_root.len() == 0 || ends_with(engine_root, "/"@) || ends_with(
        engine_root,
        "\\"@,
    ) {
        ""@
    } else {
        "/"@
    };
    replaced(engine_root + joint + "Source/Runtime/"@, "\\"@, "/"@)
}

/// The directory of the engine's runtime sources below its root, with
/// forward slashes.
pub fn runtime_root(engine_root: &str) -> (r: String)
    ensures
        r@ == runtime_root_of(engine_root@),
{
    let joint = if engine_root.is_empty() || ends(engine_root, "/") || ends(engine_root, "\\") {
        ""
    } else {
        "/"
    };
    let whole = cat3(engine_root, joint, "Source/Runtime/");
    replace_all(whole.as_str(), "\\", "/")
}

/// The path of a header below the runtime root.
pub open spec fn below_root(file: Seq<char>, root: Seq<char>) -> Seq<char> {
    replaced(file, root, ""@)
}

/// The position of the entry of a file name at or after `i`, or -1.
pub open spec fn path_at(paths: Seq<FilePathView>, name: Seq<char>, i: int) -> int
    decreases paths.len() - i,
{
    if i < 0 || i >= paths.len() {
        -1
    } else if paths[i].name == name {
        i
    } else {
        path_at(paths, name, i + 1)
    }
}

/// The file paths with the path of a file name: in the place of the one it
/// had, or behind the others.
pub open spec fn path_set(paths: Seq<FilePathView>, name: Seq<char>, path: Seq<char>) -> Seq<FilePathView> {
    let i = path_at(paths, name, 0);
    if i >= 0 {
        paths.update(i, FilePathView { name: name, path: path })
    } else {
        paths.push(FilePathView { name: name, path: path })
    }
}

/// The model after a header was taken in: its path among the files, and its
/// name with its path below the root among the file paths, one entry for
/// each name.
pub open spec fn header_recorded(engine: EngineView, file: Seq<char>, root: Seq<char>) -> EngineView {
    EngineView {
        files: engine.files.push(file),
        file_paths: path_set(engine.file_paths, base_name(file), below_root(file, root)),
        ..engine
    }
}

/// Where the normalised lines of a header are kept.
pub open spec fn normalized_path(file: Seq<char>, root: Seq<char>) -> Seq<char> {
    "engine_code/"@ + below_root(file, root)
}

/// The entry of a file name among the file paths.
pub fn find_path(paths: &Vec<FilePath>, name: &str) -> (r: Option<usize>)
    ensures
        match r {
            Some(i) => i as int == path_at(views(paths@), name@, 0) && i < paths.len(),
            None => path_at(views(paths@), name@, 0) == -1,
        },
{
    let mut i: usize = 0;
    while i < paths.len()
        invariant
            i <= paths.len(),
            path_at(views(paths@), name@, 0) == path_at(views(paths@), name@, i as int),
        decreases paths.len() - i,
    {
        if same(paths[i].name.as_str(), name) {
            return Some(i);
        }
        i += 1;
    }
    None
}

/// Records a header in the model; gives the path under which its
/// normalised lines are kept.
pub fn record_header(engine: &mut Engine, file: &str, root: &str) -> (r: String)
    ensures
        final(engine)@ == header_recorded(old(engine)@, file@, root@),
        r@ == normalized_path(file@, root@),
{
    let below = replace_all(file, root, "");
    push_text(&mut engine.files, String::from_str(file));
    let name = base_name_of(file);
    let found = find_path(&engine.file_paths, name.as_str());
    let entry = FilePath { name, path: below.clone() };
    match found {
        Some(i) => {
            let ghost before = views(engine.file_paths@);
            engine.file_paths[i] = entry;
            assert(views(engine.file_paths@) =~= before.update(i as int, entry@));
        },
        None => {
            proof {
                lemma_views_push(engine.file_paths@, entry);
            }
            engine.file_paths.push(entry);
        },
    }
    cat2("engine_code/", below.as_str())
}

/// The lines of a copy kept by an earlier run, where there is one.
pub open spec fn kept_lines(kept: Option<Vec<String>>) -> Option<Seq<Seq<char>>> {
    match kept {
        Some(lines) => Some(views(lines@)),
        None => None,
    }
}

/// The lines that stand for a header: those of the copy kept by an earlier
/// run where there is one, else the normalised lines of its text, or
/// nothing where the text cannot be normalised.
pub open spec fn header_lines(content: Seq<char>, kept: Option<Seq<Seq<char>>>) -> Option<Seq<Seq<char>>> {
    match kept {
        Some(lines) => Some(lines),
        None => normalized(content),
    }
}

/// The count of failed headers after one more; it stops at the largest
/// number.
pub open spec fn one_more(n: usize) -> usize {
    if n < usize::MAX {
        (n + 1) as usize
    } else {
        n
    }
}

/// Takes one header into the model. A header whose text cannot be
/// normalised is skipped: the model stays as it was and the count of failed
/// headers goes up by one, so that the headers behind it are still read. A
/// header without lines is passed over. Any other is recorded, and its
/// lines come back with the path to keep them under.
pub fn parse_header(
    engine: &mut Engine,
    failures: &mut usize,
    file: &str,
    content: &str,
    kept: Option<Vec<String>>,
    root: &str,
) -> (r: Option<(String, Vec<String>)>)
    ensures
        match header_lines(content@, kept_lines(kept)) {
            None => {
                &&& r is None
                &&& final(engine)@ == old(engine)@
                &&& *final(failures) == one_more(*old(failures))
            },
            Some(lines) => {
                &&& *final(failures) == *old(failures)
                &&& lines.len() == 0 ==> r is None && final(engine)@ == old(engine)@
                &&& lines.len() > 0 ==> final(engine)@ == header_recorded(old(engine)@, file@, root@)
                    && match r {
                    Some(p) => p.0@ == normalized_path(file@, root@) && views(p.1@) == lines,
                    None => false,
                }
            },
        },
{
    let lines = match kept {
        Some(lines) => lines,
        None => match normalize_header(content) {
            Ok(lines) => lines,
            Err(_) => {
                if *failures < usize::MAX {
                    *failures += 1;
                }
                return None;
            },
        },
    };
    if lines.len() == 0 {
        return None;
    }
    let path = record_header(engine, file, root);
    Some((path, lines))
}

/// The path under which the classes of a header are recorded: the path
/// with forward slashes, without the working directory in front and
/// without the directory of the normalised lines.
pub open spec fn recorded_path(fp: Seq<char>, current_dir: Seq<char>) -> Seq<char> {
    let cur = replaced(current_dir, "\\"@, "/"@);
    let dir = if ends_with(cur, "/"@) {
        cur
    } else {
        cur + "/"@
    };
    replaced(replaced(replaced(fp, "\\"@, "/"@), dir, ""@), "engine_code/"@, ""@)
}

/// The path under which the classes of a header are recorded: the path
/// with forward slashes, without the working directory in front and
/// without the directory of the normalised lines.
pub fn get_file_path(fp: &str, current_dir: &str) -> (r: String)
    ensures
        r@ == recorded_path(fp@, current_dir@),
{
    let mut cur = replace_all(current_dir, "\\", "/");
    if !ends(cur.as_str(), "/") {
        cur.append("/");
    }
    let a = replace_all(fp, "\\", "/");
    let b = replace_all(a.as_str(), cur.as_str(), "");
    replace_all(b.as_str(), "engine_code/", "")
}

/// Where the syntax tree of a header is kept between runs.
pub open spec fn tree_cache_path(target_dir: Seq<char>, file: Seq<char>) -> Seq<char> {
    target_dir + "\\"@ + replaced(replaced(file, "\\"@, "/"@), "engine_code/"@, ""@) + ".json"@
}

/// Where the syntax tree of a header is kept between runs.
pub fn cache_path(target_dir: &str, file: &str) -> (r: String)
    ensures
        r@ == tree_cache_path(target_dir@, file@),
{
    let a = replace_all(file, "\\", "/");
    let b = replace_all(a.as_str(), "engine_code/", "");
    cat4(target_dir, "\\", b.as_str(), ".json")
}

/// The command that makes the front end print the syntax tree of a header.
pub open spec fn front_end_command(file_path: Seq<char>) -> Seq<char> {
    "clang -Xclang -ast-dump=json -fsyntax-only -x c++ -std=c++17 "@ + file_path
}

/// The command that makes the front end print the syntax tree of a header.
pub fn tree_command(file_path: &str) -> (r: String)
    ensures
        r@ == front_end_command(file_path@),
{
    cat2("clang -Xclang -ast-dump=json -fsyntax-only -x c++ -std=c++17 ", file_path)
}

} // verus!
