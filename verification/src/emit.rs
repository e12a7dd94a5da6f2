//! A whole run of the emitter: every exported entity in the order of the
//! settings, then the three texts put together.

use crate::classify::class_position;
use crate::classify::export_from;
use crate::classify::find_class;
use crate::classify::lemma_class_from;
use crate::emit_class::class_emitted;
use crate::emit_class::gen_class;
use crate::emit_class::ledger_from;
use crate::emit_class::ClassOutcome;
use crate::emit_method::EmitError;
use crate::model::clone_strings;
use crate::model::CustomSettings;
use crate::model::CustomSettingsView;
use crate::model::Engine;
use crate::model::EngineView;
use crate::model::UnrealClass;
use crate::model::UnrealClassView;
use crate::registry::CodeGenerator;
use crate::registry::CodeGeneratorView;
use crate::registry::TypeImpl;
use crate::registry::TypeImplView;
use crate::text::cat3;
use crate::text::cat4;
use crate::text::join;
use crate::text::joined;
use crate::text::push_all;
use crate::text::push_text;
use crate::text::views;
use vstd::prelude::*;
use vstd::string::StringExecFns;

verus! {

/// The texts of a run.
#[derive(Debug, PartialEq, Eq)]
pub struct Artifacts {
    /// The native header: the fixed head and what the run adds to it.
    pub native_header: String,
    /// The native functions and the one registration entry point.
    pub native_source: String,
    /// The companion types, slots and methods.
    pub companion: String,
    /// One line for each entity that was listed again after it had been exported.
    pub notes: Vec<String>,
}

/// What a `Artifacts` holds, its texts as character sequences.
pub struct ArtifactsView {
    pub native_header: Seq<char>,
    pub native_source: Seq<char>,
    pub companion: Seq<char>,
    pub notes: Seq<Seq<char>>,
}

impl ArtifactsView {
    /// The value with nothing in it.
    pub open spec fn empty() -> ArtifactsView {
        ArtifactsView {
            native_header: Seq::empty(),
            native_source: Seq::empty(),
            companion: Seq::empty(),
            notes: Seq::empty(),
        }
    }
}

impl View for Artifacts {
    type V = ArtifactsView;

    open spec fn view(&self) -> ArtifactsView {
        ArtifactsView {
            native_header: self.native_header@,
            native_source: self.native_source@,
            companion: self.companion@,
            notes: views(self.notes@),
        }
    }
}

impl Default for Artifacts {
    fn default() -> (r: Self)
        ensures
            r@ == ArtifactsView::empty(),
    {
        let r = Artifacts {
            native_header: String::new(),
            native_source: String::new(),
            companion: String::new(),
            notes: Vec::new(),
        };
        assert(views(r.notes@) =~= Seq::empty());
        r
    }
}

impl Clone for Artifacts {
    fn clone(&self) -> (r: Self)
        ensures
            r@ == self@,
    {
        Artifacts {
            native_header: self.native_header.clone(),
            native_source: self.native_source.clone(),
            companion: self.companion.clone(),
            notes: clone_strings(&self.notes),
        }
    }
}

/// The entity that a listed name stands for: the first class of that name
/// in the headers, or else a bare class that crosses behind a handle.
pub open spec fn class_to_emit(engine: EngineView, name: Seq<char>) -> UnrealClassView {
    let i = class_position(engine.classes, name);
    if i >= 0 {
        engine.classes[i]
    } else {
        UnrealClassView { name: name, opaque: true, ..UnrealClassView::empty() }
    }
}

/// The line that reports a second export of one name, with the declaring
/// files of both.
pub open spec fn duplicate_note(class: UnrealClassView, first: Seq<char>) -> Seq<char> {
    "try to export class "@ + class.name + " at path "@ + class.path
        + ", but class already exported at path "@ + first
}

/// The emitter's state and notes after the listed entities from position `k`
/// on were emitted, or `None` where a method cannot be emitted.
#[verifier::opaque]
pub open spec fn classes_from(
    gen: CodeGeneratorView,
    notes: Seq<Seq<char>>,
    engine: EngineView,
    settings: CustomSettingsView,
    k: int,
) -> Option<(CodeGeneratorView, Seq<Seq<char>>)>
    decreases settings.ExportClasses.len() - k,
{
    if k < 0 || k >= settings.ExportClasses.len() {
        Some((gen, notes))
    } else {
        let class = class_to_emit(engine, settings.ExportClasses[k].class_name);
        let pos = ledger_from(gen.exported, class.name, 0);
        if pos >= 0 {
            classes_from(
                gen,
                notes.push(duplicate_note(class, gen.exported[pos].alis)),
                engine,
                settings,
                k + 1,
            )
        } else {
            let entry = settings.ExportClasses[export_from(settings, class.name, 0)];
            match class_emitted(gen, class, entry, engine, settings) {
                Some(g) => classes_from(g, notes, engine, settings, k + 1),
                None => None,
            }
        }
    }
}

/// The list with `item` put in at position `at`, or at the end where the
/// list is shorter.
pub open spec fn put_in(list: Seq<Seq<char>>, at: nat, item: Seq<char>) -> Seq<Seq<char>> {
    if at <= list.len() {
        list.insert(at as int, item)
    } else {
        list.push(item)
    }
}

/// The list with a text put in at a position, where there is one.
pub open spec fn put_in_some(list: Seq<Seq<char>>, at: nat, item: Option<Seq<char>>) -> Seq<
    Seq<char>,
> {
    match item {
        Some(t) => put_in(list, at, t),
        None => list,
    }
}

/// The line that declares the alias of one type behind a handle.
pub open spec fn alias_line(t: TypeImplView) -> Seq<char> {
    "\tpub type "@ + t.alis + " = c_void;//cpp type "@ + t.name
}

/// The lines that declare the aliases.
pub open spec fn alias_lines(reg: Seq<TypeImplView>) -> Seq<Seq<char>> {
    Seq::new(reg.len(), |i: int| alias_line(reg[i]))
}

/// The companion module that declares the aliases.
pub open spec fn alias_module(reg: Seq<TypeImplView>) -> Seq<char> {
    "mod opaque_types{\n    use std::ffi::c_void;\n"@ + joined(alias_lines(reg), "\r\n"@)
        + "            \n}\npub use opaque_types::*;\n"@
}

/// The native entry point that the host calls once to fill every slot.
pub open spec fn register_all_text(registers: Seq<Seq<char>>) -> Seq<char> {
    "\nvoid register_all(Plugin* plugin){\n    "@ + joined(registers, "\r\n"@) + "\n}"@
}

/// The lines of the native source file.
pub open spec fn native_source_lines(gen: CodeGeneratorView, cpp_wrapper: Option<Seq<char>>) -> Seq<
    Seq<char>,
> {
    put_in(
        put_in_some(gen.source.push("}"@), 1, cpp_wrapper),
        gen.default_source_header,
        joined(gen.includes, "\r\n"@),
    ) + gen.api_defines + seq![register_all_text(gen.registers)]
}

/// The lines of the companion file.
pub open spec fn companion_lines(gen: CodeGeneratorView, rs_wrapper: Option<Seq<char>>) -> Seq<
    Seq<char>,
> {
    put_in(
        put_in_some(gen.rs_source + gen.rs_ffis.push("}"@), gen.default_rs_header, rs_wrapper),
        gen.default_rs_header,
        alias_module(gen.type_impl),
    )
}

/// The texts that the emitter's state gives.
pub open spec fn assembled(
    gen: CodeGeneratorView,
    notes: Seq<Seq<char>>,
    default_header: Seq<char>,
    rs_wrapper: Option<Seq<char>>,
    cpp_wrapper: Option<Seq<char>>,
) -> ArtifactsView {
    ArtifactsView {
        native_header: default_header + "\r\n"@ + joined(gen.header, "\r\n"@),
        native_source: joined(native_source_lines(gen, cpp_wrapper), "\r\n"@),
        companion: joined(companion_lines(gen, rs_wrapper), "\r\n"@),
        notes: notes,
    }
}

/// The texts of a run over the settings' entities, or `None` where a method
/// cannot be emitted.
pub open spec fn generated(
    engine: EngineView,
    settings: CustomSettingsView,
    default_header: Seq<char>,
    rs_wrapper: Option<Seq<char>>,
    cpp_wrapper: Option<Seq<char>>,
) -> Option<ArtifactsView> {
    match classes_from(CodeGeneratorView::initial(), Seq::empty(), engine, settings, 0) {
        Some((gen, notes)) => Some(assembled(gen, notes, default_header, rs_wrapper, cpp_wrapper)),
        None => None,
    }
}

/// The characters of a text, if there is one.
pub open spec fn opt_str_view(o: Option<&str>) -> Option<Seq<char>> {
    match o {
        Some(s) => Some(s@),
        None => None,
    }
}

/// Puts a text into a list at a position, or at the end where the list is
/// shorter.
pub fn put_text(list: &mut Vec<String>, at: usize, item: String)
    ensures
        views(final(list)@) == put_in(views(old(list)@), at as nat, item@),
{
    if at <= list.len() {
        list.insert(at, item);
        assert(views(list@) =~= views(old(list)@).insert(at as int, item@));
    } else {
        push_text(list, item);
    }
}

/// The companion module that declares the aliases.
pub fn alias_module_text(reg: &Vec<TypeImpl>) -> (r: String)
    ensures
        r@ == alias_module(views(reg@)),
{
    let mut lines: Vec<String> = Vec::new();
    assert(views(lines@) =~= Seq::empty());
    let mut i: usize = 0;
    while i < reg.len()
        invariant
            i <= reg.len(),
            views(lines@) == alias_lines(views(reg@).take(i as int)),
        decreases reg.len() - i,
    {
        let line = cat4(
            "\tpub type ",
            reg[i].alis.as_str(),
            " = c_void;//cpp type ",
            reg[i].name.as_str(),
        );
        push_text(&mut lines, line);
        assert(views(lines@) =~= alias_lines(views(reg@).take(i + 1)));
        i += 1;
    }
    assert(views(reg@).take(reg.len() as int) =~= views(reg@));
    let defs = join(&lines, "\r\n");
    cat3(
        "mod opaque_types{\n    use std::ffi::c_void;\n",
        defs.as_str(),
        "            \n}\npub use opaque_types::*;\n",
    )
}

/// Puts the three texts together from what the emitter gathered.
pub fn assemble(
    generator: CodeGenerator,
    notes: Vec<String>,
    default_header: &str,
    rs_wrapper: Option<&str>,
    cpp_wrapper: Option<&str>,
) -> (r: Artifacts)
    ensures
        r@ == assembled(
            generator@,
            views(notes@),
            default_header@,
            opt_str_view(rs_wrapper),
            opt_str_view(cpp_wrapper),
        ),
{
    let mut generator = generator;
    let ghost gen = generator@;
    push_text(&mut generator.rs_ffis, String::from_str("}"));
    push_all(&mut generator.rs_source, &generator.rs_ffis);
    push_text(&mut generator.source, String::from_str("}"));
    match cpp_wrapper {
        Some(w) => {
            put_text(&mut generator.source, 1, String::from_str(w));
        },
        None => {},
    }
    let incs = join(&generator.includes, "\r\n");
    put_text(&mut generator.source, generator.default_source_header, incs);
    let regs = join(&generator.registers, "\r\n");
    let register_all = cat3("\nvoid register_all(Plugin* plugin){\n    ", regs.as_str(), "\n}");
    match rs_wrapper {
        Some(w) => {
            put_text(&mut generator.rs_source, generator.default_rs_header, String::from_str(w));
        },
        None => {},
    }
    let aliases = alias_module_text(&generator.type_impl);
    put_text(&mut generator.rs_source, generator.default_rs_header, aliases);
    push_all(&mut generator.source, &generator.api_defines);
    push_text(&mut generator.source, register_all);
    assert(views(generator.source@) =~= native_source_lines(gen, opt_str_view(cpp_wrapper)));
    assert(views(generator.rs_source@) =~= companion_lines(gen, opt_str_view(rs_wrapper)));
    let head_rest = join(&generator.header, "\r\n");
    Artifacts {
        native_header: cat3(default_header, "\r\n", head_rest.as_str()),
        native_source: join(&generator.source, "\r\n"),
        companion: join(&generator.rs_source, "\r\n"),
        notes,
    }
}

/// The bare class that stands for a listed name which no header declares.
pub fn bare_class(name: &str) -> (r: UnrealClass)
    ensures
        r@ == (UnrealClassView { name: name@, opaque: true, ..UnrealClassView::empty() }),
{
    let mut class = UnrealClass::default();
    class.name = String::from_str(name);
    class.opaque = true;
    class
}

/// Emits every entity that the settings list, in their order, and puts the
/// native header, the native source and the companion text together.
/// `default_header` is the fixed head of the native header; `rs_wrapper` and
/// `cpp_wrapper` are the hand-written parts of the companion text and of the
/// native source, where there are any.
pub fn generate(
    engine: &Engine,
    settings: &CustomSettings,
    default_header: &str,
    rs_wrapper: Option<&str>,
    cpp_wrapper: Option<&str>,
) -> (r: Result<Artifacts, EmitError>)
    ensures
        match r {
            Ok(a) => generated(
                engine@,
                settings@,
                default_header@,
                opt_str_view(rs_wrapper),
                opt_str_view(cpp_wrapper),
            ) == Some(a@),
            Err(e) => e == EmitError::ReferenceResult && generated(
                engine@,
                settings@,
                default_header@,
                opt_str_view(rs_wrapper),
                opt_str_view(cpp_wrapper),
            ) is None,
        },
{
    let mut generator = CodeGenerator::default();
    let mut notes: Vec<String> = Vec::new();
    assert(views(notes@) =~= Seq::empty());
    let mut k: usize = 0;
    while k < settings.ExportClasses.len()
        invariant
            k <= settings.ExportClasses.len(),
            classes_from(CodeGeneratorView::initial(), Seq::empty(), engine@, settings@, 0)
                == classes_from(generator@, views(notes@), engine@, settings@, k as int),
        decreases settings.ExportClasses.len() - k,
    {
        proof {
            reveal(classes_from);
            lemma_class_from(engine@.classes, settings@.ExportClasses[k as int].class_name, 0);
        }
        let name = settings.ExportClasses[k].class_name.as_str();
        let outcome = match find_class(engine, name) {
            Some(class) => {
                let o = gen_class(engine, class, &mut generator, settings);
                (o, class.path.clone(), Ghost(class@))
            },
            None => {
                let class = bare_class(name);
                let o = gen_class(engine, &class, &mut generator, settings);
                (o, class.path.clone(), Ghost(class@))
            },
        };
        let ghost class = outcome.2@;
        assert(class == class_to_emit(engine@, name@));
        assert(class.name == name@);
        match outcome.0 {
            Ok(ClassOutcome::Emitted) => {},
            Ok(ClassOutcome::AlreadyExported(first)) => {
                let mut note = cat4("try to export class ", name, " at path ", outcome.1.as_str());
                note.append(", but class already exported at path ");
                note.append(first.as_str());
                push_text(&mut notes, note);
            },
            Err(e) => {
                proof {
                    crate::emit_class::lemma_listed_is_exported(settings@, k as int);
                }
                return Err(EmitError::ReferenceResult);
            },
        }
        k += 1;
    }
    proof {
        reveal(classes_from);
    }
    Ok(assemble(generator, notes, default_header, rs_wrapper, cpp_wrapper))
}

} // verus!
