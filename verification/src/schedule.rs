//! How the headers of a run are shared out to workers, and how what the
//! workers found is put together.

use crate::model::Engine;
use crate::model::EngineView;
use crate::text::push_text;
use crate::text::views;
use vstd::prelude::*;

verus! {

/// The files that go to worker `j` of `w`: those whose position leaves the
/// remainder `j` when divided by `w`, in their order.
pub open spec fn part(files: Seq<Seq<char>>, w: int, j: int) -> Seq<Seq<char>>
    decreases files.len(),
{
    if files.len() == 0 {
        Seq::empty()
    } else if (files.len() - 1) % w == j {
        part(files.drop_last(), w, j).push(files.last())
    } else {
        part(files.drop_last(), w, j)
    }
}

/// The number of workers that a count of processors gives: one at least.
pub open spec fn workers_for(count: nat) -> nat {
    if count == 0 {
        1
    } else {
        count
    }
}

/// The files that each of the workers gets.
pub open spec fn partitioned(files: Seq<Seq<char>>, count: nat) -> Seq<Seq<Seq<char>>> {
    Seq::new(workers_for(count), |j: int| part(files, workers_for(count) as int, j))
}

/// The texts of each list.
pub open spec fn parts_view(parts: Seq<Vec<String>>) -> Seq<Seq<Seq<char>>> {
    Seq::new(parts.len(), |j: int| views(parts[j]@))
}

/// Every file goes to one worker, and to one only: to the worker whose
/// number is the remainder of the file's position.
pub proof fn lemma_part_holds(files: Seq<Seq<char>>, w: int, j: int, i: int)
    requires
        w >= 1,
        0 <= j < w,
        0 <= i < files.len(),
    ensures
        i % w == j ==> part(files, w, j).contains(files[i]),
        part(files, w, j).len() <= files.len(),
    decreases files.len(),
{
    if files.len() > 0 {
        let rest = files.drop_last();
        if i < rest.len() {
            lemma_part_holds(rest, w, j, i);
            if i % w == j {
                let k = choose|k: int| 0 <= k < part(rest, w, j).len() && part(rest, w, j)[k] == rest[i];
                if (files.len() - 1) % w == j {
                    assert(part(files, w, j)[k] == files[i]);
                }
            }
        } else {
            lemma_part_len(rest, w, j);
            if i % w == j {
                assert(part(files, w, j).last() == files[i]);
            }
        }
    }
}

/// A worker gets no more files than there are.
pub proof fn lemma_part_len(files: Seq<Seq<char>>, w: int, j: int)
    ensures
        part(files, w, j).len() <= files.len(),
    decreases files.len(),
{
    if files.len() > 0 {
        lemma_part_len(files.drop_last(), w, j);
    }
}

/// The files of one worker.
pub fn part_of(files: &Vec<String>, workers: usize, j: usize) -> (r: Vec<String>)
    requires
        workers >= 1,
    ensures
        views(r@) == part(views(files@), workers as int, j as int),
{
    let mut out: Vec<String> = Vec::new();
    assert(views(files@).take(0) =~= Seq::<Seq<char>>::empty());
    assert(views(out@) =~= part(views(files@).take(0), workers as int, j as int));
    let mut i: usize = 0;
    while i < files.len()
        invariant
            workers >= 1,
            i <= files.len(),
            views(out@) == part(views(files@).take(i as int), workers as int, j as int),
        decreases files.len() - i,
    {
        assert(views(files@).take(i + 1).drop_last() =~= views(files@).take(i as int));
        if i % workers == j {
            push_text(&mut out, files[i].clone());
        }
        i += 1;
    }
    assert(views(files@).take(files.len() as int) =~= views(files@));
    out
}

/// Shares the files out to the workers by position: the file at position
/// `i` goes to worker `i` modulo the number of workers. A count of zero
/// processors stands for one worker.
pub fn partition(files: &Vec<String>, count: usize) -> (r: Vec<Vec<String>>)
    ensures
        parts_view(r@) == partitioned(views(files@), count as nat),
{
    let workers = if count == 0 {
        1
    } else {
        count
    };
    let mut parts: Vec<Vec<String>> = Vec::new();
    let mut j: usize = 0;
    while j < workers
        invariant
            workers >= 1,
            workers == workers_for(count as nat),
            j <= workers,
            parts.len() == j,
            forall|k: int|
                0 <= k < j ==> views(#[trigger] parts@[k]@) == part(
                    views(files@),
                    workers as int,
                    k,
                ),
        decreases workers - j,
    {
        parts.push(part_of(files, workers, j));
        j += 1;
    }
    assert(parts_view(parts@) =~= partitioned(views(files@), count as nat));
    parts
}

/// Asks `num_cpus::get` for the number of processors that this process may
/// use. The number differs from machine to machine and from run to run;
/// nothing is claimed of it.
#[verifier::external_body]
fn processor_count() -> (n: usize) {
    num_cpus::get()
}

/// Shares the files out to as many workers as this machine has processors.
pub fn partition_for_machine(files: &Vec<String>) -> (r: Vec<Vec<String>>)
    ensures
        exists|count: nat| parts_view(r@) == partitioned(views(files@), count),
{
    let count = processor_count();
    partition(files, count)
}

/// The model with what one worker found behind what it held.
pub open spec fn merged(engine: EngineView, found: EngineView) -> EngineView {
    EngineView {
        classes: engine.classes + found.classes,
        enums: engine.enums + found.enums,
        static_apis: engine.static_apis + found.static_apis,
        ..engine
    }
}

/// Puts what one worker found behind what the model holds.
pub fn merge(engine: &mut Engine, found: Engine)
    ensures
        final(engine)@ == merged(old(engine)@, found@),
{
    let Engine { classes, enums, static_apis, .. } = found;
    let mut classes = classes;
    let mut enums = enums;
    let mut static_apis = static_apis;
    let ghost c0 = engine.classes@;
    let ghost c1 = classes@;
    let ghost e0 = engine.enums@;
    let ghost e1 = enums@;
    let ghost a0 = engine.static_apis@;
    let ghost a1 = static_apis@;
    engine.classes.append(&mut classes);
    engine.enums.append(&mut enums);
    engine.static_apis.append(&mut static_apis);
    assert(views(engine.classes@) =~= views(c0) + views(c1));
    assert(views(engine.enums@) =~= views(e0) + views(e1));
    assert(views(engine.static_apis@) =~= views(a0) + views(a1));
}

/// Merging what the workers found is the same whichever way the merges are
/// grouped.
pub proof fn lemma_merge_associative(a: EngineView, b: EngineView, c: EngineView)
    ensures
        merged(merged(a, b), c) == merged(a, merged(b, c)),
{
    assert(merged(merged(a, b), c).classes =~= merged(a, merged(b, c)).classes);
    assert(merged(merged(a, b), c).enums =~= merged(a, merged(b, c)).enums);
    assert(merged(merged(a, b), c).static_apis =~= merged(a, merged(b, c)).static_apis);
}

} // verus!
