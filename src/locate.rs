//! Upward search for the project's command file.
//!
//! A directory is modelled by its components below the filesystem root, so the
//! root itself is the empty sequence and the ancestors of a directory are its
//! prefixes. The filesystem is reached only through a probe handed in by the
//! caller, and the contracts hold for whatever the probe answers.
use vstd::prelude::*;

use crate::text::names;

verus! {

/// The file name that marks a project's command file.
pub const MAKEFILE_NAME: &'static str = "make.nu";

/// Where the command file would stand inside `dir`.
pub open spec fn candidate(dir: Seq<Seq<char>>) -> Seq<Seq<char>> {
    dir.push(MAKEFILE_NAME@)
}

/// The probe may answer `b` when asked about the path `p`.
pub open spec fn probe_says<F: Fn(&Vec<String>) -> bool>(is_file: F, p: Seq<Seq<char>>, b: bool) -> bool {
    exists|v: Vec<String>| names(v@) == p && #[trigger] is_file.ensures((&v,), b)
}

/// What a search from `start` returned, given the probe's answers: the
/// candidate of the deepest ancestor on which the probe said yes, after it said
/// no on every deeper one; or nothing, after it said no on every ancestor.
pub open spec fn search_outcome<F: Fn(&Vec<String>) -> bool>(
    is_file: F,
    start: Seq<Seq<char>>,
    r: Option<Seq<Seq<char>>>,
) -> bool {
    match r {
        Some(p) => exists|k: int|
            0 <= k <= start.len() && p == candidate(start.take(k)) && probe_says(is_file, p, true)
                && forall|j: int|
                k < j <= start.len() ==> probe_says(
                    is_file,
                    #[trigger] candidate(start.take(j)),
                    false,
                ),
        None => forall|j: int|
            0 <= j <= start.len() ==> probe_says(
                is_file,
                #[trigger] candidate(start.take(j)),
                false,
            ),
    }
}

/// The nearest command file at or above `dir` on a filesystem where
/// `present` tells which paths are regular files.
pub open spec fn nearest(dir: Seq<Seq<char>>, present: spec_fn(Seq<Seq<char>>) -> bool) -> Option<
    Seq<Seq<char>>,
>
    decreases dir.len(),
{
    if present(candidate(dir)) {
        Some(candidate(dir))
    } else if dir.len() == 0 {
        None
    } else {
        nearest(dir.drop_last(), present)
    }
}

/// The probe answers as `present` does.
pub open spec fn faithful<F: Fn(&Vec<String>) -> bool>(
    is_file: F,
    present: spec_fn(Seq<Seq<char>>) -> bool,
) -> bool {
    forall|v: &Vec<String>, b: bool| #[trigger] is_file.ensures((v,), b) ==> b == present(names(v@))
}

/// The first `k` components of `dir` followed by the command file's name.
fn candidate_at(dir: &Vec<String>, k: usize) -> (r: Vec<String>)
    requires
        k <= dir@.len(),
    ensures
        names(r@) == candidate(names(dir@).take(k as int)),
{
    let mut r: Vec<String> = Vec::new();
    let mut i: usize = 0;
    while i < k
        invariant
            k <= dir@.len(),
            i <= k,
            r@ == dir@.take(i as int),
        decreases k - i,
    {
        r.push(dir[i].clone());
        i = i + 1;
        assert(r@ =~= dir@.take(i as int));
    }
    r.push(String::from_str(MAKEFILE_NAME));
    assert(names(r@) =~= candidate(names(dir@).take(k as int)));
    r
}

/// Walks from `starting_dir` up to the root and returns the path of the first
/// command file that `is_file` reports, or `None` once the root has been
/// probed without a match. Each ancestor is probed at most once, deepest first.
pub fn find_makefile<F: Fn(&Vec<String>) -> bool>(starting_dir: &Vec<String>, is_file: F) -> (r:
    Option<Vec<String>>)
    requires
        forall|v: &Vec<String>| #[trigger] is_file.requires((v,)),
    ensures
        search_outcome(
            is_file,
            names(starting_dir@),
            match r {
                Some(p) => Some(names(p@)),
                None => None,
            },
        ),
{
    let n = starting_dir.len();
    let mut k: usize = n;
    loop
        invariant
            n == starting_dir@.len(),
            k <= n,
            forall|v: &Vec<String>| #[trigger] is_file.requires((v,)),
            forall|j: int|
                k < j <= n ==> probe_says(
                    is_file,
                    #[trigger] candidate(names(starting_dir@).take(j)),
                    false,
                ),
        decreases k,
    {
        let path = candidate_at(starting_dir, k);
        let found = is_file(&path);
        if found {
            assert(probe_says(is_file, names(path@), true));
            return Some(path);
        }
        assert(probe_says(is_file, names(path@), false));
        if k == 0 {
            return None;
        }
        k = k - 1;
    }
}

proof fn lemma_faithful_answer<F: Fn(&Vec<String>) -> bool>(
    is_file: F,
    present: spec_fn(Seq<Seq<char>>) -> bool,
    p: Seq<Seq<char>>,
    b: bool,
)
    requires
        faithful(is_file, present),
        probe_says(is_file, p, b),
    ensures
        b == present(p),
{
    let v = choose|v: Vec<String>| names(v@) == p && #[trigger] is_file.ensures((&v,), b);
    assert(is_file.ensures((&v,), b));
}

proof fn lemma_nearest_none(dir: Seq<Seq<char>>, present: spec_fn(Seq<Seq<char>>) -> bool)
    requires
        forall|j: int| 0 <= j <= dir.len() ==> !present(#[trigger] candidate(dir.take(j))),
    ensures
        nearest(dir, present) is None,
    decreases dir.len(),
{
    assert(dir.take(dir.len() as int) =~= dir);
    if dir.len() > 0 {
        let up = dir.drop_last();
        assert forall|j: int| 0 <= j <= up.len() implies !present(#[trigger] candidate(up.take(j))) by {
            assert(up.take(j) =~= dir.take(j));
        }
        lemma_nearest_none(up, present);
    }
}

proof fn lemma_nearest_some(dir: Seq<Seq<char>>, present: spec_fn(Seq<Seq<char>>) -> bool, a: int)
    requires
        0 <= a <= dir.len(),
        present(candidate(dir.take(a))),
        forall|j: int| a < j <= dir.len() ==> !present(#[trigger] candidate(dir.take(j))),
    ensures
        nearest(dir, present) == Some(candidate(dir.take(a))),
    decreases dir.len(),
{
    assert(dir.take(dir.len() as int) =~= dir);
    if a < dir.len() {
        let up = dir.drop_last();
        assert(up.take(a) =~= dir.take(a));
        assert forall|j: int| a < j <= up.len() implies !present(#[trigger] candidate(up.take(j))) by {
            assert(up.take(j) =~= dir.take(j));
        }
        lemma_nearest_some(up, present, a);
    }
}

/// On a filesystem that the probe reports faithfully, the search returns the
/// nearest command file at or above the starting directory, or nothing when
/// there is none.
pub proof fn lemma_search_is_nearest<F: Fn(&Vec<String>) -> bool>(
    is_file: F,
    present: spec_fn(Seq<Seq<char>>) -> bool,
    start: Seq<Seq<char>>,
    r: Option<Seq<Seq<char>>>,
)
    requires
        faithful(is_file, present),
        search_outcome(is_file, start, r),
    ensures
        r == nearest(start, present),
{
    match r {
        Some(p) => {
            let k = choose|k: int|
                0 <= k <= start.len() && p == candidate(start.take(k)) && probe_says(
                    is_file,
                    p,
                    true,
                ) && forall|j: int|
                    k < j <= start.len() ==> probe_says(
                        is_file,
                        #[trigger] candidate(start.take(j)),
                        false,
                    );
            lemma_faithful_answer(is_file, present, p, true);
            assert forall|j: int| k < j <= start.len() implies !present(
                #[trigger] candidate(start.take(j)),
            ) by {
                lemma_faithful_answer(is_file, present, candidate(start.take(j)), false);
            }
            lemma_nearest_some(start, present, k);
        },
        None => {
            assert forall|j: int| 0 <= j <= start.len() implies !present(
                #[trigger] candidate(start.take(j)),
            ) by {
                lemma_faithful_answer(is_file, present, candidate(start.take(j)), false);
            }
            lemma_nearest_none(start, present);
        },
    }
}

/// When no directory from `start` up to the root holds a command file, the
/// search reports that none was found.
pub proof fn lemma_search_absent<F: Fn(&Vec<String>) -> bool>(
    is_file: F,
    present: spec_fn(Seq<Seq<char>>) -> bool,
    start: Seq<Seq<char>>,
    r: Option<Seq<Seq<char>>>,
)
    requires
        faithful(is_file, present),
        forall|j: int| 0 <= j <= start.len() ==> !present(#[trigger] candidate(start.take(j))),
        search_outcome(is_file, start, r),
    ensures
        r is None,
{
    lemma_search_is_nearest(is_file, present, start, r);
    lemma_nearest_none(start, present);
}

/// When the nearest directory at or above `start` that holds a command file
/// keeps the first `a` components, the search returns exactly that copy, even
/// where directories farther up hold one too.
pub proof fn lemma_search_nearest_copy<F: Fn(&Vec<String>) -> bool>(
    is_file: F,
    present: spec_fn(Seq<Seq<char>>) -> bool,
    start: Seq<Seq<char>>,
    a: int,
    r: Option<Seq<Seq<char>>>,
)
    requires
        faithful(is_file, present),
        0 <= a <= start.len(),
        present(candidate(start.take(a))),
        forall|j: int| a < j <= start.len() ==> !present(#[trigger] candidate(start.take(j))),
        search_outcome(is_file, start, r),
    ensures
        r == Some(candidate(start.take(a))),
{
    lemma_search_is_nearest(is_file, present, start, r);
    lemma_nearest_some(start, present, a);
}

} // verus!
