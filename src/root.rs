//! The upward walk to the project root. The caller looks at the file system;
//! this module decides, for each directory, whether the walk ends there or
//! goes on to the parent.
use vstd::prelude::*;
use crate::command::strings_view;

verus! {

/// What the walk does after looking at one directory.
#[derive(Clone, Debug, PartialEq, Eq)]
pub enum Probe {
    /// The directory holds the manifest: it is the project root.
    Found,
    /// Look at the parent next, given by its components.
    Ascend(Vec<String>),
    /// The file-system root holds no manifest either: there is no project.
    Exhausted,
}

/// Where the walk from `dir` ends: the nearest directory, `dir` itself or
/// one of its ancestors, for which `has_manifest` holds. Directories are
/// given by their components from the file-system root down.
pub open spec fn nearest_root(
    dir: Seq<Seq<char>>,
    has_manifest: spec_fn(Seq<Seq<char>>) -> bool,
) -> Option<Seq<Seq<char>>>
    decreases dir.len(),
{
    if has_manifest(dir) {
        Some(dir)
    } else if dir.len() == 0 {
        None
    } else {
        nearest_root(dir.drop_last(), has_manifest)
    }
}

/// One step of the walk, at the directory `dir`.
pub fn probe(dir: &Vec<String>, manifest_here: bool) -> (r: Probe)
    ensures
        manifest_here ==> r is Found,
        !manifest_here && dir@.len() == 0 ==> r is Exhausted,
        !manifest_here && dir@.len() > 0 ==> (r matches Probe::Ascend(parent) && strings_view(
            parent@,
        ) == strings_view(dir@).drop_last()),
{
    if manifest_here {
        Probe::Found
    } else if dir.len() == 0 {
        Probe::Exhausted
    } else {
        let mut parent: Vec<String> = Vec::new();
        let last = dir.len() - 1;
        let mut i: usize = 0;
        while i < last
            invariant
                last == dir@.len() - 1,
                i <= last,
                strings_view(parent@) == strings_view(dir@).subrange(0, i as int),
            decreases dir@.len() - i,
        {
            let c = dir[i].clone();
            assert(c@ == dir@[i as int]@);
            let ghost before = parent@;
            parent.push(c);
            assert(strings_view(parent@) =~= strings_view(before).push(dir@[i as int]@));
            assert(strings_view(parent@) =~= strings_view(dir@).subrange(0, i + 1));
            i = i + 1;
        }
        assert(strings_view(parent@) =~= strings_view(dir@).drop_last());
        Probe::Ascend(parent)
    }
}

/// A walk that starts `below` the directory `root` that holds the manifest,
/// with no manifest in between, ends at `root`, however deep it starts.
pub proof fn lemma_walk_finds_root(
    root: Seq<Seq<char>>,
    below: Seq<Seq<char>>,
    has_manifest: spec_fn(Seq<Seq<char>>) -> bool,
)
    requires
        has_manifest(root),
        forall|j: int| 0 < j <= below.len() ==> !has_manifest(#[trigger] (root + below.take(j))),
    ensures
        nearest_root(root + below, has_manifest) == Some(root),
    decreases below.len(),
{
    if below.len() == 0 {
        assert(root + below =~= root);
    } else {
        let shorter = below.drop_last();
        assert(root + below.take(below.len() as int) =~= root + below);
        assert((root + below).drop_last() =~= root + shorter);
        assert forall|j: int| 0 < j <= shorter.len() implies !has_manifest(
            #[trigger] (root + shorter.take(j)),
        ) by {
            assert(shorter.take(j) =~= below.take(j));
        }
        lemma_walk_finds_root(root, shorter, has_manifest);
    }
}

/// A walk from `start` where no ancestor holds the manifest ends with no
/// project root.
pub proof fn lemma_walk_without_root(
    start: Seq<Seq<char>>,
    has_manifest: spec_fn(Seq<Seq<char>>) -> bool,
)
    requires
        forall|j: int| 0 <= j <= start.len() ==> !has_manifest(#[trigger] start.take(j)),
    ensures
        nearest_root(start, has_manifest) is None,
    decreases start.len(),
{
    assert(start.take(start.len() as int) =~= start);
    if start.len() > 0 {
        let parent = start.drop_last();
        assert forall|j: int| 0 <= j <= parent.len() implies !has_manifest(
            #[trigger] parent.take(j),
        ) by {
            assert(parent.take(j) =~= start.take(j));
        }
        lemma_walk_without_root(parent, has_manifest);
    }
}

} // verus!
