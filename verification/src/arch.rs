//! The static architecture table and the prefix selection over it.
//!
//! The table is the single source of truth for valid build targets: each
//! entry pairs a toolchain target triple with the ABI directory name used by
//! the packaging tree and the NDK architecture name. A run selects the
//! subset of entries whose target triple starts with the given prefix; a
//! prefix that matches nothing selects the empty set, and the run is a no-op.

use vstd::prelude::*;
use crate::text::starts_with;
use crate::text::str_eq;
use crate::text::str_starts_with;

verus! {

/// One row of the architecture table.
#[derive(Clone, Copy)]
pub struct Arch {
    /// Toolchain target triple.
    pub target: &'static str,
    /// ABI directory name under the packaging tree.
    pub jni: &'static str,
    /// Architecture name used by the NDK tree.
    pub ndk: &'static str,
}

/// The mathematical value of a table row: the three names as character
/// sequences.
pub struct ArchSpec {
    pub target: Seq<char>,
    pub jni: Seq<char>,
    pub ndk: Seq<char>,
}

impl View for Arch {
    type V = ArchSpec;

    open spec fn view(&self) -> ArchSpec {
        ArchSpec { target: self.target@, jni: self.jni@, ndk: self.ndk@ }
    }
}

/// The views of a sequence of table rows.
pub open spec fn views_of(s: Seq<Arch>) -> Seq<ArchSpec> {
    s.map_values(|a: Arch| a@)
}

/// The architecture table.
pub open spec fn spec_table() -> Seq<ArchSpec> {
    seq![
        ArchSpec { target: "x86_64-linux-android"@, jni: "x86_64"@, ndk: "x86_64"@ },
        ArchSpec { target: "i686-linux-android"@, jni: "x86"@, ndk: "x86"@ },
        ArchSpec { target: "aarch64-linux-android"@, jni: "arm64-v8a"@, ndk: "arm64"@ },
        ArchSpec { target: "armv7-linux-androideabi"@, jni: "armeabi-v7a"@, ndk: "arm"@ },
    ]
}

/// The architecture table as a vector of rows.
pub fn all_archs() -> (r: Vec<Arch>)
    ensures
        views_of(r@) == spec_table(),
{
    let mut r: Vec<Arch> = Vec::new();
    r.push(Arch { target: "x86_64-linux-android", jni: "x86_64", ndk: "x86_64" });
    r.push(Arch { target: "i686-linux-android", jni: "x86", ndk: "x86" });
    r.push(Arch { target: "aarch64-linux-android", jni: "arm64-v8a", ndk: "arm64" });
    r.push(Arch { target: "armv7-linux-androideabi", jni: "armeabi-v7a", ndk: "arm" });
    proof {
        assert(views_of(r@) =~= spec_table());
    }
    r
}

/// Whether a table row is selected by a prefix filter on its target triple.
pub open spec fn sel_pred(prefix: Seq<char>) -> spec_fn(ArchSpec) -> bool {
    |a: ArchSpec| starts_with(a.target, prefix)
}

/// The subset of the table selected by a prefix filter, in table order.
pub open spec fn selected(prefix: Seq<char>) -> Seq<ArchSpec> {
    spec_table().filter(sel_pred(prefix))
}

/// Filtering a sequence extended by one element keeps the filtered front and
/// appends the element exactly when it satisfies the predicate.
proof fn lemma_filter_push<A>(s: Seq<A>, pred: spec_fn(A) -> bool, x: A)
    ensures
        s.push(x).filter(pred) == if pred(x) {
            s.filter(pred).push(x)
        } else {
            s.filter(pred)
        },
{
    reveal(Seq::filter);
    assert(s.push(x).drop_last() =~= s);
}

/// Filtering keeps a sequence whole when every element satisfies the
/// predicate.
proof fn lemma_filter_all<A>(s: Seq<A>, pred: spec_fn(A) -> bool)
    requires
        forall|i: int| 0 <= i < s.len() ==> pred(s[i]),
    ensures
        s.filter(pred) == s,
    decreases s.len(),
{
    reveal(Seq::filter);
    if s.len() == 0 {
        assert(s.filter(pred) =~= s);
    } else {
        lemma_filter_all(s.drop_last(), pred);
        assert(s.filter(pred) =~= s);
    }
}

/// Filtering empties a sequence when no element satisfies the predicate.
proof fn lemma_filter_none<A>(s: Seq<A>, pred: spec_fn(A) -> bool)
    requires
        forall|i: int| 0 <= i < s.len() ==> !pred(s[i]),
    ensures
        s.filter(pred) == Seq::<A>::empty(),
    decreases s.len(),
{
    reveal(Seq::filter);
    if s.len() == 0 {
        assert(s.filter(pred) =~= Seq::<A>::empty());
    } else {
        lemma_filter_none(s.drop_last(), pred);
    }
}

/// The rows of the table whose target triple starts with the prefix, in
/// table order.
pub fn select_archs(prefix: &str) -> (r: Vec<Arch>)
    ensures
        views_of(r@) == selected(prefix@),
{
    let archs = all_archs();
    let mut r: Vec<Arch> = Vec::new();
    let mut i: usize = 0;
    while i < archs.len()
        invariant
            views_of(archs@) == spec_table(),
            archs@.len() == spec_table().len(),
            i <= archs@.len(),
            views_of(r@) == spec_table().subrange(0, i as int).filter(sel_pred(prefix@)),
        decreases archs@.len() - i,
    {
        proof {
            assert(archs@[i as int]@ == views_of(archs@)[i as int]);
            lemma_filter_push(
                spec_table().subrange(0, i as int),
                sel_pred(prefix@),
                spec_table()[i as int],
            );
            assert(spec_table().subrange(0, i + 1) =~= spec_table().subrange(0, i as int).push(
                spec_table()[i as int],
            ));
        }
        let a = archs[i];
        if str_starts_with(a.target, prefix) {
            r.push(a);
            proof {
                assert(views_of(r@) =~= spec_table().subrange(0, i as int).filter(
                    sel_pred(prefix@),
                ).push(a@));
            }
        }
        i += 1;
    }
    proof {
        assert(spec_table().subrange(0, spec_table().len() as int) =~= spec_table());
    }
    r
}

/// The views of a list of installed toolchain target names.
pub open spec fn installed_views(s: Seq<String>) -> Seq<Seq<char>> {
    s.map_values(|t: String| t@)
}

/// Whether a name occurs in a list of names.
pub open spec fn contains_str(hay: Seq<Seq<char>>, needle: Seq<char>) -> bool {
    exists|i: int| 0 <= i < hay.len() && hay[i] == needle
}

/// Whether a row's target triple is absent from the installed list.
pub open spec fn missing_pred(installed: Seq<Seq<char>>) -> spec_fn(ArchSpec) -> bool {
    |a: ArchSpec| !contains_str(installed, a.target)
}

/// Whether the target occurs in the installed list.
fn contains_target(installed: &Vec<String>, target: &str) -> (r: bool)
    ensures
        r == contains_str(installed_views(installed@), target@),
{
    let mut i: usize = 0;
    while i < installed.len()
        invariant
            i <= installed@.len(),
            forall|j: int| 0 <= j < i ==> installed@[j]@ != target@,
        decreases installed@.len() - i,
    {
        if str_eq(installed[i].as_str(), target) {
            assert(installed_views(installed@)[i as int] == target@);
            return true;
        }
        i += 1;
    }
    assert forall|j: int| 0 <= j < installed@.len() implies #[trigger] installed_views(
        installed@,
    )[j] != target@ by {
        assert(installed@[j]@ != target@);
    }
    false
}

/// The selected rows whose toolchain target is not among the installed
/// ones, in table order: what a run must have installed before building.
pub fn missing_targets(installed: &Vec<String>, archs: &Vec<Arch>) -> (r: Vec<Arch>)
    ensures
        views_of(r@) == views_of(archs@).filter(missing_pred(installed_views(installed@))),
{
    let mut r: Vec<Arch> = Vec::new();
    let mut i: usize = 0;
    while i < archs.len()
        invariant
            i <= archs@.len(),
            views_of(r@) == views_of(archs@).subrange(0, i as int).filter(
                missing_pred(installed_views(installed@)),
            ),
        decreases archs@.len() - i,
    {
        proof {
            assert(views_of(archs@)[i as int] == archs@[i as int]@);
            lemma_filter_push(
                views_of(archs@).subrange(0, i as int),
                missing_pred(installed_views(installed@)),
                views_of(archs@)[i as int],
            );
            assert(views_of(archs@).subrange(0, i + 1) =~= views_of(archs@).subrange(
                0,
                i as int,
            ).push(views_of(archs@)[i as int]));
        }
        let a = archs[i];
        if !contains_target(installed, a.target) {
            r.push(a);
            proof {
                assert(views_of(r@) =~= views_of(archs@).subrange(0, i as int).filter(
                    missing_pred(installed_views(installed@)),
                ).push(a@));
            }
        }
        i += 1;
    }
    proof {
        assert(views_of(archs@).subrange(0, views_of(archs@).len() as int) =~= views_of(archs@));
    }
    r
}

/// Law: the empty prefix selects the whole table, all four architectures.
pub proof fn lemma_empty_prefix_selects_all()
    ensures
        selected(Seq::<char>::empty()) == spec_table(),
        selected(Seq::<char>::empty()).len() == 4,
{
    assert forall|i: int| 0 <= i < spec_table().len() implies sel_pred(Seq::<char>::empty())(
        spec_table()[i],
    ) by {
        assert(Seq::<char>::empty() =~= spec_table()[i].target.subrange(0, 0));
    }
    lemma_filter_all(spec_table(), sel_pred(Seq::<char>::empty()));
}

/// Law: a prefix that matches no target triple selects the empty set.
pub proof fn lemma_no_match_selects_none(prefix: Seq<char>)
    requires
        forall|i: int| 0 <= i < spec_table().len() ==> !starts_with(
            #[trigger] spec_table()[i].target,
            prefix,
        ),
    ensures
        selected(prefix) == Seq::<ArchSpec>::empty(),
{
    lemma_filter_none(spec_table(), sel_pred(prefix));
}

} // verus!
