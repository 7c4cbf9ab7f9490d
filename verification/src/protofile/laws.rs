//! What holds of the files that a writer writes, stated over the contract
//! of [`DescriptorWriter::write`](super::writer::DescriptorWriter::write):
//! one file for each package, in ascending order of package, with every
//! message of the selection in the file of its package.

use super::text::lemma_text_lt_transitive;
use super::text::text_lt;
use super::writer::are_files_of;
use super::writer::group_end;
use super::writer::is_file_of;
use super::writer::key_lt;
use super::writer::sorted_by_key;
use super::writer::ProtoFile;
use super::TopLevelDescriptor;
use vstd::prelude::*;

verus! {

/// The package of the message at place `k` of the selection.
pub open spec fn package_at(pool: Seq<TopLevelDescriptor>, selection: Seq<usize>, k: int) -> Seq<
    char,
> {
    pool[selection[k] as int].package@
}

/// Where the run that starts at `from` ends.
pub open spec fn run_end(pool: Seq<TopLevelDescriptor>, selection: Seq<usize>, from: int) -> int {
    group_end(pool, selection, from, from + 1)
}

/// Where the runs of messages of one package start, from `from` on.
pub open spec fn run_starts(pool: Seq<TopLevelDescriptor>, selection: Seq<usize>, from: int) -> Seq<
    int,
>
    decreases selection.len() - from,
{
    if from < 0 || from >= selection.len() {
        Seq::empty()
    } else {
        let to = run_end(pool, selection, from);
        if to <= from || to > selection.len() {
            Seq::empty()
        } else {
            seq![from] + run_starts(pool, selection, to)
        }
    }
}

/// Looking from `at` on, a run that holds one package up to `at` ends at
/// or behind `at`, holds that package throughout, and is followed, if by
/// anything, by a message of another package.
pub proof fn lemma_group_end(
    pool: Seq<TopLevelDescriptor>,
    selection: Seq<usize>,
    from: int,
    at: int,
)
    requires
        0 <= from <= at <= selection.len(),
        from < selection.len(),
        forall|k: int|
            from <= k < at ==> #[trigger] package_at(pool, selection, k) == package_at(
                pool,
                selection,
                from,
            ),
    ensures
        ({
            let to = group_end(pool, selection, from, at);
            &&& at <= to <= selection.len()
            &&& forall|k: int|
                from <= k < to ==> #[trigger] package_at(pool, selection, k) == package_at(
                    pool,
                    selection,
                    from,
                )
            &&& to < selection.len() ==> package_at(pool, selection, to) != package_at(
                pool,
                selection,
                from,
            )
        }),
    decreases selection.len() - at,
{
    if at < selection.len() && package_at(pool, selection, at) == package_at(
        pool,
        selection,
        from,
    ) {
        lemma_group_end(pool, selection, from, at + 1);
    }
}

/// A run is not empty, lies in the selection, holds one package, and is
/// followed, if by anything, by a message of another package.
pub proof fn lemma_run(pool: Seq<TopLevelDescriptor>, selection: Seq<usize>, from: int)
    requires
        0 <= from < selection.len(),
    ensures
        ({
            let to = run_end(pool, selection, from);
            &&& from < to <= selection.len()
            &&& forall|k: int|
                from <= k < to ==> #[trigger] package_at(pool, selection, k) == package_at(
                    pool,
                    selection,
                    from,
                )
            &&& to < selection.len() ==> package_at(pool, selection, to) != package_at(
                pool,
                selection,
                from,
            )
        }),
{
    lemma_group_end(pool, selection, from, from + 1);
}

/// The runs start where the one before ends: the first at `from`, each in
/// the selection.
pub proof fn lemma_run_starts(pool: Seq<TopLevelDescriptor>, selection: Seq<usize>, from: int)
    requires
        0 <= from <= selection.len(),
    ensures
        ({
            let starts = run_starts(pool, selection, from);
            &&& from < selection.len() ==> starts.len() > 0 && starts[0] == from
            &&& from == selection.len() ==> starts.len() == 0
            &&& forall|i: int| 0 <= i < starts.len() ==> from <= #[trigger] starts[i] < selection.len()
            &&& forall|i: int|
                0 <= i < starts.len() - 1 ==> #[trigger] starts[i + 1] == run_end(
                    pool,
                    selection,
                    starts[i],
                )
            &&& starts.len() > 0 ==> run_end(pool, selection, starts.last()) == selection.len()
        }),
    decreases selection.len() - from,
{
    if from < selection.len() {
        lemma_run(pool, selection, from);
        let to = run_end(pool, selection, from);
        lemma_run_starts(pool, selection, to);
        let rest = run_starts(pool, selection, to);
        let starts = run_starts(pool, selection, from);
        assert(starts =~= seq![from] + rest);
        assert forall|i: int| 0 <= i < starts.len() implies from <= #[trigger] starts[i]
            < selection.len() by {
            if i > 0 {
                assert(starts[i] == rest[i - 1]);
            }
        }
        assert forall|i: int| 0 <= i < starts.len() - 1 implies #[trigger] starts[i + 1]
            == run_end(pool, selection, starts[i]) by {
            assert(starts[i + 1] == rest[i]);
            if i > 0 {
                assert(starts[i] == rest[i - 1]);
                assert(rest[(i - 1) + 1] == run_end(pool, selection, rest[i - 1]));
            }
        }
        if rest.len() > 0 {
            assert(starts.last() == rest.last());
        }
    }
}

/// One file per run: the files of a selection are as many as its runs, and
/// each is the file of its run.
pub proof fn lemma_one_file_per_run(
    heading: Seq<char>,
    pool: Seq<TopLevelDescriptor>,
    selection: Seq<usize>,
    from: int,
    files: Seq<ProtoFile>,
)
    requires
        0 <= from <= selection.len(),
        are_files_of(heading, pool, selection, from, files),
    ensures
        ({
            let starts = run_starts(pool, selection, from);
            &&& files.len() == starts.len()
            &&& forall|i: int|
                0 <= i < files.len() ==> is_file_of(
                    heading,
                    pool,
                    selection,
                    starts[i],
                    run_end(pool, selection, starts[i]),
                    #[trigger] files[i],
                )
        }),
    decreases selection.len() - from,
{
    if from < selection.len() {
        let to = run_end(pool, selection, from);
        lemma_one_file_per_run(heading, pool, selection, to, files.drop_first());
        let rest = run_starts(pool, selection, to);
        let starts = run_starts(pool, selection, from);
        assert(starts =~= seq![from] + rest);
        assert forall|i: int| 0 <= i < files.len() implies is_file_of(
            heading,
            pool,
            selection,
            starts[i],
            run_end(pool, selection, starts[i]),
            #[trigger] files[i],
        ) by {
            if i > 0 {
                assert(files[i] == files.drop_first()[i - 1]);
                assert(starts[i] == rest[i - 1]);
            }
        }
    }
}

/// In a sorted selection a later message is of the same package as an
/// earlier one or of a later package.
pub proof fn lemma_packages_do_not_descend(
    pool: Seq<TopLevelDescriptor>,
    selection: Seq<usize>,
    a: int,
    b: int,
)
    requires
        sorted_by_key(pool, selection),
        0 <= a < b < selection.len(),
    ensures
        package_at(pool, selection, a) == package_at(pool, selection, b) || text_lt(
            package_at(pool, selection, a),
            package_at(pool, selection, b),
        ),
{
    assert(key_lt(pool[selection[a] as int], pool[selection[b] as int]));
}

/// One run per package: in a sorted selection the packages of the runs
/// ascend, so no two runs hold the same package.
pub proof fn lemma_runs_ascend(pool: Seq<TopLevelDescriptor>, selection: Seq<usize>, from: int)
    requires
        sorted_by_key(pool, selection),
        0 <= from <= selection.len(),
    ensures
        ({
            let starts = run_starts(pool, selection, from);
            forall|i: int, j: int|
                0 <= i < j < starts.len() ==> text_lt(
                    package_at(pool, selection, #[trigger] starts[i]),
                    package_at(pool, selection, #[trigger] starts[j]),
                )
        }),
    decreases selection.len() - from,
{
    if from < selection.len() {
        lemma_run(pool, selection, from);
        let to = run_end(pool, selection, from);
        lemma_runs_ascend(pool, selection, to);
        lemma_run_starts(pool, selection, to);
        let rest = run_starts(pool, selection, to);
        let starts = run_starts(pool, selection, from);
        assert(starts =~= seq![from] + rest);
        assert forall|i: int, j: int| 0 <= i < j < starts.len() implies text_lt(
            package_at(pool, selection, #[trigger] starts[i]),
            package_at(pool, selection, #[trigger] starts[j]),
        ) by {
            assert(starts[j] == rest[j - 1]);
            if i > 0 {
                assert(starts[i] == rest[i - 1]);
            } else {
                assert(rest[0] == to);
                lemma_packages_do_not_descend(pool, selection, from, to);
                if j > 1 {
                    lemma_text_lt_transitive(
                        package_at(pool, selection, from),
                        package_at(pool, selection, to),
                        package_at(pool, selection, rest[j - 1]),
                    );
                }
            }
        }
    }
}

/// Every message of the selection lies in one of the runs.
pub proof fn lemma_runs_cover(
    pool: Seq<TopLevelDescriptor>,
    selection: Seq<usize>,
    from: int,
    k: int,
)
    requires
        0 <= from <= k < selection.len(),
    ensures
        ({
            let starts = run_starts(pool, selection, from);
            exists|i: int|
                0 <= i < starts.len() && #[trigger] starts[i] <= k < run_end(
                    pool,
                    selection,
                    starts[i],
                )
        }),
    decreases selection.len() - from,
{
    lemma_run(pool, selection, from);
    let to = run_end(pool, selection, from);
    let rest = run_starts(pool, selection, to);
    let starts = run_starts(pool, selection, from);
    assert(starts =~= seq![from] + rest);
    if k < to {
        assert(starts[0] <= k < run_end(pool, selection, starts[0]));
    } else {
        lemma_runs_cover(pool, selection, to, k);
        let i = choose|i: int|
            0 <= i < rest.len() && #[trigger] rest[i] <= k < run_end(pool, selection, rest[i]);
        assert(starts[i + 1] == rest[i]);
        assert(starts[i + 1] <= k < run_end(pool, selection, starts[i + 1]));
    }
}

/// Whether the message at place `k` of the selection lies in one of the
/// runs, which then is the run of its package.
pub open spec fn lies_in_a_run(pool: Seq<TopLevelDescriptor>, selection: Seq<usize>, k: int) -> bool {
    let starts = run_starts(pool, selection, 0);
    exists|i: int|
        0 <= i < starts.len() && #[trigger] starts[i] <= k < run_end(pool, selection, starts[i])
            && package_at(pool, selection, k) == package_at(pool, selection, starts[i])
}

/// The files of a sorted selection: one for each run of messages of one
/// package, in the order of the runs; the packages of the runs ascend, so
/// each package has one file; and every message of the selection lies in
/// the run of its package.
pub proof fn lemma_one_file_per_package(
    heading: Seq<char>,
    pool: Seq<TopLevelDescriptor>,
    selection: Seq<usize>,
    files: Seq<ProtoFile>,
)
    requires
        sorted_by_key(pool, selection),
        are_files_of(heading, pool, selection, 0, files),
    ensures
        ({
            let starts = run_starts(pool, selection, 0);
            &&& files.len() == starts.len()
            &&& forall|i: int|
                0 <= i < files.len() ==> is_file_of(
                    heading,
                    pool,
                    selection,
                    starts[i],
                    run_end(pool, selection, starts[i]),
                    #[trigger] files[i],
                )
            &&& forall|i: int, j: int|
                0 <= i < j < starts.len() ==> text_lt(
                    package_at(pool, selection, #[trigger] starts[i]),
                    package_at(pool, selection, #[trigger] starts[j]),
                )
            &&& forall|k: int|
                0 <= k < selection.len() ==> #[trigger] lies_in_a_run(pool, selection, k)
        }),
{
    lemma_one_file_per_run(heading, pool, selection, 0, files);
    lemma_runs_ascend(pool, selection, 0);
    lemma_run_starts(pool, selection, 0);
    let starts = run_starts(pool, selection, 0);
    assert forall|k: int| 0 <= k < selection.len() implies #[trigger] lies_in_a_run(
        pool,
        selection,
        k,
    ) by {
        lemma_runs_cover(pool, selection, 0, k);
        let i = choose|i: int|
            0 <= i < starts.len() && #[trigger] starts[i] <= k < run_end(
                pool,
                selection,
                starts[i],
            );
        lemma_run(pool, selection, starts[i]);
    }
}

} // verus!
