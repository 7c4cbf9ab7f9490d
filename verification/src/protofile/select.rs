//! Which top-level messages a set of roots reaches.
//!
//! A message is named by its package and its name. Of the descriptors in a
//! pool that share a name, the first one stands for the name.

use super::refs::collect_message_refs;
use super::refs::message_refs;
use super::refs::targets;
use super::refs::Reference;
use super::refs::Target;
use super::text::same_text;
use super::MessageDescription;
use super::TopLevelDescriptor;
use vstd::prelude::*;

verus! {

/// Whether `d` describes the message `name` of `package`.
pub open spec fn has_key(d: TopLevelDescriptor, package: Seq<char>, name: Seq<char>) -> bool {
    d.package@ == package && d.message.name@ == name
}

/// Whether `pool[k]` is the first descriptor of the message `name` of
/// `package`.
pub open spec fn is_first(
    pool: Seq<TopLevelDescriptor>,
    package: Seq<char>,
    name: Seq<char>,
    k: int,
) -> bool {
    &&& 0 <= k < pool.len()
    &&& has_key(pool[k], package, name)
    &&& forall|j: int| 0 <= j < k ==> !has_key(#[trigger] pool[j], package, name)
}

/// Whether `pool[k]` stands for the name that it carries.
pub open spec fn stands_for_itself(pool: Seq<TopLevelDescriptor>, k: int) -> bool {
    0 <= k < pool.len() && is_first(pool, pool[k].package@, pool[k].message.name@, k)
}

/// The first descriptor of the message `name` of `package`, if the pool
/// has one.
pub fn lookup(pool: &[TopLevelDescriptor], package: &str, name: &str) -> (r: Option<usize>)
    ensures
        r matches Some(k) ==> is_first(pool@, package@, name@, k as int),
        r is None ==> forall|j: int|
            0 <= j < pool@.len() ==> !has_key(#[trigger] pool@[j], package@, name@),
{
    let mut i: usize = 0;
    while i < pool.len()
        invariant
            i <= pool@.len(),
            forall|j: int| 0 <= j < i ==> !has_key(#[trigger] pool@[j], package@, name@),
        decreases pool@.len() - i,
    {
        if same_text(pool[i].package.as_str(), package) && same_text(
            pool[i].message.name.as_str(),
            name,
        ) {
            return Some(i);
        }
        i += 1;
    }
    None
}

/// Whether `target` is the message that `pool[k]` stands for.
pub open spec fn points_to(target: Target, pool: Seq<TopLevelDescriptor>, k: int) -> bool {
    match target {
        Target::Message(package, name) => is_first(pool, package, name, k),
        Target::File(_) => false,
    }
}

/// Whether the message `pool[j]` refers to the message that `pool[k]`
/// stands for.
pub open spec fn refers(pool: Seq<TopLevelDescriptor>, j: int, k: int) -> bool {
    exists|target: Target|
        #[trigger] message_refs(pool[j].message).contains(target) && points_to(target, pool, k)
}

/// Whether `order` lists the descriptor `pool[k]`.
pub open spec fn lists(order: Seq<usize>, k: int) -> bool {
    exists|i: int| 0 <= i < order.len() && #[trigger] order[i] as int == k
}

/// The descriptor that stands for the message that `root` names, if `root`
/// names a message of the pool.
pub open spec fn root_index(pool: Seq<TopLevelDescriptor>, root: MessageDescription) -> Option<
    usize,
> {
    match root {
        MessageDescription::Internal { package, name } => {
            if exists|k: int| is_first(pool, package@, name@, k) {
                Some((choose|k: int| is_first(pool, package@, name@, k)) as usize)
            } else {
                None
            }
        },
        MessageDescription::External { .. } => None,
    }
}

/// The descriptors that the first `n` of `roots` name, in the order of the
/// roots and as often as they are named.
pub open spec fn root_indices(
    pool: Seq<TopLevelDescriptor>,
    roots: Seq<MessageDescription>,
    n: nat,
) -> Seq<usize>
    decreases n,
{
    if n == 0 || n > roots.len() {
        Seq::empty()
    } else {
        let earlier = root_indices(pool, roots, (n - 1) as nat);
        match root_index(pool, roots[n - 1]) {
            Some(k) => earlier.push(k),
            None => earlier,
        }
    }
}

/// Whether one of the descriptors listed before `order[i]` refers to it.
pub open spec fn has_referrer(pool: Seq<TopLevelDescriptor>, order: Seq<usize>, i: int) -> bool {
    exists|j: int| 0 <= j < i && #[trigger] refers(pool, order[j] as int, order[i] as int)
}

/// Whether `order` lists the descriptors that `roots` reach, as they are
/// found: first the descriptors that the roots name, in the order of the
/// roots and as often as they are named; then every further descriptor
/// once, where it is first referred to. What a listed message refers to is
/// listed, and each further descriptor is referred to by one listed before
/// it.
pub open spec fn discovered(
    pool: Seq<TopLevelDescriptor>,
    roots: Seq<MessageDescription>,
    order: Seq<usize>,
) -> bool {
    let heads = root_indices(pool, roots, roots.len());
    &&& heads.len() <= order.len()
    &&& order.take(heads.len() as int) == heads
    &&& forall|i: int| 0 <= i < order.len() ==> stands_for_itself(pool, #[trigger] order[i] as int)
    &&& forall|i: int, j: int|
        heads.len() <= i < order.len() && 0 <= j < i ==> order[j] != order[i]
    &&& forall|i: int, k: int|
        0 <= i < order.len() && #[trigger] refers(pool, order[i] as int, k) ==> lists(order, k)
    &&& forall|i: int| heads.len() <= i < order.len() ==> #[trigger] has_referrer(pool, order, i)
}

/// How many marks are set.
pub open spec fn count_marks(marks: Seq<bool>) -> nat
    decreases marks.len(),
{
    if marks.len() == 0 {
        0
    } else {
        count_marks(marks.drop_last()) + if marks.last() {
            1nat
        } else {
            0nat
        }
    }
}

/// No more marks are set than there are.
pub proof fn lemma_count_marks_bound(marks: Seq<bool>)
    ensures
        count_marks(marks) <= marks.len(),
    decreases marks.len(),
{
    if marks.len() > 0 {
        lemma_count_marks_bound(marks.drop_last());
    }
}

/// Setting a mark that was clear adds one to the count.
pub proof fn lemma_count_marks_set(marks: Seq<bool>, k: int)
    requires
        0 <= k < marks.len(),
        !marks[k],
    ensures
        count_marks(marks.update(k, true)) == count_marks(marks) + 1,
    decreases marks.len(),
{
    let after = marks.update(k, true);
    if k == marks.len() - 1 {
        assert(after.drop_last() =~= marks.drop_last());
    } else {
        lemma_count_marks_set(marks.drop_last(), k);
        assert(after.drop_last() =~= marks.drop_last().update(k, true));
    }
}

/// Whether `marks` tells which descriptors `found` lists, and `found`
/// lists only descriptors that stand for themselves.
pub open spec fn marked(pool: Seq<TopLevelDescriptor>, marks: Seq<bool>, found: Seq<usize>) -> bool {
    &&& marks.len() == pool.len()
    &&& forall|i: int| 0 <= i < found.len() ==> stands_for_itself(pool, #[trigger] found[i] as int)
    &&& forall|k: int| 0 <= k < marks.len() ==> (#[trigger] marks[k] <==> lists(found, k))
}

/// A list that grows keeps what it listed.
pub proof fn lemma_lists_push(found: Seq<usize>, x: usize, k: int)
    ensures
        lists(found.push(x), k) <==> lists(found, k) || x as int == k,
{
    let more = found.push(x);
    if lists(found, k) {
        let i = choose|i: int| 0 <= i < found.len() && #[trigger] found[i] as int == k;
        assert(more[i] as int == k);
    }
    if x as int == k {
        assert(more[found.len() as int] as int == k);
    }
    if lists(more, k) {
        let i = choose|i: int| 0 <= i < more.len() && #[trigger] more[i] as int == k;
        if i < found.len() {
            assert(found[i] as int == k);
        }
    }
}

/// Only one descriptor stands for a name.
pub proof fn lemma_first_is_unique(
    pool: Seq<TopLevelDescriptor>,
    package: Seq<char>,
    name: Seq<char>,
    k: int,
    other: int,
)
    requires
        is_first(pool, package, name, k),
        is_first(pool, package, name, other),
    ensures
        k == other,
{
    if other < k {
        assert(!has_key(pool[other], package, name));
    } else if k < other {
        assert(!has_key(pool[k], package, name));
    }
}

/// Marks `k` and puts it at the end of the list.
fn list(pool: &[TopLevelDescriptor], k: usize, marks: &mut Vec<bool>, found: &mut Vec<usize>)
    requires
        marked(pool@, old(marks)@, old(found)@),
        stands_for_itself(pool@, k as int),
    ensures
        marked(pool@, final(marks)@, final(found)@),
        final(found)@ == old(found)@.push(k),
        count_marks(final(marks)@) == count_marks(old(marks)@) + if lists(old(found)@, k as int) {
            0nat
        } else {
            1nat
        },
{
    proof {
        if !marks@[k as int] {
            lemma_count_marks_set(marks@, k as int);
        } else {
            assert(marks@.update(k as int, true) =~= marks@);
        }
    }
    marks[k] = true;
    found.push(k);
    proof {
        assert forall|j: int| 0 <= j < marks@.len() implies (#[trigger] marks@[j] <==> lists(
            found@,
            j,
        )) by {
            lemma_lists_push(old(found)@, k, j);
        }
    }
}

/// Lists the descriptor that `root` names, if it names one of the pool.
fn visit_root(
    pool: &[TopLevelDescriptor],
    root: &MessageDescription,
    marks: &mut Vec<bool>,
    found: &mut Vec<usize>,
)
    requires
        marked(pool@, old(marks)@, old(found)@),
    ensures
        marked(pool@, final(marks)@, final(found)@),
        final(found)@ == match root_index(pool@, *root) {
            Some(k) => old(found)@.push(k),
            None => old(found)@,
        },
{
    match root {
        MessageDescription::Internal { package, name } => {
            match lookup(pool, package.as_str(), name.as_str()) {
                Some(k) => {
                    proof {
                        let chosen = choose|c: int| is_first(pool@, package@, name@, c);
                        lemma_first_is_unique(pool@, package@, name@, k as int, chosen);
                    }
                    list(pool, k, marks, found);
                },
                None => {
                    assert forall|c: int| !is_first(pool@, package@, name@, c) by {
                        if 0 <= c < pool@.len() {
                            assert(!has_key(pool@[c], package@, name@));
                        }
                    }
                },
            }
        },
        MessageDescription::External { .. } => {},
    }
}

/// Lists the descriptor that stands for the message `name` of `package`,
/// if there is one and it is not listed yet.
fn visit(
    pool: &[TopLevelDescriptor],
    package: &str,
    name: &str,
    marks: &mut Vec<bool>,
    found: &mut Vec<usize>,
)
    requires
        marked(pool@, old(marks)@, old(found)@),
    ensures
        marked(pool@, final(marks)@, final(found)@),
        (final(found)@ == old(found)@ && count_marks(final(marks)@) == count_marks(old(marks)@))
            || exists|k: usize|
            {
                &&& is_first(pool@, package@, name@, k as int)
                &&& !lists(old(found)@, k as int)
                &&& final(found)@ == old(found)@.push(k)
                &&& count_marks(final(marks)@) == count_marks(old(marks)@) + 1
            },
        forall|k: int| is_first(pool@, package@, name@, k) ==> lists(final(found)@, k),
{
    match lookup(pool, package, name) {
        Some(k) => {
            assert forall|other: int| is_first(pool@, package@, name@, other) implies other
                == k by {
                lemma_first_is_unique(pool@, package@, name@, k as int, other);
            }
            if !marks[k] {
                list(pool, k, marks, found);
                proof {
                    lemma_lists_push(old(found)@, k, k as int);
                }
            } else {
                assert(lists(found@, k as int));
            }
        },
        None => {},
    }
}

/// Lists the descriptors that `roots` reach, in the order in which they
/// are found: the descriptors that the roots name come first, as given;
/// every further descriptor follows once.
pub fn referenced_descriptors(pool: &[TopLevelDescriptor], roots: &[MessageDescription]) -> (order:
    Vec<usize>)
    ensures
        discovered(pool@, roots@, order@),
{
    let mut marks: Vec<bool> = Vec::new();
    let mut n: usize = 0;
    while n < pool.len()
        invariant
            n <= pool@.len(),
            marks@.len() == n,
            forall|k: int| 0 <= k < n ==> !#[trigger] marks@[k],
        decreases pool@.len() - n,
    {
        marks.push(false);
        n += 1;
    }
    let mut found: Vec<usize> = Vec::new();
    assert forall|k: int| 0 <= k < marks@.len() implies (#[trigger] marks@[k] <==> lists(
        found@,
        k,
    )) by {}
    let mut r: usize = 0;
    while r < roots.len()
        invariant
            r <= roots@.len(),
            marked(pool@, marks@, found@),
            found@ == root_indices(pool@, roots@, r as nat),
        decreases roots@.len() - r,
    {
        visit_root(pool, &roots[r], &mut marks, &mut found);
        r += 1;
    }
    let ghost heads = found@;
    let ghost rooted = count_marks(marks@);
    let named = found.len();
    let mut i: usize = 0;
    while i < found.len()
        invariant
            i <= found@.len(),
            named == heads.len(),
            heads == root_indices(pool@, roots@, roots@.len()),
            heads.len() <= found@.len(),
            found@.take(heads.len() as int) == heads,
            marked(pool@, marks@, found@),
            count_marks(marks@) == rooted + found@.len() - heads.len(),
            forall|a: int, b: int|
                heads.len() <= a < found@.len() && 0 <= b < a ==> found@[b] != found@[a],
            forall|j: int, k: int|
                0 <= j < i && #[trigger] refers(pool@, found@[j] as int, k) ==> lists(found@, k),
            forall|a: int|
                heads.len() <= a < found@.len() ==> #[trigger] has_referrer(pool@, found@, a),
        decreases named + pool@.len() - i,
    {
        proof {
            lemma_count_marks_bound(marks@);
        }
        let current = found[i];
        assert(stands_for_itself(pool@, found@[i as int] as int));
        let mut refs: Vec<Reference<'_>> = Vec::new();
        assert(targets(refs@) =~= Set::<Target>::empty());
        collect_message_refs(&pool[current].message, &mut refs);
        assert(targets(refs@) =~= message_refs(pool@[current as int].message));
        let mut q: usize = 0;
        while q < refs.len()
            invariant
                q <= refs@.len(),
                i < found@.len(),
                found@[i as int] == current,
                current < pool@.len(),
                targets(refs@) == message_refs(pool@[current as int].message),
                heads.len() <= found@.len(),
                found@.take(heads.len() as int) == heads,
                marked(pool@, marks@, found@),
                count_marks(marks@) == rooted + found@.len() - heads.len(),
                forall|a: int, b: int|
                    heads.len() <= a < found@.len() && 0 <= b < a ==> found@[b] != found@[a],
                forall|j: int, k: int|
                    0 <= j < i && #[trigger] refers(pool@, found@[j] as int, k) ==> lists(
                        found@,
                        k,
                    ),
                forall|a: int|
                    heads.len() <= a < found@.len() ==> #[trigger] has_referrer(
                        pool@,
                        found@,
                        a,
                    ),
                forall|s: int, k: int|
                    0 <= s < q && #[trigger] points_to(refs@[s]@, pool@, k) ==> lists(found@, k),
            decreases refs@.len() - q,
        {
            let ghost before = found@;
            match &refs[q] {
                Reference::Message(package, name) => {
                    visit(pool, package, name, &mut marks, &mut found);
                    proof {
                        assert(targets(refs@).contains(refs@[q as int]@));
                        if found@ != before {
                            let k = choose|k: usize|
                                is_first(pool@, package@, name@, k as int) && !lists(
                                    before,
                                    k as int,
                                ) && found@ == before.push(k);
                            assert(points_to(refs@[q as int]@, pool@, k as int));
                            assert(refers(pool@, current as int, k as int));
                            assert(refers(
                                pool@,
                                found@[i as int] as int,
                                found@[before.len() as int] as int,
                            ));
                            assert forall|b: int| 0 <= b < before.len() implies #[trigger]
                                found@[b] != k by {
                                if before[b] == k {
                                    assert(lists(before, k as int));
                                }
                            }
                        }
                    }
                },
                Reference::File(_) => {},
            }
            proof {
                assert(forall|j: int| 0 <= j < before.len() ==> found@[j] == before[j]);
                assert(found@.take(heads.len() as int) =~= before.take(heads.len() as int));
                assert forall|k: int| lists(before, k) implies lists(found@, k) by {
                    if found@ != before {
                        let x = choose|x: usize| found@ == before.push(x);
                        lemma_lists_push(before, x, k);
                    }
                }
                assert forall|a: int| heads.len() <= a < found@.len() implies #[trigger]
                    has_referrer(pool@, found@, a) by {
                    if a < before.len() {
                        assert(has_referrer(pool@, before, a));
                        let p = choose|p: int|
                            0 <= p < a && #[trigger] refers(
                                pool@,
                                before[p] as int,
                                before[a] as int,
                            );
                        assert(found@[p] == before[p]);
                        assert(refers(pool@, found@[p] as int, found@[a] as int));
                    } else {
                        assert(refers(pool@, found@[i as int] as int, found@[a] as int));
                    }
                }
                assert forall|j: int, k: int|
                    0 <= j < i && #[trigger] refers(pool@, found@[j] as int, k) implies lists(
                    found@,
                    k,
                ) by {
                    assert(found@[j] == before[j]);
                    assert(lists(before, k));
                }
                assert forall|s: int, k: int|
                    0 <= s < q + 1 && #[trigger] points_to(refs@[s]@, pool@, k) implies lists(
                    found@,
                    k,
                ) by {
                    if s < q {
                        assert(lists(before, k));
                    }
                }
            }
            q += 1;
        }
        proof {
            assert forall|k: int| #[trigger]
                refers(pool@, found@[i as int] as int, k) implies lists(found@, k) by {
                let t = choose|t: Target|
                    #[trigger] message_refs(pool@[current as int].message).contains(t)
                        && points_to(t, pool@, k);
                assert(targets(refs@).contains(t));
                let s = choose|s: int| 0 <= s < refs@.len() && (#[trigger] refs@[s])@ == t;
                assert(points_to(refs@[s]@, pool@, k));
            }
            lemma_count_marks_bound(marks@);
        }
        i += 1;
    }
    found
}

} // verus!
