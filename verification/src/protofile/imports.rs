//! The `import` lines of a package's file.

use super::refs::targets;
use super::refs::Reference;
use super::refs::Target;
use super::text::compare_text;
use super::text::lemma_text_lt_irreflexive;
use super::text::lemma_text_lt_transitive;
use super::text::text_lt;
use super::text::Order;
use vstd::prelude::*;
use vstd::string::*;

verus! {

/// Whether each string comes before all that follow it.
pub open spec fn strictly_sorted(v: Seq<String>) -> bool {
    forall|i: int, j: int| 0 <= i < j < v.len() ==> text_lt(#[trigger] v[i]@, #[trigger] v[j]@)
}

/// The strings of a list, as a set.
pub open spec fn texts(v: Seq<String>) -> Set<Seq<char>> {
    Set::new(|t: Seq<char>| exists|i: int| 0 <= i < v.len() && (#[trigger] v[i])@ == t)
}

/// The first string of a sorted list comes before every other string of it.
proof fn lemma_first_is_least(v: Seq<String>, t: Seq<char>)
    requires
        strictly_sorted(v),
        texts(v).contains(t),
    ensures
        v.len() > 0,
        t == v[0]@ || text_lt(v[0]@, t),
{
    let i = choose|i: int| 0 <= i < v.len() && (#[trigger] v[i])@ == t;
    if i > 0 {
        assert(text_lt(v[0]@, v[i]@));
    }
}

/// The strings of a sorted list without its first are those of the list
/// that come after the first.
proof fn lemma_texts_of_rest(v: Seq<String>, t: Seq<char>)
    requires
        strictly_sorted(v),
        v.len() > 0,
    ensures
        strictly_sorted(v.drop_first()),
        texts(v.drop_first()).contains(t) <==> texts(v).contains(t) && text_lt(v[0]@, t),
{
    let rest = v.drop_first();
    assert forall|i: int, j: int| 0 <= i < j < rest.len() implies text_lt(
        #[trigger] rest[i]@,
        #[trigger] rest[j]@,
    ) by {
        assert(rest[i] == v[i + 1] && rest[j] == v[j + 1]);
    }
    if texts(rest).contains(t) {
        let i = choose|i: int| 0 <= i < rest.len() && (#[trigger] rest[i])@ == t;
        assert(v[i + 1]@ == t);
        assert(text_lt(v[0]@, v[i + 1]@));
    }
    if texts(v).contains(t) && text_lt(v[0]@, t) {
        let i = choose|i: int| 0 <= i < v.len() && (#[trigger] v[i])@ == t;
        lemma_text_lt_irreflexive(t);
        assert(rest[i - 1]@ == t);
    }
}

/// A set of strings has only one sorted list: two sorted lists of the same
/// strings hold the same string at every place.
pub proof fn lemma_sorted_list_unique(a: Seq<String>, b: Seq<String>)
    requires
        strictly_sorted(a),
        strictly_sorted(b),
        texts(a) == texts(b),
    ensures
        a.len() == b.len(),
        forall|i: int| 0 <= i < a.len() ==> (#[trigger] a[i])@ == b[i]@,
    decreases a.len(),
{
    if a.len() == 0 {
        if b.len() > 0 {
            assert(texts(b).contains(b[0]@));
            let i = choose|i: int| 0 <= i < a.len() && (#[trigger] a[i])@ == b[0]@;
        }
    } else {
        assert(texts(a).contains(a[0]@));
        lemma_first_is_least(b, a[0]@);
        assert(texts(b).contains(b[0]@));
        lemma_first_is_least(a, b[0]@);
        if a[0]@ != b[0]@ {
            super::text::lemma_text_lt_total(a[0]@, b[0]@);
        }
        assert forall|t: Seq<char>| texts(a.drop_first()).contains(t) <==> texts(
            b.drop_first(),
        ).contains(t) by {
            lemma_texts_of_rest(a, t);
            lemma_texts_of_rest(b, t);
        }
        assert(texts(a.drop_first()) =~= texts(b.drop_first()));
        lemma_texts_of_rest(a, a[0]@);
        lemma_texts_of_rest(b, b[0]@);
        lemma_sorted_list_unique(a.drop_first(), b.drop_first());
        assert forall|i: int| 0 <= i < a.len() implies (#[trigger] a[i])@ == b[i]@ by {
            if i > 0 {
                assert(a.drop_first()[i - 1] == a[i]);
                assert(b.drop_first()[i - 1] == b[i]);
            }
        }
    }
}

/// The name of the file that holds the messages of `package`.
pub open spec fn proto_file_name(package: Seq<char>) -> Seq<char> {
    package + ".proto"@
}

/// The name of the file that holds the messages of `package`.
pub fn package_proto_file(package: &str) -> (r: String)
    ensures
        r@ == proto_file_name(package@),
{
    let mut name = String::from_str(package);
    name.append(".proto");
    name
}

/// The file that the file of `package` imports on account of `target`: the
/// file of an external type, or the file of a message of another package.
pub open spec fn import_of(package: Seq<char>, target: Target) -> Option<Seq<char>> {
    match target {
        Target::File(path) => Some(path),
        Target::Message(other, _) => if other != package {
            Some(proto_file_name(other))
        } else {
            None
        },
    }
}

/// The files that the file of `package` imports on account of `found`.
pub open spec fn imports_of(package: Seq<char>, found: Set<Target>) -> Set<Seq<char>> {
    Set::new(
        |path: Seq<char>|
            exists|t: Target| found.contains(t) && #[trigger] import_of(package, t) == Some(path),
    )
}

/// Puts `x` in its place in the sorted list `v`, unless `v` holds it.
pub fn insert_sorted(v: &mut Vec<String>, x: String)
    requires
        strictly_sorted(old(v)@),
    ensures
        strictly_sorted(final(v)@),
        texts(final(v)@) == texts(old(v)@).insert(x@),
{
    let mut i: usize = 0;
    let mut place: Option<usize> = None;
    while i < v.len() && place.is_none()
        invariant
            v@ == old(v)@,
            strictly_sorted(v@),
            i <= v.len(),
            forall|k: int| 0 <= k < i && place is None ==> text_lt(#[trigger] v[k]@, x@),
            place matches Some(p) ==> p == i && i < v.len() && text_lt(x@, v[i as int]@) && forall|
                k: int,
            |
                0 <= k < i ==> text_lt(#[trigger] v[k]@, x@),
        decreases v.len() - i + (if place is None { 1int } else { 0 }),
    {
        match compare_text(v[i].as_str(), x.as_str()) {
            Order::Less => {
                i += 1;
            },
            Order::Equal => {
                proof {
                    assert(texts(v@).insert(x@) =~= texts(v@)) by {
                        assert(v[i as int]@ == x@);
                    }
                }
                return ;
            },
            Order::Greater => {
                place = Some(i);
            },
        }
    }
    let ghost before = v@;
    v.insert(i, x);
    proof {
        let after = v@;
        assert forall|a: int, b: int| 0 <= a < b < after.len() implies text_lt(
            #[trigger] after[a]@,
            #[trigger] after[b]@,
        ) by {
            if b < i {
                assert(after[a] == before[a] && after[b] == before[b]);
            } else if b == i {
                assert(after[a] == before[a]);
            } else if a == i {
                assert(after[b] == before[b - 1]);
                if b - 1 > i {
                    assert(text_lt(before[i as int]@, before[b - 1]@));
                    lemma_text_lt_transitive(x@, before[i as int]@, before[b - 1]@);
                }
            } else if a < i {
                assert(after[a] == before[a] && after[b] == before[b - 1]);
            } else {
                assert(after[a] == before[a - 1] && after[b] == before[b - 1]);
            }
        }
        assert forall|t: Seq<char>| texts(after).contains(t) <==> texts(before).insert(
            x@,
        ).contains(t) by {
            if texts(after).contains(t) {
                let k = choose|k: int| 0 <= k < after.len() && (#[trigger] after[k])@ == t;
                if k < i {
                    assert(before[k]@ == t);
                } else if k > i {
                    assert(before[k - 1]@ == t);
                }
            }
            if texts(before).contains(t) {
                let k = choose|k: int| 0 <= k < before.len() && (#[trigger] before[k])@ == t;
                if k < i {
                    assert(after[k]@ == t);
                } else {
                    assert(after[k + 1]@ == t);
                }
            }
            if t == x@ {
                assert(after[i as int]@ == t);
            }
        }
    }
}

/// Adds to the sorted list `imports` the files that the file of `package`
/// imports on account of `refs`.
pub fn add_imports(package: &str, refs: &Vec<Reference<'_>>, imports: &mut Vec<String>)
    requires
        strictly_sorted(old(imports)@),
    ensures
        strictly_sorted(final(imports)@),
        texts(final(imports)@) == texts(old(imports)@).union(
            imports_of(package@, targets(refs@)),
        ),
{
    let mut i: usize = 0;
    assert(texts(imports@).union(imports_of(package@, targets(refs@.take(0)))) =~= texts(
        imports@,
    ));
    while i < refs.len()
        invariant
            i <= refs.len(),
            strictly_sorted(imports@),
            texts(imports@) == texts(old(imports)@).union(
                imports_of(package@, targets(refs@.take(i as int))),
            ),
        decreases refs.len() - i,
    {
        let ghost seen = targets(refs@.take(i as int));
        match &refs[i] {
            Reference::File(path) => {
                insert_sorted(imports, String::from_str(path));
            },
            Reference::Message(other, _) => {
                match compare_text(other, package) {
                    Order::Equal => {},
                    _ => {
                        insert_sorted(imports, package_proto_file(other));
                    },
                }
            },
        }
        proof {
            let next = refs@.take(i + 1);
            assert(next =~= refs@.take(i as int).push(refs[i as int]));
            super::refs::lemma_targets_push(refs@.take(i as int), refs[i as int]);
            let more = targets(next);
            let t0 = refs[i as int]@;
            assert forall|path: Seq<char>|
                texts(imports@).contains(path) <==> texts(old(imports)@).union(
                    imports_of(package@, more),
                ).contains(path) by {
                if imports_of(package@, more).contains(path) {
                    let t = choose|t: Target|
                        more.contains(t) && #[trigger] import_of(package@, t) == Some(path);
                    if t != t0 {
                        assert(seen.contains(t));
                        assert(imports_of(package@, seen).contains(path));
                    }
                }
                if imports_of(package@, seen).contains(path) {
                    let t = choose|t: Target|
                        seen.contains(t) && #[trigger] import_of(package@, t) == Some(path);
                    assert(more.contains(t));
                }
                if import_of(package@, t0) == Some(path) {
                    assert(more.contains(t0));
                }
            }
        }
        i += 1;
    }
    assert(refs@.take(refs.len() as int) =~= refs@);
}

} // verus!
