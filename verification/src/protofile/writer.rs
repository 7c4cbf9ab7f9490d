//! The writer of `.proto` files.

use super::format::message_fmt;
use super::format::write_message;
use super::imports::add_imports;
use super::imports::imports_of;
use super::imports::package_proto_file;
use super::imports::proto_file_name;
use super::imports::strictly_sorted;
use super::imports::texts;
use super::package::emit;
use super::package::fresh;
use super::package::nl_owed;
use super::package::PackageWriter;
use super::package::WriterState;
use super::refs::collect_message_refs;
use super::refs::message_refs;
use super::refs::targets;
use super::refs::Reference;
use super::refs::Target;
use super::select::referenced_descriptors;
use super::select::discovered;
use super::select::has_key;
use super::select::lemma_lists_push;
use super::select::lists;
use super::select::stands_for_itself;
use super::text::compare_text;
use super::text::lemma_text_lt_irreflexive;
use super::text::lemma_text_lt_total;
use super::text::lemma_text_lt_transitive;
use super::text::same_text;
use super::text::text_lt;
use super::text::Order;
use super::MessageDescription;
use super::TopLevelDescriptor;
use vstd::prelude::*;
use vstd::string::*;

verus! {

/// Whether `a` comes before `b`: by package, then by name.
pub open spec fn key_lt(a: TopLevelDescriptor, b: TopLevelDescriptor) -> bool {
    text_lt(a.package@, b.package@) || (a.package@ == b.package@ && text_lt(
        a.message.name@,
        b.message.name@,
    ))
}

/// The order of descriptors is transitive.
pub proof fn lemma_key_lt_transitive(
    a: TopLevelDescriptor,
    b: TopLevelDescriptor,
    c: TopLevelDescriptor,
)
    requires
        key_lt(a, b),
        key_lt(b, c),
    ensures
        key_lt(a, c),
{
    lemma_text_lt_irreflexive(a.package@);
    lemma_text_lt_irreflexive(b.package@);
    if text_lt(a.package@, b.package@) && text_lt(b.package@, c.package@) {
        lemma_text_lt_transitive(a.package@, b.package@, c.package@);
    }
    if a.package@ == b.package@ && b.package@ == c.package@ {
        lemma_text_lt_transitive(a.message.name@, b.message.name@, c.message.name@);
    }
}

/// Compares two descriptors by package, then by name.
pub fn compare_keys(a: &TopLevelDescriptor, b: &TopLevelDescriptor) -> (r: Order)
    ensures
        r == Order::Less <==> key_lt(*a, *b),
        r == Order::Greater <==> key_lt(*b, *a),
        r == Order::Equal <==> a.package@ == b.package@ && a.message.name@ == b.message.name@,
{
    proof {
        lemma_text_lt_total(a.package@, b.package@);
        lemma_text_lt_total(a.message.name@, b.message.name@);
    }
    match compare_text(a.package.as_str(), b.package.as_str()) {
        Order::Less => Order::Less,
        Order::Greater => Order::Greater,
        Order::Equal => compare_text(a.message.name.as_str(), b.message.name.as_str()),
    }
}

/// Whether `selection` lists descriptors of `pool` in ascending order, so
/// that no two of them share package and name.
pub open spec fn sorted_by_key(pool: Seq<TopLevelDescriptor>, selection: Seq<usize>) -> bool {
    &&& forall|i: int| 0 <= i < selection.len() ==> #[trigger] selection[i] < pool.len()
    &&& forall|i: int, j: int|
        0 <= i < j < selection.len() ==> key_lt(
            pool[#[trigger] selection[i] as int],
            pool[#[trigger] selection[j] as int],
        )
}

/// Two descriptors that stand for themselves and share package and name
/// are one descriptor.
proof fn lemma_same_key_same_descriptor(pool: Seq<TopLevelDescriptor>, x: int, y: int)
    requires
        stands_for_itself(pool, x),
        stands_for_itself(pool, y),
        pool[x].package@ == pool[y].package@,
        pool[x].message.name@ == pool[y].message.name@,
    ensures
        x == y,
{
    if x < y {
        assert(!has_key(pool[x], pool[y].package@, pool[y].message.name@));
    } else if y < x {
        assert(!has_key(pool[y], pool[x].package@, pool[x].message.name@));
    }
}

/// Puts the descriptor `x` in its place in the sorted list `selection`,
/// unless the list holds it.
fn insert_by_key(pool: &[TopLevelDescriptor], selection: &mut Vec<usize>, x: usize)
    requires
        sorted_by_key(pool@, old(selection)@),
        stands_for_itself(pool@, x as int),
        forall|i: int|
            0 <= i < old(selection)@.len() ==> stands_for_itself(
                pool@,
                #[trigger] old(selection)@[i] as int,
            ),
    ensures
        sorted_by_key(pool@, final(selection)@),
        forall|i: int|
            0 <= i < final(selection)@.len() ==> stands_for_itself(
                pool@,
                #[trigger] final(selection)@[i] as int,
            ),
        forall|k: int| lists(final(selection)@, k) <==> lists(old(selection)@, k) || x as int == k,
{
    let mut i: usize = 0;
    let mut placed = false;
    while i < selection.len() && !placed
        invariant
            selection@ == old(selection)@,
            sorted_by_key(pool@, selection@),
            stands_for_itself(pool@, x as int),
            forall|k: int|
                0 <= k < selection@.len() ==> stands_for_itself(
                    pool@,
                    #[trigger] selection@[k] as int,
                ),
            i <= selection.len(),
            forall|k: int|
                0 <= k < i && !placed ==> key_lt(
                    pool@[#[trigger] selection@[k] as int],
                    pool@[x as int],
                ),
            placed ==> i < selection.len() && key_lt(
                pool@[x as int],
                pool@[selection@[i as int] as int],
            ) && forall|k: int|
                0 <= k < i ==> key_lt(pool@[#[trigger] selection@[k] as int], pool@[x as int]),
        decreases selection.len() - i + (if placed { 0int } else { 1 }),
    {
        match compare_keys(&pool[selection[i]], &pool[x]) {
            Order::Less => {
                i += 1;
            },
            Order::Equal => {
                // The list holds `x`: a descriptor of the same package and
                // name is the same descriptor.
                proof {
                    lemma_same_key_same_descriptor(pool@, selection@[i as int] as int, x as int);
                    assert(lists(selection@, x as int));
                }
                return ;
            },
            Order::Greater => {
                placed = true;
            },
        }
    }
    let ghost before = selection@;
    selection.insert(i, x);
    proof {
        let after = selection@;
        assert forall|a: int, b: int| 0 <= a < b < after.len() implies key_lt(
            pool@[#[trigger] after[a] as int],
            pool@[#[trigger] after[b] as int],
        ) by {
            if b < i {
                assert(after[a] == before[a] && after[b] == before[b]);
            } else if b == i {
                assert(after[a] == before[a]);
            } else if a == i {
                assert(after[b] == before[b - 1]);
                if b - 1 > i {
                    assert(key_lt(pool@[before[i as int] as int], pool@[before[b - 1] as int]));
                    lemma_key_lt_transitive(
                        pool@[x as int],
                        pool@[before[i as int] as int],
                        pool@[before[b - 1] as int],
                    );
                }
            } else if a < i {
                assert(after[a] == before[a] && after[b] == before[b - 1]);
            } else {
                assert(after[a] == before[a - 1] && after[b] == before[b - 1]);
            }
        }
        assert forall|k: int| 0 <= k < after.len() implies #[trigger] after[k] < pool@.len()
            && stands_for_itself(pool@, after[k] as int) by {
            if k < i {
                assert(after[k] == before[k]);
            } else if k > i {
                assert(after[k] == before[k - 1]);
            }
        }
        assert forall|k: int| lists(after, k) <==> lists(before, k) || x as int == k by {
            lemma_lists_insert(before, i as int, x, k);
        }
    }
}

/// What a list holds after `x` is put in at place `i`.
pub proof fn lemma_lists_insert(list: Seq<usize>, i: int, x: usize, k: int)
    requires
        0 <= i <= list.len(),
    ensures
        lists(list.insert(i, x), k) <==> lists(list, k) || x as int == k,
{
    let more = list.insert(i, x);
    if lists(list, k) {
        let j = choose|j: int| 0 <= j < list.len() && #[trigger] list[j] as int == k;
        if j < i {
            assert(more[j] as int == k);
        } else {
            assert(more[j + 1] as int == k);
        }
    }
    if x as int == k {
        assert(more[i] as int == k);
    }
    if lists(more, k) {
        let j = choose|j: int| 0 <= j < more.len() && #[trigger] more[j] as int == k;
        if j < i {
            assert(list[j] as int == k);
        } else if j > i {
            assert(list[j - 1] as int == k);
        }
    }
}

/// The descriptors that `found` lists, in ascending order, each once
/// however often `found` lists it.
pub fn sort_by_key(pool: &[TopLevelDescriptor], found: &Vec<usize>) -> (selection: Vec<usize>)
    requires
        forall|i: int| 0 <= i < found@.len() ==> stands_for_itself(pool@, #[trigger] found@[i] as int),
    ensures
        sorted_by_key(pool@, selection@),
        forall|k: int| lists(selection@, k) <==> lists(found@, k),
{
    let mut selection: Vec<usize> = Vec::new();
    let mut t: usize = 0;
    while t < found.len()
        invariant
            t <= found@.len(),
            sorted_by_key(pool@, selection@),
            forall|k: int| lists(selection@, k) <==> lists(found@.take(t as int), k),
            forall|i: int|
                0 <= i < selection@.len() ==> stands_for_itself(
                    pool@,
                    #[trigger] selection@[i] as int,
                ),
            forall|i: int|
                0 <= i < found@.len() ==> stands_for_itself(pool@, #[trigger] found@[i] as int),
        decreases found@.len() - t,
    {
        let x = found[t];
        let ghost before = selection@;
        assert(stands_for_itself(pool@, found@[t as int] as int));
        insert_by_key(pool, &mut selection, x);
        proof {
            assert(found@.take(t + 1) =~= found@.take(t as int).push(x));
            assert forall|k: int| lists(selection@, k) <==> lists(found@.take(t + 1), k) by {
                lemma_lists_push(found@.take(t as int), x, k);
            }
        }
        t += 1;
    }
    assert(found@.take(found@.len() as int) =~= found@);
    selection
}

/// One `.proto` file: its name and its text.
pub struct ProtoFile {
    pub name: String,
    pub text: String,
}

/// The state after the head of a package's file is written: the heading,
/// the notice, the syntax and the package.
pub open spec fn head_fmt(heading: Seq<char>, package: Seq<char>) -> WriterState {
    nl_owed(
        emit(
            emit(
                emit(
                    emit(fresh(), heading),
                    "// Autogenerated, do not edit.\n\nsyntax = \"proto3\";\npackage "@,
                ),
                package,
            ),
            ";\n"@,
        ),
    )
}

/// The state after the `import` lines `0..n` are written.
pub open spec fn imports_fmt(w: WriterState, imports: Seq<String>, n: nat) -> WriterState
    decreases n,
{
    if n == 0 || n > imports.len() {
        w
    } else {
        emit(
            emit(emit(imports_fmt(w, imports, (n - 1) as nat), "import \""@), imports[n - 1]@),
            "\";\n"@,
        )
    }
}

/// The state after the messages `selection[from..to]` are written.
pub open spec fn group_fmt(
    w: WriterState,
    pool: Seq<TopLevelDescriptor>,
    selection: Seq<usize>,
    from: int,
    to: int,
) -> WriterState
    decreases to - from,
{
    if to <= from {
        w
    } else {
        message_fmt(
            group_fmt(w, pool, selection, from, to - 1),
            pool[selection[to - 1] as int].message,
        )
    }
}

/// What the messages `selection[from..to]` refer to.
pub open spec fn group_refs(
    pool: Seq<TopLevelDescriptor>,
    selection: Seq<usize>,
    from: int,
    to: int,
) -> Set<Target>
    decreases to - from,
{
    if to <= from {
        Set::empty()
    } else {
        group_refs(pool, selection, from, to - 1).union(
            message_refs(pool[selection[to - 1] as int].message),
        )
    }
}

/// Where the run of messages ends that share the package of
/// `selection[from]`, looking from `at` on.
pub open spec fn group_end(
    pool: Seq<TopLevelDescriptor>,
    selection: Seq<usize>,
    from: int,
    at: int,
) -> int
    decreases selection.len() - at,
{
    if 0 <= from <= at < selection.len() && pool[selection[at] as int].package@
        == pool[selection[from] as int].package@ {
        group_end(pool, selection, from, at + 1)
    } else {
        at
    }
}

/// The text of the file that holds the messages `selection[from..to]` and
/// imports `imports`.
pub open spec fn file_text(
    heading: Seq<char>,
    pool: Seq<TopLevelDescriptor>,
    selection: Seq<usize>,
    from: int,
    to: int,
    imports: Seq<String>,
) -> Seq<char> {
    let package = pool[selection[from] as int].package@;
    let w1 = imports_fmt(head_fmt(heading, package), imports, imports.len());
    group_fmt(nl_owed(w1), pool, selection, from, to).out
}

/// Whether `file` is the file of the messages `selection[from..to]`, which
/// share a package: named after the package, importing in ascending order,
/// each once, the files that the messages need.
pub open spec fn is_file_of(
    heading: Seq<char>,
    pool: Seq<TopLevelDescriptor>,
    selection: Seq<usize>,
    from: int,
    to: int,
    file: ProtoFile,
) -> bool {
    let package = pool[selection[from] as int].package@;
    &&& file.name@ == proto_file_name(package)
    &&& exists|imports: Seq<String>|
        {
            &&& strictly_sorted(imports)
            &&& texts(imports) == imports_of(package, group_refs(pool, selection, from, to))
            &&& file.text@ == #[trigger] file_text(heading, pool, selection, from, to, imports)
        }
}

/// Whether `files` are the files of the messages `selection[from..]`, one
/// file for each run of messages that share a package.
pub open spec fn are_files_of(
    heading: Seq<char>,
    pool: Seq<TopLevelDescriptor>,
    selection: Seq<usize>,
    from: int,
    files: Seq<ProtoFile>,
) -> bool
    decreases selection.len() - from,
{
    if from < 0 || from >= selection.len() {
        files.len() == 0
    } else {
        let to = group_end(pool, selection, from, from + 1);
        if to <= from || to > selection.len() || files.len() == 0 {
            false
        } else if is_file_of(heading, pool, selection, from, to, files[0]) {
            are_files_of(heading, pool, selection, to, files.drop_first())
        } else {
            false
        }
    }
}

/// Whether `done`, followed by `rest`, are the files of all the messages
/// of `selection`.
#[verifier::opaque]
pub open spec fn completes(
    heading: Seq<char>,
    pool: Seq<TopLevelDescriptor>,
    selection: Seq<usize>,
    done: Seq<ProtoFile>,
    rest: Seq<ProtoFile>,
) -> bool {
    are_files_of(heading, pool, selection, 0, done + rest)
}

/// If `done` lacks only the files of `selection[from..]`, then with the file
/// of the run that starts at `from` it lacks only the files after the run.
proof fn lemma_next_file(
    heading: Seq<char>,
    pool: Seq<TopLevelDescriptor>,
    selection: Seq<usize>,
    from: int,
    to: int,
    done: Seq<ProtoFile>,
    file: ProtoFile,
)
    requires
        0 <= from < to <= selection.len(),
        to == group_end(pool, selection, from, from + 1),
        is_file_of(heading, pool, selection, from, to, file),
        forall|rest: Seq<ProtoFile>| #[trigger]
            are_files_of(heading, pool, selection, from, rest) ==> completes(
                heading,
                pool,
                selection,
                done,
                rest,
            ),
    ensures
        forall|rest: Seq<ProtoFile>| #[trigger]
            are_files_of(heading, pool, selection, to, rest) ==> completes(
                heading,
                pool,
                selection,
                done.push(file),
                rest,
            ),
{
    assert forall|rest: Seq<ProtoFile>| #[trigger]
        are_files_of(heading, pool, selection, to, rest) implies completes(
        heading,
        pool,
        selection,
        done.push(file),
        rest,
    ) by {
        let longer = seq![file] + rest;
        assert(longer[0] == file);
        assert(longer.drop_first() =~= rest);
        assert(are_files_of(heading, pool, selection, from, longer));
        assert(completes(heading, pool, selection, done, longer));
        reveal(completes);
        assert(done.push(file) + rest =~= done + longer);
    }
}

/// Writes protobuf descriptors to `.proto` files, one file per package.
pub struct DescriptorWriter<'a> {
    pool: &'a [TopLevelDescriptor],
    descriptors: Vec<usize>,
    file_heading: &'a str,
}

impl<'a> DescriptorWriter<'a> {
    #[verifier::type_invariant]
    spec fn well_formed(self) -> bool {
        sorted_by_key(self.pool@, self.descriptors@)
    }

    /// The descriptors that the writer chooses from.
    pub closed spec fn pool(self) -> Seq<TopLevelDescriptor> {
        self.pool@
    }

    /// The descriptors that the writer writes, by their place in the pool.
    pub closed spec fn selection(self) -> Seq<usize> {
        self.descriptors@
    }

    /// The heading written at the top of each file.
    pub closed spec fn heading(self) -> Seq<char> {
        self.file_heading@
    }

    /// A writer for the messages that `descriptors` name and for every
    /// message of `pool` that those refer to, directly or through others.
    ///
    /// The messages are kept in ascending order of package and name, each
    /// once, however often it is named or referred to.
    pub fn new(pool: &'a [TopLevelDescriptor], descriptors: &[MessageDescription]) -> (r: Self)
        ensures
            r.pool() == pool@,
            r.heading() == Seq::<char>::empty(),
            sorted_by_key(pool@, r.selection()),
            exists|order: Seq<usize>| #[trigger]
                discovered(pool@, descriptors@, order) && forall|k: int|
                    lists(r.selection(), k) <==> lists(order, k),
    {
        // First find all the descriptors starting with the provided roots.
        let found = referenced_descriptors(pool, descriptors);
        // Sort the descriptors to get a consistent order from run to run.
        let sorted = sort_by_key(pool, &found);
        proof {
            reveal_strlit("");
        }
        DescriptorWriter { pool, descriptors: sorted, file_heading: "" }
    }

    /// Sets the heading written at the top of each file.
    pub fn file_heading(&mut self, file_heading: &'a str) -> (r: &mut Self)
        ensures
            r.heading() == file_heading@,
            r.pool() == old(self).pool(),
            r.selection() == old(self).selection(),
            *final(self) == *final(r),
    {
        proof {
            use_type_invariant(&*self);
        }
        self.file_heading = file_heading;
        self
    }

    /// How many messages the writer writes.
    pub fn message_count(&self) -> (n: usize)
        ensures
            n == self.selection().len(),
    {
        self.descriptors.len()
    }

    /// Where the run of messages ends that starts at `from` and shares one
    /// package.
    fn package_end(&self, from: usize) -> (to: usize)
        requires
            from < self.selection().len(),
        ensures
            from < to <= self.selection().len(),
            to == group_end(self.pool(), self.selection(), from as int, from + 1),
    {
        proof {
            use_type_invariant(self);
        }
        let n = self.descriptors.len();
        let first = &self.pool[self.descriptors[from]];
        let mut to: usize = from + 1;
        while to < n && same_text(
            self.pool[self.descriptors[to]].package.as_str(),
            first.package.as_str(),
        )
            invariant
                n == self.descriptors@.len(),
                from < to <= n,
                sorted_by_key(self.pool@, self.descriptors@),
                *first == self.pool@[self.descriptors@[from as int] as int],
                group_end(self.pool@, self.descriptors@, from as int, from + 1) == group_end(
                    self.pool@,
                    self.descriptors@,
                    from as int,
                    to as int,
                ),
            decreases n - to,
        {
            to += 1;
        }
        to
    }

    /// Writes the text of the file for the messages `from..to`, which share
    /// a package.
    fn write_package(&self, from: usize, to: usize) -> (file: ProtoFile)
        requires
            from < to <= self.selection().len(),
        ensures
            is_file_of(self.heading(), self.pool(), self.selection(), from as int, to as int, file),
    {
        proof {
            use_type_invariant(self);
        }
        let package = self.pool[self.descriptors[from]].package.as_str();
        let mut writer = PackageWriter::new(package);
        writer.write_all(self.file_heading);
        writer.write_all("// Autogenerated, do not edit.\n\nsyntax = \"proto3\";\npackage ");
        writer.write_all(package);
        writer.write_all(";\n");
        writer.nl_next();

        // Collect imports.
        let mut imports: Vec<String> = Vec::new();
        let mut k: usize = from;
        while k < to
            invariant
                from <= k <= to <= self.descriptors@.len(),
                sorted_by_key(self.pool@, self.descriptors@),
                strictly_sorted(imports@),
                texts(imports@) == imports_of(
                    package@,
                    group_refs(self.pool@, self.descriptors@, from as int, k as int),
                ),
            decreases to - k,
        {
            let mut refs: Vec<Reference<'_>> = Vec::new();
            collect_message_refs(&self.pool[self.descriptors[k]].message, &mut refs);
            add_imports(package, &refs, &mut imports);
            proof {
                let seen = group_refs(self.pool@, self.descriptors@, from as int, k as int);
                let more = group_refs(self.pool@, self.descriptors@, from as int, k + 1);
                assert(imports_of(package@, more) =~= imports_of(package@, seen).union(
                    imports_of(package@, targets(refs@)),
                )) by {
                    assert forall|path: Seq<char>|
                        imports_of(package@, more).contains(path) <==> imports_of(
                            package@,
                            seen,
                        ).union(imports_of(package@, targets(refs@))).contains(path) by {
                        if imports_of(package@, more).contains(path) {
                            let t = choose|t: Target|
                                more.contains(t) && #[trigger] super::imports::import_of(
                                    package@,
                                    t,
                                ) == Some(path);
                            if seen.contains(t) {
                                assert(imports_of(package@, seen).contains(path));
                            } else {
                                assert(imports_of(package@, targets(refs@)).contains(path));
                            }
                        }
                        if imports_of(package@, seen).contains(path) {
                            let t = choose|t: Target|
                                seen.contains(t) && #[trigger] super::imports::import_of(
                                    package@,
                                    t,
                                ) == Some(path);
                            assert(more.contains(t));
                        }
                        if imports_of(package@, targets(refs@)).contains(path) {
                            let t = choose|t: Target|
                                targets(refs@).contains(t) && #[trigger] super::imports::import_of(
                                    package@,
                                    t,
                                ) == Some(path);
                            assert(more.contains(t));
                        }
                    }
                }
            }
            k += 1;
        }

        let ghost headed = writer@;
        let mut i: usize = 0;
        while i < imports.len()
            invariant
                i <= imports@.len(),
                writer@ == imports_fmt(headed, imports@, i as nat),
            decreases imports@.len() - i,
        {
            writer.write_all("import \"");
            writer.write_all(imports[i].as_str());
            writer.write_all("\";\n");
            i += 1;
        }
        writer.nl_next();

        // Collect messages.
        let ghost imported = writer@;
        let mut k: usize = from;
        while k < to
            invariant
                from <= k <= to <= self.descriptors@.len(),
                sorted_by_key(self.pool@, self.descriptors@),
                writer@ == group_fmt(imported, self.pool@, self.descriptors@, from as int, k as int),
            decreases to - k,
        {
            write_message(&mut writer, &self.pool[self.descriptors[k]].message);
            k += 1;
        }
        let file = ProtoFile { name: package_proto_file(package), text: writer.into_text() };
        proof {
            assert(file.text@ == file_text(
                self.heading(),
                self.pool(),
                self.selection(),
                from as int,
                to as int,
                imports@,
            ));
        }
        file
    }

    /// The `.proto` files: one for each package, in ascending order of
    /// package, each with its messages in ascending order of name.
    pub fn write(&self) -> (files: Vec<ProtoFile>)
        ensures
            sorted_by_key(self.pool(), self.selection()),
            are_files_of(self.heading(), self.pool(), self.selection(), 0, files@),
    {
        proof {
            use_type_invariant(self);
        }
        let mut files: Vec<ProtoFile> = Vec::new();
        let n = self.descriptors.len();
        let mut from: usize = 0;
        proof {
            assert forall|rest: Seq<ProtoFile>| #[trigger]
                are_files_of(
                    self.heading(),
                    self.pool(),
                    self.selection(),
                    0,
                    rest,
                ) implies completes(
                self.heading(),
                self.pool(),
                self.selection(),
                files@,
                rest,
            ) by {
                reveal(completes);
                assert(files@ + rest =~= rest);
            }
        }
        while from < n
            invariant
                n == self.selection().len(),
                from <= n,
                forall|rest: Seq<ProtoFile>| #[trigger]
                    are_files_of(self.heading(), self.pool(), self.selection(), from as int, rest)
                        ==> completes(
                        self.heading(),
                        self.pool(),
                        self.selection(),
                        files@,
                        rest,
                    ),
            decreases n - from,
        {
            let to = self.package_end(from);
            let file = self.write_package(from, to);
            proof {
                lemma_next_file(
                    self.heading(),
                    self.pool(),
                    self.selection(),
                    from as int,
                    to as int,
                    files@,
                    file,
                );
            }
            files.push(file);
            from = to;
        }
        proof {
            reveal(completes);
            let none = Seq::<ProtoFile>::empty();
            assert(are_files_of(self.heading(), self.pool(), self.selection(), from as int, none));
        }
        files
    }
}

} // verus!
