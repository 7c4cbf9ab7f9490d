//! What a message refers to: other messages and `.proto` files.

use super::format::member_count;
use super::format::count_members;
use super::FieldDescriptor;
use super::FieldKind;
use super::FieldType;
use super::MessageDescription;
use super::MessageDescriptor;
use super::OneofDescriptor;
use vstd::prelude::*;

verus! {

/// Something that a field's type refers to.
pub enum Target {
    /// A `.proto` file to import, by its path.
    File(Seq<char>),
    /// A top-level message, by package and name.
    Message(Seq<char>, Seq<char>),
}

/// A reference found in a descriptor.
pub enum Reference<'a> {
    /// A `.proto` file to import, by its path.
    File(&'a str),
    /// A top-level message, by package and name.
    Message(&'a str, &'a str),
}

impl<'a> View for Reference<'a> {
    type V = Target;

    open spec fn view(&self) -> Target {
        match self {
            Reference::File(path) => Target::File(path@),
            Reference::Message(package, name) => Target::Message(package@, name@),
        }
    }
}

/// The targets of a list of references.
pub open spec fn targets(refs: Seq<Reference<'_>>) -> Set<Target> {
    Set::new(|t: Target| exists|i: int| 0 <= i < refs.len() && (#[trigger] refs[i])@ == t)
}

/// Adding a reference adds its target.
pub proof fn lemma_targets_push(refs: Seq<Reference<'_>>, r: Reference<'_>)
    ensures
        targets(refs.push(r)) == targets(refs).insert(r@),
{
    let more = refs.push(r);
    assert forall|t: Target| targets(more).contains(t) <==> targets(refs).insert(r@).contains(
        t,
    ) by {
        if targets(more).contains(t) {
            let i = choose|i: int| 0 <= i < more.len() && (#[trigger] more[i])@ == t;
            if i < refs.len() {
                assert(refs[i]@ == t);
            }
        }
        if targets(refs).contains(t) {
            let i = choose|i: int| 0 <= i < refs.len() && (#[trigger] refs[i])@ == t;
            assert(more[i]@ == t);
        }
        if t == r@ {
            assert(more[refs.len() as int]@ == t);
        }
    }
}

/// What a field's type refers to: the file of an external type, a message,
/// and whatever the members of a tuple refer to.
pub open spec fn type_refs(ty: FieldType) -> Set<Target>
    decreases ty, 0nat,
{
    match ty.kind {
        FieldKind::Builtin(_) => Set::empty(),
        FieldKind::Local(_) => Set::empty(),
        FieldKind::External { name, import_path } => set![Target::File(import_path@)],
        FieldKind::Message(MessageDescription::Internal { package, name }) => set![
            Target::Message(package@, name@),
        ],
        FieldKind::Message(MessageDescription::External { name, import_path }) => set![
            Target::File(import_path@),
        ],
        FieldKind::Tuple(types) => members_refs(types@, types@.len()),
        FieldKind::KeyValue(types) => members_refs(types@, member_count(types@, true)),
    }
}

/// What the members `0..n` of a tuple refer to.
pub open spec fn members_refs(types: Seq<FieldType>, n: nat) -> Set<Target>
    decreases types, n,
{
    if n == 0 || n > types.len() {
        Set::empty()
    } else {
        members_refs(types, (n - 1) as nat).union(type_refs(types[n - 1]))
    }
}

/// What the fields `0..n` refer to.
pub open spec fn fields_refs(fields: Seq<FieldDescriptor>, n: nat) -> Set<Target>
    decreases n,
{
    if n == 0 || n > fields.len() {
        Set::empty()
    } else {
        fields_refs(fields, (n - 1) as nat).union(type_refs(fields[n - 1].field_type))
    }
}

/// What the variants of the groups `0..n` refer to.
pub open spec fn oneofs_refs(oneofs: Seq<OneofDescriptor>, n: nat) -> Set<Target>
    decreases n,
{
    if n == 0 || n > oneofs.len() {
        Set::empty()
    } else {
        oneofs_refs(oneofs, (n - 1) as nat).union(
            fields_refs(oneofs[n - 1].variants@, oneofs[n - 1].variants@.len()),
        )
    }
}

/// What a message refers to, in its fields, its groups and its nested
/// messages.
pub open spec fn message_refs(message: MessageDescriptor) -> Set<Target>
    decreases message, 0nat,
{
    fields_refs(message.fields@, message.fields@.len()).union(
        oneofs_refs(message.oneofs@, message.oneofs@.len()),
    ).union(messages_refs(message.messages@, message.messages@.len()))
}

/// What the messages `0..n` refer to.
pub open spec fn messages_refs(messages: Seq<MessageDescriptor>, n: nat) -> Set<Target>
    decreases messages, n,
{
    if n == 0 || n > messages.len() {
        Set::empty()
    } else {
        messages_refs(messages, (n - 1) as nat).union(message_refs(messages[n - 1]))
    }
}

/// Adds to `out` what `ty` refers to.
pub fn collect_type_refs<'a>(ty: &'a FieldType, out: &mut Vec<Reference<'a>>)
    ensures
        targets(final(out)@) == targets(old(out)@).union(type_refs(*ty)),
    decreases ty, 0nat,
{
    match &ty.kind {
        FieldKind::Builtin(_) => {
        },
        FieldKind::Local(_) => {
        },
        FieldKind::External { name: _, import_path } => {
            let r = Reference::File(import_path.as_str());
            proof {
                lemma_targets_push(out@, r);
            }
            out.push(r);
        },
        FieldKind::Message(MessageDescription::Internal { package, name }) => {
            let r = Reference::Message(package.as_str(), name.as_str());
            proof {
                lemma_targets_push(out@, r);
            }
            out.push(r);
        },
        FieldKind::Message(MessageDescription::External { name: _, import_path }) => {
            let r = Reference::File(import_path.as_str());
            proof {
                lemma_targets_push(out@, r);
            }
            out.push(r);
        },
        FieldKind::Tuple(types) => {
            collect_members_refs(types.as_slice(), types.len(), out);
        },
        FieldKind::KeyValue(types) => {
            let n = count_members(types.as_slice(), true);
            collect_members_refs(types.as_slice(), n, out);
        },
    }
}

/// Adds to `out` what the members `0..n` of a tuple refer to.
pub fn collect_members_refs<'a>(types: &'a [FieldType], n: usize, out: &mut Vec<Reference<'a>>)
    requires
        n <= types@.len(),
    ensures
        targets(final(out)@) == targets(old(out)@).union(members_refs(types@, n as nat)),
    decreases types@, n,
{
    if n == 0 {
        assert(targets(out@).union(Set::empty()) =~= targets(out@));
    } else {
        collect_members_refs(types, n - 1, out);
        collect_type_refs(&types[n - 1], out);
        assert(targets(out@) =~= targets(old(out)@).union(members_refs(types@, n as nat)));
    }
}

/// Adds to `out` what the fields refer to.
pub fn collect_fields_refs<'a>(fields: &'a [FieldDescriptor], out: &mut Vec<Reference<'a>>)
    ensures
        targets(final(out)@) == targets(old(out)@).union(fields_refs(fields@, fields@.len())),
{
    let mut i: usize = 0;
    while i < fields.len()
        invariant
            i <= fields@.len(),
            targets(out@) == targets(old(out)@).union(fields_refs(fields@, i as nat)),
        decreases fields@.len() - i,
    {
        collect_type_refs(&fields[i].field_type, out);
        i += 1;
    }
}

/// Adds to `out` what the variants of the groups refer to.
pub fn collect_oneofs_refs<'a>(oneofs: &'a [OneofDescriptor], out: &mut Vec<Reference<'a>>)
    ensures
        targets(final(out)@) == targets(old(out)@).union(oneofs_refs(oneofs@, oneofs@.len())),
{
    let mut i: usize = 0;
    while i < oneofs.len()
        invariant
            i <= oneofs@.len(),
            targets(out@) == targets(old(out)@).union(oneofs_refs(oneofs@, i as nat)),
        decreases oneofs@.len() - i,
    {
        collect_fields_refs(oneofs[i].variants.as_slice(), out);
        i += 1;
    }
}

/// Adds to `out` what `message` refers to.
pub fn collect_message_refs<'a>(message: &'a MessageDescriptor, out: &mut Vec<Reference<'a>>)
    ensures
        targets(final(out)@) == targets(old(out)@).union(message_refs(*message)),
    decreases message, 0nat,
{
    collect_fields_refs(message.fields.as_slice(), out);
    collect_oneofs_refs(message.oneofs.as_slice(), out);
    let ghost before = targets(out@);
    let mut i: usize = 0;
    while i < message.messages.len()
        invariant
            i <= message.messages@.len(),
            targets(out@) == before.union(messages_refs(message.messages@, i as nat)),
        decreases message.messages@.len() - i,
    {
        collect_message_refs(&message.messages[i], out);
        i += 1;
    }
}

} // verus!
