//! The text of messages, fields and `oneof` groups.
//!
//! Each spec function gives the writer's state after one item is written,
//! as a chain of chunks handed to the writer; the function of the same
//! purpose below it writes the item.

use super::package::emit;
use super::package::indented;
use super::package::nl_owed;
use super::package::unindented;
use super::package::PackageWriter;
use super::package::WriterState;
use super::text::chars_of;
use super::text::decimal;
use super::text::decimal_string;
use super::text::lemma_line_end_bounds;
use super::text::line_end;
use super::text::trim_line;
use super::text::trimmed;
use super::FieldDescriptor;
use super::FieldKind;
use super::FieldType;
use super::MessageDescription;
use super::MessageDescriptor;
use super::OneofDescriptor;
use super::SequenceType;
use heck::ToUpperCamelCase;
use vstd::prelude::*;
use vstd::string::*;

verus! {

/// `name` in upper camel case, as `heck` converts it.
pub uninterp spec fn upper_camel_case(name: Seq<char>) -> Seq<char>;

/// `heck::ToUpperCamelCase::to_upper_camel_case`: the name in upper camel
/// case. The result depends on the name alone.
#[verifier::external_body]
fn to_upper_camel_case(name: &str) -> (r: String)
    ensures
        r@ == upper_camel_case(name@),
{
    name.to_upper_camel_case()
}

/// The state after the lines of a comment are written, each behind `//`.
/// Lines of a field's comment lose their trailing white space.
pub open spec fn comment_lines_fmt(w: WriterState, comment: Seq<char>, trim: bool) -> WriterState
    decreases comment.len(),
{
    let k = line_end(comment);
    let line = comment.take(k);
    let shown = if trim {
        trimmed(line)
    } else {
        line
    };
    let w1 = emit(emit(emit(w, "//"@), shown), "\n"@);
    if k < 0 || k >= comment.len() {
        w1
    } else {
        comment_lines_fmt(w1, comment.skip(k + 1), trim)
    }
}

/// The state after a comment is written. An empty comment writes nothing.
pub open spec fn comment_fmt(w: WriterState, comment: Seq<char>, trim: bool) -> WriterState {
    if comment.len() == 0 {
        w
    } else {
        comment_lines_fmt(w, comment, trim)
    }
}

/// The name of member `i` of a tuple message: `field1`, `field2`, and so
/// on; `key` and `value` for a key and a value.
pub open spec fn member_name(i: nat, key_value: bool) -> Seq<char> {
    if key_value {
        if i == 0 {
            "key"@
        } else {
            "value"@
        }
    } else {
        "field"@ + decimal(i + 1)
    }
}

/// How many members of a tuple message are written.
pub open spec fn member_count(types: Seq<FieldType>, key_value: bool) -> nat {
    if key_value && types.len() > 2 {
        2
    } else {
        types.len()
    }
}

/// The state after the type of a field named `field_name` is written.
pub open spec fn type_name_fmt(w: WriterState, field_name: Seq<char>, ty: FieldType) -> WriterState {
    match ty.kind {
        FieldKind::Builtin(name) => emit(w, name@),
        FieldKind::Local(name) => emit(w, name@),
        FieldKind::External { name, import_path } => emit(emit(w, "."@), name@),
        FieldKind::Message(MessageDescription::Internal { package, name }) => emit(
            emit(emit(emit(w, "."@), package@), "."@),
            name@,
        ),
        FieldKind::Message(MessageDescription::External { name, import_path }) => emit(
            emit(w, "."@),
            name@,
        ),
        FieldKind::Tuple(_) => emit(w, upper_camel_case(field_name)),
        FieldKind::KeyValue(_) => emit(w, upper_camel_case(field_name)),
    }
}

/// The state after the words that stand before a field's type are
/// written. A message field is optional by itself and gets no word.
pub open spec fn label_fmt(w: WriterState, ty: FieldType) -> WriterState {
    match ty.sequence_type {
        Some(SequenceType::Optional) => if ty.is_message() {
            w
        } else {
            emit(w, "optional "@)
        },
        Some(SequenceType::Repeated) => emit(w, "repeated "@),
        Some(SequenceType::MapKey(key)) => emit(emit(emit(w, "map<"@), key@), ", "@),
        None => w,
    }
}

/// The state after the end of a field's line is written: name, number,
/// annotation and line feed.
pub open spec fn field_tail_fmt(
    w: WriterState,
    name: Seq<char>,
    number: nat,
    annotation: Seq<char>,
) -> WriterState {
    let w1 = emit(emit(emit(emit(emit(w, " "@), name), " = "@), decimal(number)), ";"@);
    let w2 = if annotation.len() > 0 {
        emit(emit(w1, " // "@), annotation)
    } else {
        w1
    };
    emit(w2, "\n"@)
}

/// The state after a field is written: its comment and its line.
pub open spec fn field_fmt(
    w: WriterState,
    comment: Seq<char>,
    name: Seq<char>,
    number: nat,
    ty: FieldType,
) -> WriterState {
    let w1 = comment_fmt(w, comment, true);
    let w2 = label_fmt(w1, ty);
    let w3 = type_name_fmt(w2, name, ty);
    let w4 = if ty.sequence_type matches Some(SequenceType::MapKey(_)) {
        emit(w3, ">"@)
    } else {
        w3
    };
    field_tail_fmt(w4, name, number, ty.annotation@)
}

/// The state after a field is written whose type is the tuple message
/// named after the field.
pub open spec fn wrapped_field_fmt(
    w: WriterState,
    comment: Seq<char>,
    name: Seq<char>,
    number: nat,
) -> WriterState {
    let w1 = comment_fmt(w, comment, true);
    let w2 = emit(w1, upper_camel_case(name));
    field_tail_fmt(w2, name, number, Seq::<char>::empty())
}

/// The state after the member fields `0..n` of a tuple message are written.
pub open spec fn member_fields_fmt(
    w: WriterState,
    types: Seq<FieldType>,
    key_value: bool,
    n: nat,
) -> WriterState
    decreases n,
{
    if n == 0 || n > types.len() {
        w
    } else {
        field_fmt(
            member_fields_fmt(w, types, key_value, (n - 1) as nat),
            Seq::<char>::empty(),
            member_name((n - 1) as nat, key_value),
            n,
            types[n - 1],
        )
    }
}

/// The state after the message that a field's type needs, if it needs one,
/// is written: a tuple, or a key and a value, is a message named after the
/// field.
pub open spec fn nested_type_fmt(w: WriterState, field_name: Seq<char>, ty: FieldType) -> WriterState
    decreases ty, 0nat,
{
    match ty.kind {
        FieldKind::Tuple(types) => tuple_message_fmt(
            w,
            upper_camel_case(field_name),
            types@,
            false,
        ),
        FieldKind::KeyValue(types) => tuple_message_fmt(
            w,
            upper_camel_case(field_name),
            types@,
            true,
        ),
        _ => w,
    }
}

/// The state after the messages that the members `0..n` of a tuple message
/// need are written.
pub open spec fn nested_members_fmt(
    w: WriterState,
    types: Seq<FieldType>,
    key_value: bool,
    n: nat,
) -> WriterState
    decreases types, n,
{
    if n == 0 || n > types.len() {
        w
    } else {
        nested_type_fmt(
            nested_members_fmt(w, types, key_value, (n - 1) as nat),
            member_name((n - 1) as nat, key_value),
            types[n - 1],
        )
    }
}

/// The state after a tuple message is written: a message named `name` with
/// one field per member.
pub open spec fn tuple_message_fmt(
    w: WriterState,
    name: Seq<char>,
    types: Seq<FieldType>,
    key_value: bool,
) -> WriterState
    decreases types, types.len() + 1,
{
    let n = member_count(types, key_value);
    let w1 = indented(emit(emit(emit(w, "message "@), name), " {\n"@));
    let w2 = nested_members_fmt(w1, types, key_value, n);
    let w3 = member_fields_fmt(w2, types, key_value, n);
    nl_owed(emit(unindented(w3), "}\n"@))
}

/// Writes the lines of `comment`, each behind `//`.
pub fn write_comment(w: &mut PackageWriter<'_>, comment: &str, trim: bool)
    ensures
        final(w)@ == comment_fmt(old(w)@, comment@, trim),
        final(w)@.indent == old(w)@.indent,
        final(w).package() == old(w).package(),
{
    if comment.is_empty() {
        return ;
    }
    let chars = chars_of(comment);
    let n = chars.len();
    let mut start: usize = 0;
    proof {
        assert(comment@.skip(0) =~= comment@);
    }
    loop
        invariant
            chars@ == comment@,
            n == chars.len(),
            start <= n,
            comment_fmt(old(w)@, comment@, trim) == comment_lines_fmt(
                w@,
                comment@.skip(start as int),
                trim,
            ),
            w@.indent == old(w)@.indent,
            w.package() == old(w).package(),
        decreases n - start,
    {
        let ghost rest = comment@.skip(start as int);
        let mut end = start;
        while end < n && chars[end] != '\n'
            invariant
                chars@ == comment@,
                n == chars.len(),
                start <= end <= n,
                rest == comment@.skip(start as int),
                line_end(rest) == (end - start) + line_end(comment@.skip(end as int)),
            decreases n - end,
        {
            proof {
                assert(comment@.skip(end as int).drop_first() =~= comment@.skip(end + 1));
            }
            end += 1;
        }
        proof {
            lemma_line_end_bounds(rest);
            assert(rest.take(end - start) =~= comment@.subrange(start as int, end as int));
            if end < n {
                assert(rest.skip(end - start + 1) =~= comment@.skip(end + 1));
            }
        }
        let line = comment.substring_char(start, end);
        w.write_all("//");
        if trim {
            w.write_all(trim_line(line));
        } else {
            w.write_all(line);
        }
        w.write_all("\n");
        if end >= n {
            return ;
        }
        start = end + 1;
    }
}

/// The name of member `i` of a tuple message.
pub fn member_name_string(i: usize, key_value: bool) -> (r: String)
    requires
        i < usize::MAX,
    ensures
        r@ == member_name(i as nat, key_value),
{
    if key_value {
        if i == 0 {
            String::from_str("key")
        } else {
            String::from_str("value")
        }
    } else {
        let mut name = String::from_str("field");
        let number = decimal_string((i + 1) as u64);
        name.append(number.as_str());
        name
    }
}

/// Writes the type of the field named `field_name`.
pub fn write_type_name(w: &mut PackageWriter<'_>, field_name: &str, ty: &FieldType)
    ensures
        final(w)@ == type_name_fmt(old(w)@, field_name@, *ty),
        final(w)@.indent == old(w)@.indent,
        final(w).package() == old(w).package(),
{
    match &ty.kind {
        FieldKind::Builtin(name) => {
            w.write_all(name.as_str());
        },
        FieldKind::Local(name) => {
            w.write_all(name.as_str());
        },
        FieldKind::External { name, import_path: _ } => {
            w.write_all(".");
            w.write_all(name.as_str());
        },
        FieldKind::Message(MessageDescription::Internal { package, name }) => {
            w.write_all(".");
            w.write_all(package.as_str());
            w.write_all(".");
            w.write_all(name.as_str());
        },
        FieldKind::Message(MessageDescription::External { name, import_path: _ }) => {
            w.write_all(".");
            w.write_all(name.as_str());
        },
        FieldKind::Tuple(_) => {
            let name = to_upper_camel_case(field_name);
            w.write_all(name.as_str());
        },
        FieldKind::KeyValue(_) => {
            let name = to_upper_camel_case(field_name);
            w.write_all(name.as_str());
        },
    }
}

/// Writes the words that stand before a field's type.
pub fn write_label(w: &mut PackageWriter<'_>, ty: &FieldType)
    ensures
        final(w)@ == label_fmt(old(w)@, *ty),
        final(w)@.indent == old(w)@.indent,
        final(w).package() == old(w).package(),
{
    match &ty.sequence_type {
        Some(SequenceType::Optional) => {
            if !ty.is_message() {
                w.write_all("optional ");
            }
        },
        Some(SequenceType::Repeated) => {
            w.write_all("repeated ");
        },
        Some(SequenceType::MapKey(key)) => {
            w.write_all("map<");
            w.write_all(key.as_str());
            w.write_all(", ");
        },
        None => {},
    }
}

/// Writes the end of a field's line.
pub fn write_field_tail(w: &mut PackageWriter<'_>, name: &str, number: u64, annotation: &str)
    ensures
        final(w)@ == field_tail_fmt(old(w)@, name@, number as nat, annotation@),
        final(w)@.indent == old(w)@.indent,
        final(w).package() == old(w).package(),
{
    w.write_all(" ");
    w.write_all(name);
    w.write_all(" = ");
    let digits = decimal_string(number);
    w.write_all(digits.as_str());
    w.write_all(";");
    if !annotation.is_empty() {
        w.write_all(" // ");
        w.write_all(annotation);
    }
    w.write_all("\n");
}

/// Writes a field: its comment and its line.
pub fn write_field(
    w: &mut PackageWriter<'_>,
    comment: &str,
    name: &str,
    number: u64,
    ty: &FieldType,
)
    ensures
        final(w)@ == field_fmt(old(w)@, comment@, name@, number as nat, *ty),
        final(w)@.indent == old(w)@.indent,
        final(w).package() == old(w).package(),
{
    write_comment(w, comment, true);
    write_label(w, ty);
    write_type_name(w, name, ty);
    match &ty.sequence_type {
        Some(SequenceType::MapKey(_)) => {
            w.write_all(">");
        },
        _ => {},
    }
    write_field_tail(w, name, number, ty.annotation.as_str());
}

/// Writes a field whose type is the tuple message named after the field.
pub fn write_wrapped_field(w: &mut PackageWriter<'_>, comment: &str, name: &str, number: u64)
    ensures
        final(w)@ == wrapped_field_fmt(old(w)@, comment@, name@, number as nat),
        final(w)@.indent == old(w)@.indent,
        final(w).package() == old(w).package(),
{
    write_comment(w, comment, true);
    let camel = to_upper_camel_case(name);
    w.write_all(camel.as_str());
    write_field_tail(w, name, number, "");
    proof {
        reveal_strlit("");
    }
}

/// How many members of a tuple message are written.
pub fn count_members(types: &[FieldType], key_value: bool) -> (n: usize)
    ensures
        n == member_count(types@, key_value),
        n <= types@.len(),
{
    if key_value && types.len() > 2 {
        2
    } else {
        types.len()
    }
}

/// Writes the message that the type of the field named `field_name`
/// needs, if it needs one.
pub fn write_nested_type(w: &mut PackageWriter<'_>, field_name: &str, ty: &FieldType)
    ensures
        final(w)@ == nested_type_fmt(old(w)@, field_name@, *ty),
        final(w)@.indent == old(w)@.indent,
        final(w).package() == old(w).package(),
    decreases ty, 0nat,
{
    match &ty.kind {
        FieldKind::Tuple(types) => {
            let name = to_upper_camel_case(field_name);
            write_tuple_message(w, name.as_str(), types.as_slice(), false);
        },
        FieldKind::KeyValue(types) => {
            let name = to_upper_camel_case(field_name);
            write_tuple_message(w, name.as_str(), types.as_slice(), true);
        },
        _ => {},
    }
}

/// Writes a tuple message: a message named `name` with one field per
/// member.
pub fn write_tuple_message(
    w: &mut PackageWriter<'_>,
    name: &str,
    types: &[FieldType],
    key_value: bool,
)
    ensures
        final(w)@ == tuple_message_fmt(old(w)@, name@, types@, key_value),
        final(w)@.indent == old(w)@.indent,
        final(w).package() == old(w).package(),
    decreases types@, types@.len() + 1,
{
    let n = count_members(types, key_value);
    w.write_all("message ");
    w.write_all(name);
    w.write_all(" {\n");
    w.indent();
    let ghost inner = w@;
    let mut i: usize = 0;
    while i < n
        invariant
            i <= n <= types@.len(),
            w@ == nested_members_fmt(inner, types@, key_value, i as nat),
            w@.indent == inner.indent,
            w.package() == old(w).package(),
        decreases n - i,
    {
        let member = member_name_string(i, key_value);
        write_nested_type(w, member.as_str(), &types[i]);
        i += 1;
    }
    let ghost nested = w@;
    let mut i: usize = 0;
    while i < n
        invariant
            i <= n <= types@.len(),
            w@ == member_fields_fmt(nested, types@, key_value, i as nat),
            w@.indent == inner.indent,
            w.package() == old(w).package(),
        decreases n - i,
    {
        let member = member_name_string(i, key_value);
        write_field(w, "", member.as_str(), (i + 1) as u64, &types[i]);
        proof {
            reveal_strlit("");
        }
        i += 1;
    }
    w.unindent();
    w.write_all("}\n");
    w.nl_next();
}

/// The state after the message that a variant of a `oneof` group needs is
/// written. A variant that is a sequence is wrapped in a tuple message of
/// one member, since a `oneof` group cannot hold a sequence.
pub open spec fn variant_nested_fmt(w: WriterState, variant: FieldDescriptor) -> WriterState {
    if variant.field_type.is_sequence() {
        tuple_message_fmt(
            w,
            upper_camel_case(variant.name@),
            seq![variant.field_type],
            false,
        )
    } else {
        nested_type_fmt(w, variant.name@, variant.field_type)
    }
}

/// The state after a variant of a `oneof` group is written.
pub open spec fn variant_fmt(w: WriterState, variant: FieldDescriptor) -> WriterState {
    if variant.field_type.is_sequence() {
        wrapped_field_fmt(w, variant.comment@, variant.name@, variant.field_number as nat)
    } else {
        field_fmt(
            w,
            variant.comment@,
            variant.name@,
            variant.field_number as nat,
            variant.field_type,
        )
    }
}

/// The state after the messages that the variants `0..n` need are written.
pub open spec fn variants_nested_fmt(w: WriterState, variants: Seq<FieldDescriptor>, n: nat) -> WriterState
    decreases n,
{
    if n == 0 || n > variants.len() {
        w
    } else {
        variant_nested_fmt(variants_nested_fmt(w, variants, (n - 1) as nat), variants[n - 1])
    }
}

/// The state after the variants `0..n` are written.
pub open spec fn variants_fmt(w: WriterState, variants: Seq<FieldDescriptor>, n: nat) -> WriterState
    decreases n,
{
    if n == 0 || n > variants.len() {
        w
    } else {
        variant_fmt(variants_fmt(w, variants, (n - 1) as nat), variants[n - 1])
    }
}

/// The state after a `oneof` group is written.
pub open spec fn oneof_fmt(w: WriterState, oneof: OneofDescriptor) -> WriterState {
    let w1 = indented(emit(emit(emit(w, "oneof "@), oneof.name@), " {\n"@));
    let w2 = variants_fmt(w1, oneof.variants@, oneof.variants@.len());
    nl_owed(emit(unindented(w2), "}\n"@))
}

/// The state after the messages that the groups `0..n` need are written.
pub open spec fn oneofs_nested_fmt(w: WriterState, oneofs: Seq<OneofDescriptor>, n: nat) -> WriterState
    decreases n,
{
    if n == 0 || n > oneofs.len() {
        w
    } else {
        variants_nested_fmt(
            oneofs_nested_fmt(w, oneofs, (n - 1) as nat),
            oneofs[n - 1].variants@,
            oneofs[n - 1].variants@.len(),
        )
    }
}

/// The state after the groups `0..n` are written.
pub open spec fn oneofs_fmt(w: WriterState, oneofs: Seq<OneofDescriptor>, n: nat) -> WriterState
    decreases n,
{
    if n == 0 || n > oneofs.len() {
        w
    } else {
        oneof_fmt(oneofs_fmt(w, oneofs, (n - 1) as nat), oneofs[n - 1])
    }
}

/// The state after the messages that the fields `0..n` need are written.
pub open spec fn fields_nested_fmt(w: WriterState, fields: Seq<FieldDescriptor>, n: nat) -> WriterState
    decreases n,
{
    if n == 0 || n > fields.len() {
        w
    } else {
        nested_type_fmt(
            fields_nested_fmt(w, fields, (n - 1) as nat),
            fields[n - 1].name@,
            fields[n - 1].field_type,
        )
    }
}

/// The state after the fields `0..n` are written.
pub open spec fn fields_fmt(w: WriterState, fields: Seq<FieldDescriptor>, n: nat) -> WriterState
    decreases n,
{
    if n == 0 || n > fields.len() {
        w
    } else {
        field_fmt(
            fields_fmt(w, fields, (n - 1) as nat),
            fields[n - 1].comment@,
            fields[n - 1].name@,
            fields[n - 1].field_number as nat,
            fields[n - 1].field_type,
        )
    }
}

/// The state after a message is written: its comment, then between the
/// braces the nested messages, the messages that groups and fields need,
/// the groups and the fields. A blank line is owed after it.
pub open spec fn message_fmt(w: WriterState, message: MessageDescriptor) -> WriterState
    decreases message, 0nat,
{
    let w1 = comment_fmt(w, message.comment@, false);
    let w2 = indented(emit(emit(emit(w1, "message "@), message.name@), " {\n"@));
    let w3 = messages_fmt(w2, message.messages@, message.messages@.len());
    let w4 = oneofs_nested_fmt(w3, message.oneofs@, message.oneofs@.len());
    let w5 = fields_nested_fmt(w4, message.fields@, message.fields@.len());
    let w6 = oneofs_fmt(w5, message.oneofs@, message.oneofs@.len());
    let w7 = fields_fmt(w6, message.fields@, message.fields@.len());
    nl_owed(emit(unindented(w7), "}\n"@))
}

/// The state after the messages `0..n` are written.
pub open spec fn messages_fmt(w: WriterState, messages: Seq<MessageDescriptor>, n: nat) -> WriterState
    decreases messages, n,
{
    if n == 0 || n > messages.len() {
        w
    } else {
        message_fmt(messages_fmt(w, messages, (n - 1) as nat), messages[n - 1])
    }
}

/// Writes the tuple message of one member that wraps a sequence.
pub fn write_wrapper_message(w: &mut PackageWriter<'_>, name: &str, member: &FieldType)
    ensures
        final(w)@ == tuple_message_fmt(old(w)@, name@, seq![*member], false),
        final(w)@.indent == old(w)@.indent,
        final(w).package() == old(w).package(),
{
    let ghost types = seq![*member];
    w.write_all("message ");
    w.write_all(name);
    w.write_all(" {\n");
    w.indent();
    let ghost inner = w@;
    let field = member_name_string(0, false);
    write_nested_type(w, field.as_str(), member);
    let ghost nested = w@;
    write_field(w, "", field.as_str(), 1, member);
    proof {
        reveal_strlit("");
        assert(nested_members_fmt(inner, types, false, 0) == inner);
        assert(member_fields_fmt(nested, types, false, 0) == nested);
    }
    w.unindent();
    w.write_all("}\n");
    w.nl_next();
}

/// Writes the message that a variant of a `oneof` group needs.
pub fn write_variant_nested(w: &mut PackageWriter<'_>, variant: &FieldDescriptor)
    ensures
        final(w)@ == variant_nested_fmt(old(w)@, *variant),
        final(w)@.indent == old(w)@.indent,
        final(w).package() == old(w).package(),
{
    if variant.field_type.is_sequence() {
        let name = to_upper_camel_case(variant.name.as_str());
        write_wrapper_message(w, name.as_str(), &variant.field_type);
    } else {
        write_nested_type(w, variant.name.as_str(), &variant.field_type);
    }
}

/// Writes a variant of a `oneof` group.
pub fn write_variant(w: &mut PackageWriter<'_>, variant: &FieldDescriptor)
    ensures
        final(w)@ == variant_fmt(old(w)@, *variant),
        final(w)@.indent == old(w)@.indent,
        final(w).package() == old(w).package(),
{
    if variant.field_type.is_sequence() {
        write_wrapped_field(
            w,
            variant.comment.as_str(),
            variant.name.as_str(),
            variant.field_number as u64,
        );
    } else {
        write_field(
            w,
            variant.comment.as_str(),
            variant.name.as_str(),
            variant.field_number as u64,
            &variant.field_type,
        );
    }
}

/// Writes the messages that the variants of a `oneof` group need.
pub fn write_oneof_nested(w: &mut PackageWriter<'_>, oneof: &OneofDescriptor)
    ensures
        final(w)@ == variants_nested_fmt(old(w)@, oneof.variants@, oneof.variants@.len()),
        final(w)@.indent == old(w)@.indent,
        final(w).package() == old(w).package(),
{
    let mut i: usize = 0;
    while i < oneof.variants.len()
        invariant
            i <= oneof.variants@.len(),
            w@ == variants_nested_fmt(old(w)@, oneof.variants@, i as nat),
            w@.indent == old(w)@.indent,
            w.package() == old(w).package(),
        decreases oneof.variants@.len() - i,
    {
        write_variant_nested(w, &oneof.variants[i]);
        i += 1;
    }
}

/// Writes a `oneof` group.
pub fn write_oneof(w: &mut PackageWriter<'_>, oneof: &OneofDescriptor)
    ensures
        final(w)@ == oneof_fmt(old(w)@, *oneof),
        final(w)@.indent == old(w)@.indent,
        final(w).package() == old(w).package(),
{
    w.write_all("oneof ");
    w.write_all(oneof.name.as_str());
    w.write_all(" {\n");
    w.indent();
    let ghost inner = w@;
    let mut i: usize = 0;
    while i < oneof.variants.len()
        invariant
            i <= oneof.variants@.len(),
            w@ == variants_fmt(inner, oneof.variants@, i as nat),
            w@.indent == inner.indent,
            w.package() == old(w).package(),
        decreases oneof.variants@.len() - i,
    {
        write_variant(w, &oneof.variants[i]);
        i += 1;
    }
    w.unindent();
    w.write_all("}\n");
    w.nl_next();
}

/// Writes a message.
pub fn write_message(w: &mut PackageWriter<'_>, message: &MessageDescriptor)
    ensures
        final(w)@ == message_fmt(old(w)@, *message),
        final(w)@.indent == old(w)@.indent,
        final(w).package() == old(w).package(),
    decreases message, 0nat,
{
    write_comment(w, message.comment.as_str(), false);
    w.write_all("message ");
    w.write_all(message.name.as_str());
    w.write_all(" {\n");
    w.indent();
    let ghost inner = w@;

    let mut i: usize = 0;
    while i < message.messages.len()
        invariant
            i <= message.messages@.len(),
            w@ == messages_fmt(inner, message.messages@, i as nat),
            w@.indent == inner.indent,
            w.package() == old(w).package(),
        decreases message.messages@.len() - i,
    {
        write_message(w, &message.messages[i]);
        i += 1;
    }
    let ghost w3 = w@;

    let mut i: usize = 0;
    while i < message.oneofs.len()
        invariant
            i <= message.oneofs@.len(),
            w@ == oneofs_nested_fmt(w3, message.oneofs@, i as nat),
            w@.indent == inner.indent,
            w.package() == old(w).package(),
        decreases message.oneofs@.len() - i,
    {
        write_oneof_nested(w, &message.oneofs[i]);
        i += 1;
    }
    let ghost w4 = w@;

    let mut i: usize = 0;
    while i < message.fields.len()
        invariant
            i <= message.fields@.len(),
            w@ == fields_nested_fmt(w4, message.fields@, i as nat),
            w@.indent == inner.indent,
            w.package() == old(w).package(),
        decreases message.fields@.len() - i,
    {
        let field = &message.fields[i];
        write_nested_type(w, field.name.as_str(), &field.field_type);
        i += 1;
    }
    let ghost w5 = w@;

    let mut i: usize = 0;
    while i < message.oneofs.len()
        invariant
            i <= message.oneofs@.len(),
            w@ == oneofs_fmt(w5, message.oneofs@, i as nat),
            w@.indent == inner.indent,
            w.package() == old(w).package(),
        decreases message.oneofs@.len() - i,
    {
        write_oneof(w, &message.oneofs[i]);
        i += 1;
    }
    let ghost w6 = w@;

    let mut i: usize = 0;
    while i < message.fields.len()
        invariant
            i <= message.fields@.len(),
            w@ == fields_fmt(w6, message.fields@, i as nat),
            w@.indent == inner.indent,
            w.package() == old(w).package(),
        decreases message.fields@.len() - i,
    {
        let field = &message.fields[i];
        write_field(
            w,
            field.comment.as_str(),
            field.name.as_str(),
            field.field_number as u64,
            &field.field_type,
        );
        i += 1;
    }
    w.unindent();
    w.write_all("}\n");
    w.nl_next();
}

} // verus!
