//! Descriptions of protobuf messages, and a writer that turns them into
//! `.proto` files.

use vstd::prelude::*;

pub mod format;
pub mod imports;
pub mod laws;
pub mod package;
pub mod refs;
pub mod select;
pub mod text;
pub mod writer;

verus! {

/// How often a field's value occurs.
pub enum SequenceType {
    /// An optional field.
    Optional,
    /// A repeated field.
    Repeated,
    /// A map field, keyed by the named scalar type.
    MapKey(String),
}

/// A message type that a field refers to.
pub enum MessageDescription {
    /// A message described by the top-level descriptor with this package and
    /// name.
    Internal { package: String, name: String },
    /// A message defined in a `.proto` file that is not written here.
    External { name: String, import_path: String },
}

/// The kind of value that a field holds.
pub enum FieldKind {
    /// A scalar type of the protobuf language.
    Builtin(String),
    /// A message nested in the message that holds the field.
    Local(String),
    /// A type from another `.proto` file.
    External { name: String, import_path: String },
    /// A message type.
    Message(MessageDescription),
    /// A tuple, written as a nested message with one field per member.
    Tuple(Vec<FieldType>),
    /// A key and a value, written as a nested message of two fields. Only
    /// the first two members count.
    KeyValue(Vec<FieldType>),
}

/// The type of a field.
pub struct FieldType {
    pub kind: FieldKind,
    pub sequence_type: Option<SequenceType>,
    pub annotation: String,
}

/// A field of a message.
pub struct FieldDescriptor {
    pub field_type: FieldType,
    pub field_number: u32,
    pub comment: String,
    pub name: String,
}

/// A `oneof` group of a message.
pub struct OneofDescriptor {
    pub name: String,
    pub variants: Vec<FieldDescriptor>,
}

/// A message.
pub struct MessageDescriptor {
    pub comment: String,
    pub name: String,
    pub fields: Vec<FieldDescriptor>,
    pub oneofs: Vec<OneofDescriptor>,
    pub messages: Vec<MessageDescriptor>,
}

/// A message at the top level of a package.
pub struct TopLevelDescriptor {
    pub package: String,
    pub message: MessageDescriptor,
}

impl FieldType {
    /// Whether a value of this type is a sequence: repeated or a map.
    pub open spec fn spec_is_sequence(&self) -> bool {
        self.sequence_type matches Some(s) && !(s is Optional)
    }

    /// Whether a value of this type is a sequence: repeated or a map.
    #[verifier::when_used_as_spec(spec_is_sequence)]
    pub fn is_sequence(&self) -> (r: bool)
        ensures
            r == self.spec_is_sequence(),
    {
        match &self.sequence_type {
            Some(SequenceType::Repeated) => true,
            Some(SequenceType::MapKey(_)) => true,
            Some(SequenceType::Optional) => false,
            None => false,
        }
    }

    /// Whether a field of this type holds a message rather than a scalar.
    pub open spec fn spec_is_message(&self) -> bool {
        !(self.kind is Builtin)
    }

    /// Whether a field of this type holds a message rather than a scalar.
    #[verifier::when_used_as_spec(spec_is_message)]
    pub fn is_message(&self) -> (r: bool)
        ensures
            r == self.spec_is_message(),
    {
        match &self.kind {
            FieldKind::Builtin(_) => false,
            _ => true,
        }
    }
}

} // verus!
