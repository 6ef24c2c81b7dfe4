//! The shape of contract events: field types and values, the schema of an
//! event, and the rules that every schema and every payload follow.
//!
//! An event is published with a list of topics and a data map. The topics are
//! the event-name topic at index 0 and the schema-version topic at index 1.
//! The data map holds one entry per field, keyed by the field's name, with
//! its keys in ascending order.

use vstd::prelude::*;

use crate::events::AgreementMode;

verus! {

/// The schema-version topic that every contract event carries at topic index 1.
pub const SCHEMA_VERSION: &'static str = "event_schema_v1";

/// The Soroban types that event fields are declared with.
#[derive(Clone, Copy, Debug, PartialEq, Eq, Structural)]
pub enum FieldType {
    U32,
    U64,
    U128,
    I128,
    Bool,
    Address,
    AgreementMode,
    SorobanString,
}

impl FieldType {
    /// The type as it is written in an event declaration.
    pub open spec fn declared_name(self) -> Seq<char> {
        match self {
            FieldType::U32 => "u32"@,
            FieldType::U64 => "u64"@,
            FieldType::U128 => "u128"@,
            FieldType::I128 => "i128"@,
            FieldType::Bool => "bool"@,
            FieldType::Address => "Address"@,
            FieldType::AgreementMode => "AgreementMode"@,
            FieldType::SorobanString => "soroban_sdk::String"@,
        }
    }

    /// The type as it is written in an event declaration, such as `u128`
    /// or `soroban_sdk::String`.
    pub fn declared_type(&self) -> (r: &'static str)
        ensures
            r@ == self.declared_name(),
    {
        match self {
            FieldType::U32 => "u32",
            FieldType::U64 => "u64",
            FieldType::U128 => "u128",
            FieldType::I128 => "i128",
            FieldType::Bool => "bool",
            FieldType::Address => "Address",
            FieldType::AgreementMode => "AgreementMode",
            FieldType::SorobanString => "soroban_sdk::String",
        }
    }
}

/// A value carried in an event payload.
#[derive(Clone, Debug, PartialEq, Eq)]
pub enum FieldValue {
    U32(u32),
    U64(u64),
    U128(u128),
    I128(i128),
    Bool(bool),
    Address(soroban_sdk::Address),
    AgreementMode(AgreementMode),
    SorobanString(soroban_sdk::String),
}

impl FieldValue {
    /// The type of the value.
    pub open spec fn kind(self) -> FieldType {
        match self {
            FieldValue::U32(_) => FieldType::U32,
            FieldValue::U64(_) => FieldType::U64,
            FieldValue::U128(_) => FieldType::U128,
            FieldValue::I128(_) => FieldType::I128,
            FieldValue::Bool(_) => FieldType::Bool,
            FieldValue::Address(_) => FieldType::Address,
            FieldValue::AgreementMode(_) => FieldType::AgreementMode,
            FieldValue::SorobanString(_) => FieldType::SorobanString,
        }
    }

    /// The type of the value.
    pub fn field_type(&self) -> (t: FieldType)
        ensures
            t == self.kind(),
    {
        match self {
            FieldValue::U32(_) => FieldType::U32,
            FieldValue::U64(_) => FieldType::U64,
            FieldValue::U128(_) => FieldType::U128,
            FieldValue::I128(_) => FieldType::I128,
            FieldValue::Bool(_) => FieldType::Bool,
            FieldValue::Address(_) => FieldType::Address,
            FieldValue::AgreementMode(_) => FieldType::AgreementMode,
            FieldValue::SorobanString(_) => FieldType::SorobanString,
        }
    }
}

/// A declared field of an event: its name and its type.
#[derive(Clone, Copy, Debug, PartialEq, Eq)]
pub struct FieldSchema {
    pub name: &'static str,
    pub ty: FieldType,
}

impl View for FieldSchema {
    type V = (Seq<char>, FieldType);

    open spec fn view(&self) -> (Seq<char>, FieldType) {
        (self.name@, self.ty)
    }
}

/// The schema of a contract event: the declared event name, the topics it is
/// published with, and its fields in declaration order.
#[derive(Clone, Debug, PartialEq, Eq)]
pub struct EventSchema {
    pub name: &'static str,
    pub topics: Vec<&'static str>,
    pub fields: Vec<FieldSchema>,
}

/// The mathematical view of an [`EventSchema`].
pub struct EventSchemaView {
    pub name: Seq<char>,
    pub topics: Seq<Seq<char>>,
    pub fields: Seq<(Seq<char>, FieldType)>,
}

/// The views of a list of topics.
pub open spec fn topic_views(topics: Seq<&'static str>) -> Seq<Seq<char>> {
    topics.map_values(|t: &'static str| t@)
}

/// The key and the value type of each entry of a payload.
pub open spec fn entry_views(
    entries: Seq<(&'static str, FieldValue)>,
) -> Seq<(Seq<char>, FieldType)> {
    entries.map_values(|e: (&'static str, FieldValue)| (e.0@, e.1.kind()))
}

impl View for EventSchema {
    type V = EventSchemaView;

    open spec fn view(&self) -> EventSchemaView {
        EventSchemaView {
            name: self.name@,
            topics: topic_views(self.topics@),
            fields: self.fields@.map_values(|f: FieldSchema| f@),
        }
    }
}

/// An ASCII upper-case letter.
pub open spec fn is_upper(c: char) -> bool {
    'A' <= c && c <= 'Z'
}

/// The ASCII lower-case form of a letter; other characters are unchanged.
pub open spec fn to_lower(c: char) -> char {
    if is_upper(c) {
        ((c as u32) + 32) as char
    } else {
        c
    }
}

/// The snake-case form of a type name: each upper-case letter after the
/// first character is preceded by `_`, and every letter is lower-cased.
pub open spec fn snake_case(s: Seq<char>) -> Seq<char>
    decreases s.len(),
{
    if s.len() == 0 {
        seq![]
    } else {
        let c = s.last();
        let piece = if s.len() > 1 && is_upper(c) {
            seq!['_', to_lower(c)]
        } else {
            seq![to_lower(c)]
        };
        snake_case(s.drop_last()) + piece
    }
}

/// A character allowed in a Soroban symbol.
pub open spec fn is_symbol_char(c: char) -> bool {
    ('a' <= c && c <= 'z') || ('A' <= c && c <= 'Z') || ('0' <= c && c <= '9') || c == '_'
}

/// A Soroban symbol: at most 32 characters, each a letter, a digit or `_`.
pub open spec fn is_symbol(s: Seq<char>) -> bool {
    &&& s.len() <= 32
    &&& forall|i: int| 0 <= i < s.len() ==> is_symbol_char(#[trigger] s[i])
}

/// Lexicographic order on character sequences, as `String` orders ASCII text.
pub open spec fn lex_lt(a: Seq<char>, b: Seq<char>) -> bool
    decreases a.len(),
{
    if b.len() == 0 {
        false
    } else if a.len() == 0 {
        true
    } else if a[0] != b[0] {
        a[0] < b[0]
    } else {
        lex_lt(a.drop_first(), b.drop_first())
    }
}

/// Each key is smaller than the next one.
pub open spec fn strictly_ascending(keys: Seq<Seq<char>>) -> bool
    decreases keys.len(),
{
    keys.len() <= 1 || (lex_lt(keys[0], keys[1]) && strictly_ascending(keys.drop_first()))
}

/// No two of the names are equal.
pub open spec fn all_distinct(names: Seq<Seq<char>>) -> bool {
    forall|i: int, j: int| 0 <= i < j < names.len() ==> names[i] != names[j]
}

/// No sequence is smaller than itself.
pub proof fn lemma_lex_lt_irreflexive(a: Seq<char>)
    ensures
        !lex_lt(a, a),
    decreases a.len(),
{
    if a.len() > 0 {
        lemma_lex_lt_irreflexive(a.drop_first());
    }
}

/// The order is transitive.
pub proof fn lemma_lex_lt_transitive(a: Seq<char>, b: Seq<char>, c: Seq<char>)
    requires
        lex_lt(a, b),
        lex_lt(b, c),
    ensures
        lex_lt(a, c),
    decreases a.len(),
{
    if a.len() > 0 && a[0] == b[0] && b[0] == c[0] {
        lemma_lex_lt_transitive(a.drop_first(), b.drop_first(), c.drop_first());
    }
}

/// In a strictly ascending list every key is smaller than every later key.
pub proof fn lemma_ascending_pairwise(keys: Seq<Seq<char>>)
    requires
        strictly_ascending(keys),
    ensures
        forall|i: int, j: int| 0 <= i < j < keys.len() ==> lex_lt(keys[i], keys[j]),
    decreases keys.len(),
{
    if keys.len() > 1 {
        let rest = keys.drop_first();
        lemma_ascending_pairwise(rest);
        assert forall|i: int, j: int| 0 <= i < j < keys.len() implies lex_lt(keys[i], keys[j]) by {
            if i == 0 {
                if j > 1 {
                    assert(lex_lt(rest[0], rest[j - 1]));
                    lemma_lex_lt_transitive(keys[0], keys[1], keys[j]);
                }
            } else {
                assert(lex_lt(rest[i - 1], rest[j - 1]));
            }
        }
    }
}

/// A strictly ascending list holds no key twice.
pub proof fn lemma_ascending_distinct(keys: Seq<Seq<char>>)
    requires
        strictly_ascending(keys),
    ensures
        all_distinct(keys),
{
    lemma_ascending_pairwise(keys);
    assert forall|i: int, j: int| 0 <= i < j < keys.len() implies keys[i] != keys[j] by {
        if keys[i] == keys[j] {
            lemma_lex_lt_irreflexive(keys[i]);
        }
    }
}

/// The names of a list of fields.
pub open spec fn field_names(fields: Seq<(Seq<char>, FieldType)>) -> Seq<Seq<char>> {
    fields.map_values(|f: (Seq<char>, FieldType)| f.0)
}

/// What every event schema satisfies: two topics, the event-name topic (the
/// snake-case event name) at index 0 and the schema version at index 1; a
/// name of at most 32 characters; topics and field names that are Soroban
/// symbols; field names of at most 30 characters, none repeated.
pub open spec fn well_formed_schema(s: EventSchemaView) -> bool {
    &&& s.topics.len() == 2
    &&& s.topics[0] == snake_case(s.name)
    &&& s.topics[1] == SCHEMA_VERSION@
    &&& s.name.len() <= 32
    &&& forall|i: int| 0 <= i < s.topics.len() ==> is_symbol(#[trigger] s.topics[i])
    &&& forall|i: int|
        0 <= i < s.fields.len() ==> is_symbol(#[trigger] s.fields[i].0) && s.fields[i].0.len() <= 30
    &&& all_distinct(field_names(s.fields))
}

/// A payload conforms to a list of declared fields when it holds one entry
/// per field, with the field's name as key and a value of the field's type,
/// and its keys are in strictly ascending order.
pub open spec fn data_conforms(
    entries: Seq<(Seq<char>, FieldType)>,
    fields: Seq<(Seq<char>, FieldType)>,
) -> bool {
    &&& entries.len() == fields.len()
    &&& strictly_ascending(field_names(entries))
    &&& forall|i: int| 0 <= i < entries.len() ==> fields.contains(#[trigger] entries[i])
}

} // verus!
