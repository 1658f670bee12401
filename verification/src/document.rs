//! Documents as the store takes them: named fields in the order in which they
//! were first written.

use vstd::prelude::*;

verus! {

/// What a field of a document holds, for the kinds of value that the repository
/// writes.
pub enum FieldValue {
    /// A string.
    Text(Seq<char>),
    /// A boolean.
    Flag(bool),
    /// A 32-bit integer.
    Int32(i32),
    /// A date, in milliseconds since the Unix epoch.
    Instant(i64),
    /// An identifier, as its twelve bytes.
    Id(Seq<u8>),
    /// A document inside the document.
    Nested(Seq<(Seq<char>, FieldValue)>),
}

/// The fields of a document, in order.
pub type Fields = Seq<(Seq<char>, FieldValue)>;

/// `bson::Document`: an ordered map from field names to values. Nothing inside
/// it is visible here; `document_fields` names what it holds.
#[verifier::external_type_specification]
#[verifier::external_body]
pub struct ExDocument(bson::Document);

/// The fields that a document holds, in the order in which `bson::Document`
/// keeps and iterates them. A value of a kind that `FieldValue` does not list
/// stands in it as some value; no contract says which.
pub uninterp spec fn document_fields(d: bson::Document) -> Seq<(Seq<char>, FieldValue)>;

/// `fields` after `key` is set to `value`: a field of that name keeps its place
/// and takes the value; otherwise the field is added at the end.
pub open spec fn with_field(fields: Fields, key: Seq<char>, value: FieldValue) -> Fields
    decreases fields.len(),
{
    if fields.len() == 0 {
        seq![(key, value)]
    } else if fields[0].0 == key {
        seq![(key, value)] + fields.drop_first()
    } else {
        seq![fields[0]] + with_field(fields.drop_first(), key, value)
    }
}

/// `fields` after each field of `patch` is set in it, first to last.
pub open spec fn with_fields(fields: Fields, patch: Fields) -> Fields
    decreases patch.len(),
{
    if patch.len() == 0 {
        fields
    } else {
        with_fields(with_field(fields, patch[0].0, patch[0].1), patch.drop_first())
    }
}

/// The value of the first field named `key`, if there is one.
pub open spec fn field_value(fields: Fields, key: Seq<char>) -> Option<FieldValue>
    decreases fields.len(),
{
    if fields.len() == 0 {
        None
    } else if fields[0].0 == key {
        Some(fields[0].1)
    } else {
        field_value(fields.drop_first(), key)
    }
}

/// The text of an optional string.
pub open spec fn text_of(s: Option<String>) -> Option<Seq<char>> {
    match s {
        Some(s) => Some(s@),
        None => None,
    }
}

/// The field `key` with a string, where there is one; no field otherwise.
pub open spec fn maybe_text(key: Seq<char>, value: Option<Seq<char>>) -> Fields {
    match value {
        Some(value) => seq![(key, FieldValue::Text(value))],
        None => seq![],
    }
}

/// The field `key` with a boolean, where there is one; no field otherwise.
pub open spec fn maybe_flag(key: Seq<char>, value: Option<bool>) -> Fields {
    match value {
        Some(value) => seq![(key, FieldValue::Flag(value))],
        None => seq![],
    }
}

/// `bson::Document::new`: a document without fields.
#[verifier::external_body]
pub(crate) fn new_document() -> (d: bson::Document)
    ensures
        document_fields(d) == Seq::<(Seq<char>, FieldValue)>::empty(),
{
    bson::Document::new()
}

/// `bson::Document::insert` with a string value. The document is an ordered map:
/// a key that it holds keeps its place and takes the new value, a new key goes
/// last.
#[verifier::external_body]
pub(crate) fn put_text(d: &mut bson::Document, key: &str, value: &str)
    ensures
        document_fields(*final(d)) == with_field(
            document_fields(*old(d)),
            key@,
            FieldValue::Text(value@),
        ),
{
    d.insert(key, value);
}

/// `bson::Document::insert` with a boolean value; see `put_text`.
#[verifier::external_body]
pub(crate) fn put_flag(d: &mut bson::Document, key: &str, value: bool)
    ensures
        document_fields(*final(d)) == with_field(
            document_fields(*old(d)),
            key@,
            FieldValue::Flag(value),
        ),
{
    d.insert(key, value);
}

/// `bson::Document::insert` with a 32-bit integer value; see `put_text`.
#[verifier::external_body]
pub(crate) fn put_int32(d: &mut bson::Document, key: &str, value: i32)
    ensures
        document_fields(*final(d)) == with_field(
            document_fields(*old(d)),
            key@,
            FieldValue::Int32(value),
        ),
{
    d.insert(key, value);
}

/// `bson::Document::insert` with the date that `bson::DateTime::from_millis`
/// makes of `millis`; see `put_text`.
#[verifier::external_body]
pub(crate) fn put_instant(d: &mut bson::Document, key: &str, millis: i64)
    ensures
        document_fields(*final(d)) == with_field(
            document_fields(*old(d)),
            key@,
            FieldValue::Instant(millis),
        ),
{
    d.insert(key, bson::DateTime::from_millis(millis));
}

/// `bson::Document::insert` with the identifier that
/// `bson::oid::ObjectId::from_bytes` makes of `id`; see `put_text`.
#[verifier::external_body]
pub(crate) fn put_id(d: &mut bson::Document, key: &str, id: [u8; 12])
    ensures
        document_fields(*final(d)) == with_field(
            document_fields(*old(d)),
            key@,
            FieldValue::Id(id@),
        ),
{
    d.insert(key, bson::oid::ObjectId::from_bytes(id));
}

/// `bson::Document::insert` with a document as the value; see `put_text`.
#[verifier::external_body]
pub(crate) fn put_document(d: &mut bson::Document, key: &str, value: bson::Document)
    ensures
        document_fields(*final(d)) == with_field(
            document_fields(*old(d)),
            key@,
            FieldValue::Nested(document_fields(value)),
        ),
{
    d.insert(key, value);
}

/// Sets the field `key` to a string, where there is one.
pub(crate) fn put_maybe_text(d: &mut bson::Document, key: &str, value: &Option<String>)
    ensures
        document_fields(*final(d)) == with_fields(
            document_fields(*old(d)),
            maybe_text(key@, text_of(*value)),
        ),
{
    match value {
        Some(value) => {
            put_text(d, key, value.as_str());
            proof {
                lemma_with_fields_one(document_fields(*old(d)), key@, FieldValue::Text(value@));
            }
        },
        None => {},
    }
}

/// Sets the field `key` to a boolean, where there is one.
pub(crate) fn put_maybe_flag(d: &mut bson::Document, key: &str, value: Option<bool>)
    ensures
        document_fields(*final(d)) == with_fields(
            document_fields(*old(d)),
            maybe_flag(key@, value),
        ),
{
    match value {
        Some(value) => {
            put_flag(d, key, value);
            proof {
                lemma_with_fields_one(document_fields(*old(d)), key@, FieldValue::Flag(value));
            }
        },
        None => {},
    }
}

/// After a field is set, it has the value it was set to, and every other field
/// has the value it had.
pub proof fn lemma_field_value_with_field(
    fields: Fields,
    key: Seq<char>,
    value: FieldValue,
    other: Seq<char>,
)
    ensures
        field_value(with_field(fields, key, value), other) == if other == key {
            Some(value)
        } else {
            field_value(fields, other)
        },
    decreases fields.len(),
{
    if fields.len() == 0 {
        reveal_with_fuel(field_value, 2);
        assert(seq![(key, value)].drop_first().len() == 0);
    } else if fields[0].0 == key {
        let after = seq![(key, value)] + fields.drop_first();
        assert(after[0] == (key, value));
        assert(after.drop_first() =~= fields.drop_first());
    } else {
        let rest = with_field(fields.drop_first(), key, value);
        let after = seq![fields[0]] + rest;
        assert(after[0] == fields[0]);
        assert(after.drop_first() =~= rest);
        lemma_field_value_with_field(fields.drop_first(), key, value, other);
    }
}

/// After the fields of a patch are set, a field that the patch does not name
/// has the value it had.
pub proof fn lemma_field_value_with_fields(fields: Fields, patch: Fields, other: Seq<char>)
    requires
        field_value(patch, other) is None,
    ensures
        field_value(with_fields(fields, patch), other) == field_value(fields, other),
    decreases patch.len(),
{
    if patch.len() > 0 {
        lemma_field_value_with_field(fields, patch[0].0, patch[0].1, other);
        lemma_field_value_with_fields(
            with_field(fields, patch[0].0, patch[0].1),
            patch.drop_first(),
            other,
        );
    }
}

/// Setting a field that is not there adds it at the end.
pub proof fn lemma_with_field_absent(fields: Fields, key: Seq<char>, value: FieldValue)
    requires
        field_value(fields, key) is None,
    ensures
        with_field(fields, key, value) == fields.push((key, value)),
    decreases fields.len(),
{
    if fields.len() == 0 {
        assert(with_field(fields, key, value) =~= fields.push((key, value)));
    } else {
        lemma_with_field_absent(fields.drop_first(), key, value);
        assert(seq![fields[0]] + fields.drop_first().push((key, value)) =~= fields.push(
            (key, value),
        ));
    }
}

/// Setting the fields of a patch of one field is setting that field.
pub proof fn lemma_with_fields_one(fields: Fields, key: Seq<char>, value: FieldValue)
    ensures
        with_fields(fields, seq![(key, value)]) == with_field(fields, key, value),
{
    reveal_with_fuel(with_fields, 2);
    assert(seq![(key, value)].drop_first().len() == 0);
}

/// Setting the fields of a patch that is empty or holds one field is setting
/// that field, or nothing.
pub proof fn lemma_with_fields_maybe(fields: Fields, patch: Fields)
    requires
        patch.len() <= 1,
    ensures
        with_fields(fields, patch) == if patch.len() == 1 {
            with_field(fields, patch[0].0, patch[0].1)
        } else {
            fields
        },
{
    if patch.len() == 1 {
        assert(patch =~= seq![(patch[0].0, patch[0].1)]);
        lemma_with_fields_one(fields, patch[0].0, patch[0].1);
    }
}

/// Setting the fields of two patches one after the other is setting the fields
/// of the two patches joined.
pub proof fn lemma_with_fields_concat(fields: Fields, first: Fields, second: Fields)
    ensures
        with_fields(fields, first + second) == with_fields(with_fields(fields, first), second),
    decreases first.len(),
{
    if first.len() == 0 {
        assert(first + second =~= second);
    } else {
        assert((first + second)[0] == first[0]);
        assert((first + second).drop_first() =~= first.drop_first() + second);
        lemma_with_fields_concat(
            with_field(fields, first[0].0, first[0].1),
            first.drop_first(),
            second,
        );
    }
}

/// Setting the fields of a patch that is empty or holds the one field `key`, in
/// fields that have no field `key`, adds the patch at the end; another name is
/// then looked up as before.
pub proof fn lemma_patch_grows(fields: Fields, key: Seq<char>, patch: Fields)
    requires
        field_value(fields, key) is None,
        patch.len() <= 1,
        patch.len() == 1 ==> patch[0].0 == key,
    ensures
        with_fields(fields, patch) == fields + patch,
        forall|other: Seq<char>|
            other != key ==> #[trigger] field_value(fields + patch, other) == field_value(
                fields,
                other,
            ),
{
    if patch.len() == 0 {
        assert(fields + patch =~= fields);
    } else {
        assert(patch =~= seq![(key, patch[0].1)]);
        lemma_with_fields_one(fields, key, patch[0].1);
        lemma_with_field_absent(fields, key, patch[0].1);
        assert(fields.push((key, patch[0].1)) =~= fields + patch);
        assert forall|other: Seq<char>| other != key implies #[trigger] field_value(
            fields + patch,
            other,
        ) == field_value(fields, other) by {
            lemma_field_value_with_field(fields, key, patch[0].1, other);
        }
    }
}

/// After the fields of a patch that is empty or holds the one field `key` are
/// set, that field has the patch's value, if the patch has one, and every other
/// name is looked up as before.
pub proof fn lemma_maybe_sets(fields: Fields, key: Seq<char>, patch: Fields)
    requires
        patch.len() <= 1,
        patch.len() == 1 ==> patch[0].0 == key,
    ensures
        forall|other: Seq<char>| #[trigger]
            field_value(with_fields(fields, patch), other) == if patch.len() == 1 && other
                == key {
                Some(patch[0].1)
            } else {
                field_value(fields, other)
            },
{
    lemma_with_fields_maybe(fields, patch);
    if patch.len() == 1 {
        assert forall|other: Seq<char>| #[trigger]
            field_value(with_fields(fields, patch), other) == if other == key {
                Some(patch[0].1)
            } else {
                field_value(fields, other)
            } by {
            lemma_field_value_with_field(fields, key, patch[0].1, other);
        }
    }
}

} // verus!
