use std::fmt;

use arrow_range::{
    ArrowError, DataType, Field, MetadataError, MetadataField, MetadataMapReader, Range,
    RangeClosed, RangeMetadata, RANGE_CLOSED_NAMES,
};
use serde_core::de::{self, MapAccess, SeqAccess, Visitor};
use serde_core::ser::SerializeStruct;
use serde_core::{Deserialize, Deserializer, Serialize, Serializer};

/// A struct of a nullable `lower` and a nullable `upper` field of `value_type`.
fn make_range_struct(value_type: DataType) -> DataType {
    DataType::Struct(vec![
        Field::new("lower", value_type.clone(), true),
        Field::new("upper", value_type, true),
    ])
}

/// A range's metadata as serde reads and writes it: a struct with the one
/// field `closed`, whose value is written as its name.
struct SerdeMetadata(RangeMetadata);

struct SerdeClosed(RangeClosed);

struct SerdeKey(MetadataField);

fn refusal<E: de::Error>(err: MetadataError, expected: &dyn de::Expected) -> E {
    match err {
        MetadataError::UnknownVariant(value) => E::unknown_variant(&value, &RANGE_CLOSED_NAMES),
        MetadataError::UnknownField(key) => E::unknown_field(&key, &["closed"]),
        MetadataError::DuplicateField => E::duplicate_field(MetadataField::Closed.name()),
        MetadataError::MissingField => E::missing_field(MetadataField::Closed.name()),
        MetadataError::InvalidLength(len) => E::invalid_length(len, expected),
    }
}

impl Serialize for SerdeMetadata {
    fn serialize<S: Serializer>(&self, serializer: S) -> Result<S::Ok, S::Error> {
        let mut state = serializer.serialize_struct("RangeMetadata", 1)?;
        state.serialize_field(MetadataField::Closed.name(), self.0.closed().name())?;
        state.end()
    }
}

struct ClosedVisitor;

impl<'de> Visitor<'de> for ClosedVisitor {
    type Value = SerdeClosed;

    fn expecting(&self, f: &mut fmt::Formatter) -> fmt::Result {
        f.write_str("one of \"left\", \"right\", \"both\", \"neither\"")
    }

    fn visit_str<E: de::Error>(self, value: &str) -> Result<SerdeClosed, E> {
        RangeClosed::from_name(value)
            .map(SerdeClosed)
            .map_err(|err| refusal(err, &self))
    }
}

impl<'de> Deserialize<'de> for SerdeClosed {
    fn deserialize<D: Deserializer<'de>>(deserializer: D) -> Result<Self, D::Error> {
        deserializer.deserialize_str(ClosedVisitor)
    }
}

struct KeyVisitor;

impl<'de> Visitor<'de> for KeyVisitor {
    type Value = SerdeKey;

    fn expecting(&self, f: &mut fmt::Formatter) -> fmt::Result {
        f.write_str("`closed`")
    }

    fn visit_str<E: de::Error>(self, value: &str) -> Result<SerdeKey, E> {
        MetadataField::from_name(value)
            .map(SerdeKey)
            .map_err(|err| refusal(err, &self))
    }
}

impl<'de> Deserialize<'de> for SerdeKey {
    fn deserialize<D: Deserializer<'de>>(deserializer: D) -> Result<Self, D::Error> {
        deserializer.deserialize_identifier(KeyVisitor)
    }
}

struct MetadataVisitor;

impl<'de> Visitor<'de> for MetadataVisitor {
    type Value = SerdeMetadata;

    fn expecting(&self, f: &mut fmt::Formatter) -> fmt::Result {
        f.write_str("struct RangeMetadata")
    }

    fn visit_seq<V: SeqAccess<'de>>(self, mut seq: V) -> Result<SerdeMetadata, V::Error> {
        let first = seq.next_element::<SerdeClosed>()?.map(|c| c.0);
        RangeMetadata::from_first_element(first)
            .map(SerdeMetadata)
            .map_err(|err| refusal(err, &self))
    }

    fn visit_map<V: MapAccess<'de>>(self, mut map: V) -> Result<SerdeMetadata, V::Error> {
        let mut reader = MetadataMapReader::new();
        while let Some(SerdeKey(key)) = map.next_key::<SerdeKey>()? {
            reader.accept_key(key).map_err(|err| refusal(err, &self))?;
            let value: SerdeClosed = map.next_value()?;
            reader.accept_value(value.0);
        }
        reader
            .finish()
            .map(SerdeMetadata)
            .map_err(|err| refusal(err, &self))
    }
}

impl<'de> Deserialize<'de> for SerdeMetadata {
    fn deserialize<D: Deserializer<'de>>(deserializer: D) -> Result<Self, D::Error> {
        deserializer.deserialize_struct("RangeMetadata", &["closed"], MetadataVisitor)
    }
}

/// The JSON text of a range's metadata.
fn metadata_text(range: &Range) -> String {
    serde_json::to_string(&SerdeMetadata(range.metadata().clone())).unwrap()
}

/// Reads metadata from JSON text, with the library deciding on every key and name.
fn parse_metadata(text: &str) -> Result<RangeMetadata, String> {
    serde_json::from_str::<SerdeMetadata>(text)
        .map(|m| m.0)
        .map_err(|e| e.to_string())
}

/// Checks that `field` can store `range` and gives its metadata text.
fn try_with_extension_type(field: &Field, range: &Range) -> Result<String, ArrowError> {
    range.supports_data_type(field.data_type())?;
    Ok(metadata_text(range))
}

/// Reads the range stored on `field` from its metadata text.
fn try_extension_type(field: &Field, metadata: Option<&str>) -> Result<Range, ArrowError> {
    let metadata = Range::deserialize_metadata(metadata, parse_metadata)?;
    Range::try_new(field.data_type(), metadata)
}

/// Panics with the error's text when there is one.
fn or_panic<T>(result: Result<T, ArrowError>) -> T {
    match result {
        Ok(value) => value,
        Err(err) => panic!("{}", err.message_str()),
    }
}

#[test]
fn valid() -> Result<(), ArrowError> {
    let range = Range::new(RangeClosed::Both);
    let storage = make_range_struct(DataType::Int32);
    let field = Field::new("", storage, false);
    let metadata = try_with_extension_type(&field, &range.clone())?;
    assert_eq!(try_extension_type(&field, Some(&metadata))?, range);
    Ok(())
}

#[test]
fn roundtrip_all_closed_values() -> Result<(), ArrowError> {
    let storage = make_range_struct(DataType::Int32);
    for closed in [
        RangeClosed::Left,
        RangeClosed::Right,
        RangeClosed::Both,
        RangeClosed::Neither,
    ] {
        let range = Range::new(closed);
        let field = Field::new("", storage.clone(), false);
        let metadata = try_with_extension_type(&field, &range.clone())?;
        let recovered = try_extension_type(&field, Some(&metadata))?;
        assert_eq!(recovered.closed(), closed);
    }
    Ok(())
}

#[test]
#[should_panic(expected = "Range extension type requires metadata")]
fn missing_metadata() {
    let storage = make_range_struct(DataType::Int32);
    let field = Field::new("", storage, false);
    or_panic(try_extension_type(&field, None));
}

#[test]
#[should_panic(expected = "Range metadata deserialization failed")]
fn invalid_metadata_bad_closed_string() {
    let storage = make_range_struct(DataType::Int32);
    let field = Field::new("", storage, false);
    or_panic(try_extension_type(&field, Some(r#"{"closed":"invalid"}"#)));
}

#[test]
#[should_panic(expected = "Range metadata deserialization failed")]
fn invalid_metadata_missing_closed_key() {
    let storage = make_range_struct(DataType::Int32);
    let field = Field::new("", storage, false);
    or_panic(try_extension_type(&field, Some(r#"{}"#)));
}

#[test]
#[should_panic(expected = "Range data type mismatch, expected Struct, found Int32")]
fn invalid_storage_non_struct() {
    let range = Range::new(RangeClosed::Both);
    let field = Field::new("", DataType::Int32, false);
    or_panic(try_with_extension_type(&field, &range));
}

#[test]
#[should_panic(expected = "Range data type mismatch, expected Struct with 2 fields")]
fn invalid_storage_wrong_field_count() {
    let range = Range::new(RangeClosed::Both);
    let storage = DataType::Struct(vec![Field::new("lower", DataType::Int32, true)]);
    let field = Field::new("", storage, false);
    or_panic(try_with_extension_type(&field, &range));
}

#[test]
#[should_panic(expected = "Range data type mismatch, expected first field named \"lower\"")]
fn invalid_storage_wrong_field_names() {
    let range = Range::new(RangeClosed::Both);
    let storage = DataType::Struct(vec![
        Field::new("start", DataType::Int32, true),
        Field::new("end", DataType::Int32, true),
    ]);
    let field = Field::new("", storage, false);
    or_panic(try_with_extension_type(&field, &range));
}

#[test]
fn accepts_non_nullable_lower() -> Result<(), ArrowError> {
    let range = Range::new(RangeClosed::Both);
    let storage = DataType::Struct(vec![
        Field::new("lower", DataType::Int32, false),
        Field::new("upper", DataType::Int32, true),
    ]);
    let field = Field::new("", storage, false);
    let metadata = try_with_extension_type(&field, &range.clone())?;
    assert_eq!(try_extension_type(&field, Some(&metadata))?, range);
    Ok(())
}

#[test]
fn accepts_non_nullable_upper() -> Result<(), ArrowError> {
    let range = Range::new(RangeClosed::Both);
    let storage = DataType::Struct(vec![
        Field::new("lower", DataType::Int32, true),
        Field::new("upper", DataType::Int32, false),
    ]);
    let field = Field::new("", storage, false);
    let metadata = try_with_extension_type(&field, &range.clone())?;
    assert_eq!(try_extension_type(&field, Some(&metadata))?, range);
    Ok(())
}

#[test]
fn accepts_both_non_nullable() -> Result<(), ArrowError> {
    let range = Range::new(RangeClosed::Both);
    let storage = DataType::Struct(vec![
        Field::new("lower", DataType::Int32, false),
        Field::new("upper", DataType::Int32, false),
    ]);
    let field = Field::new("", storage, false);
    let metadata = try_with_extension_type(&field, &range.clone())?;
    assert_eq!(try_extension_type(&field, Some(&metadata))?, range);
    Ok(())
}

#[test]
#[should_panic(
    expected = "Range data type mismatch, \"lower\" and \"upper\" fields must have the same data type"
)]
fn invalid_storage_mismatched_types() {
    let range = Range::new(RangeClosed::Both);
    let storage = DataType::Struct(vec![
        Field::new("lower", DataType::Int32, true),
        Field::new("upper", DataType::Int64, true),
    ]);
    let field = Field::new("", storage, false);
    or_panic(try_with_extension_type(&field, &range));
}

#[test]
fn metadata_text_is_a_json_object_of_the_closed_name() {
    assert_eq!(metadata_text(&Range::new(RangeClosed::Both)), r#"{"closed":"both"}"#);
    assert_eq!(
        parse_metadata(r#" { "closed" : "left" } "#).unwrap(),
        RangeMetadata::new(RangeClosed::Left)
    );
    assert!(parse_metadata(r#"{"closed":"both","other":1}"#).is_err());
}

#[test]
fn metadata_text_refuses_a_repeated_key() {
    let err = parse_metadata(r#"{"closed":"both","closed":"left"}"#).unwrap_err();
    assert!(err.starts_with("duplicate field `closed`"), "{err}");
}

#[test]
fn metadata_text_in_sequence_form() {
    assert_eq!(
        parse_metadata(r#"["neither"]"#).unwrap(),
        RangeMetadata::new(RangeClosed::Neither)
    );
    let err = parse_metadata("[]").unwrap_err();
    assert!(err.starts_with("invalid length 0, expected struct RangeMetadata"), "{err}");
    let err = parse_metadata(r#"{"closed":"invalid"}"#).unwrap_err();
    assert!(err.starts_with("unknown variant `invalid`, expected one of `left`, `right`, `both`, `neither`"), "{err}");
    let err = parse_metadata("{}").unwrap_err();
    assert!(err.starts_with("missing field `closed`"), "{err}");
}
