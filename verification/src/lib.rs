//! The `arrow.range` canonical extension type: a bounded interval over an
//! orderable value type, stored as a struct of a `lower` and an `upper` bound.

mod closed;
mod datatype;
mod entries;
mod error;
mod metadata;
mod range;
mod text;

pub use closed::{
    closed_name, lemma_closed_read_exactly_names, lemma_name_reads_back, lemma_read_is_name, parse_closed, RangeClosed,
    RANGE_CLOSED_NAMES,
};
pub use datatype::{
    children_display, field_display, field_model, fields_display, interval_unit_name, kind_code,
    lemma_children_view, no_field, push_children_display, push_fields_display, time_unit_name, type_display, type_model, union_mode_name,
    DataType, Field, FieldModel, IntervalUnit, TimeUnit, TypeModel, UnionMode,
};
pub use entries::{entries_eq, entries_map, find_entry, lemma_entries_dom, lemma_entries_last};
pub use error::ArrowError;
pub use metadata::{
    field_name, finish_step, key_step, lemma_field_name_reads_back, lemma_field_read_is_name,
    lemma_fields_read_exactly_names, lemma_metadata_roundtrip, lemma_metadata_view_eq,
    lemma_read_entries, parse_field, read_entries, MetadataError, MetadataField,
    MetadataMapReader, RangeMetadata,
};
pub use range::{
    deserialized, is_range_storage, lemma_range_storage_shape, lemma_range_view_eq,
    lemma_storage_check_determined, storage_checked, storage_error, validate_storage, Range,
};
pub use text::{decimal, digit_char, push_decimal, push_signed_decimal, signed_decimal, str_eq};
