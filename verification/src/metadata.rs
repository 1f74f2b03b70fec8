use vstd::prelude::*;

use crate::closed::{closed_name, lemma_name_reads_back, parse_closed, RangeClosed};
use crate::text::str_eq;

verus! {

/// Why a metadata value could not be read.
#[derive(Debug, Clone)]
pub enum MetadataError {
    /// A `closed` value that is none of "left", "right", "both", "neither"; holds the value.
    UnknownVariant(String),
    /// A key other than `closed`; holds the key.
    UnknownField(String),
    /// The `closed` key occurs more than once.
    DuplicateField,
    /// The `closed` key does not occur.
    MissingField,
    /// A sequence form that holds fewer elements than the metadata needs; holds how many it holds.
    InvalidLength(usize),
}

/// The one key of the metadata.
#[derive(Debug, Clone, Copy, PartialEq, Eq, Structural)]
pub enum MetadataField {
    /// The key `closed`, whose value is a [`RangeClosed`].
    Closed,
}

/// The field that a key names, if any.
pub open spec fn parse_field(s: Seq<char>) -> Option<MetadataField> {
    if s == "closed"@ {
        Some(MetadataField::Closed)
    } else {
        None
    }
}

/// The key under which a field is written.
pub open spec fn field_name(f: MetadataField) -> Seq<char> {
    match f {
        MetadataField::Closed => "closed"@,
    }
}

/// Only the key that a field is written under is read as that field: a key
/// that is read names the field it gives, letter for letter.
pub proof fn lemma_field_read_is_name(s: Seq<char>)
    ensures
        parse_field(s) matches Some(f) ==> field_name(f) == s,
{
}

/// The key that a field is written under is read back as that field.
pub proof fn lemma_field_name_reads_back(f: MetadataField)
    ensures
        parse_field(field_name(f)) == Some(f),
{
}

/// The keys that are read are exactly the keys that fields are written under;
/// every other key is refused.
pub proof fn lemma_fields_read_exactly_names(s: Seq<char>)
    ensures
        parse_field(s) is Some <==> exists|f: MetadataField| field_name(f) == s,
{
    if exists|f: MetadataField| field_name(f) == s {
        let f = choose|f: MetadataField| field_name(f) == s;
        lemma_field_name_reads_back(f);
    }
    if let Some(f) = parse_field(s) {
        lemma_field_read_is_name(s);
        assert(field_name(f) == s);
    }
}

impl MetadataField {
    /// The key under which this field is written: "closed".
    pub fn name(&self) -> (s: &'static str)
        ensures
            s@ == field_name(*self),
    {
        match self {
            MetadataField::Closed => "closed",
        }
    }

    /// The field that a key names; any key but "closed" is refused as unknown.
    pub fn from_name(value: &str) -> (r: Result<MetadataField, MetadataError>)
        ensures
            r is Ok <==> parse_field(value@) is Some,
            r matches Ok(f) ==> parse_field(value@) == Some(f) && field_name(f) == value@,
            r matches Err(e) ==> e matches MetadataError::UnknownField(k) && k@ == value@,
    {
        if str_eq(value, "closed") {
            Ok(MetadataField::Closed)
        } else {
            Err(MetadataError::UnknownField(String::from_str(value)))
        }
    }
}

/// Extension type metadata for [`crate::Range`].
#[derive(Debug, Clone, PartialEq, Eq, Structural)]
pub struct RangeMetadata {
    /// Whether the interval endpoints are included or excluded.
    closed: RangeClosed,
}

impl View for RangeMetadata {
    type V = RangeClosed;

    closed spec fn view(&self) -> RangeClosed {
        self.closed
    }
}

/// Two metadata values are equal exactly when they say the same of the endpoints.
pub proof fn lemma_metadata_view_eq(a: RangeMetadata, b: RangeMetadata)
    ensures
        (a == b) <==> (a@ == b@),
{
}

impl RangeMetadata {
    /// Returns a new `RangeMetadata`.
    pub fn new(closed: RangeClosed) -> (m: RangeMetadata)
        ensures
            m@ == closed,
    {
        RangeMetadata { closed }
    }

    /// Returns whether the interval endpoints are included or excluded.
    pub fn closed(&self) -> (c: RangeClosed)
        ensures
            c == self@,
    {
        self.closed
    }

    /// The metadata read from its sequence form, given the first element if there
    /// is one; an empty sequence is refused.
    pub fn from_first_element(first: Option<RangeClosed>) -> (r: Result<
        RangeMetadata,
        MetadataError,
    >)
        ensures
            first matches Some(c) ==> (r matches Ok(m) && m@ == c),
            first is None ==> (r matches Err(e) && e == MetadataError::InvalidLength(0)),
    {
        match first {
            Some(closed) => Ok(RangeMetadata { closed }),
            None => Err(MetadataError::InvalidLength(0)),
        }
    }
}

/// What reading a key does, given the value of `closed` read so far: a key that
/// has been seen before is refused.
pub open spec fn key_step(seen: Option<RangeClosed>) -> Result<(), MetadataError> {
    if seen is Some {
        Err(MetadataError::DuplicateField)
    } else {
        Ok(())
    }
}

/// What the end of the keys gives, given the value of `closed` read so far.
pub open spec fn finish_step(seen: Option<RangeClosed>) -> Result<RangeClosed, MetadataError> {
    match seen {
        Some(c) => Ok(c),
        None => Err(MetadataError::MissingField),
    }
}

/// The outcome of reading a map form whose `closed` values are `values`, in
/// order, starting from what was read so far.
pub open spec fn read_entries(seen: Option<RangeClosed>, values: Seq<RangeClosed>) -> Result<
    RangeClosed,
    MetadataError,
>
    decreases values.len(),
{
    if values.len() == 0 {
        finish_step(seen)
    } else {
        match key_step(seen) {
            Err(e) => Err(e),
            Ok(()) => read_entries(Some(values[0]), values.drop_first()),
        }
    }
}

/// A map form is read as its one `closed` value: it is refused when the key
/// is missing and when it occurs twice or more.
pub proof fn lemma_read_entries(values: Seq<RangeClosed>)
    ensures
        values.len() == 0 ==> read_entries(None, values) == Err::<RangeClosed, MetadataError>(
            MetadataError::MissingField,
        ),
        values.len() == 1 ==> read_entries(None, values) == Ok::<RangeClosed, MetadataError>(
            values[0],
        ),
        values.len() >= 2 ==> read_entries(None, values) == Err::<RangeClosed, MetadataError>(
            MetadataError::DuplicateField,
        ),
{
    if values.len() >= 1 {
        let rest = values.drop_first();
        if rest.len() >= 1 {
            assert(read_entries(Some(values[0]), rest) == Err::<RangeClosed, MetadataError>(
                MetadataError::DuplicateField,
            ));
        }
    }
}

/// Writing metadata and reading it back gives the same metadata. The metadata
/// is written as the one key of its `closed` field, holding the name of its
/// value: that key is read as the `closed` field, that name is read as the
/// value, and a map form that holds the key once is read as that value.
pub proof fn lemma_metadata_roundtrip(c: RangeClosed)
    ensures
        parse_field(field_name(MetadataField::Closed)) == Some(MetadataField::Closed),
        parse_closed(closed_name(c)) == Some(c),
        read_entries(None, seq![c]) == Ok::<RangeClosed, MetadataError>(c),
{
    lemma_name_reads_back(c);
    lemma_read_entries(seq![c]);
}

/// Reads the map form of the metadata one key at a time: it keeps the value
/// of `closed` read so far.
pub struct MetadataMapReader {
    closed: Option<RangeClosed>,
}

impl View for MetadataMapReader {
    type V = Option<RangeClosed>;

    closed spec fn view(&self) -> Option<RangeClosed> {
        self.closed
    }
}

impl MetadataMapReader {
    /// A reader that has read nothing yet.
    pub fn new() -> (r: MetadataMapReader)
        ensures
            r@ is None,
    {
        MetadataMapReader { closed: None }
    }

    /// Decides whether the value of a key that was just read is to be read:
    /// `Ok` when it is, an error when the key was seen before.
    pub fn accept_key(&self, key: MetadataField) -> (r: Result<(), MetadataError>)
        ensures
            r == key_step(self@),
    {
        match key {
            MetadataField::Closed => {
                if self.closed.is_some() {
                    return Err(MetadataError::DuplicateField);
                }
                Ok(())
            },
        }
    }

    /// Records the value read for `closed`.
    pub fn accept_value(&mut self, value: RangeClosed)
        ensures
            final(self)@ == Some(value),
    {
        self.closed = Some(value);
    }

    /// The metadata once every key has been read; refused when `closed` was never read.
    pub fn finish(self) -> (r: Result<RangeMetadata, MetadataError>)
        ensures
            match (r, finish_step(self@)) {
                (Ok(m), Ok(c)) => m@ == c,
                (Err(e), Err(f)) => e == f,
                _ => false,
            },
    {
        match self.closed {
            Some(closed) => Ok(RangeMetadata { closed }),
            None => Err(MetadataError::MissingField),
        }
    }
}

} // verus!
