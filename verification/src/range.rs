use vstd::prelude::*;

use crate::closed::RangeClosed;
use crate::datatype::{lemma_children_view, type_display, DataType, Field, TypeModel};
use crate::error::ArrowError;
use crate::metadata::RangeMetadata;
use crate::text::{decimal, push_decimal, str_eq};

verus! {

/// Why a type cannot store a range, or `None` when it can: it must be a struct
/// of exactly two fields, named "lower" and "upper" in that order, of the same
/// type. Whether either field may hold nulls does not matter.
pub open spec fn storage_error(t: TypeModel) -> Option<Seq<char>> {
    match t {
        TypeModel::Struct(fields) => {
            if fields.len() != 2 {
                Some(
                    "Range data type mismatch, expected Struct with 2 fields, found "@ + decimal(
                        fields.len(),
                    ) + " field(s)"@,
                )
            } else if fields[0].name != "lower"@ {
                Some(
                    "Range data type mismatch, expected first field named \"lower\", found \""@
                        + fields[0].name + "\""@,
                )
            } else if fields[1].name != "upper"@ {
                Some(
                    "Range data type mismatch, expected second field named \"upper\", found \""@
                        + fields[1].name + "\""@,
                )
            } else if fields[0].data_type != fields[1].data_type {
                Some(
                    "Range data type mismatch, \"lower\" and \"upper\" fields must have the same data type, found \""@
                        + type_display(fields[0].data_type) + "\" and \""@ + type_display(
                        fields[1].data_type,
                    ) + "\""@,
                )
            } else {
                None
            }
        },
        _ => Some("Range data type mismatch, expected Struct, found "@ + type_display(t)),
    }
}

/// Whether a type can store a range.
pub open spec fn is_range_storage(t: TypeModel) -> bool {
    storage_error(t) is None
}

/// A type can store a range exactly when it is a struct of two fields, the
/// first named "lower" and the second "upper", of the same type; whether each
/// of them may hold nulls plays no part.
pub proof fn lemma_range_storage_shape(t: TypeModel)
    ensures
        is_range_storage(t) <==> (t matches TypeModel::Struct(fields) && fields.len() == 2
            && fields[0].name == "lower"@ && fields[1].name == "upper"@ && fields[0].data_type
            == fields[1].data_type),
{
}

/// What a storage check answers for a type: `Ok` exactly when the type can
/// store a range, else an invalid-argument error that says why.
pub open spec fn storage_checked(t: TypeModel, r: Result<(), ArrowError>) -> bool {
    match r {
        Ok(()) => storage_error(t) is None,
        Err(e) => e is InvalidArgumentError && storage_error(t) == Some(e.message()),
    }
}

/// A storage check has one answer for each type: two checks of one type agree,
/// in the error's text too.
pub proof fn lemma_storage_check_determined(
    t: TypeModel,
    r1: Result<(), ArrowError>,
    r2: Result<(), ArrowError>,
)
    requires
        storage_checked(t, r1),
        storage_checked(t, r2),
    ensures
        r1 is Ok <==> r2 is Ok,
        r1 matches Err(e1) ==> (r2 matches Err(e2) && e1.message() == e2.message()),
{
}

/// Checks that `data_type` is an acceptable storage type for `arrow.range`:
/// a struct with exactly two fields named "lower" and "upper", both of the same
/// data type. Each bound may be nullable or not, independently.
pub fn validate_storage(data_type: &DataType) -> (r: Result<(), ArrowError>)
    ensures
        storage_checked(data_type@, r),
{
    proof {
        lemma_children_view(*data_type);
    }
    let fields: &Vec<Field> = match data_type {
        DataType::Struct(fields) => fields,
        other => {
            let mut m = String::from_str("Range data type mismatch, expected Struct, found ");
            other.push_display(&mut m);
            return Err(ArrowError::InvalidArgumentError(m));
        },
    };
    let ghost ms = fields@.map_values(|f: Field| f@);
    assert(data_type@ == TypeModel::Struct(ms));

    if fields.len() != 2 {
        let mut m = String::from_str(
            "Range data type mismatch, expected Struct with 2 fields, found ",
        );
        push_decimal(&mut m, fields.len());
        m.append(" field(s)");
        return Err(ArrowError::InvalidArgumentError(m));
    }
    let lower = &fields[0];
    let upper = &fields[1];
    assert(ms[0] == lower@ && ms[1] == upper@);

    if !str_eq(lower.name(), "lower") {
        let mut m = String::from_str(
            "Range data type mismatch, expected first field named \"lower\", found \"",
        );
        m.append(lower.name());
        m.append("\"");
        return Err(ArrowError::InvalidArgumentError(m));
    }
    if !str_eq(upper.name(), "upper") {
        let mut m = String::from_str(
            "Range data type mismatch, expected second field named \"upper\", found \"",
        );
        m.append(upper.name());
        m.append("\"");
        return Err(ArrowError::InvalidArgumentError(m));
    }
    if !lower.data_type().same_as(upper.data_type()) {
        let mut m = String::from_str(
            "Range data type mismatch, \"lower\" and \"upper\" fields must have the same data type, found \"",
        );
        lower.data_type().push_display(&mut m);
        m.append("\" and \"");
        upper.data_type().push_display(&mut m);
        m.append("\"");
        return Err(ArrowError::InvalidArgumentError(m));
    }
    Ok(())
}


/// The extension type for `Range`. Extension name: `arrow.range`.
///
/// A bounded set (mathematical interval) over an orderable value type T.
///
/// The storage type is a `Struct` with exactly two fields:
/// - `lower` (type T): the lower bound. Each bound may independently be
///   nullable or non-nullable. A nullable bound can hold null to represent an
///   unbounded (infinite, exclusive) endpoint. A non-nullable bound is always
///   finite.
/// - `upper` (type T): the upper bound. Same nullability semantics as `lower`.
///
/// Both fields must have the same data type T. The `closed` parameter specifies
/// which endpoints are included.
#[derive(Debug, Clone, PartialEq, Eq, Structural)]
pub struct Range(RangeMetadata);

impl View for Range {
    type V = RangeClosed;

    closed spec fn view(&self) -> RangeClosed {
        self.0@
    }
}

/// Two ranges are equal exactly when they say the same of the endpoints.
pub proof fn lemma_range_view_eq(a: Range, b: Range)
    ensures
        (a == b) <==> (a@ == b@),
{
    crate::metadata::lemma_metadata_view_eq(a.0, b.0);
}

/// The outcome of reading metadata from its text, given what the text parser
/// answered: its value, or an invalid-argument error that quotes the parser's
/// reason.
pub open spec fn deserialized(
    parsed: Result<RangeMetadata, String>,
    r: Result<RangeMetadata, ArrowError>,
) -> bool {
    match (parsed, r) {
        (Ok(m), Ok(n)) => n == m,
        (Err(reason), Err(e)) => e is InvalidArgumentError && e.message()
            == "Range metadata deserialization failed: "@ + reason@,
        _ => false,
    }
}

impl Range {
    /// The name under which this extension type is registered.
    pub const NAME: &'static str = "arrow.range";

    /// Returns a new `Range` extension type.
    pub fn new(closed: RangeClosed) -> (r: Range)
        ensures
            r@ == closed,
    {
        Range(RangeMetadata::new(closed))
    }

    /// Returns whether the interval endpoints are included or excluded.
    pub fn closed(&self) -> (c: RangeClosed)
        ensures
            c == self@,
    {
        self.0.closed()
    }

    /// The metadata of this extension type.
    pub fn metadata(&self) -> (m: &RangeMetadata)
        ensures
            m@ == self@,
    {
        &self.0
    }

    /// Reads the metadata of this extension type from its serialized text:
    /// without text it is refused, and text that `parse` refuses is refused with
    /// `parse`'s reason.
    pub fn deserialize_metadata<F: FnOnce(&str) -> Result<RangeMetadata, String>>(
        metadata: Option<&str>,
        parse: F,
    ) -> (r: Result<RangeMetadata, ArrowError>)
        requires
            metadata matches Some(text) ==> call_requires(parse, (text,)),
        ensures
            metadata is None ==> (r matches Err(e) && e is InvalidArgumentError && e.message()
                == "Range extension type requires metadata"@),
            metadata matches Some(text) ==> exists|parsed: Result<RangeMetadata, String>|
                #[trigger] call_ensures(parse, (text,), parsed) && deserialized(parsed, r),
    {
        match metadata {
            None => Err(
                ArrowError::InvalidArgumentError(
                    String::from_str("Range extension type requires metadata"),
                ),
            ),
            Some(text) => {
                let parsed = parse(text);
                match parsed {
                    Ok(m) => Ok(m),
                    Err(reason) => {
                        let mut m = String::from_str("Range metadata deserialization failed: ");
                        m.append(reason.as_str());
                        Err(ArrowError::InvalidArgumentError(m))
                    },
                }
            },
        }
    }

    /// Checks that `data_type` can store this extension type (see [`validate_storage`]).
    pub fn supports_data_type(&self, data_type: &DataType) -> (r: Result<(), ArrowError>)
        ensures
            storage_checked(data_type@, r),
    {
        validate_storage(data_type)
    }

    /// The extension type with the given metadata over `data_type`, refused
    /// when `data_type` cannot store it.
    pub fn try_new(data_type: &DataType, metadata: RangeMetadata) -> (r: Result<Range, ArrowError>)
        ensures
            r is Ok <==> is_range_storage(data_type@),
            r matches Ok(range) ==> range@ == metadata@,
            r matches Err(e) ==> storage_checked(data_type@, Err(e)),
    {
        validate_storage(data_type)?;
        Ok(Range::from(metadata))
    }

    /// Checks that `data_type` can store the extension type with the given metadata.
    pub fn validate(data_type: &DataType, _metadata: RangeMetadata) -> (r: Result<(), ArrowError>)
        ensures
            storage_checked(data_type@, r),
    {
        validate_storage(data_type)
    }
}

impl From<RangeMetadata> for Range {
    fn from(value: RangeMetadata) -> (r: Range)
        ensures
            r@ == value@,
    {
        Range(value)
    }
}

impl vstd::std_specs::convert::FromSpecImpl<RangeMetadata> for Range {
    open spec fn obeys_from_spec() -> bool {
        true
    }

    closed spec fn from_spec(value: RangeMetadata) -> Range {
        Range(value)
    }
}

} // verus!
