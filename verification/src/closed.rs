use vstd::prelude::*;

use crate::metadata::MetadataError;
use crate::text::str_eq;

verus! {

/// Whether the endpoints of a range are included (closed) or excluded (open).
///
/// Uses the same vocabulary as pandas: "left", "right", "both", "neither".
#[derive(Debug, Clone, Copy, PartialEq, Eq, Structural)]
pub enum RangeClosed {
    /// The left (lower) endpoint is included; the right (upper) is excluded.
    Left,
    /// The left (lower) endpoint is excluded; the right (upper) is included.
    Right,
    /// Both endpoints are included (closed interval).
    Both,
    /// Neither endpoint is included (open interval).
    Neither,
}

/// The names of the four values, in declaration order.
pub const RANGE_CLOSED_NAMES: [&'static str; 4] = ["left", "right", "both", "neither"];

/// The name under which a `RangeClosed` value is written in metadata.
pub open spec fn closed_name(c: RangeClosed) -> Seq<char> {
    match c {
        RangeClosed::Left => "left"@,
        RangeClosed::Right => "right"@,
        RangeClosed::Both => "both"@,
        RangeClosed::Neither => "neither"@,
    }
}

impl RangeClosed {
    /// The name of this value in metadata: one of "left", "right", "both", "neither".
    pub fn name(&self) -> (s: &'static str)
        ensures
            s@ == closed_name(*self),
    {
        match self {
            RangeClosed::Left => "left",
            RangeClosed::Right => "right",
            RangeClosed::Both => "both",
            RangeClosed::Neither => "neither",
        }
    }
}


/// The value that a name stands for, if any.
pub open spec fn parse_closed(s: Seq<char>) -> Option<RangeClosed> {
    if s == "left"@ {
        Some(RangeClosed::Left)
    } else if s == "right"@ {
        Some(RangeClosed::Right)
    } else if s == "both"@ {
        Some(RangeClosed::Both)
    } else if s == "neither"@ {
        Some(RangeClosed::Neither)
    } else {
        None
    }
}

impl RangeClosed {
    /// The value that a name stands for; any other name is refused as an unknown variant.
    pub fn from_name(value: &str) -> (r: Result<RangeClosed, MetadataError>)
        ensures
            r is Ok <==> parse_closed(value@) is Some,
            r matches Ok(c) ==> parse_closed(value@) == Some(c) && closed_name(c) == value@,
            r matches Err(e) ==> (e matches MetadataError::UnknownVariant(v) && v@ == value@),
    {
        if str_eq(value, "left") {
            Ok(RangeClosed::Left)
        } else if str_eq(value, "right") {
            Ok(RangeClosed::Right)
        } else if str_eq(value, "both") {
            Ok(RangeClosed::Both)
        } else if str_eq(value, "neither") {
            Ok(RangeClosed::Neither)
        } else {
            Err(MetadataError::UnknownVariant(String::from_str(value)))
        }
    }
}

/// Reading the name of a value gives that value back.
pub proof fn lemma_name_reads_back(c: RangeClosed)
    ensures
        parse_closed(closed_name(c)) == Some(c),
{
    reveal_strlit("left");
    reveal_strlit("right");
    reveal_strlit("both");
    reveal_strlit("neither");
    assert("left"@.len() == 4 && "right"@.len() == 5 && "both"@.len() == 4 && "neither"@.len() == 7);
    assert("left"@[0] != "both"@[0]);
}

/// The names that are read are exactly the names that values are written
/// under; every other name is refused.
pub proof fn lemma_closed_read_exactly_names(s: Seq<char>)
    ensures
        parse_closed(s) is Some <==> exists|c: RangeClosed| closed_name(c) == s,
{
    if exists|c: RangeClosed| closed_name(c) == s {
        let c = choose|c: RangeClosed| closed_name(c) == s;
        lemma_name_reads_back(c);
    }
    if let Some(c) = parse_closed(s) {
        lemma_read_is_name(s);
        assert(closed_name(c) == s);
    }
}

/// A name that is read stands for the value whose name it is: no value has two names.
pub proof fn lemma_read_is_name(s: Seq<char>)
    ensures
        parse_closed(s) matches Some(c) ==> closed_name(c) == s,
{
}

} // verus!
