use vstd::prelude::*;

use crate::entries::{entries_eq, entries_map, find_entry};
use crate::text::{push_signed_decimal, signed_decimal, str_eq};

verus! {

broadcast use vstd::std_specs::vec::group_vec_axioms;

/// The unit of a time or duration value.
#[derive(Debug, Clone, Copy, PartialEq, Eq, Structural)]
pub enum TimeUnit {
    Second,
    Millisecond,
    Microsecond,
    Nanosecond,
}

/// The unit of an interval value.
#[derive(Debug, Clone, Copy, PartialEq, Eq, Structural)]
pub enum IntervalUnit {
    YearMonth,
    DayTime,
    MonthDayNano,
}

/// How the children of a union are laid out.
#[derive(Debug, Clone, Copy, PartialEq, Eq, Structural)]
pub enum UnionMode {
    Sparse,
    Dense,
}

/// The logical type of the values in a column.
#[derive(Debug)]
pub enum DataType {
    Null,
    Boolean,
    Int8,
    Int16,
    Int32,
    Int64,
    UInt8,
    UInt16,
    UInt32,
    UInt64,
    Float16,
    Float32,
    Float64,
    /// Time since the epoch, in a unit, with an optional time zone.
    Timestamp(TimeUnit, Option<String>),
    Date32,
    Date64,
    Time32(TimeUnit),
    Time64(TimeUnit),
    Duration(TimeUnit),
    Interval(IntervalUnit),
    Binary,
    /// Binary values that all have the given number of bytes.
    FixedSizeBinary(i32),
    LargeBinary,
    BinaryView,
    Utf8,
    LargeUtf8,
    Utf8View,
    /// A list whose items are described by the field.
    List(Box<Field>),
    ListView(Box<Field>),
    /// A list of the given number of items.
    FixedSizeList(Box<Field>, i32),
    LargeList(Box<Field>),
    LargeListView(Box<Field>),
    /// A nested type whose values hold one child value per field.
    Struct(Vec<Field>),
    /// A value of one of the children, each tagged with its type id.
    Union(Vec<(i8, Field)>, UnionMode),
    /// Values of the second type, stored through keys of the first type.
    Dictionary(Box<DataType>, Box<DataType>),
    /// Decimal values with the given precision and scale.
    Decimal32(u8, i8),
    Decimal64(u8, i8),
    Decimal128(u8, i8),
    Decimal256(u8, i8),
    /// A map whose entries are described by the field; the flag says whether keys are sorted.
    MapOf(Box<Field>, bool),
    /// Run ends, then the values they run over.
    RunEndEncoded(Box<Field>, Box<Field>),
}

/// A named, typed column that may or may not hold nulls, with key-value metadata.
#[derive(Debug)]
pub struct Field {
    name: String,
    data_type: DataType,
    nullable: bool,
    metadata: Vec<(String, String)>,
}

/// The mathematical value of a [`DataType`].
#[verifier::ext_equal]
pub enum TypeModel {
    Null,
    Boolean,
    Int8,
    Int16,
    Int32,
    Int64,
    UInt8,
    UInt16,
    UInt32,
    UInt64,
    Float16,
    Float32,
    Float64,
    Timestamp(TimeUnit, Option<Seq<char>>),
    Date32,
    Date64,
    Time32(TimeUnit),
    Time64(TimeUnit),
    Duration(TimeUnit),
    Interval(IntervalUnit),
    Binary,
    FixedSizeBinary(i32),
    LargeBinary,
    BinaryView,
    Utf8,
    LargeUtf8,
    Utf8View,
    List(Box<FieldModel>),
    ListView(Box<FieldModel>),
    FixedSizeList(Box<FieldModel>, i32),
    LargeList(Box<FieldModel>),
    LargeListView(Box<FieldModel>),
    Struct(Seq<FieldModel>),
    Union(Seq<(i8, FieldModel)>, UnionMode),
    Dictionary(Box<TypeModel>, Box<TypeModel>),
    Decimal32(u8, i8),
    Decimal64(u8, i8),
    Decimal128(u8, i8),
    Decimal256(u8, i8),
    MapOf(Box<FieldModel>, bool),
    RunEndEncoded(Box<FieldModel>, Box<FieldModel>),
}

/// The mathematical value of a [`Field`].
#[verifier::ext_equal]
pub struct FieldModel {
    pub name: Seq<char>,
    pub data_type: TypeModel,
    pub nullable: bool,
    pub metadata: Map<Seq<char>, Seq<char>>,
}

/// A field model that stands in where no field is.
pub open spec fn no_field() -> FieldModel {
    FieldModel { name: Seq::empty(), data_type: TypeModel::Null, nullable: false, metadata: Map::empty() }
}

pub open spec fn type_model(t: DataType) -> TypeModel
    decreases t,
{
    match t {
        DataType::Null => TypeModel::Null,
        DataType::Boolean => TypeModel::Boolean,
        DataType::Int8 => TypeModel::Int8,
        DataType::Int16 => TypeModel::Int16,
        DataType::Int32 => TypeModel::Int32,
        DataType::Int64 => TypeModel::Int64,
        DataType::UInt8 => TypeModel::UInt8,
        DataType::UInt16 => TypeModel::UInt16,
        DataType::UInt32 => TypeModel::UInt32,
        DataType::UInt64 => TypeModel::UInt64,
        DataType::Float16 => TypeModel::Float16,
        DataType::Float32 => TypeModel::Float32,
        DataType::Float64 => TypeModel::Float64,
        DataType::Timestamp(u, tz) => TypeModel::Timestamp(
            u,
            match tz {
                Some(z) => Some(z@),
                None => None,
            },
        ),
        DataType::Date32 => TypeModel::Date32,
        DataType::Date64 => TypeModel::Date64,
        DataType::Time32(u) => TypeModel::Time32(u),
        DataType::Time64(u) => TypeModel::Time64(u),
        DataType::Duration(u) => TypeModel::Duration(u),
        DataType::Interval(u) => TypeModel::Interval(u),
        DataType::Binary => TypeModel::Binary,
        DataType::FixedSizeBinary(n) => TypeModel::FixedSizeBinary(n),
        DataType::LargeBinary => TypeModel::LargeBinary,
        DataType::BinaryView => TypeModel::BinaryView,
        DataType::Utf8 => TypeModel::Utf8,
        DataType::LargeUtf8 => TypeModel::LargeUtf8,
        DataType::Utf8View => TypeModel::Utf8View,
        DataType::List(f) => TypeModel::List(Box::new(field_model(*f))),
        DataType::ListView(f) => TypeModel::ListView(Box::new(field_model(*f))),
        DataType::FixedSizeList(f, n) => TypeModel::FixedSizeList(Box::new(field_model(*f)), n),
        DataType::LargeList(f) => TypeModel::LargeList(Box::new(field_model(*f))),
        DataType::LargeListView(f) => TypeModel::LargeListView(Box::new(field_model(*f))),
        DataType::Struct(fields) => TypeModel::Struct(
            Seq::new(
                fields@.len(),
                |i: int|
                    if 0 <= i < fields@.len() {
                        field_model(fields@[i])
                    } else {
                        no_field()
                    },
            ),
        ),
        DataType::Union(children, mode) => TypeModel::Union(
            Seq::new(
                children@.len(),
                |i: int|
                    if 0 <= i < children@.len() {
                        (children@[i].0, field_model(children@[i].1))
                    } else {
                        (0i8, no_field())
                    },
            ),
            mode,
        ),
        DataType::Dictionary(k, v) => TypeModel::Dictionary(
            Box::new(type_model(*k)),
            Box::new(type_model(*v)),
        ),
        DataType::Decimal32(p, s) => TypeModel::Decimal32(p, s),
        DataType::Decimal64(p, s) => TypeModel::Decimal64(p, s),
        DataType::Decimal128(p, s) => TypeModel::Decimal128(p, s),
        DataType::Decimal256(p, s) => TypeModel::Decimal256(p, s),
        DataType::MapOf(f, sorted) => TypeModel::MapOf(Box::new(field_model(*f)), sorted),
        DataType::RunEndEncoded(a, b) => TypeModel::RunEndEncoded(
            Box::new(field_model(*a)),
            Box::new(field_model(*b)),
        ),
    }
}

pub closed spec fn field_model(f: Field) -> FieldModel
    decreases f,
{
    FieldModel {
        name: f.name@,
        data_type: type_model(f.data_type),
        nullable: f.nullable,
        metadata: entries_map(f.metadata@),
    }
}

impl View for DataType {
    type V = TypeModel;

    open spec fn view(&self) -> TypeModel {
        type_model(*self)
    }
}

impl View for Field {
    type V = FieldModel;

    open spec fn view(&self) -> FieldModel {
        field_model(*self)
    }
}


/// What the views of a struct type's and a union type's children are: the
/// views of the children, in order.
pub proof fn lemma_children_view(t: DataType)
    ensures
        t matches DataType::Struct(fields) ==> t@ == TypeModel::Struct(
            fields@.map_values(|f: Field| f@),
        ),
        t matches DataType::Union(children, mode) ==> t@ == TypeModel::Union(
            children@.map_values(|c: (i8, Field)| (c.0, c.1@)),
            mode,
        ),
{
    match t {
        DataType::Struct(fields) => {
            let ms = fields@.map_values(|f: Field| f@);
            if let TypeModel::Struct(ns) = type_model(t) {
                assert forall|i: int| 0 <= i < ms.len() implies ns[i] == ms[i] by {
                    assert(ns[i] == field_model(fields@[i]));
                }
                assert(ns =~= ms);
            }
        },
        DataType::Union(children, mode) => {
            let ms = children@.map_values(|c: (i8, Field)| (c.0, c.1@));
            if let TypeModel::Union(ns, _) = type_model(t) {
                assert forall|i: int| 0 <= i < ms.len() implies ns[i] == ms[i] by {
                    assert(ns[i] == (children@[i].0, field_model(children@[i].1)));
                }
                assert(ns =~= ms);
            }
        },
        _ => {},
    }
}

/// A number that tells the kinds of type apart.
pub open spec fn kind_code(t: TypeModel) -> u8 {
    match t {
        TypeModel::Null => 0,
        TypeModel::Boolean => 1,
        TypeModel::Int8 => 2,
        TypeModel::Int16 => 3,
        TypeModel::Int32 => 4,
        TypeModel::Int64 => 5,
        TypeModel::UInt8 => 6,
        TypeModel::UInt16 => 7,
        TypeModel::UInt32 => 8,
        TypeModel::UInt64 => 9,
        TypeModel::Float16 => 10,
        TypeModel::Float32 => 11,
        TypeModel::Float64 => 12,
        TypeModel::Timestamp(..) => 13,
        TypeModel::Date32 => 14,
        TypeModel::Date64 => 15,
        TypeModel::Time32(..) => 16,
        TypeModel::Time64(..) => 17,
        TypeModel::Duration(..) => 18,
        TypeModel::Interval(..) => 19,
        TypeModel::Binary => 20,
        TypeModel::FixedSizeBinary(..) => 21,
        TypeModel::LargeBinary => 22,
        TypeModel::BinaryView => 23,
        TypeModel::Utf8 => 24,
        TypeModel::LargeUtf8 => 25,
        TypeModel::Utf8View => 26,
        TypeModel::List(..) => 27,
        TypeModel::ListView(..) => 28,
        TypeModel::FixedSizeList(..) => 29,
        TypeModel::LargeList(..) => 30,
        TypeModel::LargeListView(..) => 31,
        TypeModel::Struct(..) => 32,
        TypeModel::Union(..) => 33,
        TypeModel::Dictionary(..) => 34,
        TypeModel::Decimal32(..) => 35,
        TypeModel::Decimal64(..) => 36,
        TypeModel::Decimal128(..) => 37,
        TypeModel::Decimal256(..) => 38,
        TypeModel::MapOf(..) => 39,
        TypeModel::RunEndEncoded(..) => 40,
    }
}

/// How a time unit is written in messages.
pub open spec fn time_unit_name(u: TimeUnit) -> Seq<char> {
    match u {
        TimeUnit::Second => "Second"@,
        TimeUnit::Millisecond => "Millisecond"@,
        TimeUnit::Microsecond => "Microsecond"@,
        TimeUnit::Nanosecond => "Nanosecond"@,
    }
}

/// How an interval unit is written in messages.
pub open spec fn interval_unit_name(u: IntervalUnit) -> Seq<char> {
    match u {
        IntervalUnit::YearMonth => "YearMonth"@,
        IntervalUnit::DayTime => "DayTime"@,
        IntervalUnit::MonthDayNano => "MonthDayNano"@,
    }
}

/// How a union mode is written in messages.
pub open spec fn union_mode_name(m: UnionMode) -> Seq<char> {
    match m {
        UnionMode::Sparse => "Sparse"@,
        UnionMode::Dense => "Dense"@,
    }
}

/// How a type is written in messages: the name of the kind, followed by its
/// parameters in brackets where it has any; a child field is written as
/// `name: type`.
pub open spec fn type_display(t: TypeModel) -> Seq<char>
    decreases t,
{
    match t {
        TypeModel::Null => "Null"@,
        TypeModel::Boolean => "Boolean"@,
        TypeModel::Int8 => "Int8"@,
        TypeModel::Int16 => "Int16"@,
        TypeModel::Int32 => "Int32"@,
        TypeModel::Int64 => "Int64"@,
        TypeModel::UInt8 => "UInt8"@,
        TypeModel::UInt16 => "UInt16"@,
        TypeModel::UInt32 => "UInt32"@,
        TypeModel::UInt64 => "UInt64"@,
        TypeModel::Float16 => "Float16"@,
        TypeModel::Float32 => "Float32"@,
        TypeModel::Float64 => "Float64"@,
        TypeModel::Timestamp(u, tz) => match tz {
            Some(z) => "Timestamp("@ + time_unit_name(u) + ", \""@ + z + "\")"@,
            None => "Timestamp("@ + time_unit_name(u) + ")"@,
        },
        TypeModel::Date32 => "Date32"@,
        TypeModel::Date64 => "Date64"@,
        TypeModel::Time32(u) => "Time32("@ + time_unit_name(u) + ")"@,
        TypeModel::Time64(u) => "Time64("@ + time_unit_name(u) + ")"@,
        TypeModel::Duration(u) => "Duration("@ + time_unit_name(u) + ")"@,
        TypeModel::Interval(u) => "Interval("@ + interval_unit_name(u) + ")"@,
        TypeModel::Binary => "Binary"@,
        TypeModel::FixedSizeBinary(n) => "FixedSizeBinary("@ + signed_decimal(n as int) + ")"@,
        TypeModel::LargeBinary => "LargeBinary"@,
        TypeModel::BinaryView => "BinaryView"@,
        TypeModel::Utf8 => "Utf8"@,
        TypeModel::LargeUtf8 => "LargeUtf8"@,
        TypeModel::Utf8View => "Utf8View"@,
        TypeModel::List(f) => "List("@ + field_display(*f) + ")"@,
        TypeModel::ListView(f) => "ListView("@ + field_display(*f) + ")"@,
        TypeModel::FixedSizeList(f, n) => "FixedSizeList("@ + signed_decimal(n as int) + " x "@
            + field_display(*f) + ")"@,
        TypeModel::LargeList(f) => "LargeList("@ + field_display(*f) + ")"@,
        TypeModel::LargeListView(f) => "LargeListView("@ + field_display(*f) + ")"@,
        TypeModel::Struct(fields) => "Struct("@ + fields_display(fields) + ")"@,
        TypeModel::Union(children, mode) => "Union("@ + union_mode_name(mode) + ", ["@
            + children_display(children) + "])"@,
        TypeModel::Dictionary(k, v) => "Dictionary("@ + type_display(*k) + ", "@ + type_display(
            *v,
        ) + ")"@,
        TypeModel::Decimal32(p, s) => "Decimal32("@ + signed_decimal(p as int) + ", "@
            + signed_decimal(s as int) + ")"@,
        TypeModel::Decimal64(p, s) => "Decimal64("@ + signed_decimal(p as int) + ", "@
            + signed_decimal(s as int) + ")"@,
        TypeModel::Decimal128(p, s) => "Decimal128("@ + signed_decimal(p as int) + ", "@
            + signed_decimal(s as int) + ")"@,
        TypeModel::Decimal256(p, s) => "Decimal256("@ + signed_decimal(p as int) + ", "@
            + signed_decimal(s as int) + ")"@,
        TypeModel::MapOf(f, sorted) => "Map("@ + field_display(*f) + (if sorted {
            ", sorted)"@
        } else {
            ", unsorted)"@
        }),
        TypeModel::RunEndEncoded(a, b) => "RunEndEncoded("@ + field_display(*a) + ", "@
            + field_display(*b) + ")"@,
    }
}

/// How a child field is written in messages: `name: type`.
pub open spec fn field_display(f: FieldModel) -> Seq<char>
    decreases f,
{
    f.name + ": "@ + type_display(f.data_type)
}

/// The fields of a struct type as written in messages, separated by ", ".
pub open spec fn fields_display(fields: Seq<FieldModel>) -> Seq<char>
    decreases fields,
{
    if fields.len() == 0 {
        Seq::empty()
    } else {
        let init = fields.subrange(0, fields.len() - 1);
        let shown = field_display(fields[fields.len() - 1]);
        if init.len() == 0 {
            shown
        } else {
            fields_display(init) + ", "@ + shown
        }
    }
}

/// The children of a union type as written in messages, `id: name: type`,
/// separated by ", ".
pub open spec fn children_display(children: Seq<(i8, FieldModel)>) -> Seq<char>
    decreases children,
{
    if children.len() == 0 {
        Seq::empty()
    } else {
        let init = children.subrange(0, children.len() - 1);
        let last = children[children.len() - 1];
        let shown = signed_decimal(last.0 as int) + ": "@ + field_display(last.1);
        if init.len() == 0 {
            shown
        } else {
            children_display(init) + ", "@ + shown
        }
    }
}

impl TimeUnit {
    /// How this unit is written in messages.
    pub fn name(&self) -> (s: &'static str)
        ensures
            s@ == time_unit_name(*self),
    {
        match self {
            TimeUnit::Second => "Second",
            TimeUnit::Millisecond => "Millisecond",
            TimeUnit::Microsecond => "Microsecond",
            TimeUnit::Nanosecond => "Nanosecond",
        }
    }
}

impl IntervalUnit {
    /// How this unit is written in messages.
    pub fn name(&self) -> (s: &'static str)
        ensures
            s@ == interval_unit_name(*self),
    {
        match self {
            IntervalUnit::YearMonth => "YearMonth",
            IntervalUnit::DayTime => "DayTime",
            IntervalUnit::MonthDayNano => "MonthDayNano",
        }
    }
}

impl UnionMode {
    /// How this mode is written in messages.
    pub fn name(&self) -> (s: &'static str)
        ensures
            s@ == union_mode_name(*self),
    {
        match self {
            UnionMode::Sparse => "Sparse",
            UnionMode::Dense => "Dense",
        }
    }
}

impl Field {
    /// A field with the given name, type and nullability, and no metadata.
    pub fn new(name: &str, data_type: DataType, nullable: bool) -> (f: Field)
        ensures
            f@ == (FieldModel {
                name: name@,
                data_type: data_type@,
                nullable,
                metadata: Map::empty(),
            }),
    {
        let f = Field { name: String::from_str(name), data_type, nullable, metadata: Vec::new() };
        assert(f.metadata@ =~= Seq::<(String, String)>::empty());
        f
    }

    /// This field with its metadata replaced by the given entries; where a key
    /// occurs twice, the later entry holds.
    pub fn with_metadata(self, metadata: Vec<(String, String)>) -> (f: Field)
        ensures
            f@ == (FieldModel { metadata: entries_map(metadata@), ..self@ }),
    {
        Field { metadata, ..self }
    }

    /// The name of this field.
    pub fn name(&self) -> (r: &str)
        ensures
            r@ == self@.name,
    {
        self.name.as_str()
    }

    /// The type of the values in this field.
    pub fn data_type(&self) -> (r: &DataType)
        ensures
            r@ == self@.data_type,
    {
        &self.data_type
    }

    /// Whether this field may hold nulls.
    pub fn is_nullable(&self) -> (r: bool)
        ensures
            r == self@.nullable,
    {
        self.nullable
    }

    /// The metadata value of a key, if the key is there.
    pub fn metadata_value(&self, key: &str) -> (r: Option<&str>)
        ensures
            r is Some <==> self@.metadata.dom().contains(key@),
            r matches Some(v) ==> v@ == self@.metadata[key@],
    {
        match find_entry(&self.metadata, key) {
            Some(j) => Some(self.metadata[j].1.as_str()),
            None => None,
        }
    }

    /// Whether two fields are the same: in name, type, nullability and metadata.
    pub fn same_as(&self, other: &Field) -> (r: bool)
        ensures
            r == (self@ == other@),
        decreases self,
    {
        let same_name = str_eq(self.name.as_str(), other.name.as_str());
        let same_type = self.data_type.same_as(&other.data_type);
        let same_metadata = entries_eq(&self.metadata, &other.metadata);
        let r = same_name && same_type && self.nullable == other.nullable && same_metadata;
        assert(r ==> self@ =~= other@);
        r
    }

    /// Appends how this field is written in messages (see [`field_display`]) to `out`.
    pub fn push_display(&self, out: &mut String)
        ensures
            final(out)@ == old(out)@ + field_display(self@),
        decreases self,
    {
        out.append(self.name.as_str());
        out.append(": ");
        self.data_type.push_display(out);
    }

    /// A copy of this field, equal to it in every part.
    pub fn duplicate(&self) -> (r: Field)
        ensures
            r@ == self@,
        decreases self,
    {
        let mut metadata: Vec<(String, String)> = Vec::new();
        let mut i: usize = 0;
        while i < self.metadata.len()
            invariant
                i <= self.metadata@.len(),
                metadata@.len() == i,
                forall|j: int|
                    0 <= j < i ==> (#[trigger] metadata@[j]).0@ == self.metadata@[j].0@
                        && metadata@[j].1@ == self.metadata@[j].1@,
            decreases self.metadata@.len() - i,
        {
            let key = String::from_str(self.metadata[i].0.as_str());
            let value = String::from_str(self.metadata[i].1.as_str());
            metadata.push((key, value));
            i = i + 1;
        }
        proof {
            lemma_entries_map_pointwise(metadata@, self.metadata@);
        }
        Field {
            name: String::from_str(self.name.as_str()),
            data_type: self.data_type.duplicate(),
            nullable: self.nullable,
            metadata,
        }
    }
}

/// Two entry lists that hold the same keys and values, one by one, stand for
/// the same map.
proof fn lemma_entries_map_pointwise(a: Seq<(String, String)>, b: Seq<(String, String)>)
    requires
        a.len() == b.len(),
        forall|j: int| 0 <= j < a.len() ==> (#[trigger] a[j]).0@ == b[j].0@ && a[j].1@ == b[j].1@,
    ensures
        entries_map(a) == entries_map(b),
    decreases a.len(),
{
    if a.len() > 0 {
        lemma_entries_map_pointwise(a.drop_last(), b.drop_last());
        assert(a.last() == a[a.len() - 1]);
        assert(b.last() == b[b.len() - 1]);
    }
}

impl DataType {
    /// A number that tells the kinds of type apart (see [`kind_code`]).
    pub fn kind(&self) -> (r: u8)
        ensures
            r == kind_code(self@),
    {
        match self {
            DataType::Null => 0,
            DataType::Boolean => 1,
            DataType::Int8 => 2,
            DataType::Int16 => 3,
            DataType::Int32 => 4,
            DataType::Int64 => 5,
            DataType::UInt8 => 6,
            DataType::UInt16 => 7,
            DataType::UInt32 => 8,
            DataType::UInt64 => 9,
            DataType::Float16 => 10,
            DataType::Float32 => 11,
            DataType::Float64 => 12,
            DataType::Timestamp(..) => 13,
            DataType::Date32 => 14,
            DataType::Date64 => 15,
            DataType::Time32(..) => 16,
            DataType::Time64(..) => 17,
            DataType::Duration(..) => 18,
            DataType::Interval(..) => 19,
            DataType::Binary => 20,
            DataType::FixedSizeBinary(..) => 21,
            DataType::LargeBinary => 22,
            DataType::BinaryView => 23,
            DataType::Utf8 => 24,
            DataType::LargeUtf8 => 25,
            DataType::Utf8View => 26,
            DataType::List(..) => 27,
            DataType::ListView(..) => 28,
            DataType::FixedSizeList(..) => 29,
            DataType::LargeList(..) => 30,
            DataType::LargeListView(..) => 31,
            DataType::Struct(..) => 32,
            DataType::Union(..) => 33,
            DataType::Dictionary(..) => 34,
            DataType::Decimal32(..) => 35,
            DataType::Decimal64(..) => 36,
            DataType::Decimal128(..) => 37,
            DataType::Decimal256(..) => 38,
            DataType::MapOf(..) => 39,
            DataType::RunEndEncoded(..) => 40,
        }
    }

    /// Whether two types are the same: the same kind with the same parameters,
    /// child fields agreeing one by one in name, type, nullability and metadata.
    pub fn same_as(&self, other: &DataType) -> (r: bool)
        ensures
            r == (self@ == other@),
        decreases self,
    {
        proof {
            lemma_children_view(*self);
            lemma_children_view(*other);
        }
        match (self, other) {
            (DataType::Timestamp(u1, z1), DataType::Timestamp(u2, z2)) => {
                let same_zone = match (z1, z2) {
                    (Some(a), Some(b)) => str_eq(a.as_str(), b.as_str()),
                    (None, None) => true,
                    _ => false,
                };
                *u1 == *u2 && same_zone
            },
            (DataType::Time32(a), DataType::Time32(b)) => *a == *b,
            (DataType::Time64(a), DataType::Time64(b)) => *a == *b,
            (DataType::Duration(a), DataType::Duration(b)) => *a == *b,
            (DataType::Interval(a), DataType::Interval(b)) => *a == *b,
            (DataType::FixedSizeBinary(a), DataType::FixedSizeBinary(b)) => *a == *b,
            (DataType::List(a), DataType::List(b)) => a.same_as(b),
            (DataType::ListView(a), DataType::ListView(b)) => a.same_as(b),
            (DataType::FixedSizeList(a, n), DataType::FixedSizeList(b, m)) => {
                *n == *m && a.same_as(b)
            },
            (DataType::LargeList(a), DataType::LargeList(b)) => a.same_as(b),
            (DataType::LargeListView(a), DataType::LargeListView(b)) => a.same_as(b),
            (DataType::Struct(a), DataType::Struct(b)) => {
                let ghost ma = a@.map_values(|f: Field| f@);
                let ghost mb = b@.map_values(|f: Field| f@);
                if a.len() != b.len() {
                    assert(ma.len() != mb.len());
                    return false;
                }
                let mut i: usize = 0;
                while i < a.len()
                    invariant
                        a.len() == b.len(),
                        i <= a.len(),
                        ma == a@.map_values(|f: Field| f@),
                        mb == b@.map_values(|f: Field| f@),
                        *self == DataType::Struct(*a),
                        self@ == TypeModel::Struct(ma),
                        other@ == TypeModel::Struct(mb),
                        forall|j: int| 0 <= j < i ==> ma[j] == mb[j],
                    decreases a.len() - i,
                {
                    assert(decreases_to!(*self => a[i as int])) by {
                        assert(decreases_to!(*self => (*self)->Struct_0));
                        assert(decreases_to!(*a => a[i as int]));
                    }
                    if !a[i].same_as(&b[i]) {
                        assert(ma[i as int] != mb[i as int]);
                        assert(ma != mb);
                        return false;
                    }
                    i = i + 1;
                }
                assert(ma =~= mb);
                true
            },
            (DataType::Union(a, mode_a), DataType::Union(b, mode_b)) => {
                let ghost ma = a@.map_values(|c: (i8, Field)| (c.0, c.1@));
                let ghost mb = b@.map_values(|c: (i8, Field)| (c.0, c.1@));
                if *mode_a != *mode_b || a.len() != b.len() {
                    assert(ma.len() != mb.len() || *mode_a != *mode_b);
                    return false;
                }
                let mut i: usize = 0;
                while i < a.len()
                    invariant
                        a.len() == b.len(),
                        i <= a.len(),
                        ma == a@.map_values(|c: (i8, Field)| (c.0, c.1@)),
                        mb == b@.map_values(|c: (i8, Field)| (c.0, c.1@)),
                        *self == DataType::Union(*a, *mode_a),
                        *mode_a == *mode_b,
                        self@ == TypeModel::Union(ma, *mode_a),
                        other@ == TypeModel::Union(mb, *mode_b),
                        forall|j: int| 0 <= j < i ==> ma[j] == mb[j],
                    decreases a.len() - i,
                {
                    assert(decreases_to!(*self => a[i as int].1)) by {
                        assert(decreases_to!(*self => (*self)->Union_0));
                        assert(decreases_to!(*a => a[i as int]));
                        assert(decreases_to!(a[i as int] => a[i as int].1));
                    }
                    if a[i].0 != b[i].0 || !a[i].1.same_as(&b[i].1) {
                        assert(ma[i as int] != mb[i as int]);
                        assert(ma != mb);
                        return false;
                    }
                    i = i + 1;
                }
                assert(ma =~= mb);
                true
            },
            (DataType::Dictionary(k1, v1), DataType::Dictionary(k2, v2)) => {
                k1.same_as(k2) && v1.same_as(v2)
            },
            (DataType::Decimal32(p1, s1), DataType::Decimal32(p2, s2)) => *p1 == *p2 && *s1 == *s2,
            (DataType::Decimal64(p1, s1), DataType::Decimal64(p2, s2)) => *p1 == *p2 && *s1 == *s2,
            (DataType::Decimal128(p1, s1), DataType::Decimal128(p2, s2)) => {
                *p1 == *p2 && *s1 == *s2
            },
            (DataType::Decimal256(p1, s1), DataType::Decimal256(p2, s2)) => {
                *p1 == *p2 && *s1 == *s2
            },
            (DataType::MapOf(a, s1), DataType::MapOf(b, s2)) => *s1 == *s2 && a.same_as(b),
            (DataType::RunEndEncoded(a1, b1), DataType::RunEndEncoded(a2, b2)) => {
                a1.same_as(a2) && b1.same_as(b2)
            },
            _ => self.kind() == other.kind(),
        }
    }

    /// Appends how this type is written in messages (see [`type_display`]) to `out`.
    pub fn push_display(&self, out: &mut String)
        ensures
            final(out)@ == old(out)@ + type_display(self@),
        decreases self,
    {
        proof {
            lemma_children_view(*self);
        }
        match self {
            DataType::Null => out.append("Null"),
            DataType::Boolean => out.append("Boolean"),
            DataType::Int8 => out.append("Int8"),
            DataType::Int16 => out.append("Int16"),
            DataType::Int32 => out.append("Int32"),
            DataType::Int64 => out.append("Int64"),
            DataType::UInt8 => out.append("UInt8"),
            DataType::UInt16 => out.append("UInt16"),
            DataType::UInt32 => out.append("UInt32"),
            DataType::UInt64 => out.append("UInt64"),
            DataType::Float16 => out.append("Float16"),
            DataType::Float32 => out.append("Float32"),
            DataType::Float64 => out.append("Float64"),
            DataType::Timestamp(u, tz) => {
                out.append("Timestamp(");
                out.append(u.name());
                match tz {
                    Some(z) => {
                        out.append(", \"");
                        out.append(z.as_str());
                        out.append("\")");
                    },
                    None => out.append(")"),
                }
            },
            DataType::Date32 => out.append("Date32"),
            DataType::Date64 => out.append("Date64"),
            DataType::Time32(u) => {
                out.append("Time32(");
                out.append(u.name());
                out.append(")");
            },
            DataType::Time64(u) => {
                out.append("Time64(");
                out.append(u.name());
                out.append(")");
            },
            DataType::Duration(u) => {
                out.append("Duration(");
                out.append(u.name());
                out.append(")");
            },
            DataType::Interval(u) => {
                out.append("Interval(");
                out.append(u.name());
                out.append(")");
            },
            DataType::Binary => out.append("Binary"),
            DataType::FixedSizeBinary(n) => {
                out.append("FixedSizeBinary(");
                push_signed_decimal(out, *n);
                out.append(")");
            },
            DataType::LargeBinary => out.append("LargeBinary"),
            DataType::BinaryView => out.append("BinaryView"),
            DataType::Utf8 => out.append("Utf8"),
            DataType::LargeUtf8 => out.append("LargeUtf8"),
            DataType::Utf8View => out.append("Utf8View"),
            DataType::List(f) => {
                out.append("List(");
                f.push_display(out);
                out.append(")");
            },
            DataType::ListView(f) => {
                out.append("ListView(");
                f.push_display(out);
                out.append(")");
            },
            DataType::FixedSizeList(f, n) => {
                out.append("FixedSizeList(");
                push_signed_decimal(out, *n);
                out.append(" x ");
                f.push_display(out);
                out.append(")");
            },
            DataType::LargeList(f) => {
                out.append("LargeList(");
                f.push_display(out);
                out.append(")");
            },
            DataType::LargeListView(f) => {
                out.append("LargeListView(");
                f.push_display(out);
                out.append(")");
            },
            DataType::Struct(fields) => {
                assert(decreases_to!(*self => (*self)->Struct_0));
                out.append("Struct(");
                push_fields_display(fields, out);
                out.append(")");
            },
            DataType::Union(children, mode) => {
                assert(decreases_to!(*self => (*self)->Union_0));
                out.append("Union(");
                out.append(mode.name());
                out.append(", [");
                push_children_display(children, out);
                out.append("])");
            },
            DataType::Dictionary(k, v) => {
                out.append("Dictionary(");
                k.push_display(out);
                out.append(", ");
                v.push_display(out);
                out.append(")");
            },
            DataType::Decimal32(p, s) => {
                out.append("Decimal32(");
                push_signed_decimal(out, *p as i32);
                out.append(", ");
                push_signed_decimal(out, *s as i32);
                out.append(")");
            },
            DataType::Decimal64(p, s) => {
                out.append("Decimal64(");
                push_signed_decimal(out, *p as i32);
                out.append(", ");
                push_signed_decimal(out, *s as i32);
                out.append(")");
            },
            DataType::Decimal128(p, s) => {
                out.append("Decimal128(");
                push_signed_decimal(out, *p as i32);
                out.append(", ");
                push_signed_decimal(out, *s as i32);
                out.append(")");
            },
            DataType::Decimal256(p, s) => {
                out.append("Decimal256(");
                push_signed_decimal(out, *p as i32);
                out.append(", ");
                push_signed_decimal(out, *s as i32);
                out.append(")");
            },
            DataType::MapOf(f, sorted) => {
                out.append("Map(");
                f.push_display(out);
                if *sorted {
                    out.append(", sorted)");
                } else {
                    out.append(", unsorted)");
                }
            },
            DataType::RunEndEncoded(a, b) => {
                out.append("RunEndEncoded(");
                a.push_display(out);
                out.append(", ");
                b.push_display(out);
                out.append(")");
            },
        }
    }

    /// A copy of this type, equal to it in every part.
    pub fn duplicate(&self) -> (r: DataType)
        ensures
            r@ == self@,
        decreases self,
    {
        proof {
            lemma_children_view(*self);
        }
        match self {
            DataType::Null => DataType::Null,
            DataType::Boolean => DataType::Boolean,
            DataType::Int8 => DataType::Int8,
            DataType::Int16 => DataType::Int16,
            DataType::Int32 => DataType::Int32,
            DataType::Int64 => DataType::Int64,
            DataType::UInt8 => DataType::UInt8,
            DataType::UInt16 => DataType::UInt16,
            DataType::UInt32 => DataType::UInt32,
            DataType::UInt64 => DataType::UInt64,
            DataType::Float16 => DataType::Float16,
            DataType::Float32 => DataType::Float32,
            DataType::Float64 => DataType::Float64,
            DataType::Timestamp(u, tz) => DataType::Timestamp(
                *u,
                match tz {
                    Some(z) => Some(String::from_str(z.as_str())),
                    None => None,
                },
            ),
            DataType::Date32 => DataType::Date32,
            DataType::Date64 => DataType::Date64,
            DataType::Time32(u) => DataType::Time32(*u),
            DataType::Time64(u) => DataType::Time64(*u),
            DataType::Duration(u) => DataType::Duration(*u),
            DataType::Interval(u) => DataType::Interval(*u),
            DataType::Binary => DataType::Binary,
            DataType::FixedSizeBinary(n) => DataType::FixedSizeBinary(*n),
            DataType::LargeBinary => DataType::LargeBinary,
            DataType::BinaryView => DataType::BinaryView,
            DataType::Utf8 => DataType::Utf8,
            DataType::LargeUtf8 => DataType::LargeUtf8,
            DataType::Utf8View => DataType::Utf8View,
            DataType::List(f) => DataType::List(Box::new(f.duplicate())),
            DataType::ListView(f) => DataType::ListView(Box::new(f.duplicate())),
            DataType::FixedSizeList(f, n) => DataType::FixedSizeList(Box::new(f.duplicate()), *n),
            DataType::LargeList(f) => DataType::LargeList(Box::new(f.duplicate())),
            DataType::LargeListView(f) => DataType::LargeListView(Box::new(f.duplicate())),
            DataType::Struct(fields) => {
                let ghost ms = fields@.map_values(|f: Field| f@);
                let mut copies: Vec<Field> = Vec::new();
                let mut i: usize = 0;
                while i < fields.len()
                    invariant
                        i <= fields.len(),
                        copies.len() == i,
                        ms == fields@.map_values(|f: Field| f@),
                        *self == DataType::Struct(*fields),
                        forall|j: int| 0 <= j < i ==> copies@[j]@ == ms[j],
                    decreases fields.len() - i,
                {
                    assert(decreases_to!(*self => fields[i as int])) by {
                        assert(decreases_to!(*self => (*self)->Struct_0));
                        assert(decreases_to!(*fields => fields[i as int]));
                    }
                    copies.push(fields[i].duplicate());
                    i = i + 1;
                }
                let r = DataType::Struct(copies);
                proof {
                    lemma_children_view(r);
                    assert(copies@.map_values(|f: Field| f@) =~= ms);
                }
                r
            },
            DataType::Union(children, mode) => {
                let ghost ms = children@.map_values(|c: (i8, Field)| (c.0, c.1@));
                let mut copies: Vec<(i8, Field)> = Vec::new();
                let mut i: usize = 0;
                while i < children.len()
                    invariant
                        i <= children.len(),
                        copies.len() == i,
                        ms == children@.map_values(|c: (i8, Field)| (c.0, c.1@)),
                        *self == DataType::Union(*children, *mode),
                        forall|j: int| 0 <= j < i ==> (copies@[j].0, copies@[j].1@) == ms[j],
                    decreases children.len() - i,
                {
                    assert(decreases_to!(*self => children[i as int].1)) by {
                        assert(decreases_to!(*self => (*self)->Union_0));
                        assert(decreases_to!(*children => children[i as int]));
                        assert(decreases_to!(children[i as int] => children[i as int].1));
                    }
                    let copy = children[i].1.duplicate();
                    copies.push((children[i].0, copy));
                    i = i + 1;
                }
                let r = DataType::Union(copies, *mode);
                proof {
                    lemma_children_view(r);
                    assert(copies@.map_values(|c: (i8, Field)| (c.0, c.1@)) =~= ms);
                }
                r
            },
            DataType::Dictionary(k, v) => DataType::Dictionary(
                Box::new(k.duplicate()),
                Box::new(v.duplicate()),
            ),
            DataType::Decimal32(p, s) => DataType::Decimal32(*p, *s),
            DataType::Decimal64(p, s) => DataType::Decimal64(*p, *s),
            DataType::Decimal128(p, s) => DataType::Decimal128(*p, *s),
            DataType::Decimal256(p, s) => DataType::Decimal256(*p, *s),
            DataType::MapOf(f, sorted) => DataType::MapOf(Box::new(f.duplicate()), *sorted),
            DataType::RunEndEncoded(a, b) => DataType::RunEndEncoded(
                Box::new(a.duplicate()),
                Box::new(b.duplicate()),
            ),
        }
    }
}

/// Appends how the fields of a struct type are written in messages (see [`fields_display`]) to `out`.
pub fn push_fields_display(fields: &Vec<Field>, out: &mut String)
    ensures
        final(out)@ == old(out)@ + fields_display(fields@.map_values(|f: Field| f@)),
    decreases fields,
{
    let ghost ms = fields@.map_values(|f: Field| f@);
    let ghost start = out@;
    let mut i: usize = 0;
    while i < fields.len()
        invariant
            i <= fields.len(),
            ms == fields@.map_values(|f: Field| f@),
            out@ == start + fields_display(ms.subrange(0, i as int)),
        decreases fields.len() - i,
    {
        assert(decreases_to!(*fields => fields[i as int]));
        if i > 0 {
            out.append(", ");
        }
        fields[i].push_display(out);
        proof {
            let sub = ms.subrange(0, i + 1);
            assert(sub.subrange(0, sub.len() - 1) =~= ms.subrange(0, i as int));
            assert(sub[sub.len() - 1] == fields@[i as int]@);
            assert(out@ =~= start + fields_display(sub));
        }
        i = i + 1;
    }
    assert(ms.subrange(0, fields@.len() as int) =~= ms);
}

/// Appends how the children of a union type are written in messages (see [`children_display`]) to `out`.
pub fn push_children_display(children: &Vec<(i8, Field)>, out: &mut String)
    ensures
        final(out)@ == old(out)@ + children_display(
            children@.map_values(|c: (i8, Field)| (c.0, c.1@)),
        ),
    decreases children,
{
    let ghost ms = children@.map_values(|c: (i8, Field)| (c.0, c.1@));
    let ghost start = out@;
    let mut i: usize = 0;
    while i < children.len()
        invariant
            i <= children.len(),
            ms == children@.map_values(|c: (i8, Field)| (c.0, c.1@)),
            out@ == start + children_display(ms.subrange(0, i as int)),
        decreases children.len() - i,
    {
        assert(decreases_to!(*children => children[i as int].1)) by {
            assert(decreases_to!(*children => children[i as int]));
            assert(decreases_to!(children[i as int] => children[i as int].1));
        }
        if i > 0 {
            out.append(", ");
        }
        push_signed_decimal(out, children[i].0 as i32);
        out.append(": ");
        children[i].1.push_display(out);
        proof {
            let sub = ms.subrange(0, i + 1);
            assert(sub.subrange(0, sub.len() - 1) =~= ms.subrange(0, i as int));
            assert(sub[sub.len() - 1] == (children@[i as int].0, children@[i as int].1@));
            assert(out@ =~= start + children_display(sub));
        }
        i = i + 1;
    }
    assert(ms.subrange(0, children@.len() as int) =~= ms);
}

impl Clone for DataType {
    /// A copy of this type, equal to it in every part.
    fn clone(&self) -> (r: DataType)
        ensures
            r@ == self@,
    {
        self.duplicate()
    }
}

impl Clone for Field {
    /// A copy of this field, equal to it in every part.
    fn clone(&self) -> (r: Field)
        ensures
            r@ == self@,
    {
        self.duplicate()
    }
}

impl PartialEq for DataType {
    fn eq(&self, other: &DataType) -> (r: bool) {
        self.same_as(other)
    }
}

impl Eq for DataType {

}

impl PartialEq for Field {
    fn eq(&self, other: &Field) -> (r: bool) {
        self.same_as(other)
    }
}

impl Eq for Field {

}

impl vstd::std_specs::cmp::PartialEqSpecImpl for DataType {
    open spec fn obeys_eq_spec() -> bool {
        true
    }

    open spec fn eq_spec(&self, other: &DataType) -> bool {
        self@ == other@
    }
}

impl vstd::std_specs::cmp::PartialEqSpecImpl for Field {
    open spec fn obeys_eq_spec() -> bool {
        true
    }

    open spec fn eq_spec(&self, other: &Field) -> bool {
        self@ == other@
    }
}

} // verus!
