use arrow_range::{
    push_decimal, push_signed_decimal, str_eq, validate_storage, ArrowError, DataType, Field,
    IntervalUnit, Range, RangeClosed, RangeMetadata, TimeUnit, UnionMode,
};

fn message(result: Result<(), ArrowError>) -> String {
    match result {
        Ok(()) => panic!("expected a refusal"),
        Err(err) => err.message_str().to_string(),
    }
}

fn pair(lower: &str, lower_type: DataType, upper: &str, upper_type: DataType) -> DataType {
    DataType::Struct(vec![
        Field::new(lower, lower_type, true),
        Field::new(upper, upper_type, true),
    ])
}

#[test]
fn decimal_writes_digits_without_leading_zeros() {
    for (n, text) in [(0usize, "0"), (7, "7"), (10, "10"), (3, "3"), (1203, "1203")] {
        let mut out = String::from("n=");
        push_decimal(&mut out, n);
        assert_eq!(out, format!("n={text}"));
    }
    for (n, text) in [(-1i32, "-1"), (0, "0"), (-2147483648, "-2147483648"), (2147483647, "2147483647")] {
        let mut out = String::new();
        push_signed_decimal(&mut out, n);
        assert_eq!(out, text);
    }
}

#[test]
fn str_eq_compares_characters() {
    assert!(str_eq("lower", "lower"));
    assert!(!str_eq("lower", "lowe"));
    assert!(!str_eq("lower", "Lower"));
    assert!(str_eq("", ""));
    assert!(str_eq("ünï", "ünï"));
}

#[test]
fn display_of_types_in_messages() {
    let mut out = String::new();
    DataType::Int64.push_display(&mut out);
    assert_eq!(out, "Int64");
    let nested = DataType::Struct(vec![
        Field::new("a", DataType::Utf8, true),
        Field::new("b", pair("x", DataType::Int8, "y", DataType::Boolean), false),
    ]);
    let mut out = String::new();
    nested.push_display(&mut out);
    assert_eq!(out, "Struct(a: Utf8, b: Struct(x: Int8, y: Boolean))");
    let mut out = String::new();
    DataType::Struct(vec![]).push_display(&mut out);
    assert_eq!(out, "Struct()");
}

#[test]
fn same_as_compares_nested_fields() {
    let a = pair("lower", DataType::Int32, "upper", DataType::Int32);
    assert!(a.same_as(&a.clone()));
    assert!(a == a.clone());
    assert!(!a.same_as(&pair("lower", DataType::Int32, "upper", DataType::Int64)));
    assert!(!a.same_as(&pair("lower", DataType::Int32, "uper", DataType::Int32)));
    let not_null = DataType::Struct(vec![
        Field::new("lower", DataType::Int32, false),
        Field::new("upper", DataType::Int32, true),
    ]);
    assert!(!a.same_as(&not_null));
    assert!(!a.same_as(&DataType::Int32));
    assert!(DataType::Date32.same_as(&DataType::Date32));
    assert!(!DataType::Date32.same_as(&DataType::Date64));
    assert!(Field::new("x", DataType::Null, true) == Field::new("x", DataType::Null, true));
    assert!(Field::new("x", DataType::Null, true) != Field::new("x", DataType::Null, false));
}

#[test]
fn field_accessors() {
    let field = Field::new("lower", DataType::UInt16, false);
    assert_eq!(field.name(), "lower");
    assert!(field.data_type().same_as(&DataType::UInt16));
    assert!(!field.is_nullable());
    assert_eq!(DataType::Struct(vec![]).kind(), 32);
    assert_eq!(DataType::Null.kind(), 0);
}

#[test]
fn storage_accepts_two_bounds_of_one_type() {
    assert!(validate_storage(&pair("lower", DataType::Utf8, "upper", DataType::Utf8)).is_ok());
    let nested = pair("p", DataType::Int8, "q", DataType::Int8);
    assert!(validate_storage(&pair("lower", nested.clone(), "upper", nested)).is_ok());
}

#[test]
fn storage_refusal_messages() {
    assert_eq!(
        message(validate_storage(&DataType::Int32)),
        "Range data type mismatch, expected Struct, found Int32"
    );
    assert_eq!(
        message(validate_storage(&DataType::Struct(vec![]))),
        "Range data type mismatch, expected Struct with 2 fields, found 0 field(s)"
    );
    let three = DataType::Struct(vec![
        Field::new("lower", DataType::Int32, true),
        Field::new("upper", DataType::Int32, true),
        Field::new("extra", DataType::Int32, true),
    ]);
    assert_eq!(
        message(validate_storage(&three)),
        "Range data type mismatch, expected Struct with 2 fields, found 3 field(s)"
    );
    assert_eq!(
        message(validate_storage(&pair("start", DataType::Int32, "end", DataType::Int32))),
        "Range data type mismatch, expected first field named \"lower\", found \"start\""
    );
    assert_eq!(
        message(validate_storage(&pair("lower", DataType::Int32, "end", DataType::Int32))),
        "Range data type mismatch, expected second field named \"upper\", found \"end\""
    );
    assert_eq!(
        message(validate_storage(&pair("lower", DataType::Int32, "upper", DataType::Int64))),
        "Range data type mismatch, \"lower\" and \"upper\" fields must have the same data type, found \"Int32\" and \"Int64\""
    );
    assert_eq!(
        message(validate_storage(&pair("upper", DataType::Int32, "lower", DataType::Int32))),
        "Range data type mismatch, expected first field named \"lower\", found \"upper\""
    );
}

#[test]
fn try_new_supports_and_validate_agree() {
    let good = pair("lower", DataType::Binary, "upper", DataType::Binary);
    let bad = pair("lower", DataType::Binary, "upper", DataType::LargeBinary);
    let range = Range::new(RangeClosed::Right);
    assert!(range.supports_data_type(&good).is_ok());
    assert!(Range::validate(&good, RangeMetadata::new(RangeClosed::Left)).is_ok());
    let made = Range::try_new(&good, RangeMetadata::new(RangeClosed::Right)).unwrap();
    assert_eq!(made, range);
    assert_eq!(made.closed(), RangeClosed::Right);
    assert!(range.supports_data_type(&bad).is_err());
    assert!(Range::validate(&bad, RangeMetadata::new(RangeClosed::Left)).is_err());
    assert!(Range::try_new(&bad, RangeMetadata::new(RangeClosed::Right)).is_err());
}

fn item(data_type: DataType, nullable: bool) -> Box<Field> {
    Box::new(Field::new("item", data_type, nullable))
}

#[test]
fn storage_compares_list_bounds_in_full() {
    let lists = pair(
        "lower",
        DataType::List(item(DataType::Int32, true)),
        "upper",
        DataType::List(item(DataType::Int32, false)),
    );
    assert_eq!(
        message(validate_storage(&lists)),
        "Range data type mismatch, \"lower\" and \"upper\" fields must have the same data type, found \"List(item: Int32)\" and \"List(item: Int32)\""
    );
    let same = pair(
        "lower",
        DataType::List(item(DataType::Int32, true)),
        "upper",
        DataType::List(item(DataType::Int32, true)),
    );
    assert!(validate_storage(&same).is_ok());
}

#[test]
fn storage_over_float_and_timestamp_bounds() {
    assert!(validate_storage(&pair("lower", DataType::Float64, "upper", DataType::Float64)).is_ok());
    let utc = || DataType::Timestamp(TimeUnit::Millisecond, Some("UTC".to_string()));
    assert!(validate_storage(&pair("lower", utc(), "upper", utc())).is_ok());
    assert_eq!(
        message(validate_storage(&pair(
            "lower",
            utc(),
            "upper",
            DataType::Timestamp(TimeUnit::Millisecond, None)
        ))),
        "Range data type mismatch, \"lower\" and \"upper\" fields must have the same data type, found \"Timestamp(Millisecond, \"UTC\")\" and \"Timestamp(Millisecond)\""
    );
    assert!(validate_storage(&pair(
        "lower",
        DataType::Decimal128(38, 10),
        "upper",
        DataType::Decimal128(38, 9)
    ))
    .is_err());
}

#[test]
fn field_metadata_takes_part_in_equality() {
    let plain = Field::new("a", DataType::Int8, true);
    let tagged = Field::new("a", DataType::Int8, true)
        .with_metadata(vec![("k".to_string(), "v".to_string())]);
    assert!(plain != tagged);
    assert_eq!(tagged.metadata_value("k"), Some("v"));
    assert_eq!(tagged.metadata_value("x"), None);
    let reordered = Field::new("a", DataType::Int8, true).with_metadata(vec![
        ("x".to_string(), "1".to_string()),
        ("k".to_string(), "old".to_string()),
        ("k".to_string(), "v".to_string()),
    ]);
    assert_eq!(reordered.metadata_value("k"), Some("v"));
    let same = Field::new("a", DataType::Int8, true).with_metadata(vec![
        ("k".to_string(), "v".to_string()),
        ("x".to_string(), "1".to_string()),
    ]);
    assert!(reordered == same);
    assert!(reordered == reordered.clone());
    let lists = |f: Field| DataType::List(Box::new(f));
    assert!(!validate_storage(&pair("lower", lists(plain.clone()), "upper", lists(tagged))).is_ok());
}

#[test]
fn display_of_nested_kinds() {
    let mut out = String::new();
    DataType::Dictionary(Box::new(DataType::Int16), Box::new(DataType::Utf8View)).push_display(&mut out);
    assert_eq!(out, "Dictionary(Int16, Utf8View)");
    let mut out = String::new();
    DataType::Union(
        vec![(0, Field::new("a", DataType::Int32, true)), (-3, Field::new("b", DataType::Boolean, true))],
        UnionMode::Dense,
    )
    .push_display(&mut out);
    assert_eq!(out, "Union(Dense, [0: a: Int32, -3: b: Boolean])");
    let mut out = String::new();
    DataType::FixedSizeList(item(DataType::Float32, true), 3).push_display(&mut out);
    assert_eq!(out, "FixedSizeList(3 x item: Float32)");
    let mut out = String::new();
    DataType::Decimal32(9, -2).push_display(&mut out);
    assert_eq!(out, "Decimal32(9, -2)");
    let mut out = String::new();
    DataType::MapOf(item(DataType::Struct(vec![]), false), true).push_display(&mut out);
    assert_eq!(out, "Map(item: Struct(), sorted)");
    let mut out = String::new();
    DataType::RunEndEncoded(item(DataType::Int32, false), item(DataType::Interval(IntervalUnit::DayTime), true))
        .push_display(&mut out);
    assert_eq!(out, "RunEndEncoded(item: Int32, item: Interval(DayTime))");
    let mut out = String::new();
    DataType::FixedSizeBinary(16).push_display(&mut out);
    assert_eq!(out, "FixedSizeBinary(16)");
}

#[test]
fn same_as_compares_parameters() {
    assert!(DataType::Time32(TimeUnit::Second).same_as(&DataType::Time32(TimeUnit::Second)));
    assert!(!DataType::Time32(TimeUnit::Second).same_as(&DataType::Time64(TimeUnit::Second)));
    assert!(!DataType::Duration(TimeUnit::Second).same_as(&DataType::Duration(TimeUnit::Nanosecond)));
    let dict = |v: DataType| DataType::Dictionary(Box::new(DataType::Int8), Box::new(v));
    assert!(dict(DataType::Utf8).same_as(&dict(DataType::Utf8)));
    assert!(!dict(DataType::Utf8).same_as(&dict(DataType::LargeUtf8)));
    let u = |mode: UnionMode| DataType::Union(vec![(1, Field::new("a", DataType::Int32, true))], mode);
    assert!(u(UnionMode::Sparse) == u(UnionMode::Sparse).clone());
    assert!(u(UnionMode::Sparse) != u(UnionMode::Dense));
    assert!(DataType::MapOf(item(DataType::Int8, true), false) != DataType::MapOf(item(DataType::Int8, true), true));
}
