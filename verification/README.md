# arrow_range

The `arrow.range` canonical extension type of Apache Arrow schemas, written in
Verus: a bounded interval over an orderable value type, stored as a struct of a
`lower` and an `upper` bound of the same type, with metadata that says which
endpoints are included (`left`, `right`, `both` or `neither`).

- `src/` is the verified library:
  - `closed.rs`: `RangeClosed` and the names its values are written under;
  - `metadata.rs`: `RangeMetadata`, and the decisions made while reading its
    serialized forms (which keys and names are accepted, when a map is complete);
  - `datatype.rs`: the `DataType` and `Field` values that storage checks read
    (every kind of Arrow type, fields with key-value metadata), with their
    mathematical views, equality, copies and how they are written in messages;
  - `entries.rs`: the map that a field's metadata entries stand for;
  - `range.rs`: `Range`, the storage check, construction and metadata reading;
  - `text.rs`: string comparison and decimal notation used in messages;
  - `error.rs`: `ArrowError`.
- `app/` holds the serde impls and the JSON text of the metadata (through
  `serde_json`), which hand every decision to the library.
- `tests/` runs the library on concrete values.
