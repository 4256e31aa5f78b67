use pg_catalog::types::{
    into_pg_type, map_type, Alignment, NativeType, ScalarType, Storage, TypeDescriptor,
};
use pg_catalog::wire::{WireElement, WireType};
use pgwire::api::Type;

fn scalar(s: ScalarType) -> NativeType {
    NativeType::Scalar(s)
}

fn described(native: NativeType) -> (i32, i16, bool, &'static str, &'static str, bool) {
    let d = map_type(native);
    (d.type_oid, d.byte_length, d.pass_by_value, d.alignment.code(), d.storage.code(), d.is_array)
}

#[test]
fn int32_is_reported_as_int4() {
    let d = map_type(scalar(ScalarType::Int32));
    assert_eq!(d.type_oid, Type::INT4.oid() as i32);
    assert_eq!(
        d,
        TypeDescriptor {
            type_oid: 23,
            byte_length: 4,
            pass_by_value: true,
            alignment: Alignment::Int,
            storage: Storage::Plain,
            is_array: false,
        }
    );
    assert_eq!(
        into_pg_type(scalar(ScalarType::Int32)),
        Some(WireType::Scalar(WireElement::Int4))
    );
}

#[test]
fn small_integers_and_floats_pass_by_value_with_integer_alignment() {
    assert_eq!(described(scalar(ScalarType::Boolean)), (16, 1, true, "c", "p", false));
    assert_eq!(described(scalar(ScalarType::Int8)), (18, 1, true, "i", "p", false));
    assert_eq!(described(scalar(ScalarType::UInt8)), (18, 1, true, "i", "p", false));
    assert_eq!(described(scalar(ScalarType::Int16)), (21, 2, true, "i", "p", false));
    assert_eq!(described(scalar(ScalarType::UInt16)), (21, 2, true, "i", "p", false));
    assert_eq!(described(scalar(ScalarType::Int32)), (23, 4, true, "i", "p", false));
    assert_eq!(described(scalar(ScalarType::UInt32)), (23, 4, true, "i", "p", false));
    assert_eq!(described(scalar(ScalarType::Float32)), (700, 4, true, "i", "p", false));
    assert_eq!(described(scalar(ScalarType::Date32)), (1082, 4, true, "i", "p", false));
}

#[test]
fn eight_byte_types_pass_by_value_with_eight_byte_alignment() {
    assert_eq!(described(scalar(ScalarType::Int64)), (20, 8, true, "d", "p", false));
    assert_eq!(described(scalar(ScalarType::UInt64)), (20, 8, true, "d", "p", false));
    assert_eq!(described(scalar(ScalarType::Float64)), (701, 8, true, "d", "p", false));
    assert_eq!(described(scalar(ScalarType::Date64)), (1082, 8, true, "d", "p", false));
    assert_eq!(
        described(scalar(ScalarType::Timestamp { zoned: false })),
        (1114, 8, true, "d", "p", false)
    );
    assert_eq!(
        described(scalar(ScalarType::Timestamp { zoned: true })),
        (1184, 8, true, "d", "p", false)
    );
}

#[test]
fn strings_pass_by_reference_with_extended_storage() {
    assert_eq!(described(scalar(ScalarType::Utf8)), (1043, -1, false, "i", "x", false));
    assert_eq!(described(scalar(ScalarType::LargeUtf8)), (25, -1, false, "i", "x", false));
    assert_eq!(described(scalar(ScalarType::Binary)), (17, -1, false, "i", "x", false));
    assert_eq!(described(scalar(ScalarType::LargeBinary)), (17, -1, false, "i", "x", false));
}

#[test]
fn other_types_default_to_integer_alignment_and_plain_storage() {
    assert_eq!(described(scalar(ScalarType::Utf8View)), (25, -1, false, "i", "p", false));
    assert_eq!(described(scalar(ScalarType::FixedSizeBinary)), (17, -1, false, "i", "p", false));
    assert_eq!(described(scalar(ScalarType::Float16)), (700, -1, false, "i", "p", false));
    assert_eq!(described(scalar(ScalarType::Time32)), (1083, -1, false, "i", "p", false));
    assert_eq!(described(scalar(ScalarType::Time64)), (1083, -1, false, "i", "p", false));
    assert_eq!(described(scalar(ScalarType::Interval)), (1186, -1, false, "i", "p", false));
    assert_eq!(described(scalar(ScalarType::Decimal128)), (1700, -1, false, "i", "p", false));
}

#[test]
fn unmapped_types_are_reported_as_unknown() {
    for s in [
        ScalarType::Null,
        ScalarType::Duration,
        ScalarType::BinaryView,
        ScalarType::Decimal256,
        ScalarType::Other,
    ] {
        assert_eq!(into_pg_type(scalar(s)), None);
        assert_eq!(described(scalar(s)), (705, -1, false, "i", "p", false));
        assert_eq!(into_pg_type(NativeType::List(s)), None);
        assert_eq!(described(NativeType::List(s)), (705, -1, false, "i", "p", true));
    }
    assert_eq!(map_type(scalar(ScalarType::Other)).type_oid, Type::UNKNOWN.oid() as i32);
}

#[test]
fn lists_are_arrays_of_their_elements() {
    assert_eq!(described(NativeType::List(ScalarType::Int32)), (1007, -1, false, "i", "p", true));
    assert_eq!(
        described(NativeType::LargeList(ScalarType::Utf8)),
        (1015, -1, false, "i", "p", true)
    );
    assert_eq!(
        described(NativeType::FixedSizeList(ScalarType::Float64)),
        (1022, -1, false, "i", "p", true)
    );
    assert_eq!(
        into_pg_type(NativeType::List(ScalarType::Boolean)),
        Some(WireType::Array(WireElement::Bool))
    );
}

#[test]
fn wire_oids_are_those_of_the_protocol_library() {
    let pairs = [
        (WireElement::Bool, Type::BOOL, Type::BOOL_ARRAY, 16, 1000),
        (WireElement::Char, Type::CHAR, Type::CHAR_ARRAY, 18, 1002),
        (WireElement::Int2, Type::INT2, Type::INT2_ARRAY, 21, 1005),
        (WireElement::Int4, Type::INT4, Type::INT4_ARRAY, 23, 1007),
        (WireElement::Int8, Type::INT8, Type::INT8_ARRAY, 20, 1016),
        (WireElement::Float4, Type::FLOAT4, Type::FLOAT4_ARRAY, 700, 1021),
        (WireElement::Float8, Type::FLOAT8, Type::FLOAT8_ARRAY, 701, 1022),
        (WireElement::Varchar, Type::VARCHAR, Type::VARCHAR_ARRAY, 1043, 1015),
        (WireElement::Text, Type::TEXT, Type::TEXT_ARRAY, 25, 1009),
        (WireElement::Date, Type::DATE, Type::DATE_ARRAY, 1082, 1182),
        (WireElement::Time, Type::TIME, Type::TIME_ARRAY, 1083, 1183),
        (WireElement::Timestamp, Type::TIMESTAMP, Type::TIMESTAMP_ARRAY, 1114, 1115),
        (WireElement::Timestamptz, Type::TIMESTAMPTZ, Type::TIMESTAMPTZ_ARRAY, 1184, 1185),
        (WireElement::Interval, Type::INTERVAL, Type::INTERVAL_ARRAY, 1186, 1187),
        (WireElement::Bytea, Type::BYTEA, Type::BYTEA_ARRAY, 17, 1001),
        (WireElement::Numeric, Type::NUMERIC, Type::NUMERIC_ARRAY, 1700, 1231),
    ];
    for (element, scalar_type, array_type, scalar_oid, array_oid) in pairs {
        assert_eq!(WireType::Scalar(element).oid(), scalar_oid);
        assert_eq!(WireType::Scalar(element).oid(), scalar_type.oid());
        assert_eq!(WireType::Array(element).oid(), array_oid);
        assert_eq!(WireType::Array(element).oid(), array_type.oid());
    }
    assert_eq!(WireType::Unknown.oid(), 705);
    assert_eq!(WireType::Unknown.oid(), Type::UNKNOWN.oid());
}

#[test]
fn letters_of_alignment_and_storage() {
    assert_eq!(Alignment::Char.code(), "c");
    assert_eq!(Alignment::Short.code(), "s");
    assert_eq!(Alignment::Int.code(), "i");
    assert_eq!(Alignment::Double.code(), "d");
    assert_eq!(Storage::Plain.code(), "p");
    assert_eq!(Storage::Extended.code(), "x");
    assert_eq!(Storage::Main.code(), "m");
}
