use timescale_extension_utils::datum::{
    Datum, FromDatum, FromOptionalDatum, ToDatum, ToOptionalDatum,
};

#[test]
fn unsigned_values_are_zero_extended() {
    assert_eq!(200u8.to_datum(), 200);
    assert_eq!(65_535u16.to_datum(), 65_535);
    assert_eq!(4_000_000_000u32.to_datum(), 4_000_000_000);
    assert_eq!(u64::MAX.to_datum(), u64::MAX);
    assert_eq!(4096usize.to_datum(), 4096);
}

#[test]
fn signed_values_are_sign_extended() {
    assert_eq!((-1i8).to_datum(), u64::MAX);
    assert_eq!((-2i16).to_datum(), u64::MAX - 1);
    assert_eq!((-1i32).to_datum(), 0xffff_ffff_ffff_ffff);
    assert_eq!(i64::MIN.to_datum(), 0x8000_0000_0000_0000);
    assert_eq!((-1isize).to_datum(), u64::MAX);
    assert_eq!(5i32.to_datum(), 5);
}

#[test]
fn decoding_reads_the_low_bits() {
    assert_eq!(u8::from_datum(0x1234), 0x34);
    assert_eq!(i8::from_datum(0xff), -1);
    assert_eq!(u16::from_datum(0xabcd_1234), 0x1234);
    assert_eq!(i16::from_datum(0x8000), i16::MIN);
    assert_eq!(u32::from_datum(0x1_0000_0005), 5);
    assert_eq!(i32::from_datum(0xffff_ffff), -1);
    assert_eq!(i64::from_datum(u64::MAX), -1);
    assert_eq!(u64::from_datum(17), 17);
}

#[test]
fn every_i8_round_trips() {
    for v in i8::MIN..=i8::MAX {
        assert_eq!(i8::from_datum(v.to_datum()), v);
    }
}

#[test]
fn every_u8_round_trips() {
    for v in u8::MIN..=u8::MAX {
        assert_eq!(u8::from_datum(v.to_datum()), v);
    }
}

#[test]
fn every_i16_round_trips() {
    for v in i16::MIN..=i16::MAX {
        assert_eq!(i16::from_datum(v.to_datum()), v);
    }
}

#[test]
fn every_u16_round_trips() {
    for v in u16::MIN..=u16::MAX {
        assert_eq!(u16::from_datum(v.to_datum()), v);
    }
}

#[test]
fn wide_integers_round_trip_at_their_limits() {
    for v in [i32::MIN, -1, 0, 1, i32::MAX] {
        assert_eq!(i32::from_datum(v.to_datum()), v);
    }
    for v in [0, 1, u32::MAX] {
        assert_eq!(u32::from_datum(v.to_datum()), v);
    }
    for v in [i64::MIN, -1, 0, 1, i64::MAX] {
        assert_eq!(i64::from_datum(v.to_datum()), v);
    }
    for v in [0, 1, u64::MAX] {
        assert_eq!(u64::from_datum(v.to_datum()), v);
    }
    for v in [isize::MIN, -1, 0, 1, isize::MAX] {
        assert_eq!(isize::from_datum(v.to_datum()), v);
    }
    for v in [0, 1, usize::MAX] {
        assert_eq!(usize::from_datum(v.to_datum()), v);
    }
}

#[test]
fn floats_travel_as_their_bits() {
    for v in [0.0f64, -0.0, 1.5, f64::MAX, f64::MIN_POSITIVE, f64::INFINITY] {
        let datum = v.to_bits().to_datum();
        assert_eq!(datum, v.to_bits());
        assert_eq!(f64::from_bits(u64::from_datum(datum)).to_bits(), v.to_bits());
    }
    for v in [0.0f32, -0.0, 1.5, f32::MAX, f32::NEG_INFINITY] {
        let datum = v.to_bits().to_datum();
        assert_eq!(f32::from_bits(u32::from_datum(datum)).to_bits(), v.to_bits());
    }
    let nan = f64::NAN.to_bits().to_datum();
    assert!(f64::from_bits(u64::from_datum(nan)).is_nan());
}

#[test]
fn a_required_value_is_always_present() {
    assert_eq!(7i32.to_optional_datum(), Some(7));
    assert_eq!((-1i8).to_optional_datum(), Some(u64::MAX));
    assert_eq!(<i32 as FromOptionalDatum>::from_optional_datum(Some(7)), 7);
}

#[test]
fn a_nullable_value_keeps_its_null() {
    let absent: Option<i32> = None;
    assert_eq!(absent.to_optional_datum(), None);
    assert_eq!(Some(9i32).to_optional_datum(), Some(9));
    assert_eq!(<Option<i32> as FromOptionalDatum>::from_optional_datum(None), None);
    assert_eq!(
        <Option<i32> as FromOptionalDatum>::from_optional_datum(Some(9)),
        Some(9)
    );
}

#[test]
fn optional_round_trip_includes_null() {
    let values: [Option<i16>; 4] = [None, Some(0), Some(-1), Some(i16::MAX)];
    for v in values {
        let datum: Option<Datum> = v.to_optional_datum();
        assert_eq!(datum.is_some(), v.is_some());
        assert_eq!(<Option<i16> as FromOptionalDatum>::from_optional_datum(datum), v);
    }
}

#[test]
fn null_for_a_required_type_is_refused() {
    assert_eq!(<i32 as FromOptionalDatum>::try_from_optional_datum(None), None);
    assert_eq!(<i32 as FromOptionalDatum>::try_from_optional_datum(Some(3)), Some(3));
    assert_eq!(
        <Option<i32> as FromOptionalDatum>::try_from_optional_datum(None),
        Some(None)
    );
    assert_eq!(
        <Option<i32> as FromOptionalDatum>::try_from_optional_datum(Some(3)),
        Some(Some(3))
    );
}

#[test]
fn only_option_types_are_nullable() {
    assert!(!<i32 as FromOptionalDatum>::is_nullable());
    assert!(!<u64 as FromOptionalDatum>::is_nullable());
    assert!(<Option<i32> as FromOptionalDatum>::is_nullable());
    assert!(<Option<usize> as FromOptionalDatum>::is_nullable());
}
