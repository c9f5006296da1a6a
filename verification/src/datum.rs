//! Conversions between the server's datums and Rust scalars.
//!
//! A datum carries no tag: the same word stands for an integer, the bits of a
//! float or an address, and only the declared type of an argument or a result
//! says which. Whether a value is present travels beside the datum, so a
//! nullable value is an `Option<Datum>`.
use vstd::prelude::*;

verus! {

/// A value as the server hands it over: one 64-bit word.
pub type Datum = u64;

/// Types that can be read out of a datum.
pub trait FromDatum: Sized {
    /// The value that `datum` stands for.
    spec fn spec_from_datum(datum: Datum) -> Self;

    fn from_datum(datum: Datum) -> (value: Self)
        ensures
            value == Self::spec_from_datum(datum),
    ;
}

/// Types that fit into a datum.
pub trait ToDatum: Sized {
    /// The datum that stands for `self`.
    spec fn spec_to_datum(self) -> Datum;

    fn to_datum(self) -> (datum: Datum)
        ensures
            datum == self.spec_to_datum(),
    ;
}

/// Scalars that survive the trip through a datum unchanged.
pub trait Scalar: FromDatum + ToDatum {
    /// Reading back the datum of a value gives that value.
    proof fn round_trip(value: Self)
        ensures
            Self::spec_from_datum(value.spec_to_datum()) == value,
    ;
}

/// Types that can be read out of a datum that may be SQL NULL.
pub trait FromOptionalDatum: Sized {
    /// Whether the type has a value that stands for NULL.
    spec fn nullable() -> bool;

    /// The value that `datum` stands for. Only meaningful when the datum is
    /// present or the type is nullable.
    spec fn spec_from_optional_datum(datum: Option<Datum>) -> Self;

    fn is_nullable() -> (nullable: bool)
        ensures
            nullable == Self::nullable(),
    ;

    /// Reads a datum that is known to suit the type.
    fn from_optional_datum(datum: Option<Datum>) -> (value: Self)
        requires
            datum is Some || Self::nullable(),
        ensures
            value == Self::spec_from_optional_datum(datum),
    ;

    /// Reads a datum, answering `None` for a NULL that the type cannot hold.
    fn try_from_optional_datum(datum: Option<Datum>) -> (value: Option<Self>)
        ensures
            value == if datum is Some || Self::nullable() {
                Some(Self::spec_from_optional_datum(datum))
            } else {
                None
            },
    ;
}

/// Types that fit into a datum that may be SQL NULL.
pub trait ToOptionalDatum: Sized {
    /// The datum that stands for `self`, `None` for NULL.
    spec fn spec_to_optional_datum(self) -> Option<Datum>;

    fn to_optional_datum(self) -> (datum: Option<Datum>)
        ensures
            datum == self.spec_to_optional_datum(),
    ;
}

impl<T: FromDatum> FromOptionalDatum for T {
    open spec fn nullable() -> bool {
        false
    }

    open spec fn spec_from_optional_datum(datum: Option<Datum>) -> Self {
        T::spec_from_datum(datum->0)
    }

    fn is_nullable() -> (nullable: bool) {
        false
    }

    fn from_optional_datum(datum: Option<Datum>) -> (value: Self) {
        T::from_datum(datum.unwrap())
    }

    fn try_from_optional_datum(datum: Option<Datum>) -> (value: Option<Self>) {
        match datum {
            Some(datum) => Some(T::from_datum(datum)),
            None => None,
        }
    }
}

impl<T: ToDatum> ToOptionalDatum for T {
    open spec fn spec_to_optional_datum(self) -> Option<Datum> {
        Some(self.spec_to_datum())
    }

    fn to_optional_datum(self) -> (datum: Option<Datum>) {
        Some(self.to_datum())
    }
}

impl<T: FromDatum> FromOptionalDatum for Option<T> {
    open spec fn nullable() -> bool {
        true
    }

    open spec fn spec_from_optional_datum(datum: Option<Datum>) -> Self {
        match datum {
            Some(datum) => Some(T::spec_from_datum(datum)),
            None => None,
        }
    }

    fn is_nullable() -> (nullable: bool) {
        true
    }

    fn from_optional_datum(datum: Option<Datum>) -> (value: Self) {
        match datum {
            Some(datum) => Some(T::from_datum(datum)),
            None => None,
        }
    }

    fn try_from_optional_datum(datum: Option<Datum>) -> (value: Option<Self>) {
        match datum {
            Some(datum) => Some(Some(T::from_datum(datum))),
            None => Some(None),
        }
    }
}

impl<T: ToDatum> ToOptionalDatum for Option<T> {
    open spec fn spec_to_optional_datum(self) -> Option<Datum> {
        match self {
            Some(value) => Some(value.spec_to_datum()),
            None => None,
        }
    }

    fn to_optional_datum(self) -> (datum: Option<Datum>) {
        match self {
            Some(value) => Some(value.to_datum()),
            None => None,
        }
    }
}

/// A value that cannot be NULL comes back unchanged, and present.
pub proof fn lemma_round_trip_required<T: Scalar>(value: T)
    ensures
        value.spec_to_optional_datum() is Some,
        T::spec_from_optional_datum(value.spec_to_optional_datum()) == value,
{
    T::round_trip(value);
}

/// A nullable value comes back unchanged: NULL as NULL, and a present value
/// as the same present value.
pub proof fn lemma_round_trip_optional<T: Scalar>(value: Option<T>)
    ensures
        value.spec_to_optional_datum() is Some <==> value is Some,
        Option::<T>::spec_from_optional_datum(value.spec_to_optional_datum()) == value,
{
    if let Some(inner) = value {
        T::round_trip(inner);
    }
}

impl FromDatum for i8 {
    /// The low 8 bits of the datum, read as a signed integer.
    open spec fn spec_from_datum(datum: Datum) -> Self {
        datum as i8
    }

    fn from_datum(datum: Datum) -> (value: Self) {
        #[verifier::truncate]
        (datum as i8)
    }
}

impl ToDatum for i8 {
    /// The value sign-extended to the width of a datum.
    open spec fn spec_to_datum(self) -> Datum {
        self as Datum
    }

    fn to_datum(self) -> (datum: Datum) {
        #[verifier::truncate]
        (self as Datum)
    }
}

impl Scalar for i8 {
    proof fn round_trip(value: Self) {
        assert((value as u64) as i8 == value) by (bit_vector);
    }
}

impl FromDatum for u8 {
    /// The low 8 bits of the datum, read as an unsigned integer.
    open spec fn spec_from_datum(datum: Datum) -> Self {
        datum as u8
    }

    fn from_datum(datum: Datum) -> (value: Self) {
        #[verifier::truncate]
        (datum as u8)
    }
}

impl ToDatum for u8 {
    /// The value zero-extended to the width of a datum.
    open spec fn spec_to_datum(self) -> Datum {
        self as Datum
    }

    fn to_datum(self) -> (datum: Datum) {
        #[verifier::truncate]
        (self as Datum)
    }
}

impl Scalar for u8 {
    proof fn round_trip(value: Self) {
        assert((value as u64) as u8 == value) by (bit_vector);
    }
}

impl FromDatum for i16 {
    /// The low 16 bits of the datum, read as a signed integer.
    open spec fn spec_from_datum(datum: Datum) -> Self {
        datum as i16
    }

    fn from_datum(datum: Datum) -> (value: Self) {
        #[verifier::truncate]
        (datum as i16)
    }
}

impl ToDatum for i16 {
    /// The value sign-extended to the width of a datum.
    open spec fn spec_to_datum(self) -> Datum {
        self as Datum
    }

    fn to_datum(self) -> (datum: Datum) {
        #[verifier::truncate]
        (self as Datum)
    }
}

impl Scalar for i16 {
    proof fn round_trip(value: Self) {
        assert((value as u64) as i16 == value) by (bit_vector);
    }
}

impl FromDatum for u16 {
    /// The low 16 bits of the datum, read as an unsigned integer.
    open spec fn spec_from_datum(datum: Datum) -> Self {
        datum as u16
    }

    fn from_datum(datum: Datum) -> (value: Self) {
        #[verifier::truncate]
        (datum as u16)
    }
}

impl ToDatum for u16 {
    /// The value zero-extended to the width of a datum.
    open spec fn spec_to_datum(self) -> Datum {
        self as Datum
    }

    fn to_datum(self) -> (datum: Datum) {
        #[verifier::truncate]
        (self as Datum)
    }
}

impl Scalar for u16 {
    proof fn round_trip(value: Self) {
        assert((value as u64) as u16 == value) by (bit_vector);
    }
}

impl FromDatum for i32 {
    /// The low 32 bits of the datum, read as a signed integer.
    open spec fn spec_from_datum(datum: Datum) -> Self {
        datum as i32
    }

    fn from_datum(datum: Datum) -> (value: Self) {
        #[verifier::truncate]
        (datum as i32)
    }
}

impl ToDatum for i32 {
    /// The value sign-extended to the width of a datum.
    open spec fn spec_to_datum(self) -> Datum {
        self as Datum
    }

    fn to_datum(self) -> (datum: Datum) {
        #[verifier::truncate]
        (self as Datum)
    }
}

impl Scalar for i32 {
    proof fn round_trip(value: Self) {
        assert((value as u64) as i32 == value) by (bit_vector);
    }
}

impl FromDatum for u32 {
    /// The low 32 bits of the datum, read as an unsigned integer.
    open spec fn spec_from_datum(datum: Datum) -> Self {
        datum as u32
    }

    fn from_datum(datum: Datum) -> (value: Self) {
        #[verifier::truncate]
        (datum as u32)
    }
}

impl ToDatum for u32 {
    /// The value zero-extended to the width of a datum.
    open spec fn spec_to_datum(self) -> Datum {
        self as Datum
    }

    fn to_datum(self) -> (datum: Datum) {
        #[verifier::truncate]
        (self as Datum)
    }
}

impl Scalar for u32 {
    proof fn round_trip(value: Self) {
        assert((value as u64) as u32 == value) by (bit_vector);
    }
}

impl FromDatum for i64 {
    /// All 64 bits of the datum, read as a signed integer.
    open spec fn spec_from_datum(datum: Datum) -> Self {
        datum as i64
    }

    fn from_datum(datum: Datum) -> (value: Self) {
        #[verifier::truncate]
        (datum as i64)
    }
}

impl ToDatum for i64 {
    /// The bits of the value, read as an unsigned integer.
    open spec fn spec_to_datum(self) -> Datum {
        self as Datum
    }

    fn to_datum(self) -> (datum: Datum) {
        #[verifier::truncate]
        (self as Datum)
    }
}

impl Scalar for i64 {
    proof fn round_trip(value: Self) {
        assert((value as u64) as i64 == value) by (bit_vector);
    }
}

impl FromDatum for u64 {
    /// The datum itself.
    open spec fn spec_from_datum(datum: Datum) -> Self {
        datum
    }

    fn from_datum(datum: Datum) -> (value: Self) {
        datum
    }
}

impl ToDatum for u64 {
    /// The value itself.
    open spec fn spec_to_datum(self) -> Datum {
        self
    }

    fn to_datum(self) -> (datum: Datum) {
        self
    }
}

impl Scalar for u64 {
    proof fn round_trip(value: Self) {
    }
}

impl FromDatum for isize {
    /// As many low bits of the datum as an address has, read as a signed integer.
    open spec fn spec_from_datum(datum: Datum) -> Self {
        datum as isize
    }

    fn from_datum(datum: Datum) -> (value: Self) {
        #[verifier::truncate]
        (datum as isize)
    }
}

impl ToDatum for isize {
    /// The value sign-extended to the width of a datum.
    open spec fn spec_to_datum(self) -> Datum {
        self as Datum
    }

    fn to_datum(self) -> (datum: Datum) {
        #[verifier::truncate]
        (self as Datum)
    }
}

impl Scalar for isize {
    proof fn round_trip(value: Self) {
        assert((value as u64) as isize == value) by (bit_vector);
    }
}

impl FromDatum for usize {
    /// As many low bits of the datum as an address has, read as an unsigned integer.
    open spec fn spec_from_datum(datum: Datum) -> Self {
        datum as usize
    }

    fn from_datum(datum: Datum) -> (value: Self) {
        #[verifier::truncate]
        (datum as usize)
    }
}

impl ToDatum for usize {
    /// The value zero-extended to the width of a datum.
    open spec fn spec_to_datum(self) -> Datum {
        self as Datum
    }

    fn to_datum(self) -> (datum: Datum) {
        #[verifier::truncate]
        (self as Datum)
    }
}

impl Scalar for usize {
    proof fn round_trip(value: Self) {
        assert((value as u64) as usize == value) by (bit_vector);
    }
}

} // verus!
