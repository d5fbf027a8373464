//! Plain value carriers for the flat call boundary: an optional value, a
//! borrowed slice, a pair, and half-open ranges, each with the accessors the
//! boundary code uses.

use vstd::prelude::*;
use vstd::string::StringSliceAdditionalSpecFns;
use vstd::utf8::valid_utf8;

verus! {

/// An optional value, as one shape for every payload type.
pub struct Opt<T> {
    value: Option<T>,
}

impl<T> View for Opt<T> {
    type V = Option<T>;

    closed spec fn view(&self) -> Option<T> {
        self.value
    }
}

impl<T> Opt<T> {
    /// A present value.
    pub fn some(value: T) -> (r: Self)
        ensures
            r@ == Some(value),
    {
        Self { value: Some(value) }
    }

    /// No value.
    pub fn none() -> (r: Self)
        ensures
            r@ is None,
    {
        Self { value: None }
    }

    /// Apply `f` to the value when one is present.
    pub fn map_to_option<U, F: FnOnce(&T) -> U>(&self, f: F) -> (r: Option<U>)
        requires
            self@ matches Some(v) ==> call_requires(f, (&v,)),
        ensures
            self@ is None ==> r is None,
            self@ matches Some(v) ==> r matches Some(u) && call_ensures(f, (&v,), u),
    {
        match &self.value {
            Some(v) => Some(f(v)),
            None => None,
        }
    }

    /// The value by reference, when one is present.
    pub fn to_ref_option(&self) -> (r: Option<&T>)
        ensures
            match r {
                Some(v) => self@ == Some(*v),
                None => self@ is None,
            },
    {
        match &self.value {
            Some(v) => Some(v),
            None => None,
        }
    }
}

impl<T: Copy> Opt<T> {
    /// The value itself, when one is present.
    pub fn to_option(&self) -> (r: Option<T>)
        ensures
            r == self@,
    {
        match &self.value {
            Some(v) => Some(*v),
            None => None,
        }
    }
}

impl<T> Default for Opt<T> {
    fn default() -> (r: Self)
        ensures
            r@ is None,
    {
        Self::none()
    }
}

impl<T> From<Option<T>> for Opt<T> {
    fn from(o: Option<T>) -> (r: Self)
        ensures
            r@ == o,
    {
        match o {
            Some(x) => Opt::some(x),
            None => Opt::none(),
        }
    }
}

impl<T> vstd::std_specs::convert::FromSpecImpl<Option<T>> for Opt<T> {
    open spec fn obeys_from_spec() -> bool {
        true
    }

    closed spec fn from_spec(o: Option<T>) -> Self {
        Opt { value: o }
    }
}

/// A borrowed run of values, handed across the boundary by reference.
#[derive(Clone, Copy, Debug)]
pub struct Slice<'a, T> {
    data: &'a [T],
}

impl<'a, T> View for Slice<'a, T> {
    type V = Seq<T>;

    closed spec fn view(&self) -> Seq<T> {
        self.data@
    }
}

impl<'a, T> Slice<'a, T> {
    /// The underlying slice reference.
    pub closed spec fn spec_data(&self) -> &'a [T] {
        self.data
    }

    /// A slice over no values.
    pub fn empty() -> (r: Self)
        ensures
            r@ == Seq::<T>::empty(),
    {
        let data: &[T] = &[];
        proof {
            assert(data@ =~= Seq::<T>::empty());
        }
        Self { data }
    }

    /// A slice over the given values.
    pub fn new(s: &'a [T]) -> (r: Self)
        ensures
            r@ == s@,
    {
        Self { data: s }
    }

    /// The values as an ordinary slice.
    pub fn as_slice(&self) -> (r: &'a [T])
        ensures
            r == self.spec_data(),
            r@ == self@,
    {
        self.data
    }

    /// How many values the slice holds.
    pub fn len(&self) -> (n: usize)
        ensures
            n == self@.len(),
    {
        self.data.len()
    }

    /// Walk the values in order.
    pub fn iter(&self) -> (r: std::slice::Iter<'a, T>)
        ensures
            r == vstd::std_specs::slice::spec_slice_iter(self.spec_data()),
            self.spec_data()@ == self@,
    {
        self.data.iter()
    }
}

/// Relies on core::str::from_utf8: returns the text viewing the given bytes
/// exactly when they are valid UTF-8, and the error otherwise.
#[verifier::external_body]
fn str_from_utf8(v: &[u8]) -> (r: Result<&str, core::str::Utf8Error>)
    ensures
        r is Ok <==> valid_utf8(v@),
        r matches Ok(s) ==> s.spec_bytes() == v@,
{
    core::str::from_utf8(v)
}

/// The error core::str::from_utf8 reports for bytes that are not UTF-8.
#[verifier::external_type_specification]
#[verifier::external_body]
pub struct ExUtf8Error(core::str::Utf8Error);

impl<'a> Slice<'a, u8> {
    /// The bytes as text: the string viewing exactly these bytes when they
    /// are valid UTF-8, the error otherwise.
    pub fn as_str(&self) -> (r: Result<&'a str, core::str::Utf8Error>)
        ensures
            r is Ok <==> valid_utf8(self@),
            r matches Ok(s) ==> s.spec_bytes() == self@,
    {
        str_from_utf8(self.data)
    }
}

/// A pair of values, handed across the boundary as one argument.
#[derive(Default)]
pub struct Tuple<T0, T1> {
    pub v0: T0,
    pub v1: T1,
}

impl<T0: Copy, T1: Copy> Tuple<T0, T1> {
    /// The pair as an ordinary tuple.
    pub fn to_tuple(&self) -> (r: (T0, T1))
        ensures
            r.0 == self.v0,
            r.1 == self.v1,
    {
        (self.v0, self.v1)
    }
}

impl<T0, T1> From<(T0, T1)> for Tuple<T0, T1> {
    fn from(value: (T0, T1)) -> (r: Self)
        ensures
            r.v0 == value.0,
            r.v1 == value.1,
    {
        Self { v0: value.0, v1: value.1 }
    }
}

impl<T0, T1> vstd::std_specs::convert::FromSpecImpl<(T0, T1)> for Tuple<T0, T1> {
    open spec fn obeys_from_spec() -> bool {
        true
    }

    open spec fn from_spec(value: (T0, T1)) -> Self {
        Tuple { v0: value.0, v1: value.1 }
    }
}

/// A half-open range of `u32`, handed across the boundary by value.
#[derive(Clone, Copy, Debug, PartialEq, Eq, Structural)]
pub struct RangeU32 {
    pub start: u32,
    pub end_excluded: u32,
}

impl RangeU32 {
    /// The range as the standard range type.
    pub fn to_range(&self) -> (r: core::ops::Range<u32>)
        ensures
            r.start == self.start,
            r.end == self.end_excluded,
    {
        core::ops::Range { start: self.start, end: self.end_excluded }
    }
}

/// A borrowed run of values, in the boundary shape of an earlier revision of
/// the interface.
#[derive(Clone, Copy, Debug)]
pub struct Sliceffi<'a, T> {
    data: &'a [T],
}

impl<'a, T> View for Sliceffi<'a, T> {
    type V = Seq<T>;

    closed spec fn view(&self) -> Seq<T> {
        self.data@
    }
}

impl<'a, T> Sliceffi<'a, T> {
    /// A slice over the given values.
    pub fn new(s: &'a [T]) -> (r: Self)
        ensures
            r@ == s@,
    {
        Self { data: s }
    }

    /// The values as an ordinary slice.
    pub fn as_slice(&self) -> (r: &'a [T])
        ensures
            r@ == self@,
    {
        self.data
    }
}

impl<'a> Sliceffi<'a, u8> {
    /// The bytes as text: the string viewing exactly these bytes when they
    /// are valid UTF-8, the error otherwise.
    pub fn as_str(&self) -> (r: Result<&'a str, core::str::Utf8Error>)
        ensures
            r is Ok <==> valid_utf8(self@),
            r matches Ok(s) ==> s.spec_bytes() == self@,
    {
        str_from_utf8(self.data)
    }
}

/// A half-open range of `u64`, handed across the boundary by value.
#[derive(Clone, Copy, Debug, PartialEq, Eq, Structural)]
pub struct RangeU64ffi {
    pub start: u64,
    pub end_excluded: u64,
}

impl RangeU64ffi {
    /// The range as the standard range type.
    pub fn to_range(&self) -> (r: core::ops::Range<u64>)
        ensures
            r.start == self.start,
            r.end == self.end_excluded,
    {
        core::ops::Range { start: self.start, end: self.end_excluded }
    }
}

/// A half-open range of `u32`, in the boundary shape of an earlier revision
/// of the interface.
#[derive(Clone, Copy, Debug, PartialEq, Eq, Structural)]
pub struct RangeU32ffi {
    pub start: u32,
    pub end_excluded: u32,
}

impl RangeU32ffi {
    /// The range as the standard range type.
    pub fn to_range(&self) -> (r: core::ops::Range<u32>)
        ensures
            r.start == self.start,
            r.end == self.end_excluded,
    {
        core::ops::Range { start: self.start, end: self.end_excluded }
    }
}

} // verus!
