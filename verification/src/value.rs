//! LWM2M values as exchanged through IPC.

use vstd::prelude::*;

verus! {

/// The array that results from storing `v` at `index` of `arr`: the slot is
/// set when it exists, otherwise the array is padded with empty slots.
pub open spec fn array_with_entry<T>(arr: Seq<Option<T>>, index: nat, v: T) -> Seq<Option<T>> {
    if index < arr.len() {
        arr.update(index as int, Some(v))
    } else {
        arr + Seq::new((index - arr.len()) as nat, |i: int| None::<T>) + seq![Some(v)]
    }
}

/// Whether storing at `index` of `arr` is refused because the slot is taken.
pub open spec fn slot_taken<T>(arr: Seq<Option<T>>, index: nat) -> bool {
    index < arr.len() && arr[index as int] is Some
}

/// Errors of the array operations on values.
#[derive(Debug, Clone, Copy, PartialEq, Eq, Structural)]
pub enum ValueError {
    /// An array element with this index exists already.
    IndexExists(usize),
    /// The value is an array or empty and can't become an array.
    NotConvertibleToArray,
    /// The value is no array or holds elements of another type.
    IncompatibleArray,
}

/// Store `value` at `index`, padding the array with empty slots if needed.
///
/// Fails without touching the array if the slot is already taken.
pub fn vec_add_index<T>(vec: &mut Vec<Option<T>>, index: usize, value: T) -> (r: Result<(), ValueError>)
    requires
        index < usize::MAX,
    ensures
        slot_taken(old(vec)@, index as nat) ==> r == Err::<(), ValueError>(ValueError::IndexExists(index))
            && *final(vec) == *old(vec),
        !slot_taken(old(vec)@, index as nat) ==> r is Ok
            && final(vec)@ == array_with_entry(old(vec)@, index as nat, value),
{
    if index < vec.len() {
        if vec[index].is_some() {
            return Err(ValueError::IndexExists(index));
        }
        vec.set(index, Some(value));
    } else {
        let ghost start = vec@;
        while vec.len() < index
            invariant
                start.len() <= vec.len() <= index,
                vec@ == start + Seq::new((vec.len() - start.len()) as nat, |i: int| None::<T>),
            decreases index - vec.len(),
        {
            vec.push(None);
            assert(vec@ =~= start + Seq::new((vec.len() - start.len()) as nat, |i: int| None::<T>));
        }
        vec.push(Some(value));
    }
    Ok(())
}

/// A new array holding only `value` at `index`.
pub fn vec_new_with_index<T>(index: usize, value: T) -> (r: Result<Vec<Option<T>>, ValueError>)
    requires
        index < usize::MAX,
    ensures
        r matches Ok(v) && v@ == array_with_entry(Seq::<Option<T>>::empty(), index as nat, value),
{
    let mut vec = Vec::new();
    vec_add_index(&mut vec, index, value)?;
    Ok(vec)
}


/// A point in time, counted from the UNIX epoch.
///
/// `nanos` is below one second; times before the epoch are not represented
/// (they can't be sent through IPC either).
#[derive(Debug, Clone, Copy, PartialEq, Eq, Structural)]
pub struct Timestamp {
    pub secs: u64,
    pub nanos: u32,
}

/// The largest number of seconds since the epoch that a time can hold on the
/// gateway (64-bit signed `time_t`).
pub const MAX_TIME_SECS: u64 = 0x7fff_ffff_ffff_ffff;

/// The seconds at which IPC timestamps are capped (the gateway's libc uses a
/// 32-bit `time_t`).
pub const TIME_T32_MAX: u64 = 0x7fff_ffff;

impl Timestamp {
    /// Well-formed: below one second of nanoseconds.
    pub open spec fn wf(self) -> bool {
        self.nanos < 1_000_000_000
    }

    /// The time as nanoseconds since the epoch.
    pub open spec fn total_nanos(self) -> int {
        self.secs * 1_000_000_000 + self.nanos
    }

    /// The UNIX epoch.
    pub fn unix_epoch() -> (t: Timestamp)
        ensures
            t.secs == 0 && t.nanos == 0,
    {
        Timestamp { secs: 0, nanos: 0 }
    }

    /// The time `secs` seconds after the epoch.
    pub fn from_secs(secs: u64) -> (t: Timestamp)
        ensures
            t.secs == secs && t.nanos == 0,
    {
        Timestamp { secs, nanos: 0 }
    }

    /// Whether `self` lies before `other`.
    pub fn is_before(&self, other: &Timestamp) -> (b: bool)
        ensures
            b == spec_time_before(*self, *other),
    {
        self.secs < other.secs || (self.secs == other.secs && self.nanos < other.nanos)
    }
}

/// `a` lies before `b`.
pub open spec fn spec_time_before(a: Timestamp, b: Timestamp) -> bool {
    a.secs < b.secs || (a.secs == b.secs && a.nanos < b.nanos)
}

/// The older of two optional times; an absent time does not count.
pub open spec fn oldest(own: Option<Timestamp>, other: Option<Timestamp>) -> Option<Timestamp> {
    match other {
        None => own,
        Some(o) => match own {
            None => Some(o),
            Some(t) => if spec_time_before(o, t) { Some(o) } else { Some(t) },
        },
    }
}

/// The time of a timestamp received through IPC: seconds since the epoch,
/// capped at the largest 32-bit `time_t`.
pub fn deserialize_systemtime_stamp(seconds_since_epoch: u64) -> (t: Timestamp)
    ensures
        t.nanos == 0,
        t.secs == if seconds_since_epoch < TIME_T32_MAX { seconds_since_epoch } else { TIME_T32_MAX },
{
    let secs = if seconds_since_epoch < TIME_T32_MAX { seconds_since_epoch } else { TIME_T32_MAX };
    Timestamp::from_secs(secs)
}

/// The time of an optional timestamp received through IPC.
///
/// Fails with [TimeError::TooLarge] when the time can't be represented.
pub fn deserialize_opt_systemtime_stamp(n: Option<u64>) -> (r: Result<Option<Timestamp>, TimeError>)
    ensures
        match n {
            None => r == Ok::<Option<Timestamp>, TimeError>(None),
            Some(n) => if n <= MAX_TIME_SECS {
                r == Ok::<Option<Timestamp>, TimeError>(Some(Timestamp { secs: n, nanos: 0 }))
            } else {
                r == Err::<Option<Timestamp>, TimeError>(TimeError::TooLarge)
            },
        },
{
    match n {
        None => Ok(None),
        Some(n) => {
            if n <= MAX_TIME_SECS {
                Ok(Some(Timestamp::from_secs(n)))
            } else {
                Err(TimeError::TooLarge)
            }
        },
    }
}

/// The IPC timestamp of a time: whole seconds since the epoch.
pub fn serialize_systemtime_stamp(t: &Timestamp) -> (r: u64)
    ensures
        r == t.secs,
{
    t.secs
}

/// The IPC timestamp of an optional time.
pub fn serialize_opt_systemtime_stamp(t: &Option<Timestamp>) -> (r: Option<u64>)
    ensures
        match *t {
            Some(t) => r == Some(t.secs),
            None => r is None,
        },
{
    match t {
        Some(t) => Some(serialize_systemtime_stamp(t)),
        None => None,
    }
}

/// The IPC timestamps of an array of optional times.
pub fn serialize_opt_systemtime_stamp_array(arr: &Vec<Option<Timestamp>>) -> (r: Vec<Option<u64>>)
    ensures
        r@.len() == arr@.len(),
        forall|i: int|
            0 <= i < arr@.len() ==> #[trigger] r@[i] == match arr@[i] {
                Some(t) => Some(t.secs),
                None => None,
            },
{
    let mut r: Vec<Option<u64>> = Vec::new();
    let mut i: usize = 0;
    while i < arr.len()
        invariant
            i <= arr@.len(),
            r@.len() == i,
            forall|j: int|
                0 <= j < i ==> #[trigger] r@[j] == match arr@[j] {
                    Some(t) => Some(t.secs),
                    None => None,
                },
        decreases arr@.len() - i,
    {
        r.push(serialize_opt_systemtime_stamp(&arr[i]));
        i += 1;
    }
    r
}

/// Errors when turning IPC timestamps into times.
#[derive(Debug, Clone, Copy, PartialEq, Eq, Structural)]
pub enum TimeError {
    /// "time is too large"
    TooLarge,
}

/// An optional IPC timestamp that a time can hold.
pub open spec fn stamp_representable(n: Option<u64>) -> bool {
    match n {
        Some(n) => n <= MAX_TIME_SECS,
        None => true,
    }
}

/// The times of an array of optional timestamps received through IPC.
pub fn deserialize_opt_systemtime_stamp_array(arr: Vec<Option<u64>>) -> (r: Result<
    Vec<Option<Timestamp>>,
    TimeError,
>)
    ensures
        r is Ok <==> forall|i: int|
            0 <= i < arr@.len() ==> stamp_representable(#[trigger] arr@[i]),
        r matches Ok(v) ==> v@.len() == arr@.len() && forall|i: int|
            0 <= i < arr@.len() ==> #[trigger] v@[i] == match arr@[i] {
                Some(n) => Some(Timestamp { secs: n, nanos: 0 }),
                None => None,
            },
{
    let mut res: Vec<Option<Timestamp>> = Vec::with_capacity(arr.len());
    let mut i: usize = 0;
    while i < arr.len()
        invariant
            i <= arr@.len(),
            res@.len() == i,
            forall|j: int|
                0 <= j < i ==> stamp_representable(#[trigger] arr@[j]),
            forall|j: int|
                0 <= j < i ==> #[trigger] res@[j] == match arr@[j] {
                    Some(n) => Some(Timestamp { secs: n, nanos: 0 }),
                    None => None,
                },
        decreases arr@.len() - i,
    {
        let t = deserialize_opt_systemtime_stamp(arr[i])?;
        res.push(t);
        i += 1;
    }
    Ok(res)
}


/// The bit pattern of an IEEE-754 double.
///
/// Floating-point values are carried through unchanged, so their bits are all
/// the library needs to hold.
#[derive(Debug, Clone, Copy, PartialEq, Eq, Structural)]
pub struct F64Bits(pub u64);

/// A link to an object instance.
#[derive(Debug, PartialEq, Eq)]
pub struct ObjectLink(pub String);

/// A CoRE link.
#[derive(Debug)]
pub struct CoreLink(pub String);

/// An integer as sent through IPC.
#[derive(Debug, Clone, Copy, PartialEq, Eq, Structural)]
pub enum Integer {
    Unsigned(u64),
    Signed(i64),
}

/// An integer array as sent through IPC.
#[derive(Debug)]
pub enum IntegerArray {
    Signed(Vec<Option<i64>>),
    Unsigned(Vec<Option<u64>>),
}

/// Value data as sent through IPC.
#[derive(Debug)]
pub enum ValueData {
    String(Option<String>),
    Integer(Option<Integer>),
    Float(Option<F64Bits>),
    Boolean(Option<bool>),
    Opaque(Vec<u8>),
    Time(Timestamp),
    Objlnk(Option<ObjectLink>),
    StringArray(Vec<Option<String>>),
    IntegerArray(IntegerArray),
    FloatArray(Vec<Option<F64Bits>>),
    BooleanArray(Vec<Option<bool>>),
    OpaqueArray(Vec<Option<Vec<u8>>>),
    TimeArray(Vec<Option<Timestamp>>),
    ObjlnkArray(Vec<Option<ObjectLink>>),
}

/// A value as sent through IPC: data and the time it was taken.
#[derive(Debug)]
pub struct Value {
    pub data: ValueData,
    pub time: Option<Timestamp>,
}

/// Opaque data longer than this is too big to be logged.
pub const BIG_OPAQUE_LEN: usize = 100;

/// A value is big when it holds opaque data of more than [BIG_OPAQUE_LEN] bytes.
pub open spec fn spec_value_is_big(v: Value) -> bool {
    match v.data {
        ValueData::Opaque(b) => b@.len() > BIG_OPAQUE_LEN,
        _ => false,
    }
}

/// A single (non-array, non-empty) value that can become an array.
pub open spec fn convertible_to_array(d: ValueData) -> bool {
    match d {
        ValueData::String(Some(_)) => true,
        ValueData::Integer(Some(_)) => true,
        ValueData::Float(Some(_)) => true,
        ValueData::Boolean(Some(_)) => true,
        ValueData::Opaque(_) => true,
        ValueData::Time(_) => true,
        ValueData::Objlnk(Some(_)) => true,
        _ => false,
    }
}

/// `arr` is the array with only the single value `d` at `index`.
pub open spec fn is_singleton_array(d: ValueData, index: nat, arr: ValueData) -> bool {
    match (d, arr) {
        (ValueData::String(Some(v)), ValueData::StringArray(a)) =>
            a@ == array_with_entry(Seq::empty(), index, v),
        (ValueData::Integer(Some(Integer::Signed(v))), ValueData::IntegerArray(IntegerArray::Signed(a))) =>
            a@ == array_with_entry(Seq::empty(), index, v),
        (ValueData::Integer(Some(Integer::Unsigned(v))), ValueData::IntegerArray(IntegerArray::Unsigned(a))) =>
            a@ == array_with_entry(Seq::empty(), index, v),
        (ValueData::Float(Some(v)), ValueData::FloatArray(a)) =>
            a@ == array_with_entry(Seq::empty(), index, v),
        (ValueData::Boolean(Some(v)), ValueData::BooleanArray(a)) =>
            a@ == array_with_entry(Seq::empty(), index, v),
        (ValueData::Opaque(v), ValueData::OpaqueArray(a)) =>
            a@ == array_with_entry(Seq::empty(), index, v),
        (ValueData::Time(v), ValueData::TimeArray(a)) =>
            a@ == array_with_entry(Seq::empty(), index, v),
        (ValueData::Objlnk(Some(v)), ValueData::ObjlnkArray(a)) =>
            a@ == array_with_entry(Seq::empty(), index, v),
        _ => false,
    }
}

/// Outcome of adding the single value `other` to the array `arr` at `index`:
/// `None` when the kinds match and the slot is free, else the error.
pub open spec fn add_to_array_error(arr: ValueData, other: ValueData, index: nat) -> Option<ValueError> {
    let taken = match (arr, other) {
        (ValueData::StringArray(a), ValueData::String(Some(_))) => Some(slot_taken(a@, index)),
        (ValueData::IntegerArray(IntegerArray::Signed(a)), ValueData::Integer(Some(Integer::Signed(_)))) =>
            Some(slot_taken(a@, index)),
        (ValueData::IntegerArray(IntegerArray::Unsigned(a)), ValueData::Integer(Some(Integer::Unsigned(_)))) =>
            Some(slot_taken(a@, index)),
        (ValueData::FloatArray(a), ValueData::Float(Some(_))) => Some(slot_taken(a@, index)),
        (ValueData::BooleanArray(a), ValueData::Boolean(Some(_))) => Some(slot_taken(a@, index)),
        (ValueData::OpaqueArray(a), ValueData::Opaque(_)) => Some(slot_taken(a@, index)),
        (ValueData::ObjlnkArray(a), ValueData::Objlnk(Some(_))) => Some(slot_taken(a@, index)),
        (ValueData::TimeArray(a), ValueData::Time(_)) => Some(slot_taken(a@, index)),
        _ => None,
    };
    match taken {
        None => Some(ValueError::IncompatibleArray),
        Some(true) => Some(ValueError::IndexExists(index as usize)),
        Some(false) => None,
    }
}

/// `new_arr` is `arr` with the single value `other` stored at `index`.
pub open spec fn added_to_array(arr: ValueData, other: ValueData, index: nat, new_arr: ValueData) -> bool {
    match (arr, other, new_arr) {
        (ValueData::StringArray(a), ValueData::String(Some(v)), ValueData::StringArray(n)) =>
            n@ == array_with_entry(a@, index, v),
        (
            ValueData::IntegerArray(IntegerArray::Signed(a)),
            ValueData::Integer(Some(Integer::Signed(v))),
            ValueData::IntegerArray(IntegerArray::Signed(n)),
        ) => n@ == array_with_entry(a@, index, v),
        (
            ValueData::IntegerArray(IntegerArray::Unsigned(a)),
            ValueData::Integer(Some(Integer::Unsigned(v))),
            ValueData::IntegerArray(IntegerArray::Unsigned(n)),
        ) => n@ == array_with_entry(a@, index, v),
        (ValueData::FloatArray(a), ValueData::Float(Some(v)), ValueData::FloatArray(n)) =>
            n@ == array_with_entry(a@, index, v),
        (ValueData::BooleanArray(a), ValueData::Boolean(Some(v)), ValueData::BooleanArray(n)) =>
            n@ == array_with_entry(a@, index, v),
        (ValueData::OpaqueArray(a), ValueData::Opaque(v), ValueData::OpaqueArray(n)) =>
            n@ == array_with_entry(a@, index, v),
        (ValueData::ObjlnkArray(a), ValueData::Objlnk(Some(v)), ValueData::ObjlnkArray(n)) =>
            n@ == array_with_entry(a@, index, v),
        (ValueData::TimeArray(a), ValueData::Time(v), ValueData::TimeArray(n)) =>
            n@ == array_with_entry(a@, index, v),
        _ => false,
    }
}

impl Value {
    /// A value holding `data` taken at `time`.
    pub fn new(data: ValueData, time: Option<Timestamp>) -> (v: Value)
        ensures
            v.data == data && v.time == time,
    {
        Value { data, time }
    }

    /// Whether the value holds opaque data too big to be logged.
    pub fn is_big(&self) -> (b: bool)
        ensures
            b == spec_value_is_big(*self),
    {
        match &self.data {
            ValueData::Opaque(binary) => binary.len() > BIG_OPAQUE_LEN,
            _ => false,
        }
    }

    /// Turn a single value into an array that holds it at index `id`.
    pub fn into_array(self, id: usize) -> (r: Result<Value, ValueError>)
        requires
            id < usize::MAX,
        ensures
            r is Ok <==> convertible_to_array(self.data),
            r matches Err(e) ==> e == ValueError::NotConvertibleToArray,
            r matches Ok(out) ==> out.time == self.time && is_singleton_array(self.data, id as nat, out.data),
    {
        let data = match self.data {
            ValueData::String(Some(v)) => ValueData::StringArray(vec_new_with_index(id, v)?),
            ValueData::Integer(Some(Integer::Signed(v))) => {
                ValueData::IntegerArray(IntegerArray::Signed(vec_new_with_index(id, v)?))
            },
            ValueData::Integer(Some(Integer::Unsigned(v))) => {
                ValueData::IntegerArray(IntegerArray::Unsigned(vec_new_with_index(id, v)?))
            },
            ValueData::Float(Some(v)) => ValueData::FloatArray(vec_new_with_index(id, v)?),
            ValueData::Boolean(Some(v)) => ValueData::BooleanArray(vec_new_with_index(id, v)?),
            ValueData::Opaque(v) => ValueData::OpaqueArray(vec_new_with_index(id, v)?),
            ValueData::Time(v) => ValueData::TimeArray(vec_new_with_index(id, v)?),
            ValueData::Objlnk(Some(v)) => ValueData::ObjlnkArray(vec_new_with_index(id, v)?),
            _ => return Err(ValueError::NotConvertibleToArray),
        };
        Ok(Value { data, time: self.time })
    }

    /// Add the single value `other` to this array value at index `id`.
    ///
    /// The array keeps the oldest of both times. On error nothing changes.
    pub fn add_to_array(&mut self, id: usize, other: Value) -> (r: Result<(), ValueError>)
        requires
            id < usize::MAX,
        ensures
            match add_to_array_error(old(self).data, other.data, id as nat) {
                Some(e) => r == Err::<(), ValueError>(e) && *final(self) == *old(self),
                None => r is Ok && added_to_array(old(self).data, other.data, id as nat, final(self).data)
                    && final(self).time == oldest(old(self).time, other.time),
            },
    {
        let ghost old_data = self.data;
        let Value { data: other_data, time: other_time } = other;
        match (&mut self.data, other_data) {
            (ValueData::StringArray(arr), ValueData::String(Some(v))) => vec_add_index(arr, id, v)?,
            (
                ValueData::IntegerArray(IntegerArray::Signed(arr)),
                ValueData::Integer(Some(Integer::Signed(v))),
            ) => vec_add_index(arr, id, v)?,
            (
                ValueData::IntegerArray(IntegerArray::Unsigned(arr)),
                ValueData::Integer(Some(Integer::Unsigned(v))),
            ) => vec_add_index(arr, id, v)?,
            (ValueData::FloatArray(arr), ValueData::Float(Some(v))) => vec_add_index(arr, id, v)?,
            (ValueData::BooleanArray(arr), ValueData::Boolean(Some(v))) => vec_add_index(arr, id, v)?,
            (ValueData::OpaqueArray(arr), ValueData::Opaque(v)) => vec_add_index(arr, id, v)?,
            (ValueData::ObjlnkArray(arr), ValueData::Objlnk(Some(v))) => vec_add_index(arr, id, v)?,
            (ValueData::TimeArray(arr), ValueData::Time(v)) => vec_add_index(arr, id, v)?,
            _ => return Err(ValueError::IncompatibleArray),
        }

        if let Some(other_time) = other_time {
            if let Some(time) = self.time {
                // always use the oldest time
                if other_time.is_before(&time) {
                    self.time = Some(other_time);
                }
            } else {
                self.time = Some(other_time);
            }
        }

        Ok(())
    }
}


/// The type that a value could not be converted to.
#[derive(Debug, Clone, Copy, PartialEq, Eq, Structural)]
pub enum ConversionTarget {
    String,
    Str,
    I64,
    U64,
    F64,
    Bool,
    Bytes,
    ByteSlice,
    SystemTime,
}

/// Errors of the LWM2M layer.
#[derive(Debug, Clone, Copy, PartialEq, Eq, Structural)]
pub enum Error {
    /// "unsupported optional resource"
    UnsupportedOptionalResource,
    /// "object-instance doesn't support partial-write"
    UnsupportedPartialWrite,
    /// "failed to convert ValueData to {0}"
    Conversion(ConversionTarget),
    /// An array operation on values failed.
    Value(ValueError),
}

impl TryFrom<ValueData> for String {
    type Error = Error;

    fn try_from(v: ValueData) -> (r: Result<Self, Self::Error>) {
        match v {
            ValueData::String(Some(v)) => Ok(v),
            _ => Err(Error::Conversion(ConversionTarget::String)),
        }
    }
}

impl vstd::std_specs::convert::TryFromSpecImpl<ValueData> for String {
    open spec fn obeys_try_from_spec() -> bool {
        true
    }

    open spec fn try_from_spec(v: ValueData) -> Result<Self, Self::Error> {
        match v {
            ValueData::String(Some(v)) => Ok(v),
            _ => Err(Error::Conversion(ConversionTarget::String)),
        }
    }
}

impl TryFrom<ValueData> for i64 {
    type Error = Error;

    fn try_from(v: ValueData) -> (r: Result<Self, Self::Error>) {
        match v {
            ValueData::Integer(Some(Integer::Signed(v))) => Ok(v),
            _ => Err(Error::Conversion(ConversionTarget::I64)),
        }
    }
}

impl vstd::std_specs::convert::TryFromSpecImpl<ValueData> for i64 {
    open spec fn obeys_try_from_spec() -> bool {
        true
    }

    open spec fn try_from_spec(v: ValueData) -> Result<Self, Self::Error> {
        match v {
            ValueData::Integer(Some(Integer::Signed(v))) => Ok(v),
            _ => Err(Error::Conversion(ConversionTarget::I64)),
        }
    }
}

impl TryFrom<ValueData> for u64 {
    type Error = Error;

    fn try_from(v: ValueData) -> (r: Result<Self, Self::Error>) {
        match v {
            ValueData::Integer(Some(Integer::Unsigned(v))) => Ok(v),
            _ => Err(Error::Conversion(ConversionTarget::U64)),
        }
    }
}

impl vstd::std_specs::convert::TryFromSpecImpl<ValueData> for u64 {
    open spec fn obeys_try_from_spec() -> bool {
        true
    }

    open spec fn try_from_spec(v: ValueData) -> Result<Self, Self::Error> {
        match v {
            ValueData::Integer(Some(Integer::Unsigned(v))) => Ok(v),
            _ => Err(Error::Conversion(ConversionTarget::U64)),
        }
    }
}

impl TryFrom<ValueData> for F64Bits {
    type Error = Error;

    fn try_from(v: ValueData) -> (r: Result<Self, Self::Error>) {
        match v {
            ValueData::Float(Some(v)) => Ok(v),
            _ => Err(Error::Conversion(ConversionTarget::F64)),
        }
    }
}

impl vstd::std_specs::convert::TryFromSpecImpl<ValueData> for F64Bits {
    open spec fn obeys_try_from_spec() -> bool {
        true
    }

    open spec fn try_from_spec(v: ValueData) -> Result<Self, Self::Error> {
        match v {
            ValueData::Float(Some(v)) => Ok(v),
            _ => Err(Error::Conversion(ConversionTarget::F64)),
        }
    }
}

impl TryFrom<ValueData> for bool {
    type Error = Error;

    fn try_from(v: ValueData) -> (r: Result<Self, Self::Error>) {
        match v {
            ValueData::Boolean(Some(v)) => Ok(v),
            _ => Err(Error::Conversion(ConversionTarget::Bool)),
        }
    }
}

impl vstd::std_specs::convert::TryFromSpecImpl<ValueData> for bool {
    open spec fn obeys_try_from_spec() -> bool {
        true
    }

    open spec fn try_from_spec(v: ValueData) -> Result<Self, Self::Error> {
        match v {
            ValueData::Boolean(Some(v)) => Ok(v),
            _ => Err(Error::Conversion(ConversionTarget::Bool)),
        }
    }
}

impl TryFrom<ValueData> for Vec<u8> {
    type Error = Error;

    fn try_from(v: ValueData) -> (r: Result<Self, Self::Error>) {
        match v {
            ValueData::Opaque(v) => Ok(v),
            _ => Err(Error::Conversion(ConversionTarget::Bytes)),
        }
    }
}

impl vstd::std_specs::convert::TryFromSpecImpl<ValueData> for Vec<u8> {
    open spec fn obeys_try_from_spec() -> bool {
        true
    }

    open spec fn try_from_spec(v: ValueData) -> Result<Self, Self::Error> {
        match v {
            ValueData::Opaque(v) => Ok(v),
            _ => Err(Error::Conversion(ConversionTarget::Bytes)),
        }
    }
}

impl TryFrom<ValueData> for Timestamp {
    type Error = Error;

    fn try_from(v: ValueData) -> (r: Result<Self, Self::Error>) {
        match v {
            ValueData::Time(v) => Ok(v),
            _ => Err(Error::Conversion(ConversionTarget::SystemTime)),
        }
    }
}

impl vstd::std_specs::convert::TryFromSpecImpl<ValueData> for Timestamp {
    open spec fn obeys_try_from_spec() -> bool {
        true
    }

    open spec fn try_from_spec(v: ValueData) -> Result<Self, Self::Error> {
        match v {
            ValueData::Time(v) => Ok(v),
            _ => Err(Error::Conversion(ConversionTarget::SystemTime)),
        }
    }
}

impl<'a> TryFrom<&'a ValueData> for &'a str {
    type Error = Error;

    fn try_from(v: &'a ValueData) -> (r: Result<Self, Self::Error>)
        ensures
            match v {
                ValueData::String(Some(s)) => r matches Ok(t) && t@ == s@,
                _ => r == Err::<&'a str, Error>(Error::Conversion(ConversionTarget::Str)),
            },
    {
        match v {
            ValueData::String(Some(v)) => Ok(v.as_str()),
            _ => Err(Error::Conversion(ConversionTarget::Str)),
        }
    }
}

impl<'a> vstd::std_specs::convert::TryFromSpecImpl<&'a ValueData> for &'a str {
    /// The result is stated by the ensures of `try_from` itself.
    open spec fn obeys_try_from_spec() -> bool {
        false
    }

    open spec fn try_from_spec(v: &'a ValueData) -> Result<Self, Self::Error> {
        vstd::pervasive::arbitrary()
    }
}

impl<'a> TryFrom<&'a ValueData> for u64 {
    type Error = Error;

    fn try_from(v: &'a ValueData) -> (r: Result<Self, Self::Error>)
        ensures
            match v {
                ValueData::Integer(Some(Integer::Unsigned(n))) => r == Ok::<u64, Error>(*n),
                _ => r == Err::<u64, Error>(Error::Conversion(ConversionTarget::U64)),
            },
    {
        match v {
            ValueData::Integer(Some(Integer::Unsigned(v))) => Ok(*v),
            _ => Err(Error::Conversion(ConversionTarget::U64)),
        }
    }
}

impl<'a> vstd::std_specs::convert::TryFromSpecImpl<&'a ValueData> for u64 {
    /// The result is stated by the ensures of `try_from` itself.
    open spec fn obeys_try_from_spec() -> bool {
        false
    }

    open spec fn try_from_spec(v: &'a ValueData) -> Result<Self, Self::Error> {
        vstd::pervasive::arbitrary()
    }
}

impl<'a> TryFrom<&'a ValueData> for &'a [u8] {
    type Error = Error;

    fn try_from(v: &'a ValueData) -> (r: Result<Self, Self::Error>)
        ensures
            match v {
                ValueData::Opaque(b) => r matches Ok(t) && t@ == b@,
                _ => r == Err::<&'a [u8], Error>(Error::Conversion(ConversionTarget::ByteSlice)),
            },
    {
        match v {
            ValueData::Opaque(v) => Ok(v.as_slice()),
            _ => Err(Error::Conversion(ConversionTarget::ByteSlice)),
        }
    }
}

impl<'a> vstd::std_specs::convert::TryFromSpecImpl<&'a ValueData> for &'a [u8] {
    /// The result is stated by the ensures of `try_from` itself.
    open spec fn obeys_try_from_spec() -> bool {
        false
    }

    open spec fn try_from_spec(v: &'a ValueData) -> Result<Self, Self::Error> {
        vstd::pervasive::arbitrary()
    }
}

impl From<String> for ValueData {
    fn from(v: String) -> (r: Self) {
        ValueData::String(Some(v))
    }
}

impl vstd::std_specs::convert::FromSpecImpl<String> for ValueData {
    open spec fn obeys_from_spec() -> bool {
        true
    }

    open spec fn from_spec(v: String) -> Self {
        ValueData::String(Some(v))
    }
}

impl From<i64> for ValueData {
    fn from(v: i64) -> (r: Self) {
        ValueData::Integer(Some(Integer::Signed(v)))
    }
}

impl vstd::std_specs::convert::FromSpecImpl<i64> for ValueData {
    open spec fn obeys_from_spec() -> bool {
        true
    }

    open spec fn from_spec(v: i64) -> Self {
        ValueData::Integer(Some(Integer::Signed(v)))
    }
}

impl From<u64> for ValueData {
    fn from(v: u64) -> (r: Self) {
        ValueData::Integer(Some(Integer::Unsigned(v)))
    }
}

impl vstd::std_specs::convert::FromSpecImpl<u64> for ValueData {
    open spec fn obeys_from_spec() -> bool {
        true
    }

    open spec fn from_spec(v: u64) -> Self {
        ValueData::Integer(Some(Integer::Unsigned(v)))
    }
}

impl From<F64Bits> for ValueData {
    fn from(v: F64Bits) -> (r: Self) {
        ValueData::Float(Some(v))
    }
}

impl vstd::std_specs::convert::FromSpecImpl<F64Bits> for ValueData {
    open spec fn obeys_from_spec() -> bool {
        true
    }

    open spec fn from_spec(v: F64Bits) -> Self {
        ValueData::Float(Some(v))
    }
}

impl From<bool> for ValueData {
    fn from(v: bool) -> (r: Self) {
        ValueData::Boolean(Some(v))
    }
}

impl vstd::std_specs::convert::FromSpecImpl<bool> for ValueData {
    open spec fn obeys_from_spec() -> bool {
        true
    }

    open spec fn from_spec(v: bool) -> Self {
        ValueData::Boolean(Some(v))
    }
}

impl From<Vec<u8>> for ValueData {
    fn from(v: Vec<u8>) -> (r: Self) {
        ValueData::Opaque(v)
    }
}

impl vstd::std_specs::convert::FromSpecImpl<Vec<u8>> for ValueData {
    open spec fn obeys_from_spec() -> bool {
        true
    }

    open spec fn from_spec(v: Vec<u8>) -> Self {
        ValueData::Opaque(v)
    }
}

impl From<Timestamp> for ValueData {
    fn from(v: Timestamp) -> (r: Self) {
        ValueData::Time(v)
    }
}

impl vstd::std_specs::convert::FromSpecImpl<Timestamp> for ValueData {
    open spec fn obeys_from_spec() -> bool {
        true
    }

    open spec fn from_spec(v: Timestamp) -> Self {
        ValueData::Time(v)
    }
}

impl From<ObjectLink> for ValueData {
    fn from(v: ObjectLink) -> (r: Self) {
        ValueData::Objlnk(Some(v))
    }
}

impl vstd::std_specs::convert::FromSpecImpl<ObjectLink> for ValueData {
    open spec fn obeys_from_spec() -> bool {
        true
    }

    open spec fn from_spec(v: ObjectLink) -> Self {
        ValueData::Objlnk(Some(v))
    }
}

impl From<Vec<Option<String>>> for ValueData {
    fn from(v: Vec<Option<String>>) -> (r: Self) {
        ValueData::StringArray(v)
    }
}

impl vstd::std_specs::convert::FromSpecImpl<Vec<Option<String>>> for ValueData {
    open spec fn obeys_from_spec() -> bool {
        true
    }

    open spec fn from_spec(v: Vec<Option<String>>) -> Self {
        ValueData::StringArray(v)
    }
}

impl From<Vec<Option<i64>>> for ValueData {
    fn from(v: Vec<Option<i64>>) -> (r: Self) {
        ValueData::IntegerArray(IntegerArray::Signed(v))
    }
}

impl vstd::std_specs::convert::FromSpecImpl<Vec<Option<i64>>> for ValueData {
    open spec fn obeys_from_spec() -> bool {
        true
    }

    open spec fn from_spec(v: Vec<Option<i64>>) -> Self {
        ValueData::IntegerArray(IntegerArray::Signed(v))
    }
}

impl From<Vec<Option<u64>>> for ValueData {
    fn from(v: Vec<Option<u64>>) -> (r: Self) {
        ValueData::IntegerArray(IntegerArray::Unsigned(v))
    }
}

impl vstd::std_specs::convert::FromSpecImpl<Vec<Option<u64>>> for ValueData {
    open spec fn obeys_from_spec() -> bool {
        true
    }

    open spec fn from_spec(v: Vec<Option<u64>>) -> Self {
        ValueData::IntegerArray(IntegerArray::Unsigned(v))
    }
}

impl From<Vec<Option<F64Bits>>> for ValueData {
    fn from(v: Vec<Option<F64Bits>>) -> (r: Self) {
        ValueData::FloatArray(v)
    }
}

impl vstd::std_specs::convert::FromSpecImpl<Vec<Option<F64Bits>>> for ValueData {
    open spec fn obeys_from_spec() -> bool {
        true
    }

    open spec fn from_spec(v: Vec<Option<F64Bits>>) -> Self {
        ValueData::FloatArray(v)
    }
}

impl From<Vec<Option<bool>>> for ValueData {
    fn from(v: Vec<Option<bool>>) -> (r: Self) {
        ValueData::BooleanArray(v)
    }
}

impl vstd::std_specs::convert::FromSpecImpl<Vec<Option<bool>>> for ValueData {
    open spec fn obeys_from_spec() -> bool {
        true
    }

    open spec fn from_spec(v: Vec<Option<bool>>) -> Self {
        ValueData::BooleanArray(v)
    }
}

impl From<Vec<Option<Vec<u8>>>> for ValueData {
    fn from(v: Vec<Option<Vec<u8>>>) -> (r: Self) {
        ValueData::OpaqueArray(v)
    }
}

impl vstd::std_specs::convert::FromSpecImpl<Vec<Option<Vec<u8>>>> for ValueData {
    open spec fn obeys_from_spec() -> bool {
        true
    }

    open spec fn from_spec(v: Vec<Option<Vec<u8>>>) -> Self {
        ValueData::OpaqueArray(v)
    }
}

impl From<Vec<Option<Timestamp>>> for ValueData {
    fn from(v: Vec<Option<Timestamp>>) -> (r: Self) {
        ValueData::TimeArray(v)
    }
}

impl vstd::std_specs::convert::FromSpecImpl<Vec<Option<Timestamp>>> for ValueData {
    open spec fn obeys_from_spec() -> bool {
        true
    }

    open spec fn from_spec(v: Vec<Option<Timestamp>>) -> Self {
        ValueData::TimeArray(v)
    }
}

impl From<Vec<Option<ObjectLink>>> for ValueData {
    fn from(v: Vec<Option<ObjectLink>>) -> (r: Self) {
        ValueData::ObjlnkArray(v)
    }
}

impl vstd::std_specs::convert::FromSpecImpl<Vec<Option<ObjectLink>>> for ValueData {
    open spec fn obeys_from_spec() -> bool {
        true
    }

    open spec fn from_spec(v: Vec<Option<ObjectLink>>) -> Self {
        ValueData::ObjlnkArray(v)
    }
}

/// A value and the time it was taken.
pub type TimedData<T> = (T, Option<Timestamp>);

impl<T: Into<ValueData>> From<TimedData<T>> for Value {
    fn from(v: TimedData<T>) -> (r: Self) {
        Value { data: v.0.into(), time: v.1 }
    }
}

impl<T: Into<ValueData>> vstd::std_specs::convert::FromSpecImpl<TimedData<T>> for Value {
    open spec fn obeys_from_spec() -> bool {
        <T as vstd::std_specs::convert::IntoSpec<ValueData>>::obeys_into_spec()
    }

    open spec fn from_spec(v: TimedData<T>) -> Self {
        Value { data: <T as vstd::std_specs::convert::IntoSpec<ValueData>>::into_spec(v.0), time: v.1 }
    }
}

/// A value stored in an array is read back at its index; the other entries
/// stay as they were, and the array grows only by empty slots up to it.
pub proof fn law_array_read_after_write<T>(arr: Seq<Option<T>>, index: nat, v: T, j: int)
    ensures
        array_with_entry(arr, index, v)[index as int] == Some(v),
        array_with_entry(arr, index, v).len() == if index < arr.len() {
            arr.len()
        } else {
            index + 1
        },
        0 <= j < arr.len() && j != index ==> array_with_entry(arr, index, v)[j] == arr[j],
        arr.len() <= j < index ==> array_with_entry(arr, index, v)[j] is None,
{
}

/// Of two well-formed times, one lies before the other exactly when it is
/// fewer nanoseconds after the epoch: "before" is the order of time itself,
/// strict and total.
pub proof fn law_time_before_is_time_order(a: Timestamp, b: Timestamp)
    requires
        a.wf(),
        b.wf(),
    ensures
        spec_time_before(a, b) <==> a.total_nanos() < b.total_nanos(),
        !spec_time_before(a, a),
        spec_time_before(a, b) ==> !spec_time_before(b, a),
        a != b ==> spec_time_before(a, b) || spec_time_before(b, a),
{
    assert(spec_time_before(a, b) <==> a.total_nanos() < b.total_nanos()) by (nonlinear_arith)
        requires
            a.nanos < 1_000_000_000,
            b.nanos < 1_000_000_000,
            spec_time_before(a, b) == (a.secs < b.secs || (a.secs == b.secs && a.nanos < b.nanos)),
            a.total_nanos() == a.secs * 1_000_000_000 + a.nanos,
            b.total_nanos() == b.secs * 1_000_000_000 + b.nanos,
    ;
}

/// The time kept when values are gathered into an array is the oldest of
/// the times present: it is one of them, and no present time is earlier.
pub proof fn law_oldest_time_kept(own: Option<Timestamp>, other: Option<Timestamp>)
    requires
        own matches Some(t) ==> t.wf(),
        other matches Some(t) ==> t.wf(),
    ensures
        oldest(own, other) is None <==> (own is None && other is None),
        oldest(own, other) matches Some(r) ==> {
            &&& (own == Some(r) || other == Some(r))
            &&& (own matches Some(t) ==> r.total_nanos() <= t.total_nanos())
            &&& (other matches Some(t) ==> r.total_nanos() <= t.total_nanos())
        },
{
    match (own, other) {
        (Some(t), Some(o)) => {
            law_time_before_is_time_order(o, t);
        },
        _ => {},
    }
}

} // verus!
