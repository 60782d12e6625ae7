//! Handling of LWM2M requests on an endpoint: which object, instance and
//! resource a request path names, what the request asks of it, and how the
//! values read from resource instances are gathered.
//!
//! The objects themselves are implemented by the users of the library and
//! answer asynchronously; the functions here take what they answered and
//! decide the next step.

use crate::protocol::{Method, Payload, ValueMap};
use crate::text::{parse_usize, spec_parse_usize, str_eq};
use crate::value::{
    add_to_array_error, added_to_array, convertible_to_array, is_singleton_array, oldest, Value,
    ValueData, ValueError,
};
use vstd::prelude::*;

verus! {

/// The components of the path `p`, in the order in which
/// `std::path::Path::iter` yields them.
pub uninterp spec fn path_components(p: Seq<char>) -> Seq<Seq<char>>;

/// Splits a request path into its components with `std::path::Path::iter`.
///
/// Trusted: the result is claimed to be `path_components` of the path, each
/// component as a `String`; nothing more is said of how the path is split.
#[verifier::external_body]
fn path_segments(path: &str) -> (r: Vec<String>)
    ensures
        r@.map_values(|s: String| s@) == path_components(path@),
{
    std::path::Path::new(path).iter().map(|c| c.to_string_lossy().into_owned()).collect()
}

/// Whether `name` is among the object ids `ids`.
pub open spec fn known_object_id(ids: Seq<Seq<char>>, name: Seq<char>) -> bool {
    exists|i: int| 0 <= i < ids.len() && ids[i] == name
}

/// `i` is the first position of `name` in `ids`.
pub open spec fn first_position(ids: Seq<Seq<char>>, name: Seq<char>, i: int) -> bool {
    &&& 0 <= i < ids.len()
    &&& ids[i] == name
    &&& forall|j: int| 0 <= j < i ==> ids[j] != name
}

/// What a request path names on an endpoint. Object types are given as
/// positions in the endpoint's list of object ids.
#[derive(Debug)]
pub enum RequestTarget {
    /// The whole endpoint (empty path).
    Endpoint,
    /// All instances of an object type.
    ObjectType { object_type: usize },
    /// One object instance with all its resources.
    ObjectInstance { object_type: usize, object_instance: usize },
    /// One instance of a resource. A path without resource instance names
    /// instance 0.
    Resource {
        object_type: usize,
        object_instance: usize,
        resource_name: String,
        resource_instance: usize,
    },
}

/// Why a request path names nothing on the endpoint.
#[derive(Debug)]
pub enum RouteError {
    /// The first segment is no object id of the endpoint.
    UnsupportedObjectId(String),
    /// The second segment is no object instance number.
    InvalidObjectInstance(String),
    /// The fourth segment is no resource instance number.
    InvalidResourceInstance(String),
    /// The path has more than four segments.
    TooManySegments,
}

/// The path `segs` names something on an endpoint with object ids `ids`.
pub open spec fn route_ok(segs: Seq<Seq<char>>, ids: Seq<Seq<char>>) -> bool {
    &&& segs.len() >= 1 ==> known_object_id(ids, segs[0])
    &&& segs.len() >= 2 ==> spec_parse_usize(segs[1]) is Some
    &&& segs.len() >= 4 ==> spec_parse_usize(segs[3]) is Some
    &&& segs.len() <= 4
}

/// `e` is the error for the path `segs`: the first segment that fails, in
/// path order, and the excess of segments last.
pub open spec fn route_fails(e: RouteError, segs: Seq<Seq<char>>, ids: Seq<Seq<char>>) -> bool {
    if segs.len() >= 1 && !known_object_id(ids, segs[0]) {
        e matches RouteError::UnsupportedObjectId(s) && s@ == segs[0]
    } else if segs.len() >= 2 && spec_parse_usize(segs[1]) is None {
        e matches RouteError::InvalidObjectInstance(s) && s@ == segs[1]
    } else if segs.len() >= 4 && spec_parse_usize(segs[3]) is None {
        e matches RouteError::InvalidResourceInstance(s) && s@ == segs[3]
    } else {
        segs.len() > 4 && e is TooManySegments
    }
}

/// `t` is what the path `segs` names.
pub open spec fn routes_to(t: RequestTarget, segs: Seq<Seq<char>>, ids: Seq<Seq<char>>) -> bool {
    match t {
        RequestTarget::Endpoint => segs.len() == 0,
        RequestTarget::ObjectType { object_type } => segs.len() == 1 && first_position(
            ids,
            segs[0],
            object_type as int,
        ),
        RequestTarget::ObjectInstance { object_type, object_instance } => {
            &&& segs.len() == 2
            &&& first_position(ids, segs[0], object_type as int)
            &&& spec_parse_usize(segs[1]) == Some(object_instance)
        },
        RequestTarget::Resource { object_type, object_instance, resource_name, resource_instance } => {
            &&& segs.len() == 3 || segs.len() == 4
            &&& first_position(ids, segs[0], object_type as int)
            &&& spec_parse_usize(segs[1]) == Some(object_instance)
            &&& resource_name@ == segs[2]
            &&& resource_instance == if segs.len() == 4 {
                spec_parse_usize(segs[3])->0
            } else {
                0
            }
        },
    }
}

/// The views of a list of strings.
pub open spec fn views(v: Seq<String>) -> Seq<Seq<char>> {
    v.map_values(|s: String| s@)
}

/// The first position of `name` among `ids`, if it is there.
fn find_object_id(ids: &Vec<String>, name: &str) -> (r: Option<usize>)
    ensures
        match r {
            Some(i) => first_position(views(ids@), name@, i as int),
            None => !known_object_id(views(ids@), name@),
        },
{
    let mut i: usize = 0;
    while i < ids.len()
        invariant
            i <= ids@.len(),
            forall|j: int| 0 <= j < i ==> views(ids@)[j] != name@,
        decreases ids@.len() - i,
    {
        if str_eq(ids[i].as_str(), name) {
            return Some(i);
        }
        i += 1;
    }
    None
}

/// What the path segments `segments` name on an endpoint whose object ids
/// are `object_ids`, or why they name nothing.
pub fn target_from_segments(segments: &Vec<String>, object_ids: &Vec<String>) -> (r: Result<
    RequestTarget,
    RouteError,
>)
    ensures
        r is Ok <==> route_ok(views(segments@), views(object_ids@)),
        match r {
            Ok(t) => routes_to(t, views(segments@), views(object_ids@)),
            Err(e) => route_fails(e, views(segments@), views(object_ids@)),
        },
{
    let ghost segs = views(segments@);
    let ghost ids = views(object_ids@);
    let n = segments.len();
    if n == 0 {
        return Ok(RequestTarget::Endpoint);
    }
    let object_type = match find_object_id(object_ids, segments[0].as_str()) {
        Some(t) => t,
        None => return Err(RouteError::UnsupportedObjectId(segments[0].clone())),
    };
    if n == 1 {
        return Ok(RequestTarget::ObjectType { object_type });
    }
    let object_instance = match parse_usize(segments[1].as_str()) {
        Some(i) => i,
        None => return Err(RouteError::InvalidObjectInstance(segments[1].clone())),
    };
    if n == 2 {
        return Ok(RequestTarget::ObjectInstance { object_type, object_instance });
    }
    let resource_name = segments[2].clone();
    let resource_instance = if n >= 4 {
        match parse_usize(segments[3].as_str()) {
            Some(i) => i,
            None => return Err(RouteError::InvalidResourceInstance(segments[3].clone())),
        }
    } else {
        0
    };
    if n > 4 {
        return Err(RouteError::TooManySegments);
    }
    Ok(RequestTarget::Resource { object_type, object_instance, resource_name, resource_instance })
}

/// What the request path `path` names on an endpoint whose object ids are
/// `object_ids`, or why it names nothing; the path is split into
/// `path_components`.
pub fn resolve_target(path: &str, object_ids: &Vec<String>) -> (r: Result<RequestTarget, RouteError>)
    ensures
        r is Ok <==> route_ok(path_components(path@), views(object_ids@)),
        match r {
            Ok(t) => routes_to(t, path_components(path@), views(object_ids@)),
            Err(e) => route_fails(e, path_components(path@), views(object_ids@)),
        },
{
    let segments = path_segments(path);
    target_from_segments(&segments, object_ids)
}

/// What a request asks of a single resource instance.
#[derive(Debug)]
pub enum ResourceAccess {
    Read,
    Write(Value),
    /// Execute, with the arguments, if the payload gave a string array.
    Execute(Option<Vec<String>>),
}

/// What a request asks of an object instance as a whole.
#[derive(Debug)]
pub enum InstanceAccess {
    /// Read all resources.
    Read,
    /// Write some resources by name (partial update).
    PartialWrite(ValueMap),
}

/// Why a request cannot be carried out on what it names.
#[derive(Debug)]
pub enum RequestError {
    /// "unsupported method: {0:?}"
    UnsupportedMethod(Method),
    /// "multiple-values for resource-instance writ"
    MultipleValuesForResourceWrite,
    /// "write: no value provided"
    NoValueProvided,
    /// "execute doesn't support multiple values"
    ExecuteMultipleValues,
    /// "can't partial-write single value"
    PartialWriteSingleValue,
    /// "can't partial-write without payload"
    PartialWriteWithoutPayload,
}

/// The strings present in `s`, in order, the absent ones left out.
pub open spec fn present_strings(s: Seq<Option<String>>) -> Seq<Seq<char>>
    decreases s.len(),
{
    if s.len() == 0 {
        Seq::empty()
    } else {
        match s.last() {
            Some(x) => present_strings(s.drop_last()).push(x@),
            None => present_strings(s.drop_last()),
        }
    }
}

/// The strings present in `arr`, in order.
fn present_string_args(arr: &Vec<Option<String>>) -> (r: Vec<String>)
    ensures
        views(r@) == present_strings(arr@),
{
    let mut r: Vec<String> = Vec::new();
    let mut i: usize = 0;
    while i < arr.len()
        invariant
            i <= arr@.len(),
            views(r@) == present_strings(arr@.take(i as int)),
        decreases arr@.len() - i,
    {
        proof {
            assert(arr@.take(i + 1).drop_last() == arr@.take(i as int));
        }
        match &arr[i] {
            Some(s) => {
                r.push(s.clone());
                proof {
                    assert(views(r@) == views(r@.drop_last()).push(r@.last()@));
                }
            },
            None => {},
        }
        i += 1;
    }
    proof {
        assert(arr@.take(arr@.len() as int) == arr@);
    }
    r
}

/// The arguments that the payload of an execute request gives: the present
/// strings of a string array value, or none.
pub open spec fn execute_args(payload: Option<Payload>) -> Option<Seq<Seq<char>>> {
    match payload {
        Some(Payload::Value(v)) => match v.data {
            ValueData::StringArray(arr) => Some(present_strings(arr@)),
            _ => None,
        },
        _ => None,
    }
}

/// What a request with method `op` and `payload` asks of a single resource
/// instance, or why it cannot be carried out.
pub fn resource_access(op: Method, payload: Option<Payload>) -> (r: Result<ResourceAccess, RequestError>)
    ensures
        match op {
            Method::Read => r matches Ok(ResourceAccess::Read),
            Method::Write => match payload {
                Some(Payload::Value(v)) => r == Ok::<ResourceAccess, RequestError>(ResourceAccess::Write(v)),
                Some(_) => r matches Err(RequestError::MultipleValuesForResourceWrite),
                None => r matches Err(RequestError::NoValueProvided),
            },
            Method::Execute => match payload {
                Some(Payload::Values(_)) => r matches Err(RequestError::ExecuteMultipleValues),
                _ => r matches Ok(ResourceAccess::Execute(args)) && match execute_args(payload) {
                    Some(a) => args matches Some(v) && views(v@) == a,
                    None => args is None,
                },
            },
            _ => r matches Err(RequestError::UnsupportedMethod(m)) && m == op,
        },
{
    match op {
        Method::Read => Ok(ResourceAccess::Read),
        Method::Write => match payload {
            Some(Payload::Value(v)) => Ok(ResourceAccess::Write(v)),
            Some(_) => Err(RequestError::MultipleValuesForResourceWrite),
            None => Err(RequestError::NoValueProvided),
        },
        Method::Execute => {
            let args = match &payload {
                Some(Payload::Value(v)) => match &v.data {
                    ValueData::StringArray(arr) => Some(present_string_args(arr)),
                    _ => None,
                },
                Some(Payload::Values(_)) => return Err(RequestError::ExecuteMultipleValues),
                _ => None,
            };
            Ok(ResourceAccess::Execute(args))
        },
        _ => Err(RequestError::UnsupportedMethod(op)),
    }
}

/// What a request with method `op` and `payload` asks of an object instance
/// as a whole, or why it cannot be carried out. A write of values for
/// several resources by object is not handled.
pub fn instance_access(op: Method, payload: Option<Payload>) -> (r: Result<InstanceAccess, RequestError>)
    requires
        !(op == Method::Write && payload matches Some(Payload::MultiResourceValues(_))),
    ensures
        match op {
            Method::Read => r matches Ok(InstanceAccess::Read),
            Method::Write => match payload {
                Some(Payload::Values(values)) => r == Ok::<InstanceAccess, RequestError>(
                    InstanceAccess::PartialWrite(values),
                ),
                Some(_) => r matches Err(RequestError::PartialWriteSingleValue),
                None => r matches Err(RequestError::PartialWriteWithoutPayload),
            },
            _ => r matches Err(RequestError::UnsupportedMethod(m)) && m == op,
        },
{
    match op {
        Method::Read => Ok(InstanceAccess::Read),
        Method::Write => match payload {
            Some(Payload::Values(values)) => Ok(InstanceAccess::PartialWrite(values)),
            Some(_) => Err(RequestError::PartialWriteSingleValue),
            None => Err(RequestError::PartialWriteWithoutPayload),
        },
        _ => Err(RequestError::UnsupportedMethod(op)),
    }
}

/// Whether a request with method `op` may be carried out where only reading
/// is supported (the whole endpoint, all instances of an object type).
pub fn read_only_access(op: Method) -> (r: Result<(), RequestError>)
    ensures
        op == Method::Read ==> r is Ok,
        op != Method::Read ==> (r matches Err(RequestError::UnsupportedMethod(m)) && m == op),
{
    match op {
        Method::Read => Ok(()),
        _ => Err(RequestError::UnsupportedMethod(op)),
    }
}

/// The object instances, in list order, that a read of all instances of
/// `object_type` reads: those of the list whose type is `object_type`, and
/// only those.
pub open spec fn listed_instances(list: Seq<(usize, usize)>, object_type: usize) -> Seq<usize>
    decreases list.len(),
{
    if list.len() == 0 {
        Seq::empty()
    } else if list.last().0 == object_type {
        listed_instances(list.drop_last(), object_type).push(list.last().1)
    } else {
        listed_instances(list.drop_last(), object_type)
    }
}

/// The object instances that a read of all instances of `object_type`
/// reads, from the endpoint's list of (object type, instance) pairs.
pub fn instances_to_list(object_list: &Vec<(usize, usize)>, object_type: usize) -> (r: Vec<usize>)
    ensures
        r@ == listed_instances(object_list@, object_type),
{
    let mut r: Vec<usize> = Vec::new();
    let mut i: usize = 0;
    while i < object_list.len()
        invariant
            i <= object_list@.len(),
            r@ == listed_instances(object_list@.take(i as int), object_type),
        decreases object_list@.len() - i,
    {
        proof {
            assert(object_list@.take(i + 1).drop_last() == object_list@.take(i as int));
        }
        let (t, instance) = object_list[i];
        if t == object_type {
            r.push(instance);
        }
        i += 1;
    }
    proof {
        assert(object_list@.take(object_list@.len() as int) == object_list@);
    }
    r
}

/// Why the values read from resource instances cannot be gathered.
#[derive(Debug)]
pub enum GatherError {
    /// "multiple non-array resource instances"
    MultipleNonArrayInstances,
    /// "non-zero resource-instance `{0}` with non-array resource"; holds the
    /// resource id.
    NonZeroInstance(usize),
    /// The value could not be made or extended into an array.
    Value(ValueError),
}

/// `r` is the outcome of gathering the value `val`, read from instance
/// `resource_instance` of resource `resource_id`, into what was gathered
/// so far for that resource (`acc`).
pub open spec fn gather_outcome(
    acc: Option<Value>,
    is_array: bool,
    resource_id: usize,
    resource_instance: usize,
    val: Value,
    r: Result<Value, GatherError>,
) -> bool {
    match acc {
        Some(a) => if !is_array {
            r matches Err(GatherError::MultipleNonArrayInstances)
        } else {
            match add_to_array_error(a.data, val.data, resource_instance as nat) {
                Some(e) => r matches Err(GatherError::Value(f)) && f == e,
                None => r matches Ok(n) && added_to_array(
                    a.data,
                    val.data,
                    resource_instance as nat,
                    n.data,
                ) && n.time == oldest(a.time, val.time),
            }
        },
        None => if is_array {
            if convertible_to_array(val.data) {
                r matches Ok(n) && n.time == val.time && is_singleton_array(
                    val.data,
                    resource_instance as nat,
                    n.data,
                )
            } else {
                r matches Err(GatherError::Value(ValueError::NotConvertibleToArray))
            }
        } else if resource_instance != 0 {
            r matches Err(GatherError::NonZeroInstance(id)) && id == resource_id
        } else {
            r == Ok::<Value, GatherError>(val)
        },
    }
}

/// Gathers the value `val`, read from instance `resource_instance` of
/// resource `resource_id`, into what was gathered so far for that resource:
/// the first value of a non-array resource stands alone, values of an array
/// resource are collected into one array, and anything else is an error.
pub fn gather_instance(
    acc: Option<Value>,
    is_array: bool,
    resource_id: usize,
    resource_instance: usize,
    val: Value,
) -> (r: Result<Value, GatherError>)
    requires
        resource_instance < usize::MAX,
    ensures
        gather_outcome(acc, is_array, resource_id, resource_instance, val, r),
{
    match acc {
        Some(mut arr) => {
            if !is_array {
                return Err(GatherError::MultipleNonArrayInstances);
            }
            match arr.add_to_array(resource_instance, val) {
                Ok(()) => Ok(arr),
                Err(e) => Err(GatherError::Value(e)),
            }
        },
        None => {
            if is_array {
                match val.into_array(resource_instance) {
                    Ok(arr) => Ok(arr),
                    Err(e) => Err(GatherError::Value(e)),
                }
            } else if resource_instance != 0 {
                Err(GatherError::NonZeroInstance(resource_id))
            } else {
                Ok(val)
            }
        },
    }
}

/// Values gathered by resource name.
pub type NamedValues = Vec<(String, Value)>;

/// No two entries of `m` have the same name.
pub open spec fn names_unique(m: Seq<(String, Value)>) -> bool {
    forall|i: int, j: int| 0 <= i < j < m.len() ==> m[i].0@ != m[j].0@
}

/// Whether `m` has an entry named `name`.
pub open spec fn has_name(m: Seq<(String, Value)>, name: Seq<char>) -> bool {
    exists|i: int| 0 <= i < m.len() && m[i].0@ == name
}

/// `i` is the first position of an entry named `name` in `m`.
pub open spec fn name_position(m: Seq<(String, Value)>, name: Seq<char>, i: int) -> bool {
    &&& 0 <= i < m.len()
    &&& m[i].0@ == name
    &&& forall|j: int| 0 <= j < i ==> m[j].0@ != name
}

/// The first position of an entry named `name` in `m`, if there is one.
fn find_name(m: &NamedValues, name: &str) -> (r: Option<usize>)
    ensures
        match r {
            Some(i) => name_position(m@, name@, i as int),
            None => !has_name(m@, name@),
        },
{
    let mut i: usize = 0;
    while i < m.len()
        invariant
            i <= m@.len(),
            forall|j: int| 0 <= j < i ==> m@[j].0@ != name@,
        decreases m@.len() - i,
    {
        if str_eq(m[i].0.as_str(), name) {
            return Some(i);
        }
        i += 1;
    }
    None
}

/// The gathered value that `r` reports for the entry `new` of the map, or
/// its error.
pub open spec fn entry_result(r: Result<(), GatherError>, new: Value) -> Result<Value, GatherError> {
    match r {
        Ok(_) => Ok(new),
        Err(e) => Err(e),
    }
}

/// Gathers the value `val`, read from instance `resource_instance` of
/// resource `resource_id` named `name`, into the values gathered so far by
/// name. An entry of that name is extended; else one is added at the end.
/// On error the map is unchanged.
pub fn gather_named(
    map: &mut NamedValues,
    name: &str,
    is_array: bool,
    resource_id: usize,
    resource_instance: usize,
    val: Value,
) -> (r: Result<(), GatherError>)
    requires
        resource_instance < usize::MAX,
    ensures
        r is Err ==> final(map)@ == old(map)@,
        has_name(old(map)@, name@) ==> exists|i: int|
            {
                &&& name_position(old(map)@, name@, i)
                &&& gather_outcome(
                    Some(old(map)@[i].1),
                    is_array,
                    resource_id,
                    resource_instance,
                    val,
                    entry_result(r, final(map)@[i].1),
                )
                &&& r is Ok ==> final(map)@ == old(map)@.update(i, (old(map)@[i].0, final(map)@[i].1))
            },
        !has_name(old(map)@, name@) ==> {
            &&& gather_outcome(
                None,
                is_array,
                resource_id,
                resource_instance,
                val,
                entry_result(r, final(map)@.last().1),
            )
            &&& r is Ok ==> final(map)@ == old(map)@.push(final(map)@.last())
            &&& r is Ok ==> final(map)@.last().0@ == name@
        },
        names_unique(old(map)@) ==> names_unique(final(map)@),
{
    match find_name(map, name) {
        Some(i) => {
            if !is_array {
                return Err(GatherError::MultipleNonArrayInstances);
            }
            let ghost old_map = map@;
            let (key, mut arr) = map.remove(i);
            let res = arr.add_to_array(resource_instance, val);
            map.insert(i, (key, arr));
            proof {
                assert(map@ =~= old_map.update(i as int, (old_map[i as int].0, map@[i as int].1)));
            }
            match res {
                Ok(()) => Ok(()),
                Err(e) => {
                    proof {
                        assert(map@ =~= old_map);
                    }
                    Err(GatherError::Value(e))
                },
            }
        },
        None => {
            let v = gather_instance(None, is_array, resource_id, resource_instance, val)?;
            map.push((name.to_owned(), v));
            Ok(())
        },
    }
}

/// An object type as named in a device listing: one of the endpoint's
/// object ids (by position), or an unknown name kept as it is, so that
/// objects with unsupported types can still be read.
#[derive(Debug)]
pub enum ObjectTypeMaybe {
    Parsed(usize),
    Unknown(String),
}

impl ObjectTypeMaybe {
    /// The object type named `name` among the object ids `object_ids`.
    pub fn from_name(name: String, object_ids: &Vec<String>) -> (r: Self)
        ensures
            match r {
                ObjectTypeMaybe::Parsed(i) => first_position(views(object_ids@), name@, i as int),
                ObjectTypeMaybe::Unknown(s) => s == name && !known_object_id(
                    views(object_ids@),
                    name@,
                ),
            },
    {
        match find_object_id(object_ids, name.as_str()) {
            Some(i) => ObjectTypeMaybe::Parsed(i),
            None => ObjectTypeMaybe::Unknown(name),
        }
    }
}

} // verus!
