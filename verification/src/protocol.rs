//! The BNW IPC protocol: messages, entities, payloads and their helpers.

use crate::value::{spec_value_is_big, Value, ValueData};
use vstd::prelude::*;

verus! {

/// IPC method.
#[derive(Clone, Copy, Debug, PartialEq, Eq, Structural)]
pub enum Method {
    /// No method (`none`).
    Unset,
    Read,
    Write,
    Execute,
    Update,
    Overwrite,
    Delete,
}

impl Method {
    /// Whether this is the absent method.
    pub fn is_none(&self) -> (r: bool)
        ensures
            r == (*self == Method::Unset),
    {
        *self == Method::Unset
    }
}

impl Default for Method {
    fn default() -> (m: Self)
        ensures
            m == Method::Unset,
    {
        Method::Unset
    }
}

/// The destination (or source) of a message.
#[derive(Debug)]
pub enum EntityKind {
    Gateway {
        /// name of the service to talk to
        service: String,
    },
    Device {
        /// GARDENA device
        device: String,
    },
}

/// An entity: a service or device and a resource path on it.
#[derive(Debug)]
pub struct Entity {
    /// resource of the device
    pub path: String,
    /// destination service
    pub kind: EntityKind,
}

/// Metadata of an event.
#[derive(Debug)]
pub struct Metadata {
    pub source: String,
    pub sequence: u64,
}

/// Named values, as the entries of a JSON object.
pub type ValueMap = Vec<(String, Value)>;

/// The payload of a request.
#[derive(Debug)]
pub enum Payload {
    Value(Value),
    Values(ValueMap),
    MultiResourceValues(Vec<(String, ValueMap)>),
}

/// Some value of `m` is big.
pub open spec fn map_has_big(m: Seq<(String, Value)>) -> bool {
    exists|i: int| 0 <= i < m.len() && spec_value_is_big(#[trigger] m[i].1)
}

/// Whether a payload holds a value too big to be logged.
pub open spec fn spec_payload_is_big(p: Payload) -> bool {
    match p {
        Payload::Value(v) => spec_value_is_big(v),
        Payload::Values(m) => map_has_big(m@),
        Payload::MultiResourceValues(ms) => exists|i: int|
            0 <= i < ms@.len() && map_has_big(#[trigger] ms@[i].1@),
    }
}

/// Whether some value of `values` is big.
fn values_have_big(values: &ValueMap) -> (r: bool)
    ensures
        r == map_has_big(values@),
{
    let mut i: usize = 0;
    while i < values.len()
        invariant
            i <= values@.len(),
            forall|j: int| 0 <= j < i ==> !spec_value_is_big(#[trigger] values@[j].1),
        decreases values@.len() - i,
    {
        if values[i].1.is_big() {
            return true;
        }
        i += 1;
    }
    false
}

/// Whether some value of some map of `maps` is big.
fn maps_have_big(maps: &Vec<(String, ValueMap)>) -> (r: bool)
    ensures
        r == exists|i: int| 0 <= i < maps@.len() && map_has_big(#[trigger] maps@[i].1@),
{
    let mut i: usize = 0;
    while i < maps.len()
        invariant
            i <= maps@.len(),
            forall|j: int| 0 <= j < i ==> !map_has_big(#[trigger] maps@[j].1@),
        decreases maps@.len() - i,
    {
        if values_have_big(&maps[i].1) {
            assert(map_has_big(maps@[i as int].1@));
            return true;
        }
        i += 1;
    }
    false
}

impl Payload {
    /// Whether the payload holds a value too big to be logged.
    pub fn is_big(&self) -> (r: bool)
        ensures
            r == spec_payload_is_big(*self),
    {
        match self {
            Payload::Value(value) => value.is_big(),
            Payload::Values(values) => values_have_big(values),
            Payload::MultiResourceValues(values) => maps_have_big(values),
        }
    }
}

/// Request that can be sent via IPC/LWM2M Req socket.
#[derive(Debug)]
pub struct Request {
    /// action to execute or that was executed
    pub op: Method,
    /// entity the action is performed on.
    ///
    /// Destination for requests, source for events.
    pub entity: Entity,
    pub payload: Option<Payload>,
}

/// Whether the request holds a value too big to be logged.
pub open spec fn spec_request_is_big(r: Request) -> bool {
    r.payload matches Some(p) && spec_payload_is_big(p)
}

impl Request {
    /// Whether the request holds a value too big to be logged.
    pub fn is_big(&self) -> (r: bool)
        ensures
            r == spec_request_is_big(*self),
    {
        match &self.payload {
            Some(p) => p.is_big(),
            None => false,
        }
    }
}

/// Where a message came from.
#[derive(Debug)]
pub enum Source {
    Source(String),
    ErrorSource(String),
}

/// Metadata of a message.
#[derive(Debug)]
pub struct OwnedMetadata {
    pub source: Source,
    pub sequence: Option<u64>,
}

/// A payload and the URN of the object it belongs to.
#[derive(Debug)]
pub struct PayloadWithUrn {
    pub data: Payload,
    pub urn: Option<String>,
}

/// What a message can carry as payload.
pub trait Payloads: Sized {
    /// The payload is absent.
    spec fn spec_is_none(&self) -> bool;

    /// The single string that the payload consists of, if it is one.
    spec fn spec_single_string(&self) -> Option<Seq<char>>;

    /// Whether the payload is absent.
    fn is_none(&self) -> (r: bool)
        ensures
            r == self.spec_is_none(),
    ;

    /// The single string that the payload consists of, if it is one.
    fn get_single_string(&self) -> (r: Option<&str>)
        ensures
            match self.spec_single_string() {
                Some(s) => r matches Some(t) && t@ == s,
                None => r is None,
            },
    ;
}

/// The payload of a message about objects.
#[derive(Debug)]
pub enum ObjectsPayload {
    /// No payload.
    Absent,
    Single(PayloadWithUrn),
    Multi(Vec<(String, PayloadWithUrn)>),
}

impl Payloads for ObjectsPayload {
    open spec fn spec_is_none(&self) -> bool {
        *self is Absent
    }

    open spec fn spec_single_string(&self) -> Option<Seq<char>> {
        match *self {
            ObjectsPayload::Single(
                PayloadWithUrn { data: Payload::Value(Value { data: ValueData::String(Some(s)), .. }), .. },
            ) => Some(s@),
            _ => None,
        }
    }

    fn is_none(&self) -> (r: bool) {
        match self {
            ObjectsPayload::Absent => true,
            _ => false,
        }
    }

    fn get_single_string(&self) -> (r: Option<&str>) {
        match self {
            ObjectsPayload::Single(
                PayloadWithUrn { data: Payload::Value(Value { data: ValueData::String(Some(s)), .. }), .. },
            ) => Some(s.as_str()),
            _ => None,
        }
    }
}

/// The payload of a message about several devices.
#[derive(Debug)]
pub struct DevicesPayload(pub Vec<(String, Vec<(String, PayloadWithUrn)>)>);

impl Payloads for DevicesPayload {
    open spec fn spec_is_none(&self) -> bool {
        false
    }

    open spec fn spec_single_string(&self) -> Option<Seq<char>> {
        None
    }

    fn is_none(&self) -> (r: bool) {
        false
    }

    fn get_single_string(&self) -> (r: Option<&str>) {
        None
    }
}

impl Payloads for () {
    open spec fn spec_is_none(&self) -> bool {
        true
    }

    open spec fn spec_single_string(&self) -> Option<Seq<char>> {
        None
    }

    fn is_none(&self) -> (r: bool) {
        true
    }

    fn get_single_string(&self) -> (r: Option<&str>) {
        None
    }
}

/// A message as exchanged through IPC.
#[derive(Debug)]
pub struct Message<T: Payloads> {
    pub operation: Method,
    pub entity: Option<Entity>,
    pub payload: T,
    pub metadata: Option<OwnedMetadata>,
    pub success: Option<bool>,
}

/// Why a request to a BNW service failed.
#[derive(Debug)]
pub enum ConsumerError {
    /// "Unsuccessful response: {0}"
    UnsuccessfulResponse(String),
}

/// The name of the includable-device object.
pub const INCLUDABLE_DEVICE_PATH: &'static str = "includable_device";

/// The path of the `include` resource of includable device `id`.
pub open spec fn include_path(id: Seq<char>) -> Seq<char> {
    INCLUDABLE_DEVICE_PATH@ + seq!['/'] + id + "/include"@
}

/// The message that asks service `service_name` to include the includable
/// device `includable_device_id`.
pub fn include_message(service_name: &str, includable_device_id: &str) -> (m: Message<()>)
    ensures
        m.operation == Method::Execute,
        m.entity matches Some(e) && e.path@ == include_path(includable_device_id@) && (
        e.kind matches EntityKind::Gateway { service } && service@ == service_name@),
        m.metadata is None,
        m.success is None,
{
    let mut path = String::new();
    path.push_str(INCLUDABLE_DEVICE_PATH);
    path.push('/');
    path.push_str(includable_device_id);
    path.push_str("/include");
    proof {
        reveal_strlit("/include");
        reveal_strlit("includable_device");
        assert(path@ =~= include_path(includable_device_id@));
    }
    Message {
        operation: Method::Execute,
        entity: Some(Entity { path, kind: EntityKind::Gateway { service: service_name.to_owned() } }),
        payload: (),
        metadata: None,
        success: None,
    }
}

/// The payload of a response, or the error it reports: a response that is
/// not marked successful fails with its single string payload as reason
/// (empty if the payload is no single string).
pub fn response_payload<T: Payloads>(response: Message<T>) -> (r: Result<T, ConsumerError>)
    ensures
        response.success == Some(true) ==> r == Ok::<T, ConsumerError>(response.payload),
        response.success != Some(true) ==> (r matches Err(ConsumerError::UnsuccessfulResponse(reason))
            && reason@ == match response.payload.spec_single_string() {
            Some(s) => s,
            None => Seq::<char>::empty(),
        }),
{
    let success = match response.success {
        Some(s) => s,
        None => false,
    };
    if !success {
        let reason = match response.payload.get_single_string() {
            Some(s) => s.to_owned(),
            None => String::new(),
        };
        return Err(ConsumerError::UnsuccessfulResponse(reason));
    }
    Ok(response.payload)
}

/// Whether some request of `requests` holds a value too big to be logged.
pub fn any_request_big(requests: &Vec<Request>) -> (r: bool)
    ensures
        r == exists|i: int| 0 <= i < requests@.len() && spec_request_is_big(#[trigger] requests@[i]),
{
    let mut i: usize = 0;
    while i < requests.len()
        invariant
            i <= requests@.len(),
            forall|j: int| 0 <= j < i ==> !spec_request_is_big(#[trigger] requests@[j]),
        decreases requests@.len() - i,
    {
        if requests[i].is_big() {
            return true;
        }
        i += 1;
    }
    false
}

/// The sequence numbers that a Rep service gives its replies: one per
/// received message, counting from zero and wrapping around.
#[derive(Debug)]
pub struct ReplySequence {
    next: u64,
}

impl ReplySequence {
    /// The number the next reply gets.
    pub closed spec fn next(&self) -> u64 {
        self.next
    }

    /// A counter that starts at zero.
    pub fn new() -> (r: Self)
        ensures
            r.next() == 0,
    {
        ReplySequence { next: 0 }
    }

    /// Take the number for a reply; the next one follows it, wrapping.
    pub fn take(&mut self) -> (r: u64)
        ensures
            r == old(self).next(),
            final(self).next() == (if old(self).next() == u64::MAX {
                0
            } else {
                (old(self).next() + 1) as u64
            }),
    {
        let r = self.next;
        self.next = self.next.wrapping_add(1);
        r
    }
}

/// A number of responses other than one to a single request.
#[derive(Debug)]
pub struct ResponseCountError(pub usize);

/// The only response to a single request; fails with the number of
/// responses where that is not one.
pub fn single_response<T>(responses: Vec<T>) -> (r: Result<T, ResponseCountError>)
    ensures
        responses@.len() == 1 ==> (r matches Ok(x) && x == responses@[0]),
        responses@.len() != 1 ==> (r matches Err(ResponseCountError(n)) && n == responses@.len()),
{
    let mut responses = responses;
    if responses.len() != 1 {
        return Err(ResponseCountError(responses.len()));
    }
    Ok(responses.remove(0))
}

} // verus!
