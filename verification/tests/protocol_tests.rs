use gardena_bnw::endpoint::{
    gather_instance, gather_named, instance_access, instances_to_list, read_only_access,
    resolve_target, resource_access, GatherError, InstanceAccess, ObjectTypeMaybe, RequestError,
    RequestTarget, ResourceAccess, RouteError,
};
use gardena_bnw::protocol::{
    any_request_big, include_message, response_payload, single_response, ConsumerError, Entity,
    EntityKind, Message, Method, ObjectsPayload, Payload, PayloadWithUrn, Payloads, ReplySequence,
    Request,
};
use gardena_bnw::value::{Timestamp, Value, ValueData, ValueError};

fn ids() -> Vec<String> {
    vec!["device".to_string(), "connectivity_monitoring".to_string(), "lemonbeat".to_string()]
}

#[test]
fn serialize_include_message() {
    let msg = include_message("lwm2mserver", "42");
    assert_eq!(msg.operation, Method::Execute);
    let entity = msg.entity.unwrap();
    assert_eq!(entity.path, "includable_device/42/include");
    match entity.kind {
        EntityKind::Gateway { service } => assert_eq!(service, "lwm2mserver"),
        other => panic!("unexpected {other:?}"),
    }
    assert!(msg.metadata.is_none());
    assert!(msg.success.is_none());
}

#[test]
fn method_none_and_default() {
    assert!(Method::Unset.is_none());
    assert!(!Method::Read.is_none());
    assert_eq!(Method::default(), Method::Unset);
}

fn string_payload(s: &str) -> ObjectsPayload {
    ObjectsPayload::Single(PayloadWithUrn {
        data: Payload::Value(Value::new(ValueData::String(Some(s.to_string())), None)),
        urn: None,
    })
}

#[test]
fn unsuccessful_response_reports_its_string() {
    let response = Message {
        operation: Method::Unset,
        entity: None,
        payload: string_payload("no such device"),
        metadata: None,
        success: Some(false),
    };
    match response_payload(response) {
        Err(ConsumerError::UnsuccessfulResponse(reason)) => assert_eq!(reason, "no such device"),
        Ok(_) => panic!("expected an error"),
    }
    let absent = Message {
        operation: Method::Unset,
        entity: None,
        payload: ObjectsPayload::Absent,
        metadata: None,
        success: None,
    };
    match response_payload(absent) {
        Err(ConsumerError::UnsuccessfulResponse(reason)) => assert_eq!(reason, ""),
        Ok(_) => panic!("expected an error"),
    }
    let ok = Message {
        operation: Method::Unset,
        entity: None,
        payload: ObjectsPayload::Absent,
        metadata: None,
        success: Some(true),
    };
    assert!(response_payload(ok).unwrap().is_none());
    assert_eq!(string_payload("x").get_single_string(), Some("x"));
}

fn request(payload: Option<Payload>) -> Request {
    Request {
        op: Method::Write,
        entity: Entity {
            path: "device/0".to_string(),
            kind: EntityKind::Device { device: "d".to_string() },
        },
        payload,
    }
}

#[test]
fn big_requests() {
    let small = request(Some(Payload::Value(Value::new(ValueData::Opaque(vec![1; 10]), None))));
    let big = request(Some(Payload::Values(vec![(
        "blob".to_string(),
        Value::new(ValueData::Opaque(vec![1; 200]), None),
    )])));
    assert!(!small.is_big());
    assert!(big.is_big());
    assert!(!any_request_big(&vec![small, request(None)]));
    assert!(any_request_big(&vec![request(None), big]));
}

#[test]
fn reply_sequence_wraps() {
    let mut seq = ReplySequence::new();
    assert_eq!(seq.take(), 0);
    assert_eq!(seq.take(), 1);
}

#[test]
fn single_response_counts() {
    assert_eq!(single_response(vec![7]).unwrap(), 7);
    assert_eq!(single_response(Vec::<u8>::new()).err().map(|e| e.0), Some(0));
    assert_eq!(single_response(vec![1, 2]).err().map(|e| e.0), Some(2));
}

#[test]
fn routes_of_request_paths() {
    let ids = ids();
    assert!(matches!(resolve_target("", &ids), Ok(RequestTarget::Endpoint)));
    assert!(matches!(
        resolve_target("lemonbeat", &ids),
        Ok(RequestTarget::ObjectType { object_type: 2 })
    ));
    assert!(matches!(
        resolve_target("device/3", &ids),
        Ok(RequestTarget::ObjectInstance { object_type: 0, object_instance: 3 })
    ));
    match resolve_target("device/0/manufacturer", &ids) {
        Ok(RequestTarget::Resource { object_type, object_instance, resource_name, resource_instance }) => {
            assert_eq!((object_type, object_instance, resource_instance), (0, 0, 0));
            assert_eq!(resource_name, "manufacturer");
        }
        other => panic!("unexpected {other:?}"),
    }
    match resolve_target("connectivity_monitoring/1/cell_id/+12", &ids) {
        Ok(RequestTarget::Resource { object_type, object_instance, resource_instance, .. }) => {
            assert_eq!((object_type, object_instance, resource_instance), (1, 1, 12));
        }
        other => panic!("unexpected {other:?}"),
    }
    match resolve_target("mower/0", &ids) {
        Err(RouteError::UnsupportedObjectId(s)) => assert_eq!(s, "mower"),
        other => panic!("unexpected {other:?}"),
    }
    match resolve_target("device/x/name", &ids) {
        Err(RouteError::InvalidObjectInstance(s)) => assert_eq!(s, "x"),
        other => panic!("unexpected {other:?}"),
    }
    match resolve_target("device/0/name/-1", &ids) {
        Err(RouteError::InvalidResourceInstance(s)) => assert_eq!(s, "-1"),
        other => panic!("unexpected {other:?}"),
    }
    assert!(matches!(resolve_target("device/0/name/1/2", &ids), Err(RouteError::TooManySegments)));
}

#[test]
fn what_requests_ask() {
    assert!(matches!(resource_access(Method::Read, None), Ok(ResourceAccess::Read)));
    assert!(matches!(
        resource_access(Method::Write, None),
        Err(RequestError::NoValueProvided)
    ));
    assert!(matches!(
        resource_access(Method::Write, Some(Payload::Values(vec![]))),
        Err(RequestError::MultipleValuesForResourceWrite)
    ));
    let args = Payload::Value(Value::new(
        ValueData::StringArray(vec![Some("a".to_string()), None, Some("b".to_string())]),
        None,
    ));
    match resource_access(Method::Execute, Some(args)) {
        Ok(ResourceAccess::Execute(Some(a))) => assert_eq!(a, vec!["a".to_string(), "b".to_string()]),
        other => panic!("unexpected {other:?}"),
    }
    assert!(matches!(
        resource_access(Method::Execute, None),
        Ok(ResourceAccess::Execute(None))
    ));
    assert!(matches!(
        resource_access(Method::Execute, Some(Payload::Values(vec![]))),
        Err(RequestError::ExecuteMultipleValues)
    ));
    assert!(matches!(
        resource_access(Method::Delete, None),
        Err(RequestError::UnsupportedMethod(Method::Delete))
    ));
    assert!(matches!(
        instance_access(Method::Write, Some(Payload::Values(vec![]))),
        Ok(InstanceAccess::PartialWrite(_))
    ));
    assert!(matches!(
        instance_access(Method::Write, None),
        Err(RequestError::PartialWriteWithoutPayload)
    ));
    assert!(matches!(
        instance_access(Method::Write, Some(Payload::Value(Value::new(ValueData::Boolean(None), None)))),
        Err(RequestError::PartialWriteSingleValue)
    ));
    assert!(read_only_access(Method::Read).is_ok());
    assert!(matches!(
        read_only_access(Method::Update),
        Err(RequestError::UnsupportedMethod(Method::Update))
    ));
}

#[test]
fn listed_instances_are_those_of_the_requested_type() {
    let list = vec![(0, 0), (1, 0), (0, 1), (2, 5)];
    assert_eq!(instances_to_list(&list, 0), vec![0, 1]);
    assert_eq!(instances_to_list(&list, 2), vec![5]);
    assert!(instances_to_list(&list, 3).is_empty());
}

#[test]
fn gathering_resource_values() {
    let v = |s: &str| Value::new(ValueData::String(Some(s.to_string())), None);
    // a non-array resource: instance 0 only, once
    let single = gather_instance(None, false, 7, 0, v("a")).unwrap();
    assert!(matches!(
        gather_instance(Some(single), false, 7, 0, v("b")),
        Err(GatherError::MultipleNonArrayInstances)
    ));
    assert!(matches!(
        gather_instance(None, false, 7, 1, v("a")),
        Err(GatherError::NonZeroInstance(7))
    ));
    // an array resource collects its instances
    let arr = gather_instance(None, true, 7, 1, v("a")).unwrap();
    let arr = gather_instance(Some(arr), true, 7, 0, v("b")).unwrap();
    match &arr.data {
        ValueData::StringArray(a) => {
            assert_eq!(a, &vec![Some("b".to_string()), Some("a".to_string())])
        }
        other => panic!("unexpected {other:?}"),
    }
    assert!(matches!(
        gather_instance(Some(arr), true, 7, 1, v("c")),
        Err(GatherError::Value(ValueError::IndexExists(1)))
    ));

    let mut named = Vec::new();
    gather_named(&mut named, "name", false, 1, 0, v("x")).unwrap();
    gather_named(&mut named, "list", true, 2, 0, v("y")).unwrap();
    gather_named(&mut named, "list", true, 2, 1, v("z")).unwrap();
    assert_eq!(named.len(), 2);
    assert_eq!(named[0].0, "name");
    assert_eq!(named[1].0, "list");
    assert!(gather_named(&mut named, "name", false, 1, 0, v("w")).is_err());
    assert_eq!(named.len(), 2);
    let t = Value::new(ValueData::Time(Timestamp::from_secs(1)), None);
    assert!(gather_named(&mut named, "time", false, 3, 2, t).is_err());
    assert_eq!(named.len(), 2);
}

#[test]
fn object_types_by_name() {
    let ids = ids();
    assert!(matches!(
        ObjectTypeMaybe::from_name("lemonbeat".to_string(), &ids),
        ObjectTypeMaybe::Parsed(2)
    ));
    match ObjectTypeMaybe::from_name("sg_common".to_string(), &ids) {
        ObjectTypeMaybe::Unknown(s) => assert_eq!(s, "sg_common"),
        other => panic!("unexpected {other:?}"),
    }
}
