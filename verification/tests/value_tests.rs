use gardena_bnw::encoding::{
    deserialize_base64, deserialize_base64_array, serialize_base64, serialize_base64_array,
};
use gardena_bnw::value::{
    deserialize_opt_systemtime_stamp, deserialize_opt_systemtime_stamp_array,
    deserialize_systemtime_stamp, serialize_opt_systemtime_stamp_array, serialize_systemtime_stamp,
    vec_add_index, vec_new_with_index, Integer, IntegerArray, TimeError, Timestamp, Value,
    ValueData, ValueError, MAX_TIME_SECS,
};

#[test]
fn deserialize_systemtime_stamp_0() {
    assert_eq!(deserialize_systemtime_stamp(0), Timestamp::unix_epoch());
}

#[test]
fn deserialize_systemtime_stamp_i32_max() {
    let secs = i32::MAX as u64;
    assert_eq!(deserialize_systemtime_stamp(secs), Timestamp::from_secs(secs));
}

#[test]
fn deserialize_systemtime_stamp_u32_max() {
    // capped at the largest 32-bit time_t
    assert_eq!(
        deserialize_systemtime_stamp(u32::MAX as u64),
        Timestamp::from_secs(i32::MAX as u64)
    );
}

#[test]
fn opt_timestamps_round_trip_and_limits() {
    assert_eq!(deserialize_opt_systemtime_stamp(None), Ok(None));
    assert_eq!(
        deserialize_opt_systemtime_stamp(Some(1739807546)),
        Ok(Some(Timestamp::from_secs(1739807546)))
    );
    assert_eq!(
        deserialize_opt_systemtime_stamp(Some(MAX_TIME_SECS + 1)),
        Err(TimeError::TooLarge)
    );
    let times = deserialize_opt_systemtime_stamp_array(vec![Some(5), None, Some(7)]).unwrap();
    assert_eq!(serialize_opt_systemtime_stamp_array(&times), vec![Some(5), None, Some(7)]);
    assert!(deserialize_opt_systemtime_stamp_array(vec![None, Some(u64::MAX)]).is_err());
    let t = Timestamp { secs: 12, nanos: 999 };
    assert_eq!(serialize_systemtime_stamp(&t), 12);
}

#[test]
fn vec_add_index_pads_and_refuses_taken_slots() {
    let mut v: Vec<Option<u8>> = vec_new_with_index(2, 7).unwrap();
    assert_eq!(v, vec![None, None, Some(7)]);
    assert_eq!(vec_add_index(&mut v, 0, 1), Ok(()));
    assert_eq!(vec_add_index(&mut v, 4, 9), Ok(()));
    assert_eq!(v, vec![Some(1), None, Some(7), None, Some(9)]);
    assert_eq!(vec_add_index(&mut v, 2, 3), Err(ValueError::IndexExists(2)));
    assert_eq!(v, vec![Some(1), None, Some(7), None, Some(9)]);
}

#[test]
fn into_array_and_add_to_array() {
    let v = Value::new(ValueData::String(Some("a".to_string())), Some(Timestamp::from_secs(10)));
    let mut arr = v.into_array(1).unwrap();
    match &arr.data {
        ValueData::StringArray(a) => assert_eq!(a, &vec![None, Some("a".to_string())]),
        other => panic!("unexpected {other:?}"),
    }
    let older = Value::new(ValueData::String(Some("b".to_string())), Some(Timestamp::from_secs(3)));
    arr.add_to_array(0, older).unwrap();
    match &arr.data {
        ValueData::StringArray(a) => {
            assert_eq!(a, &vec![Some("b".to_string()), Some("a".to_string())])
        }
        other => panic!("unexpected {other:?}"),
    }
    // the array keeps the oldest time
    assert_eq!(arr.time, Some(Timestamp::from_secs(3)));

    // a taken slot is refused and nothing changes
    let again = Value::new(ValueData::String(Some("c".to_string())), None);
    assert_eq!(arr.add_to_array(0, again), Err(ValueError::IndexExists(0)));
    // another kind of value does not fit
    let int = Value::new(ValueData::Integer(Some(Integer::Signed(1))), None);
    assert_eq!(arr.add_to_array(5, int), Err(ValueError::IncompatibleArray));
    match &arr.data {
        ValueData::StringArray(a) => assert_eq!(a.len(), 2),
        other => panic!("unexpected {other:?}"),
    }
}

#[test]
fn into_array_of_integers_and_empty_values() {
    let v = Value::new(ValueData::Integer(Some(Integer::Unsigned(5))), None);
    match v.into_array(0).unwrap().data {
        ValueData::IntegerArray(IntegerArray::Unsigned(a)) => assert_eq!(a, vec![Some(5)]),
        other => panic!("unexpected {other:?}"),
    }
    let empty = Value::new(ValueData::String(None), None);
    assert_eq!(empty.into_array(0).err(), Some(ValueError::NotConvertibleToArray));
}

#[test]
fn big_values() {
    assert!(Value::new(ValueData::Opaque(vec![0; 101]), None).is_big());
    assert!(!Value::new(ValueData::Opaque(vec![0; 100]), None).is_big());
    assert!(!Value::new(ValueData::Boolean(Some(true)), None).is_big());
}

#[test]
fn base64_known_values_and_round_trip() {
    assert_eq!(serialize_base64(b"hello"), "aGVsbG8=");
    assert_eq!(serialize_base64(b"\xFF\xEC\x20\x55\0"), "/+wgVQA=");
    assert_eq!(deserialize_base64("aGVsbG8=").unwrap(), b"hello".to_vec());
    assert!(deserialize_base64("a").is_err());
    let arr = vec![Some(vec![1u8, 2, 3]), None, Some(vec![])];
    let text = serialize_base64_array(&arr);
    assert_eq!(text, vec![Some("AQID".to_string()), None, Some(String::new())]);
    assert_eq!(deserialize_base64_array(text).unwrap(), arr);
    assert!(deserialize_base64_array(vec![Some("!!".to_string())]).is_err());
}
