use gardena_bnw::task_rpc::{
    extract_method_args, generated_names, parse_args, parse_visibility_str, plan_interface,
    plan_method, root_name, variant_arg_name, ArgError, Literal, MacroArg, MethodAttribute,
    MethodInput, MethodKey, MethodSig, Visibility,
};

fn name_value(name: &str, value: &str) -> MacroArg {
    MacroArg::NameValue {
        name: Some(name.to_string()),
        value: Literal::Str(value.to_string()),
    }
}

#[test]
fn parse_args_all_names() {
    let args = vec![
        name_value("handle_name", "DeviceHandle2"),
        name_value("enum_visibility", "pub"),
        name_value("handle_visibility", "pub(super)"),
        name_value("handlefns_visibility", "pub"),
        name_value("receiver_visibility", "pub(super)"),
    ];
    let parsed = parse_args(&args).unwrap();
    assert_eq!(parsed.handle_name.as_deref(), Some("DeviceHandle2"));
    assert_eq!(parsed.enum_visibility, Some(Visibility::Pub));
    assert_eq!(parsed.handle_visibility, Some(Visibility::PubSuper));
    assert_eq!(parsed.handlefns_visibility, Some(Visibility::Pub));
    assert_eq!(parsed.receiver_visibility, Some(Visibility::PubSuper));
}

#[test]
fn parse_args_empty() {
    let parsed = parse_args(&Vec::new()).unwrap();
    assert!(parsed.handle_name.is_none());
    assert!(parsed.enum_visibility.is_none());
    assert!(parsed.receiver_visibility.is_none());
}

#[test]
fn parse_args_errors() {
    assert!(matches!(parse_args(&vec![MacroArg::Lit]), Err(ArgError::ExpectedMetaArg)));
    assert!(matches!(
        parse_args(&vec![MacroArg::OtherMeta]),
        Err(ArgError::ExpectedNameValueArg)
    ));
    assert!(matches!(
        parse_args(&vec![MacroArg::NameValue { name: None, value: Literal::Other }]),
        Err(ArgError::MissingIdent)
    ));
    assert!(matches!(
        parse_args(&vec![name_value("channel", "x")]),
        Err(ArgError::UnsupportedAttribute)
    ));
    assert!(matches!(
        parse_args(&vec![name_value("handle_name", "A"), name_value("handle_name", "B")]),
        Err(ArgError::DuplicateHandleName)
    ));
    assert!(matches!(
        parse_args(&vec![name_value("enum_visibility", "pub"), name_value("enum_visibility", "pub")]),
        Err(ArgError::DuplicateAttribute)
    ));
    assert!(matches!(
        parse_args(&vec![MacroArg::NameValue {
            name: Some("handle_name".to_string()),
            value: Literal::Other
        }]),
        Err(ArgError::UnsupportedValueType)
    ));
    match parse_args(&vec![name_value("receiver_visibility", "pub(crate)")]) {
        Err(ArgError::UnsupportedVisibility(v)) => assert_eq!(v, "pub(crate)"),
        _ => panic!("visibility accepted"),
    }
}

#[test]
fn parse_args_first_error_wins() {
    let args = vec![name_value("handle_name", "A"), MacroArg::Lit, name_value("x", "y")];
    assert!(matches!(parse_args(&args), Err(ArgError::ExpectedMetaArg)));
}

#[test]
fn visibility_str_keeps_destination_on_error() {
    let mut dest = Some(Visibility::Pub);
    let r = parse_visibility_str(&Literal::Str("pub(super)".to_string()), &mut dest);
    assert!(matches!(r, Err(ArgError::DuplicateAttribute)));
    assert_eq!(dest, Some(Visibility::Pub));
    let mut dest = None;
    assert!(parse_visibility_str(&Literal::Str("pub(super)".to_string()), &mut dest).is_ok());
    assert_eq!(dest, Some(Visibility::PubSuper));
}

#[test]
fn method_args_nowait() {
    let attrs = vec![
        MethodAttribute::Other("doc"),
        MethodAttribute::TaskRpc(Some(vec![MethodKey::NoWait])),
        MethodAttribute::Other("inline"),
    ];
    let (wait, channel, kept) = extract_method_args(attrs).unwrap();
    assert!(!wait);
    assert_eq!(channel, "default");
    assert_eq!(kept, vec!["doc", "inline"]);
}

#[test]
fn method_args_empty_list_waits() {
    let attrs: Vec<MethodAttribute<u8>> = vec![MethodAttribute::TaskRpc(Some(Vec::new()))];
    let (wait, channel, kept) = extract_method_args(attrs).unwrap();
    assert!(wait);
    assert_eq!(channel, "default");
    assert!(kept.is_empty());
}

#[test]
fn method_args_errors() {
    let attrs: Vec<MethodAttribute<u8>> = vec![MethodAttribute::TaskRpc(None)];
    assert!(matches!(extract_method_args(attrs), Err(ArgError::ExpectedMetaList)));
    let attrs: Vec<MethodAttribute<u8>> = vec![
        MethodAttribute::Other(1),
        MethodAttribute::TaskRpc(Some(vec![MethodKey::NoWait, MethodKey::Unsupported])),
    ];
    assert!(matches!(extract_method_args(attrs), Err(ArgError::UnsupportedKey)));
}

#[test]
fn names_of_generated_items() {
    let names = generated_names("Device", None);
    assert_eq!(names.request_enum, "DeviceRequest");
    assert_eq!(names.handle, "DeviceHandle");
    assert_eq!(names.receiver, "DeviceReceiver");
    assert_eq!(names.handle_one_value_ref, "DeviceHandleOneValueRef");
    let names = generated_names("Device", Some("Remote".to_string()));
    assert_eq!(names.handle, "Remote");
}

#[test]
fn request_field_names() {
    assert_eq!(variant_arg_name("value"), "arg_value");
    assert_eq!(variant_arg_name("_value"), "arg_value");
    assert_eq!(variant_arg_name("__value"), "arg__value");
    assert_eq!(variant_arg_name(""), "arg_");
}

fn sig(name: &str, inputs: Vec<MethodInput>) -> MethodSig {
    MethodSig {
        name: name.to_string(),
        is_async: true,
        has_return_type: true,
        inputs,
    }
}

#[test]
fn type_name_is_last_segment() {
    let path = Some(vec!["crate".to_string(), "Device".to_string()]);
    assert_eq!(root_name(&path).unwrap(), "Device");
    assert!(matches!(root_name(&None), Err(ArgError::SelfTypeNotPath)));
    assert!(matches!(root_name(&Some(Vec::new())), Err(ArgError::NoSegments)));
}

#[test]
fn plan_of_waiting_method() {
    let s = sig(
        "set_value",
        vec![
            MethodInput::Receiver,
            MethodInput::Typed(Some("_id".to_string())),
            MethodInput::Typed(Some("value".to_string())),
        ],
    );
    let plan = plan_method(&s, true, "default").unwrap();
    assert_eq!(plan.variant, "set_value");
    assert_eq!(plan.fields, vec!["arg_id".to_string(), "arg_value".to_string()]);
    assert!(plan.response_field);
    assert!(plan.awaits);
    assert!(plan.handle_async);
    assert_eq!(plan.handle_one_fn, "handle_one_set_value_request");
    assert!(plan.remove_one_fn.is_none());
}

#[test]
fn plan_of_nowait_method() {
    let s = sig("notify", vec![MethodInput::Receiver]);
    let plan = plan_method(&s, false, "default").unwrap();
    assert!(plan.fields.is_empty());
    assert!(!plan.response_field);
    assert!(!plan.handle_async);
    assert_eq!(plan.remove_one_fn.as_deref(), Some("remove_one_notify_request"));
}

#[test]
fn plan_method_errors() {
    let mut s = sig("f", vec![MethodInput::Typed(None)]);
    assert!(matches!(plan_method(&s, true, "default"), Err(ArgError::ArgNotIdent)));
    s.has_return_type = false;
    assert!(matches!(plan_method(&s, true, "default"), Err(ArgError::MissingReturnType)));
}

#[test]
fn plan_of_interface() {
    let args = vec![name_value("handle_name", "Remote")];
    let path = Some(vec!["Device".to_string()]);
    let methods = vec![
        (vec![MethodAttribute::Other("doc")], sig("doit", vec![MethodInput::Receiver])),
        (
            vec![MethodAttribute::TaskRpc(Some(vec![MethodKey::NoWait]))],
            sig("doit3", vec![MethodInput::Typed(Some("x".to_string()))]),
        ),
    ];
    let plan = plan_interface(&args, &path, methods).unwrap();
    assert_eq!(plan.names.handle, "Remote");
    assert_eq!(plan.names.request_enum, "DeviceRequest");
    assert_eq!(plan.methods.len(), 2);
    assert_eq!(plan.methods[0].0, vec!["doc"]);
    assert!(plan.methods[0].1.response_field);
    assert!(plan.methods[1].0.is_empty());
    assert!(!plan.methods[1].1.response_field);
    assert_eq!(plan.methods[1].1.fields, vec!["arg_x".to_string()]);
}

#[test]
fn plan_of_interface_errors() {
    let path = Some(vec!["Device".to_string()]);
    let methods: Vec<(Vec<MethodAttribute<u8>>, MethodSig)> = Vec::new();
    assert!(matches!(
        plan_interface(&vec![MacroArg::Lit], &path, methods),
        Err(ArgError::ExpectedMetaArg)
    ));
    let methods: Vec<(Vec<MethodAttribute<u8>>, MethodSig)> = Vec::new();
    assert!(matches!(
        plan_interface(&Vec::new(), &None, methods),
        Err(ArgError::SelfTypeNotPath)
    ));
    let methods: Vec<(Vec<MethodAttribute<u8>>, MethodSig)> = vec![
        (Vec::new(), sig("a", Vec::new())),
        (vec![MethodAttribute::TaskRpc(None)], sig("b", Vec::new())),
        (Vec::new(), sig("c", vec![MethodInput::Typed(None)])),
    ];
    assert!(matches!(
        plan_interface(&Vec::new(), &path, methods),
        Err(ArgError::ExpectedMetaList)
    ));
}

#[test]
fn extra_channels_are_parsed() {
    let parsed = parse_args(&vec![name_value("extra_channels", "a,b")]).unwrap();
    assert_eq!(parsed.extra_channels, Some(vec!["a".to_string(), "b".to_string()]));
    match parse_args(&vec![name_value("extra_channels", "a,default")]) {
        Err(ArgError::InvalidChannel(c)) => assert_eq!(c, "default"),
        _ => panic!("default accepted as extra channel"),
    }
    match parse_args(&vec![name_value("extra_channels", "a,,b")]) {
        Err(ArgError::InvalidChannel(c)) => assert_eq!(c, ""),
        _ => panic!("empty channel accepted"),
    }
    assert!(matches!(
        parse_args(&vec![name_value("extra_channels", "a"), name_value("extra_channels", "b")]),
        Err(ArgError::DuplicateAttribute)
    ));
}

#[test]
fn method_channel_key() {
    let attrs: Vec<MethodAttribute<u8>> = vec![MethodAttribute::TaskRpc(Some(vec![
        MethodKey::Channel(Literal::Str("a".to_string())),
        MethodKey::NoWait,
    ]))];
    let (wait, channel, _) = extract_method_args(attrs).unwrap();
    assert!(!wait);
    assert_eq!(channel, "a");
    let attrs: Vec<MethodAttribute<u8>> =
        vec![MethodAttribute::TaskRpc(Some(vec![MethodKey::Channel(Literal::Other)]))];
    assert!(matches!(extract_method_args(attrs), Err(ArgError::UnsupportedValueType)));
}

#[test]
fn interface_with_extra_channels() {
    let args = vec![name_value("extra_channels", "a,b")];
    let path = Some(vec!["Device".to_string()]);
    let methods: Vec<(Vec<MethodAttribute<u8>>, MethodSig)> = vec![
        (
            vec![MethodAttribute::TaskRpc(Some(vec![MethodKey::Channel(Literal::Str("a".to_string()))]))],
            sig("doit", vec![MethodInput::Receiver]),
        ),
        (Vec::new(), sig("other", vec![MethodInput::Receiver])),
    ];
    let plan = plan_interface(&args, &path, methods).unwrap();
    assert_eq!(plan.methods[0].1.channel, "a");
    assert_eq!(plan.methods[1].1.channel, "default");

    let methods: Vec<(Vec<MethodAttribute<u8>>, MethodSig)> = vec![(
        vec![MethodAttribute::TaskRpc(Some(vec![MethodKey::Channel(Literal::Str("c".to_string()))]))],
        sig("doit", vec![MethodInput::Receiver]),
    )];
    match plan_interface(&args, &path, methods) {
        Err(ArgError::UnknownChannel(c)) => assert_eq!(c, "c"),
        _ => panic!("unknown channel accepted"),
    }
}
