use gardena_bnw::objgen::{
    JsonShape, Mandatory, MultipleInstances, Object, Operations, ResourceItem, Resources, Type,
};
use gardena_bnw::typegen::{BodyPlan, CodegenError};
use gardena_bnw::xsd::{
    Attribute, Choice, ComplexType, Element, Extension, Occurs, Sequence, SimpleContent, Use,
};

fn resource(
    id: u16,
    name: &str,
    operations: Operations,
    multiple_instances: MultipleInstances,
    mandatory: Mandatory,
) -> ResourceItem {
    ResourceItem {
        id,
        name: name.to_string(),
        operations,
        multiple_instances,
        mandatory,
        resource_type: Type::Integer,
        range_enumeration: String::new(),
        units: String::new(),
        description: String::new(),
    }
}

fn monitoring(items: Vec<ResourceItem>) -> Object {
    Object {
        object_type: "MODefinition".to_string(),
        name: "Connectivity Monitoring".to_string(),
        description1: "Signal [dBm]".to_string(),
        description2: "See [1].".to_string(),
        id: 4,
        urn: "urn:oma:lwm2m:oma:4:1.2".to_string(),
        lwm2m_version: "1.1".to_string(),
        version: "1.2".to_string(),
        multiple_instances: MultipleInstances::Single,
        mandatory: Mandatory::Optional,
        resources: Resources { items },
    }
}

#[test]
fn object_plan_names_and_doc() {
    let plan = monitoring(vec![]).plan();
    assert_eq!(plan.trait_name, "ConnectivityMonitoring");
    assert_eq!(plan.handler_name, "ConnectivityMonitoringHandler");
    assert_eq!(plan.makejson_name, "make_connectivity_monitoring_json");
    assert_eq!(plan.doc, "Signal (dBm)\n\nSee (1).");
    assert!(plan.resources.is_empty());
}

#[test]
fn resource_plans() {
    let plan = monitoring(vec![
        resource(0, "Network Bearer", Operations::ReadOnly, MultipleInstances::Single, Mandatory::Mandatory),
        resource(1, "Link Quality", Operations::ReadWrite, MultipleInstances::Multiple, Mandatory::Optional),
        resource(4, "Reboot", Operations::Execute, MultipleInstances::Single, Mandatory::Optional),
        resource(7, "APN", Operations::WriteOnly, MultipleInstances::Single, Mandatory::Optional),
    ])
    .plan();
    let r = &plan.resources;
    assert_eq!(r.len(), 4);

    assert_eq!(r[0].const_name, "CONNECTIVITY_MONITORING_NETWORK_BEARER");
    assert_eq!(r[0].getter.as_deref(), Some("network_bearer"));
    assert!(r[0].setter.is_none());
    assert!(r[0].execute.is_none());
    assert!(r[0].required);
    assert_eq!(r[0].path_name, "network_bearer");
    assert_eq!(r[0].id, 0);
    assert!(!r[0].is_array);
    assert_eq!(r[0].json, Some(JsonShape::Plain));

    assert_eq!(r[1].setter.as_deref(), Some("set_link_quality"));
    assert!(r[1].is_array);
    assert!(!r[1].required);
    assert_eq!(r[1].json, Some(JsonShape::Array));

    assert!(r[2].getter.is_none());
    assert_eq!(r[2].execute.as_deref(), Some("reboot"));
    assert_eq!(r[2].json, None);

    assert!(r[3].getter.is_none());
    assert_eq!(r[3].setter.as_deref(), Some("set_apn"));
    assert_eq!(r[3].id, 7);
}

#[test]
fn optional_single_resource_is_optional_in_json() {
    let plan = monitoring(vec![resource(
        2,
        "Cell ID",
        Operations::ReadOnly,
        MultipleInstances::Single,
        Mandatory::Optional,
    )])
    .plan();
    assert_eq!(plan.resources[0].json, Some(JsonShape::Optional));
}

fn element(name: &str, type_: Option<&str>) -> Element {
    Element {
        name: name.to_string(),
        min_occurs: Occurs::Number(1),
        max_occurs: Occurs::Unbounded,
        type_: type_.map(str::to_string),
        complex_type: None,
    }
}

fn attribute(name: &str, type_: &str, use_: Use) -> Attribute {
    Attribute { name: name.to_string(), type_: type_.to_string(), use_ }
}

fn complex(name: Option<&str>) -> ComplexType {
    ComplexType {
        name: name.map(str::to_string),
        attributes: vec![],
        sequences: vec![],
        choices: vec![],
        simple_contents: vec![],
        content_type_: None,
    }
}

fn sequence(elements: Vec<Element>, choices: Vec<Choice>) -> Sequence {
    Sequence { min_occurs: Occurs::Number(1), max_occurs: Occurs::Number(1), elements, choices }
}

fn choice(elements: Vec<Element>, sequences: Vec<Sequence>) -> Choice {
    Choice { min_occurs: Occurs::Number(1), max_occurs: Occurs::Number(1), elements, sequences }
}

#[test]
fn type_plan_of_list() {
    let mut ct = complex(Some("networkType"));
    ct.attributes = vec![
        attribute("version", "xs:unsignedInt", Use::Required),
        attribute("virtual", "xs:string", Use::Optional),
    ];
    ct.sequences = vec![sequence(vec![element("device", Some("deviceType"))], vec![])];
    let plan = ct.plan().unwrap();
    assert_eq!(plan.name, "networkType");
    assert_eq!(plan.attributes.len(), 2);
    assert_eq!(plan.attributes[0].field, "version");
    assert_eq!(plan.attributes[0].rust_type, "u32");
    assert!(!plan.attributes[0].optional);
    assert_eq!(plan.attributes[1].field, "virtual_");
    assert_eq!(plan.attributes[1].xml_name, "virtual");
    assert!(plan.attributes[1].optional);
    assert_eq!(plan.subtypes.len(), 1);
    assert_eq!(plan.subtypes[0].xml_name, "device");
    assert_eq!(plan.subtypes[0].rust_type, "deviceType");
    assert!(matches!(&plan.body, BodyPlan::List { element } if element == "device"));
    assert!(plan.has_tags);
    assert!(plan.value_type.is_none());
}

#[test]
fn type_plan_of_choice_and_text() {
    let mut ct = complex(Some("valueType"));
    ct.choices = vec![choice(
        vec![element("number", Some("xs:int")), element("text", Some("xs:string"))],
        vec![],
    )];
    let plan = ct.plan().unwrap();
    match &plan.body {
        BodyPlan::Choice { enum_name, variants } => {
            assert_eq!(enum_name, "valueTypeInner");
            assert_eq!(variants, &vec!["number".to_string(), "text".to_string()]);
        }
        _ => panic!("not a choice"),
    }
    assert_eq!(plan.subtypes[0].rust_type, "i32");
    assert_eq!(plan.subtypes[1].rust_type, "String");

    let mut text = complex(Some("nameType"));
    text.content_type_ = Some("xs:string".to_string());
    let plan = text.plan().unwrap();
    assert!(matches!(plan.body, BodyPlan::Empty));
    assert!(plan.has_tags);
    assert_eq!(plan.value_type, Some("String"));

    let plan = complex(Some("emptyType")).plan().unwrap();
    assert!(!plan.has_tags);
}

#[test]
fn type_plan_errors() {
    assert!(matches!(complex(None).plan(), Err(CodegenError::NoName)));

    let mut ct = complex(Some("a"));
    ct.sequences = vec![sequence(vec![], vec![])];
    ct.choices = vec![choice(vec![], vec![])];
    assert!(matches!(ct.plan(), Err(CodegenError::MixedContent)));

    let mut ct = complex(Some("a"));
    ct.simple_contents = vec![SimpleContent {
        extension: Extension { base: "xs:string".to_string(), attributes: vec![] },
    }];
    assert!(matches!(ct.plan(), Err(CodegenError::SimpleContent)));

    let mut ct = complex(Some("a"));
    ct.sequences = vec![sequence(vec![element("x", None)], vec![])];
    assert!(matches!(ct.plan(), Err(CodegenError::UntypedElement)));

    let mut ct = complex(Some("a"));
    ct.sequences = vec![sequence(vec![element("x", Some("xType"))], vec![choice(vec![], vec![])])];
    assert!(matches!(ct.plan(), Err(CodegenError::SequenceWithChoices)));

    let mut ct = complex(Some("a"));
    ct.sequences = vec![sequence(
        vec![element("x", Some("xType")), element("y", Some("yType"))],
        vec![],
    )];
    assert!(matches!(ct.plan(), Err(CodegenError::SequenceElements(2))));

    let mut ct = complex(Some("a"));
    ct.choices = vec![choice(vec![], vec![sequence(vec![], vec![])])];
    assert!(matches!(ct.plan(), Err(CodegenError::ChoiceWithSequences)));

    let mut ct = complex(Some("a"));
    ct.content_type_ = Some("xs:date".to_string());
    assert!(matches!(ct.plan(), Err(CodegenError::UnsupportedContentType)));

    let mut ct = complex(Some("a"));
    ct.attributes = vec![attribute("when", "xs:date", Use::Required)];
    assert!(matches!(ct.plan(), Err(CodegenError::UnsupportedAttributeType)));
}

#[test]
fn supported_operations_masks() {
    let ops = [
        (Operations::ReadOnly, 1),
        (Operations::WriteOnly, 2),
        (Operations::ReadWrite, 3),
        (Operations::Execute, 4),
        (Operations::Absent, 0),
    ];
    for (op, mask) in ops {
        let r = resource(0, "X", op, MultipleInstances::Single, Mandatory::Mandatory);
        assert_eq!(r.operations_mask(1, 2, 4), mask);
    }
}
