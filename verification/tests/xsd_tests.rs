use gardena_bnw::objgen::{
    escapestr, ident_text, DefinitionError, IdentCase, Lwm2m, Mandatory, MultipleInstances,
    Object, Operations, ResourceItem, Resources, Type,
};
use gardena_bnw::xsd::{
    convert_fieldname, type_xsd2rust, Attribute, Choice, ComplexType, ComplexTypeInner, Element,
    Extension, Occurs, Sequence, SimpleContent, Use, Xsd,
};

fn element(name: &str, type_: Option<&str>, ct: Option<ComplexType>) -> Element {
    Element {
        name: name.to_string(),
        min_occurs: Occurs::Number(1),
        max_occurs: Occurs::Number(1),
        type_: type_.map(str::to_string),
        complex_type: ct,
    }
}

fn ct(name: Option<&str>, sequences: Vec<Sequence>, choices: Vec<Choice>) -> ComplexType {
    ComplexType {
        name: name.map(str::to_string),
        attributes: vec![],
        sequences,
        choices,
        simple_contents: vec![],
        content_type_: None,
    }
}

fn seq(elements: Vec<Element>, choices: Vec<Choice>) -> Sequence {
    Sequence { min_occurs: Occurs::Number(1), max_occurs: Occurs::Number(1), elements, choices }
}

fn choice(elements: Vec<Element>, sequences: Vec<Sequence>) -> Choice {
    Choice { min_occurs: Occurs::Number(1), max_occurs: Occurs::Number(1), elements, sequences }
}

#[test]
fn builtin_types_and_field_names() {
    assert_eq!(type_xsd2rust("xs:unsignedInt").unwrap(), "u32");
    assert_eq!(type_xsd2rust("xs:hexBinary").unwrap(), "String");
    assert!(type_xsd2rust("xs:date").is_err());
    assert_eq!(convert_fieldname("virtual"), "virtual_");
    assert_eq!(convert_fieldname("device_id"), "device_id");
    assert_eq!(Occurs::default(), Occurs::Number(1));
    assert_eq!(Occurs::parse("unbounded").unwrap(), Occurs::Unbounded);
    assert_eq!(Occurs::parse("12").unwrap(), Occurs::Number(12));
    assert_eq!(Occurs::parse("many").err().map(|e| e.0), Some("many".to_string()));
}

#[test]
fn normalization_lifts_folds_and_unwraps() {
    // network > device (in place) > value (in place)
    let value_ct = ct(None, vec![seq(vec![element("number", Some("xs:int"), None)], vec![])], vec![]);
    let device_ct = ct(
        None,
        vec![seq(vec![element("value", None, Some(value_ct))], vec![])],
        vec![],
    );
    let network_ct = ct(
        None,
        vec![],
        vec![choice(vec![], vec![seq(vec![element("device", None, Some(device_ct))], vec![])])],
    );
    let text_ct = ComplexType {
        name: Some("textType".to_string()),
        attributes: vec![Attribute {
            name: "id".to_string(),
            type_: "xs:unsignedInt".to_string(),
            use_: Use::Required,
        }],
        sequences: vec![],
        choices: vec![],
        simple_contents: vec![SimpleContent {
            extension: Extension {
                base: "xs:string".to_string(),
                attributes: vec![Attribute {
                    name: "lang".to_string(),
                    type_: "xs:string".to_string(),
                    use_: Use::Optional,
                }],
            },
        }],
        content_type_: None,
    };
    let xsd = Xsd {
        target_namespace: "urn:x".to_string(),
        xmlns: "urn:x".to_string(),
        xmlns_xs: "http://www.w3.org/2001/XMLSchema".to_string(),
        element_form_default: "qualified".to_string(),
        complex_types: vec![text_ct],
        element: element("network", None, Some(network_ct)),
    };
    assert!(xsd.is_normalizable());
    let n = xsd.normalize();
    assert_eq!(n.element.type_.as_deref(), Some("networkType"));
    assert!(n.element.complex_type.is_none());
    let names: Vec<_> = n.complex_types.iter().map(|c| c.name.clone().unwrap()).collect();
    assert_eq!(names, vec!["textType", "networkType", "deviceType", "valueType"]);
    // the simple content is folded into its type
    let text = &n.complex_types[0];
    assert!(text.simple_contents.is_empty());
    assert_eq!(text.content_type_.as_deref(), Some("xs:string"));
    assert_eq!(text.attributes.len(), 2);
    assert_eq!(text.attributes[0].name, "id");
    assert_eq!(text.attributes[1].name, "lang");
    // the choice that only wrapped one sequence is gone
    let network = &n.complex_types[1];
    assert!(network.choices.is_empty());
    match network.inner() {
        Some(ComplexTypeInner::Sequence(s)) => {
            assert_eq!(s.elements[0].type_.as_deref(), Some("deviceType"));
            assert!(s.elements[0].complex_type.is_none());
        }
        _ => panic!("expected a sequence"),
    }
}

#[test]
fn lifted_types_come_in_document_order() {
    // a sequence with an element in place and a choice holding another,
    // each holding one more type in place
    let inner = |n: &str| ct(None, vec![seq(vec![element(n, Some("xs:int"), None)], vec![])], vec![]);
    let a_ct = ct(None, vec![seq(vec![element("a1", None, Some(inner("x")))], vec![])], vec![]);
    let b_ct = ct(None, vec![seq(vec![element("b1", None, Some(inner("y")))], vec![])], vec![]);
    let root_ct = ct(
        None,
        vec![seq(
            vec![element("a", None, Some(a_ct))],
            vec![choice(vec![element("b", None, Some(b_ct))], vec![])],
        )],
        vec![],
    );
    let xsd = Xsd {
        target_namespace: "urn:x".to_string(),
        xmlns: "urn:x".to_string(),
        xmlns_xs: "http://www.w3.org/2001/XMLSchema".to_string(),
        element_form_default: "qualified".to_string(),
        complex_types: vec![],
        element: element("root", None, Some(root_ct)),
    };
    let n = xsd.normalize();
    let names: Vec<_> = n.complex_types.iter().map(|c| c.name.clone().unwrap()).collect();
    assert_eq!(names, vec!["rootType", "aType", "bType", "a1Type", "b1Type"]);
    assert!(n.complex_types.iter().all(|c| c.attributes.is_empty() && c.content_type_.is_none()));
}

#[test]
fn schemas_that_cannot_be_normalized() {
    let bad = Xsd {
        target_namespace: String::new(),
        xmlns: String::new(),
        xmlns_xs: String::new(),
        element_form_default: String::new(),
        complex_types: vec![ct(Some("twoType"), vec![seq(vec![], vec![])], vec![choice(vec![], vec![])])],
        element: element("root", Some("rootType"), None),
    };
    assert!(!bad.is_normalizable());
}

fn object(object_type: &str, version: &str) -> Object {
    Object {
        object_type: object_type.to_string(),
        name: "Connectivity Monitoring".to_string(),
        description1: String::new(),
        description2: String::new(),
        id: 4,
        urn: "urn:oma:lwm2m:oma:4:1.2".to_string(),
        lwm2m_version: version.to_string(),
        version: "1.2".to_string(),
        multiple_instances: MultipleInstances::Single,
        mandatory: Mandatory::Optional,
        resources: Resources {
            items: vec![ResourceItem {
                id: 0,
                name: "Network Bearer".to_string(),
                operations: Operations::ReadOnly,
                multiple_instances: MultipleInstances::Single,
                mandatory: Mandatory::Mandatory,
                resource_type: Type::Integer,
                range_enumeration: String::new(),
                units: String::new(),
                description: String::new(),
            }],
        },
    }
}

fn definition(objects: Vec<Object>) -> Lwm2m {
    Lwm2m {
        xmlns_xsi: "http://www.w3.org/2001/XMLSchema-instance".to_string(),
        no_ns_schema_location: "http://openmobilealliance.org/tech/profiles/LWM2M.xsd".to_string(),
        objects,
    }
}

#[test]
fn object_definitions() {
    let o = definition(vec![object("MODefinition", "1.1")]).into_object().unwrap();
    assert_eq!(o.urn(), "urn:oma:lwm2m:oma:4:1.2");
    assert_eq!(o.strid(), "connectivity_monitoring");
    assert_eq!(o.resources.items[0].rust_type(), "i64");
    assert!(matches!(
        definition(vec![]).into_object(),
        Err(DefinitionError::InvalidNumberOfObjects(0))
    ));
    assert!(matches!(
        definition(vec![object("Other", "1.1")]).into_object(),
        Err(DefinitionError::UnsupportedObjectType(_))
    ));
    assert!(matches!(
        definition(vec![object("MODefinition", "2.0")]).into_object(),
        Err(DefinitionError::UnsupportedLwm2mVersion(_))
    ));
    let mut wrong = definition(vec![object("MODefinition", "1.0")]);
    wrong.no_ns_schema_location = "LWM2M.xsd".to_string();
    assert!(matches!(wrong.into_object(), Err(DefinitionError::UnsupportedSchemaLocation(_))));
    let mut wrong = definition(vec![object("MODefinition", "1.0")]);
    wrong.xmlns_xsi = "x".to_string();
    assert!(matches!(wrong.into_object(), Err(DefinitionError::UnsupportedXmlnsXsi(_))));
}

#[test]
fn identifier_texts() {
    assert_eq!(escapestr("Min/Max (Value)"), "MinMax Value");
    assert_eq!(escapestr("2G Bearer"), "num2G Bearer");
    assert_eq!(escapestr("TYPE"), "type_escaped");
    assert_eq!(ident_text("Radio Signal Strength", IdentCase::Snake), "radio_signal_strength");
    assert_eq!(ident_text("Radio Signal Strength", IdentCase::UpperSnake), "RADIO_SIGNAL_STRENGTH");
    assert_eq!(ident_text("radio signal strength", IdentCase::Pascal), "RadioSignalStrength");
}
