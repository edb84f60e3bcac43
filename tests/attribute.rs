use xml_schema_derive::{
    Attribute, Cardinality, FieldDef, List, Required, Restriction, Enumeration, Role, SimpleType,
    TypeBody, TypeDef, TypeRef, Primitive, XsdContext, XsdError,
};

fn context() -> XsdContext {
    XsdContext::new(Some("xs".to_string()))
}

fn attribute_field(name: &str, wire: Option<&str>, type_ref: TypeRef, cardinality: Cardinality) -> FieldDef {
    FieldDef {
        name: name.to_string(),
        wire_name: wire.map(|w| w.to_string()),
        type_ref,
        cardinality,
        role: Role::Attribute,
    }
}

#[test]
fn default_required() {
    assert_eq!(Required::default(), Required::Optional);
}

#[test]
fn string_attribute() {
    let attribute = Attribute {
        name: Some("language".to_string()),
        kind: Some("xs:string".to_string()),
        reference: None,
        required: Required::Required,
        simple_type: None,
    };
    let implementation = attribute.implement(&context()).unwrap();
    assert_eq!(
        implementation,
        vec![attribute_field("language", None, TypeRef::Primitive(Primitive::Text), Cardinality::Scalar)]
    );
}

#[test]
fn optional_string_attribute() {
    let attribute = Attribute {
        name: Some("language".to_string()),
        kind: Some("xs:string".to_string()),
        reference: None,
        required: Required::Optional,
        simple_type: None,
    };
    let implementation = attribute.implement(&context()).unwrap();
    assert_eq!(
        implementation,
        vec![attribute_field("language", None, TypeRef::Primitive(Primitive::Text), Cardinality::Optional)]
    );
}

#[test]
fn type_attribute() {
    let attribute = Attribute {
        name: Some("type".to_string()),
        kind: Some("xs:string".to_string()),
        reference: None,
        required: Required::Optional,
        simple_type: None,
    };
    let implementation = attribute.implement(&context()).unwrap();
    assert_eq!(
        implementation,
        vec![attribute_field("kind", Some("type"), TypeRef::Primitive(Primitive::Text), Cardinality::Optional)]
    );
}

#[test]
fn reference_type_attribute() {
    let attribute = Attribute {
        name: Some("type".to_string()),
        kind: None,
        reference: Some("MyType".to_string()),
        required: Required::Optional,
        simple_type: None,
    };
    let mut context = context();
    context.register("MyType".to_string(), "MyType".to_string()).unwrap();
    let implementation = attribute.implement(&context).unwrap();
    assert_eq!(
        implementation,
        vec![attribute_field("kind", Some("type"), TypeRef::User("MyType".to_string()), Cardinality::Optional)]
    );
}

#[test]
fn bad_type_attribute_is_an_error() {
    let attribute = Attribute {
        name: Some("type".to_string()),
        kind: None,
        reference: None,
        required: Required::Optional,
        simple_type: None,
    };
    let result = attribute.implement(&context());
    assert_eq!(result, Err(XsdError::UnimplementedConstruct("attribute".to_string())));
}

#[test]
fn attribute_without_name() {
    let attribute = Attribute {
        name: None,
        kind: Some("xs:string".to_string()),
        reference: None,
        required: Required::Optional,
        simple_type: None,
    };
    let implementation = attribute.implement(&context()).unwrap();
    assert!(implementation.is_empty());
}

#[test]
fn unknown_attribute_type() {
    let attribute = Attribute {
        name: Some("size".to_string()),
        kind: Some("xs:nothing".to_string()),
        reference: None,
        required: Required::Required,
        simple_type: None,
    };
    let result = attribute.implement(&context());
    assert_eq!(result, Err(XsdError::UnknownType("xs:nothing".to_string())));
}

#[test]
fn list_attribute_is_never_optional() {
    let attribute = Attribute {
        name: Some("values".to_string()),
        kind: None,
        reference: None,
        required: Required::Optional,
        simple_type: Some(SimpleType {
            name: String::new(),
            restriction: None,
            list: Some(List { item_type: "xs:unsignedInt".to_string() }),
            union: None,
        }),
    };
    let ctx = context();
    let implementation = attribute.implement(&ctx).unwrap();
    assert_eq!(
        implementation,
        vec![attribute_field("values", None, TypeRef::User("Values".to_string()), Cardinality::Scalar)]
    );
    let sub_types = attribute.get_sub_type_implementation(&ctx).unwrap();
    assert_eq!(
        sub_types,
        vec![TypeDef {
            name: "Values".to_string(),
            nested: true,
            body: TypeBody::List(TypeRef::Primitive(Primitive::U32)),
        }]
    );
}

#[test]
fn inline_enumeration_attribute() {
    let attribute = Attribute {
        name: Some("colorMode".to_string()),
        kind: None,
        reference: None,
        required: Required::Required,
        simple_type: Some(SimpleType {
            name: String::new(),
            restriction: Some(Restriction {
                base: Some("xs:string".to_string()),
                enumerations: vec![
                    Enumeration { value: "AAA".to_string() },
                    Enumeration { value: "BBB".to_string() },
                ],
            }),
            list: None,
            union: None,
        }),
    };
    let ctx = context();
    let implementation = attribute.implement(&ctx).unwrap();
    assert_eq!(
        implementation,
        vec![attribute_field("color_mode", Some("colorMode"), TypeRef::Primitive(Primitive::Text), Cardinality::Scalar)]
    );
    let sub_types = attribute.get_sub_type_implementation(&ctx).unwrap();
    assert_eq!(
        sub_types,
        vec![TypeDef {
            name: "ColorMode".to_string(),
            nested: true,
            body: TypeBody::Enumeration(vec!["AAA".to_string(), "BBB".to_string()]),
        }]
    );
    assert_eq!(attribute.get_name(), Some("color_mode".to_string()));
    assert_eq!(attribute.get_raw_name(), Some("colorMode".to_string()));
}
