use xml_schema_derive::{
    Attribute, Cardinality, ComplexContent, Extension, FieldDef, Group, Primitive, Required, Role,
    TypeRef, XsdContext, XsdError,
};

fn context() -> XsdContext {
    XsdContext::new(Some("xs".to_string()))
}

fn field(name: &str, type_ref: TypeRef, cardinality: Cardinality, role: Role) -> FieldDef {
    FieldDef { name: name.to_string(), wire_name: None, type_ref, cardinality, role }
}

#[test]
fn extension() {
    let st = Extension {
        base: "xs:string".to_string(),
        attributes: vec![],
        sequences: vec![],
        group: None,
        choices: vec![],
    };
    let implementation = st.implement(&context()).unwrap();
    assert_eq!(
        implementation,
        vec![field("base", TypeRef::Primitive(Primitive::Text), Cardinality::Scalar, Role::Text)]
    );
}

#[test]
fn extension_with_attributes() {
    let st = Extension {
        base: "xs:string".to_string(),
        attributes: vec![
            Attribute {
                name: Some("attribute_1".to_string()),
                kind: Some("xs:string".to_string()),
                reference: None,
                required: Required::Required,
                simple_type: None,
            },
            Attribute {
                name: Some("attribute_2".to_string()),
                kind: Some("xs:boolean".to_string()),
                reference: None,
                required: Required::Optional,
                simple_type: None,
            },
        ],
        sequences: vec![],
        group: None,
        choices: vec![],
    };
    let implementation = st.implement(&context()).unwrap();
    assert_eq!(
        implementation,
        vec![
            field("base", TypeRef::Primitive(Primitive::Text), Cardinality::Scalar, Role::Text),
            field("attribute_1", TypeRef::Primitive(Primitive::Text), Cardinality::Scalar, Role::Attribute),
            field("attribute_2", TypeRef::Primitive(Primitive::Boolean), Cardinality::Optional, Role::Attribute),
        ]
    );
}

#[test]
fn extension_of_string_with_language() {
    let st = Extension {
        base: "xs:string".to_string(),
        attributes: vec![Attribute {
            name: Some("language".to_string()),
            kind: Some("xs:string".to_string()),
            reference: None,
            required: Required::Required,
            simple_type: None,
        }],
        sequences: vec![],
        group: None,
        choices: vec![],
    };
    let fields = st.implement(&context()).unwrap();
    assert_eq!(fields.len(), 2);
    assert_eq!(fields[0].name, "base");
    assert_eq!(fields[0].role, Role::Text);
    assert_eq!(fields[1].name, "language");
    assert_eq!(fields[1].role, Role::Attribute);
    assert_eq!(fields[1].cardinality, Cardinality::Scalar);
}

#[test]
fn complex_extension_of_user_type_is_flattened() {
    let mut ctx = context();
    ctx.register("base_type".to_string(), "BaseType".to_string()).unwrap();
    ctx.register("extra".to_string(), "Extra".to_string()).unwrap();
    let content = ComplexContent {
        extension: Some(Extension {
            base: "base_type".to_string(),
            attributes: vec![],
            sequences: vec![],
            group: Some(Group { name: None, reference: Some("tns:extra".to_string()), sequence: None }),
            choices: vec![],
        }),
    };
    let fields = content.get_field_implementation(&ctx).unwrap();
    assert_eq!(
        fields,
        vec![
            field("base", TypeRef::User("BaseType".to_string()), Cardinality::Scalar, Role::Flatten),
            field("extension", TypeRef::User("Extra".to_string()), Cardinality::Scalar, Role::Flatten),
        ]
    );
}

#[test]
fn complex_content_without_extension() {
    let content = ComplexContent { extension: None };
    assert_eq!(
        content.get_field_implementation(&context()),
        Err(XsdError::UnimplementedConstruct("complexContent".to_string()))
    );
}

#[test]
fn extension_of_unknown_base() {
    let st = Extension {
        base: "Missing".to_string(),
        attributes: vec![],
        sequences: vec![],
        group: None,
        choices: vec![],
    };
    assert_eq!(st.implement(&context()), Err(XsdError::UnknownType("Missing".to_string())));
}
