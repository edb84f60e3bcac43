use xml_schema_derive::{
    AttributeGroup, Attribute, Cardinality, Choice, ComplexType, Element, Enumeration, Extension, FieldDef, Group,
    List, MaxOccurences, Primitive, Required, Restriction, Role, Schema, Sequence, SimpleType,
    TypeBody, TypeDef, TypeRef, Union, XsdContext, XsdError,
};

fn element(name: &str, kind: &str) -> Element {
    Element {
        name: name.to_string(),
        kind: Some(kind.to_string()),
        min_occurences: None,
        max_occurences: None,
        simple_type: None,
    }
}

fn complex(name: &str) -> ComplexType {
    ComplexType {
        name: name.to_string(),
        sequence: None,
        choice: None,
        complex_content: None,
        simple_content: None,
        attributes: vec![],
        attribute_groups: vec![],
    }
}

fn schema() -> Schema {
    Schema {
        xsd_prefix: Some("xs".to_string()),
        elements: vec![],
        simple_types: vec![],
        complex_types: vec![],
        groups: vec![],
        attribute_groups: vec![],
        imports: vec![],
    }
}

#[test]
fn forward_references_resolve() {
    let mut s = schema();
    let mut list = complex("complex-list-of-elements");
    list.sequence = Some(Sequence {
        elements: vec![
            Element { min_occurences: Some(0), ..element("Annotation", "xs:string") },
            element("Label", "xs:string"),
            element("Item", "item-type"),
        ],
    });
    s.complex_types.push(list);
    s.complex_types.push(complex("item-type"));
    let compiled = s.compile().unwrap();
    assert_eq!(compiled.types.len(), 2);
    assert_eq!(compiled.types[0].name, "ComplexListOfElements");
    match &compiled.types[0].body {
        TypeBody::Record(fields) => {
            assert_eq!(fields.len(), 3);
            assert_eq!(fields[0].name, "annotation");
            assert_eq!(fields[0].wire_name, Some("Annotation".to_string()));
            assert_eq!(fields[0].cardinality, Cardinality::Optional);
            assert_eq!(fields[1].cardinality, Cardinality::Scalar);
            assert_eq!(fields[2].type_ref, TypeRef::User("ItemType".to_string()));
        },
        other => panic!("unexpected body {:?}", other),
    }
    assert_eq!(compiled.types[1], TypeDef { name: "ItemType".to_string(), nested: false, body: TypeBody::Record(vec![]) });
    assert_eq!(
        compiled.names,
        vec![
            ("ComplexListOfElements".to_string(), "complex-list-of-elements".to_string()),
            ("ItemType".to_string(), "item-type".to_string()),
        ]
    );
}

#[test]
fn unresolved_group_reference_fails_compilation() {
    let mut s = schema();
    let mut t = complex("holder");
    t.complex_content = Some(xml_schema_derive::ComplexContent {
        extension: Some(Extension {
            base: "xs:string".to_string(),
            attributes: vec![],
            sequences: vec![],
            group: Some(Group { name: None, reference: Some("missing".to_string()), sequence: None }),
            choices: vec![],
        }),
    });
    s.complex_types.push(t);
    assert_eq!(s.compile(), Err(XsdError::UnresolvedReference("missing".to_string())));
}

#[test]
fn unknown_type_fails_compilation() {
    let mut s = schema();
    let mut t = complex("holder");
    t.sequence = Some(Sequence { elements: vec![element("x", "nowhere")] });
    s.complex_types.push(t);
    assert_eq!(s.compile(), Err(XsdError::UnknownType("nowhere".to_string())));
}

#[test]
fn simple_types_and_groups() {
    let mut s = schema();
    s.simple_types.push(SimpleType {
        name: "color".to_string(),
        restriction: Some(Restriction {
            base: Some("xs:string".to_string()),
            enumerations: vec![Enumeration { value: "AAA".to_string() }, Enumeration { value: "BBB".to_string() }],
        }),
        list: None,
        union: None,
    });
    s.simple_types.push(SimpleType {
        name: "free-text".to_string(),
        restriction: Some(Restriction { base: Some("xs:string".to_string()), enumerations: vec![] }),
        list: None,
        union: None,
    });
    s.simple_types.push(SimpleType {
        name: "numbers".to_string(),
        restriction: None,
        list: Some(List { item_type: "xs:unsignedInt".to_string() }),
        union: None,
    });
    s.groups.push(Group {
        name: Some("pair".to_string()),
        reference: None,
        sequence: Some(Sequence { elements: vec![element("first", "color")] }),
    });
    let compiled = s.compile().unwrap();
    assert_eq!(
        compiled.types,
        vec![
            TypeDef {
                name: "Color".to_string(),
                nested: false,
                body: TypeBody::Enumeration(vec!["AAA".to_string(), "BBB".to_string()]),
            },
            TypeDef {
                name: "FreeText".to_string(),
                nested: false,
                body: TypeBody::Record(vec![FieldDef {
                    name: "content".to_string(),
                    wire_name: None,
                    type_ref: TypeRef::Primitive(Primitive::Text),
                    cardinality: Cardinality::Scalar,
                    role: Role::Text,
                }]),
            },
            TypeDef {
                name: "Numbers".to_string(),
                nested: false,
                body: TypeBody::List(TypeRef::Primitive(Primitive::U32)),
            },
            TypeDef {
                name: "Pair".to_string(),
                nested: false,
                body: TypeBody::Record(vec![FieldDef {
                    name: "first".to_string(),
                    wire_name: None,
                    type_ref: TypeRef::User("Color".to_string()),
                    cardinality: Cardinality::Scalar,
                    role: Role::Element,
                }]),
            },
        ]
    );
}

#[test]
fn union_is_not_supported() {
    let st = SimpleType {
        name: "either".to_string(),
        restriction: None,
        list: None,
        union: Some(Union { member_types: "xs:int xs:string".to_string() }),
    };
    let context = XsdContext::new(Some("xs".to_string()));
    assert_eq!(st.implement(&context), Err(XsdError::UnimplementedConstruct("simpleType".to_string())));
}

#[test]
fn restriction_of_non_string_is_not_supported() {
    let r = Restriction { base: Some("xs:int".to_string()), enumerations: vec![] };
    let context = XsdContext::new(Some("xs".to_string()));
    assert_eq!(r.implement_childs(&context, "Small"), Err(XsdError::UnimplementedConstruct("restriction".to_string())));
    assert_eq!(r.get_type_implementation(&context), Ok(TypeRef::Primitive(Primitive::I32)));
}

#[test]
fn choice_and_attributes_in_complex_type() {
    let mut s = schema();
    let mut animals = complex("Animals");
    animals.choice = Some(Choice {
        id: None,
        attributes: vec![],
        min_occurences: None,
        max_occurences: Some(MaxOccurences::Unbounded),
        elements: vec![element("Cat", "Cat"), element("Dog", "Dog")],
    });
    animals.attributes.push(Attribute {
        name: Some("zoo".to_string()),
        kind: Some("xs:string".to_string()),
        reference: None,
        required: Required::Optional,
        simple_type: None,
    });
    s.complex_types.push(animals);
    s.complex_types.push(complex("Cat"));
    s.complex_types.push(complex("Dog"));
    let compiled = s.compile().unwrap();
    match &compiled.types[0].body {
        TypeBody::Record(fields) => {
            let names: Vec<&str> = fields.iter().map(|f| f.name.as_str()).collect();
            assert_eq!(names, vec!["cat_list", "dog_list", "zoo"]);
            assert_eq!(fields[0].cardinality, Cardinality::Collection);
            assert_eq!(fields[2].role, Role::Attribute);
            assert_eq!(fields[2].cardinality, Cardinality::Optional);
        },
        other => panic!("unexpected body {:?}", other),
    }
}

#[test]
fn inline_simple_type_of_element_is_nested() {
    let e = Element {
        name: "size".to_string(),
        kind: None,
        min_occurences: None,
        max_occurences: None,
        simple_type: Some(SimpleType {
            name: String::new(),
            restriction: None,
            list: Some(List { item_type: "xs:int".to_string() }),
            union: None,
        }),
    };
    let context = XsdContext::new(Some("xs".to_string()));
    let field = e.get_field_implementation(&context, false, false).unwrap();
    assert_eq!(field.type_ref, TypeRef::User("Size".to_string()));
    let defs = e.get_subtypes_implementation(&context).unwrap();
    assert_eq!(
        defs,
        vec![TypeDef { name: "Size".to_string(), nested: true, body: TypeBody::List(TypeRef::Primitive(Primitive::I32)) }]
    );
    assert!(!context.is_in_sub_module);
}

#[test]
fn top_level_elements_and_name_collisions() {
    let mut s = schema();
    s.complex_types.push(complex("Item"));
    s.elements.push(element("Item", "Item"));
    s.elements.push(element("note", "xs:string"));
    let compiled = s.compile().unwrap();
    assert_eq!(
        compiled.types,
        vec![
            TypeDef { name: "Item".to_string(), nested: false, body: TypeBody::Record(vec![]) },
            TypeDef {
                name: "Note".to_string(),
                nested: false,
                body: TypeBody::Record(vec![FieldDef {
                    name: "content".to_string(),
                    wire_name: None,
                    type_ref: TypeRef::Primitive(Primitive::Text),
                    cardinality: Cardinality::Scalar,
                    role: Role::Text,
                }]),
            },
        ]
    );
}

#[test]
fn choice_elements_get_records() {
    let mut context = XsdContext::new(Some("xs".to_string()));
    context.register("CatType".to_string(), "CatType".to_string()).unwrap();
    let choice = Choice {
        id: None,
        attributes: vec![],
        min_occurences: None,
        max_occurences: None,
        elements: vec![element("Cat", "CatType"), element("Dog", "xs:string")],
    };
    let defs = choice.implement(&context).unwrap();
    assert_eq!(defs.len(), 2);
    assert_eq!(defs[0].name, "Cat");
    match &defs[0].body {
        TypeBody::Record(fields) => {
            assert_eq!(fields[0].role, Role::Flatten);
            assert_eq!(fields[0].type_ref, TypeRef::User("CatType".to_string()));
        },
        other => panic!("unexpected body {:?}", other),
    }
    assert_eq!(defs[1].name, "Dog");
}

#[test]
fn attribute_group_references() {
    let mut s = schema();
    s.attribute_groups.push(AttributeGroup {
        name: Some("common".to_string()),
        reference: String::new(),
        attributes: vec![Attribute {
            name: Some("id".to_string()),
            kind: Some("xs:ID".to_string()),
            reference: None,
            required: Required::Required,
            simple_type: None,
        }],
    });
    let mut t = complex("thing");
    t.attribute_groups.push(AttributeGroup { name: None, reference: "tns:common".to_string(), attributes: vec![] });
    s.complex_types.push(t);
    let compiled = s.compile().unwrap();
    match &compiled.types[0].body {
        TypeBody::Record(fields) => {
            assert_eq!(fields.len(), 1);
            assert_eq!(fields[0].name, "id");
            assert_eq!(fields[0].role, Role::Attribute);
            assert_eq!(fields[0].cardinality, Cardinality::Scalar);
        },
        other => panic!("unexpected body {:?}", other),
    }
    s.complex_types[0].attribute_groups[0].reference = "tns:absent".to_string();
    assert_eq!(s.compile(), Err(XsdError::UnresolvedReference("tns:absent".to_string())));
}
