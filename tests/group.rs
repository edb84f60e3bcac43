use xml_schema_derive::{
    Cardinality, Choice, Element, FieldDef, Group, MaxOccurences, Role, Sequence, TypeBody, TypeDef,
    TypeRef, XsdContext,
};

fn element(name: &str, kind: &str) -> Element {
    Element {
        name: name.to_string(),
        kind: Some(kind.to_string()),
        min_occurences: None,
        max_occurences: None,
        simple_type: None,
    }
}

#[test]
fn check_group_implementation() {
    let group = Group {
        name: Some("groupthing".to_string()),
        reference: None,
        sequence: Some(Sequence { elements: vec![element("CX_X", "asdfg"), element("CY_X", "asdfg")] }),
    };
    let mut context = XsdContext::new(Some("xs".to_string()));
    context.register("asdfg".to_string(), "Asdfg".to_string()).unwrap();
    let implementation = group.implement(&context).unwrap();
    let field = |name: &str, wire: &str| FieldDef {
        name: name.to_string(),
        wire_name: Some(wire.to_string()),
        type_ref: TypeRef::User("Asdfg".to_string()),
        cardinality: Cardinality::Scalar,
        role: Role::Element,
    };
    assert_eq!(
        implementation,
        Some(TypeDef {
            name: "Groupthing".to_string(),
            nested: false,
            body: TypeBody::Record(vec![field("cx_x", "CX_X"), field("cy_x", "CY_X")]),
        })
    );
}

#[test]
fn check_group_ref() {
    let group = Group { name: None, reference: Some("bla:groupthing".to_string()), sequence: None };
    let mut context = XsdContext::new(Some("xs".to_string()));
    context.register("groupthing".to_string(), "Groupthing".to_string()).unwrap();
    let type_implementation = group.get_type_implementation(&context).unwrap();
    assert_eq!(type_implementation.target_name(), "Groupthing");
}

#[test]
fn element_occurrences() {
    let context = XsdContext::new(Some("xs".to_string()));
    let mut e = element("Item", "xs:int");
    assert_eq!(e.get_field_implementation(&context, false, false).unwrap().cardinality, Cardinality::Scalar);
    e.min_occurences = Some(0);
    assert_eq!(e.get_field_implementation(&context, false, false).unwrap().cardinality, Cardinality::Optional);
    e.max_occurences = Some(MaxOccurences::Number { value: 1 });
    assert_eq!(e.get_field_implementation(&context, false, false).unwrap().cardinality, Cardinality::Optional);
    e.max_occurences = Some(MaxOccurences::Number { value: 2 });
    assert_eq!(e.get_field_implementation(&context, false, false).unwrap().cardinality, Cardinality::Collection);
    e.min_occurences = Some(1);
    e.max_occurences = Some(MaxOccurences::Unbounded);
    let f = e.get_field_implementation(&context, false, false).unwrap();
    assert_eq!(f.cardinality, Cardinality::Collection);
    assert_eq!(f.name, "item");
    assert_eq!(f.wire_name, Some("Item".to_string()));
}

#[test]
fn repeated_choice_fields() {
    let mut context = XsdContext::new(Some("xs".to_string()));
    context.register("Cat".to_string(), "Cat".to_string()).unwrap();
    context.register("Dog".to_string(), "Dog".to_string()).unwrap();
    let choice = Choice {
        id: None,
        attributes: vec![],
        min_occurences: None,
        max_occurences: Some(MaxOccurences::Unbounded),
        elements: vec![element("Cat", "Cat"), element("Dog", "Dog")],
    };
    let fields = choice.get_field_implementation(&context).unwrap();
    assert_eq!(fields.len(), 2);
    assert_eq!(fields[0].name, "cat_list");
    assert_eq!(fields[0].wire_name, Some("Cat".to_string()));
    assert_eq!(fields[0].cardinality, Cardinality::Collection);
    assert_eq!(fields[1].name, "dog_list");
    assert_eq!(fields[1].type_ref, TypeRef::User("Dog".to_string()));

    let single = Choice { max_occurences: None, ..choice };
    let fields = single.get_field_implementation(&context).unwrap();
    assert_eq!(fields[0].name, "cat");
    assert_eq!(fields[0].cardinality, Cardinality::Optional);
}
