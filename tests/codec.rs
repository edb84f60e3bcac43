use xml_schema_derive::{
    builtin_type, decode_choice, encode_choice, literal_of, parse_literal, Primitive, TypeRef,
    XsdContext, XsdError,
};

fn strings(v: &[&str]) -> Vec<String> {
    v.iter().map(|s| s.to_string()).collect()
}

fn children(v: &[(&str, &str)]) -> Vec<(String, String)> {
    v.iter().map(|(n, c)| (n.to_string(), c.to_string())).collect()
}

#[test]
fn complex_type_sequence_choice() {
    let names = strings(&["Cat", "Dog"]);
    let input = children(&[("Cat", "AAA"), ("Dog", "BBB"), ("Cat", "CCC")]);
    let lists = decode_choice(&names, &input);
    assert_eq!(lists, vec![strings(&["AAA", "CCC"]), strings(&["BBB"])]);
    let output = encode_choice(&names, &lists);
    assert_eq!(output, children(&[("Cat", "AAA"), ("Cat", "CCC"), ("Dog", "BBB")]));
}

#[test]
fn choice_groups_by_declared_order() {
    let names = strings(&["A", "B"]);
    let input = children(&[("A", "1"), ("B", "2"), ("A", "3")]);
    let lists = decode_choice(&names, &input);
    assert_eq!(lists[0].len(), 2);
    assert_eq!(lists[1].len(), 1);
    assert_eq!(encode_choice(&names, &lists), children(&[("A", "1"), ("A", "3"), ("B", "2")]));
    assert_eq!(decode_choice(&names, &encode_choice(&names, &lists)), lists);
}

#[test]
fn choice_of_nothing() {
    let names = strings(&["A", "B"]);
    let lists = decode_choice(&names, &vec![]);
    assert_eq!(lists, vec![Vec::<String>::new(), Vec::new()]);
    assert!(encode_choice(&names, &lists).is_empty());
}

#[test]
fn enumeration_round_trip() {
    let values = strings(&["AAA", "BBB"]);
    assert_eq!(parse_literal(&values, "AAA"), Ok(1));
    assert_eq!(parse_literal(&values, "BBB"), Ok(2));
    assert_eq!(parse_literal(&values, "CCC"), Err(XsdError::InvalidValue("CCC".to_string())));
    assert_eq!(literal_of(&values, 1), "AAA");
    assert_eq!(literal_of(&values, 2), "BBB");
}

#[test]
fn builtin_lookup() {
    let context = XsdContext::new(Some("xs".to_string()));
    assert_eq!(context.lookup("xs:string"), Ok(TypeRef::Primitive(Primitive::Text)));
    assert_eq!(context.lookup("xs:boolean"), Ok(TypeRef::Primitive(Primitive::Boolean)));
    assert_eq!(context.lookup("xs:unsignedInt"), Ok(TypeRef::Primitive(Primitive::U32)));
    assert_eq!(context.lookup("xs:long"), Ok(TypeRef::Primitive(Primitive::I64)));
    assert_eq!(context.lookup("xs:bogus"), Err(XsdError::UnknownType("xs:bogus".to_string())));
    assert_eq!(context.lookup("string"), Err(XsdError::UnknownType("string".to_string())));
    assert_eq!(builtin_type("unsignedShort"), Some(Primitive::U16));
    assert_eq!(builtin_type("nope"), None);
    assert_eq!(Primitive::U32.rust_name(), "u32");
}

#[test]
fn default_namespace_lookup() {
    let context = XsdContext::new(None);
    assert_eq!(context.lookup("string"), Ok(TypeRef::Primitive(Primitive::Text)));
}

#[test]
fn registration_is_idempotent() {
    let mut context = XsdContext::new(Some("xs".to_string()));
    assert_eq!(context.register("item".to_string(), "Item".to_string()), Ok(()));
    assert_eq!(context.register("item".to_string(), "Item".to_string()), Ok(()));
    assert_eq!(context.user_types.len(), 1);
    assert_eq!(
        context.register("item".to_string(), "Other".to_string()),
        Err(XsdError::ConflictingRegistration("item".to_string()))
    );
    assert_eq!(context.lookup("ns:item"), Ok(TypeRef::User("Item".to_string())));
}

#[test]
fn context_from_namespace_bindings() {
    let bindings = vec![
        (None, "urn:example".to_string()),
        (Some("xsd".to_string()), "http://www.w3.org/2001/XMLSchema".to_string()),
    ];
    let context = XsdContext::from_namespaces(&bindings).unwrap();
    assert_eq!(context.xsd_prefix, Some("xsd".to_string()));
    assert_eq!(context.lookup("xsd:int"), Ok(TypeRef::Primitive(Primitive::I32)));
    let none = vec![(Some("a".to_string()), "urn:a".to_string())];
    assert_eq!(
        XsdContext::from_namespaces(&none).err(),
        Some(XsdError::SchemaParseError("http://www.w3.org/2001/XMLSchema".to_string()))
    );
}
