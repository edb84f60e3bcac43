use vstd::prelude::*;

verus! {

/// Whether an attribute must be present (`use="required"`).
#[derive(Clone, Copy, Debug, PartialEq, Eq, Structural)]
pub enum Required {
    Optional,
    Required,
}

impl Default for Required {
    fn default() -> (r: Required)
        ensures
            r == Required::Optional,
    {
        Required::Optional
    }
}

/// The upper occurrence bound of an element or a choice.
#[derive(Clone, Copy, Debug, PartialEq, Eq, Structural)]
pub enum MaxOccurences {
    Unbounded,
    Number { value: u64 },
}

/// An `xs:enumeration` facet: one literal value.
#[derive(Debug, PartialEq)]
pub struct Enumeration {
    pub value: String,
}

/// An `xs:restriction` of a base type, with its enumeration facets.
#[derive(Debug, PartialEq)]
pub struct Restriction {
    pub base: Option<String>,
    pub enumerations: Vec<Enumeration>,
}

/// An `xs:list`: whitespace-separated values of an item type.
#[derive(Debug, PartialEq)]
pub struct List {
    pub item_type: String,
}

/// An `xs:union` of member types.
#[derive(Debug, PartialEq)]
pub struct Union {
    pub member_types: String,
}

/// An `xs:simpleType`: a restriction, a list or a union.
#[derive(Debug, PartialEq)]
pub struct SimpleType {
    pub name: String,
    pub restriction: Option<Restriction>,
    pub list: Option<List>,
    pub union: Option<Union>,
}

/// An `xs:attribute`.
#[derive(Debug, PartialEq)]
pub struct Attribute {
    pub name: Option<String>,
    /// The `type` reference.
    pub kind: Option<String>,
    /// The `use` marker.
    pub required: Required,
    /// The `ref` reference.
    pub reference: Option<String>,
    pub simple_type: Option<SimpleType>,
}

/// An `xs:attributeGroup`.
#[derive(Debug, PartialEq)]
pub struct AttributeGroup {
    pub name: Option<String>,
    pub reference: String,
    pub attributes: Vec<Attribute>,
}

/// An `xs:element`, with its occurrence bounds.
#[derive(Debug, PartialEq)]
pub struct Element {
    pub name: String,
    /// The `type` reference.
    pub kind: Option<String>,
    pub min_occurences: Option<u64>,
    pub max_occurences: Option<MaxOccurences>,
    pub simple_type: Option<SimpleType>,
}

/// An `xs:sequence` of elements.
#[derive(Debug, PartialEq)]
pub struct Sequence {
    pub elements: Vec<Element>,
}

/// An `xs:choice` among elements, with its occurrence bounds.
#[derive(Debug, PartialEq)]
pub struct Choice {
    pub id: Option<String>,
    pub attributes: Vec<Attribute>,
    pub min_occurences: Option<u64>,
    pub max_occurences: Option<MaxOccurences>,
    pub elements: Vec<Element>,
}

/// An `xs:group`: a named sequence, or a reference to one.
#[derive(Debug, PartialEq)]
pub struct Group {
    pub name: Option<String>,
    pub reference: Option<String>,
    pub sequence: Option<Sequence>,
}

/// An `xs:extension` of a base type.
#[derive(Debug, PartialEq)]
pub struct Extension {
    pub base: String,
    pub attributes: Vec<Attribute>,
    pub sequences: Vec<Sequence>,
    pub group: Option<Group>,
    pub choices: Vec<Choice>,
}

/// An `xs:complexContent`, holding an extension.
#[derive(Debug, PartialEq)]
pub struct ComplexContent {
    pub extension: Option<Extension>,
}

/// An `xs:import` of another schema.
#[derive(Debug, PartialEq)]
pub struct Import {
    pub id: Option<String>,
    pub namespace: Option<String>,
    pub schema_location: Option<String>,
}

} // verus!
