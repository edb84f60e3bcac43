//! Compiles XML Schema (XSD) declarations into type definitions with
//! serialization metadata: the schema model, the resolution context, the
//! field mapper and the generator that walks the model.

pub mod error;
pub mod naming;
pub mod mapping;
pub mod context;
pub mod output;
pub mod ast;
pub mod simple;
pub mod attribute;
pub mod element;
pub mod extension;
pub mod codec;
pub mod schema;

pub use error::{XsdError, XsdErrorView};
pub use naming::{mangle_field_name, type_name_of, chars_eq, split_qname};
pub use mapping::{Primitive, builtin_type};
pub use context::{XsdContext, ContextView, TypeRef, TypeRefView, XSD_NAMESPACE};
pub use output::{Cardinality, Role, FieldDef, FieldView, TypeBody, TypeBodyView, TypeDef, TypeDefView};
pub use ast::{Required, MaxOccurences, Enumeration, Restriction, List, Union, SimpleType, Attribute, AttributeGroup, Element, Sequence, Choice, Group, Extension, ComplexContent, Import};
pub use codec::{parse_literal, literal_of, decode_choice, encode_choice};
pub use schema::{ComplexType, Schema, Compiled};
