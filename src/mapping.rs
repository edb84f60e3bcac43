use vstd::prelude::*;
use crate::naming::chars_eq;

verus! {

/// The target scalar types that built-in XSD types map to.
#[derive(Clone, Copy, Debug, PartialEq, Eq, Structural)]
pub enum Primitive {
    Text,
    Boolean,
    I8,
    I16,
    I32,
    I64,
    U8,
    U16,
    U32,
    U64,
    Single,
    Double,
}

/// The fixed table of built-in XSD types, by local name.
pub open spec fn builtin_spec(local: Seq<char>) -> Option<Primitive> {
    if local == "string"@ || local == "normalizedString"@ || local == "token"@
        || local == "anyURI"@ || local == "language"@ || local == "QName"@
        || local == "ID"@ || local == "IDREF"@ || local == "NMTOKEN"@
        || local == "date"@ || local == "dateTime"@ || local == "time"@
        || local == "duration"@ {
        Some(Primitive::Text)
    } else if local == "boolean"@ {
        Some(Primitive::Boolean)
    } else if local == "byte"@ {
        Some(Primitive::I8)
    } else if local == "short"@ {
        Some(Primitive::I16)
    } else if local == "int"@ {
        Some(Primitive::I32)
    } else if local == "long"@ || local == "integer"@ {
        Some(Primitive::I64)
    } else if local == "unsignedByte"@ {
        Some(Primitive::U8)
    } else if local == "unsignedShort"@ {
        Some(Primitive::U16)
    } else if local == "unsignedInt"@ {
        Some(Primitive::U32)
    } else if local == "unsignedLong"@ || local == "positiveInteger"@
        || local == "nonNegativeInteger"@ {
        Some(Primitive::U64)
    } else if local == "float"@ {
        Some(Primitive::Single)
    } else if local == "double"@ || local == "decimal"@ {
        Some(Primitive::Double)
    } else {
        None
    }
}

/// Looks a local name up in the table of built-in XSD types.
pub fn builtin_type(local: &str) -> (r: Option<Primitive>)
    ensures
        r == builtin_spec(local@),
{
    if chars_eq(local, "string") || chars_eq(local, "normalizedString") || chars_eq(local, "token")
        || chars_eq(local, "anyURI") || chars_eq(local, "language") || chars_eq(local, "QName")
        || chars_eq(local, "ID") || chars_eq(local, "IDREF") || chars_eq(local, "NMTOKEN")
        || chars_eq(local, "date") || chars_eq(local, "dateTime") || chars_eq(local, "time")
        || chars_eq(local, "duration") {
        Some(Primitive::Text)
    } else if chars_eq(local, "boolean") {
        Some(Primitive::Boolean)
    } else if chars_eq(local, "byte") {
        Some(Primitive::I8)
    } else if chars_eq(local, "short") {
        Some(Primitive::I16)
    } else if chars_eq(local, "int") {
        Some(Primitive::I32)
    } else if chars_eq(local, "long") || chars_eq(local, "integer") {
        Some(Primitive::I64)
    } else if chars_eq(local, "unsignedByte") {
        Some(Primitive::U8)
    } else if chars_eq(local, "unsignedShort") {
        Some(Primitive::U16)
    } else if chars_eq(local, "unsignedInt") {
        Some(Primitive::U32)
    } else if chars_eq(local, "unsignedLong") || chars_eq(local, "positiveInteger")
        || chars_eq(local, "nonNegativeInteger") {
        Some(Primitive::U64)
    } else if chars_eq(local, "float") {
        Some(Primitive::Single)
    } else if chars_eq(local, "double") || chars_eq(local, "decimal") {
        Some(Primitive::Double)
    } else {
        None
    }
}

/// The name of the target type of each primitive.
pub open spec fn rust_name_spec(p: Primitive) -> Seq<char> {
    match p {
        Primitive::Text => "String"@,
        Primitive::Boolean => "bool"@,
        Primitive::I8 => "i8"@,
        Primitive::I16 => "i16"@,
        Primitive::I32 => "i32"@,
        Primitive::I64 => "i64"@,
        Primitive::U8 => "u8"@,
        Primitive::U16 => "u16"@,
        Primitive::U32 => "u32"@,
        Primitive::U64 => "u64"@,
        Primitive::Single => "f32"@,
        Primitive::Double => "f64"@,
    }
}

impl Primitive {
    /// The name of the target type, as generated code writes it.
    pub fn rust_name(&self) -> (r: &'static str)
        ensures
            r@ == rust_name_spec(*self),
    {
        match self {
            Primitive::Text => "String",
            Primitive::Boolean => "bool",
            Primitive::I8 => "i8",
            Primitive::I16 => "i16",
            Primitive::I32 => "i32",
            Primitive::I64 => "i64",
            Primitive::U8 => "u8",
            Primitive::U16 => "u16",
            Primitive::U32 => "u32",
            Primitive::U64 => "u64",
            Primitive::Single => "f32",
            Primitive::Double => "f64",
        }
    }
}

} // verus!
