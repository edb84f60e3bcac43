use vstd::prelude::*;
use crate::ast::{Attribute, Required};
use crate::context::{ContextView, TypeRefView, XsdContext};
use crate::error::{XsdError, XsdErrorView};
use crate::naming::{chars_eq, field_name_of, mangle_field_name, type_name_of, upper_camel_case_of};
use crate::output::{
    Cardinality, FieldDef, FieldView, Role, TypeDef, TypeDefView, fields_result, fields_view,
    opt_string_view, types_result, types_view,
};
use crate::simple::{simple_def_spec, simple_type_ref_spec};

verus! {

/// The wire name kept beside a field's name: the XSD name, where the two differ.
pub open spec fn wire_name_of(raw: Seq<char>) -> Option<Seq<char>> {
    if field_name_of(raw) == raw {
        None
    } else {
        Some(raw)
    }
}

/// The field name and the wire name for an XSD name.
pub fn field_names(raw: &str) -> (r: (String, Option<String>))
    ensures
        r.0@ == field_name_of(raw@),
        opt_string_view(r.1) == wire_name_of(raw@),
{
    let name = mangle_field_name(raw);
    if chars_eq(name.as_str(), raw) {
        (name, None)
    } else {
        (name, Some(String::from_str(raw)))
    }
}

/// Whether an attribute's type is an inline list type.
pub open spec fn has_list_type(a: Attribute) -> bool {
    a.simple_type matches Some(st) && st.list is Some
}

/// An attribute is optional where `use` says so, unless its type is a list,
/// whose absence is an empty list.
pub open spec fn attribute_cardinality(a: Attribute) -> Cardinality {
    if !has_list_type(a) && a.required == Required::Optional {
        Cardinality::Optional
    } else {
        Cardinality::Scalar
    }
}

/// The type an attribute refers to: by `type`, by `ref`, or its inline
/// simple type, named after the attribute; any other combination is not
/// supported.
pub open spec fn attribute_type_spec(ctx: ContextView, a: Attribute) -> Result<TypeRefView, XsdErrorView> {
    match (a.reference, a.kind, a.simple_type) {
        (None, Some(k), None) => ctx.lookup_spec(k@),
        (Some(r), None, None) => ctx.reference_spec(r@),
        (None, None, Some(st)) => simple_type_ref_spec(
            ctx,
            st,
            match a.name {
                Some(n) => Some(upper_camel_case_of(n@)),
                None => None,
            },
        ),
        _ => Err(XsdErrorView::UnimplementedConstruct("attribute"@)),
    }
}

/// The fields an attribute contributes: none without a name, else one.
pub open spec fn attribute_fields_spec(ctx: ContextView, a: Attribute) -> Result<Seq<FieldView>, XsdErrorView> {
    match a.name {
        None => Ok(Seq::empty()),
        Some(n) => match attribute_type_spec(ctx, a) {
            Ok(t) => Ok(seq![FieldView {
                name: field_name_of(n@),
                wire_name: wire_name_of(n@),
                type_ref: t,
                cardinality: attribute_cardinality(a),
                role: Role::Attribute,
            }]),
            Err(e) => Err(e),
        },
    }
}

/// The name under which an attribute's inline simple type is generated: its
/// own, or else the attribute's field name.
pub open spec fn attribute_sub_type_name(a: Attribute, st_name: Seq<char>) -> Seq<char> {
    if st_name.len() == 0 {
        match a.name {
            Some(n) => field_name_of(n@),
            None => Seq::empty(),
        }
    } else {
        st_name
    }
}

/// The types an attribute contributes: its inline simple type, nested.
pub open spec fn attribute_sub_types_spec(ctx: ContextView, a: Attribute) -> Result<Seq<TypeDefView>, XsdErrorView> {
    match a.simple_type {
        None => Ok(Seq::empty()),
        Some(st) => match simple_def_spec(ctx.with_nested(true), st, attribute_sub_type_name(a, st.name@)) {
            Ok(d) => Ok(seq![d]),
            Err(e) => Err(e),
        },
    }
}

impl Attribute {
    /// The field this attribute contributes (see [`attribute_fields_spec`]).
    pub fn implement(&self, context: &XsdContext) -> (r: Result<Vec<FieldDef>, XsdError>)
        ensures
            fields_result(r) == attribute_fields_spec(context@, *self),
    {
        let raw_name = match &self.name {
            None => {
                let r: Vec<FieldDef> = Vec::new();
                assert(fields_view(r@) =~= Seq::<FieldView>::empty());
                return Ok(r);
            },
            Some(n) => n,
        };
        let rust_type = match (&self.reference, &self.kind, &self.simple_type) {
            (None, Some(kind), None) => context.lookup(kind.as_str()),
            (Some(reference), None, None) => context.resolve_reference(reference.as_str()),
            (None, None, Some(simple_type)) => {
                let struct_name = Some(type_name_of(raw_name.as_str()));
                simple_type.get_type_implementation(context, &struct_name)
            },
            _ => Err(XsdError::UnimplementedConstruct(String::from_str("attribute"))),
        };
        let type_ref = match rust_type {
            Ok(t) => t,
            Err(e) => return Err(e),
        };
        let is_list = match &self.simple_type {
            Some(st) => st.list.is_some(),
            None => false,
        };
        let cardinality = if !is_list && self.required == Required::Optional {
            Cardinality::Optional
        } else {
            Cardinality::Scalar
        };
        let (name, wire_name) = field_names(raw_name.as_str());
        let fields = vec![FieldDef { name, wire_name, type_ref, cardinality, role: Role::Attribute }];
        assert(fields_view(fields@) =~= attribute_fields_spec(context@, *self)->Ok_0);
        Ok(fields)
    }

    /// The types this attribute contributes (see [`attribute_sub_types_spec`]).
    pub fn get_sub_type_implementation(&self, context: &XsdContext) -> (r: Result<Vec<TypeDef>, XsdError>)
        ensures
            types_result(r) == attribute_sub_types_spec(context@, *self),
    {
        let mut nested = context.duplicate();
        nested.set_is_in_sub_module(true);
        match &self.simple_type {
            None => {
                let r: Vec<TypeDef> = Vec::new();
                assert(types_view(r@) =~= Seq::<TypeDefView>::empty());
                Ok(r)
            },
            Some(simple_type) => {
                let d = if simple_type.name.unicode_len() == 0 {
                    let name = match self.get_name() {
                        Some(n) => n,
                        None => String::new(),
                    };
                    simple_type.implement_named(&nested, name.as_str())
                } else {
                    simple_type.implement(&nested)
                };
                match d {
                    Ok(d) => {
                        let r = vec![d];
                        assert(types_view(r@) =~= attribute_sub_types_spec(context@, *self)->Ok_0);
                        Ok(r)
                    },
                    Err(e) => Err(e),
                }
            },
        }
    }

    /// The field name of this attribute, if it has a name.
    pub fn get_name(&self) -> (r: Option<String>)
        ensures
            opt_string_view(r) == (match self.name {
                Some(n) => Some(field_name_of(n@)),
                None => None,
            }),
    {
        match &self.name {
            Some(raw_name) => Some(mangle_field_name(raw_name.as_str())),
            None => None,
        }
    }

    /// The XSD name of this attribute, if it has one.
    pub fn get_raw_name(&self) -> (r: Option<String>)
        ensures
            opt_string_view(r) == opt_string_view(self.name),
    {
        match &self.name {
            Some(name) => Some(name.clone()),
            None => None,
        }
    }
}

} // verus!

verus! {

/// A named attribute whose type resolves gives one field, never a
/// collection; it is optional exactly when `use` is optional and its type is
/// not a list.
pub proof fn lemma_attribute_optionality(ctx: ContextView, a: Attribute)
    requires
        a.name is Some,
        attribute_type_spec(ctx, a) is Ok,
    ensures
        attribute_fields_spec(ctx, a) matches Ok(fs) && fs.len() == 1
            && fs[0].cardinality != Cardinality::Collection
            && (fs[0].cardinality == Cardinality::Optional <==> (a.required == Required::Optional && !has_list_type(a))),
{
}

} // verus!
