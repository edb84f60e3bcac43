use vstd::prelude::*;
use vstd::string::*;
use crate::ast::{Enumeration, List, Restriction, SimpleType};
use crate::context::{ContextView, TypeRef, TypeRefView, XsdContext};
use crate::error::{XsdError, XsdErrorView};
use crate::mapping::Primitive;
use crate::naming::{type_name_of, upper_camel_case_of};
use crate::output::{
    Cardinality, FieldDef, FieldView, Role, TypeBody, TypeBodyView, TypeDef, TypeDefView,
    fields_view, opt_string_view, strings_view,
};

verus! {

/// The field that holds a record's text content.
pub open spec fn content_field() -> FieldView {
    FieldView {
        name: "content"@,
        wire_name: None,
        type_ref: TypeRefView::Primitive(Primitive::Text),
        cardinality: Cardinality::Scalar,
        role: Role::Text,
    }
}

/// The literal values of a restriction's enumeration facets, in order.
pub open spec fn enum_values(r: Restriction) -> Seq<Seq<char>> {
    r.enumerations@.map_values(|e: Enumeration| e.value@)
}

/// What a field restricted by `r` refers to: its base type.
pub open spec fn restriction_type_spec(ctx: ContextView, r: Restriction) -> Result<TypeRefView, XsdErrorView> {
    match r.base {
        Some(b) => ctx.lookup_spec(b@),
        None => Err(XsdErrorView::UnimplementedConstruct("restriction"@)),
    }
}

/// The type that a restriction named `name` defines. Only string bases are
/// supported: with enumeration facets they give a closed set of literals,
/// without them a record of text content.
pub open spec fn restriction_def_spec(ctx: ContextView, r: Restriction, name: Seq<char>) -> Result<TypeDefView, XsdErrorView> {
    let is_string = match r.base {
        Some(b) => ctx.lookup_spec(b@) == Ok::<TypeRefView, XsdErrorView>(TypeRefView::Primitive(Primitive::Text)),
        None => false,
    };
    if !is_string {
        Err(XsdErrorView::UnimplementedConstruct("restriction"@))
    } else if r.enumerations@.len() > 0 {
        Ok(TypeDefView { name, nested: ctx.nested, body: TypeBodyView::Enumeration(enum_values(r)) })
    } else {
        Ok(TypeDefView { name, nested: ctx.nested, body: TypeBodyView::Record(seq![content_field()]) })
    }
}

/// The type that a list named `name` defines: values of its item type.
pub open spec fn list_def_spec(ctx: ContextView, l: List, name: Seq<char>) -> Result<TypeDefView, XsdErrorView> {
    match ctx.lookup_spec(l.item_type@) {
        Ok(t) => Ok(TypeDefView { name, nested: ctx.nested, body: TypeBodyView::List(t) }),
        Err(e) => Err(e),
    }
}

/// The type that a simple type defines under the XSD name `raw_name`.
pub open spec fn simple_def_spec(ctx: ContextView, st: SimpleType, raw_name: Seq<char>) -> Result<TypeDefView, XsdErrorView> {
    let name = upper_camel_case_of(raw_name);
    match st.list {
        Some(l) => list_def_spec(ctx, l, name),
        None => match st.restriction {
            Some(r) => restriction_def_spec(ctx, r, name),
            None => Err(XsdErrorView::UnimplementedConstruct("simpleType"@)),
        },
    }
}

/// What a field of simple type `st` refers to; a list refers to the type
/// generated for it, named `struct_name`.
pub open spec fn simple_type_ref_spec(ctx: ContextView, st: SimpleType, struct_name: Option<Seq<char>>) -> Result<TypeRefView, XsdErrorView> {
    match (st.restriction, st.list) {
        (Some(r), None) => restriction_type_spec(ctx, r),
        (None, Some(_)) => match struct_name {
            Some(n) => Ok(TypeRefView::User(n)),
            None => Err(XsdErrorView::UnimplementedConstruct("list"@)),
        },
        _ => Err(XsdErrorView::UnimplementedConstruct("simpleType"@)),
    }
}

pub open spec fn def_result(r: Result<TypeDef, XsdError>) -> Result<TypeDefView, XsdErrorView> {
    match r {
        Ok(t) => Ok(t@),
        Err(e) => Err(e@),
    }
}

pub open spec fn ref_result(r: Result<TypeRef, XsdError>) -> Result<TypeRefView, XsdErrorView> {
    match r {
        Ok(t) => Ok(t@),
        Err(e) => Err(e@),
    }
}

fn unimplemented(construct: &str) -> (r: XsdError)
    ensures
        r@ == XsdErrorView::UnimplementedConstruct(construct@),
{
    XsdError::UnimplementedConstruct(String::from_str(construct))
}

impl Restriction {
    /// The literal values of the enumeration facets.
    pub fn enumeration_values(&self) -> (r: Vec<String>)
        ensures
            strings_view(r@) == enum_values(*self),
    {
        let mut r: Vec<String> = Vec::new();
        let mut i: usize = 0;
        while i < self.enumerations.len()
            invariant
                i <= self.enumerations@.len(),
                r@.len() == i,
                forall|j: int| 0 <= j < i ==> r@[j]@ == self.enumerations@[j].value@,
            decreases self.enumerations@.len() - i,
        {
            r.push(self.enumerations[i].value.clone());
            i = i + 1;
        }
        assert(strings_view(r@) =~= enum_values(*self));
        r
    }

    /// The type definition named `struct_name` (see [`restriction_def_spec`]).
    pub fn implement_childs(&self, context: &XsdContext, struct_name: &str) -> (r: Result<TypeDef, XsdError>)
        ensures
            def_result(r) == restriction_def_spec(context@, *self, struct_name@),
    {
        let is_string = match &self.base {
            Some(b) => match context.lookup(b.as_str()) {
                Ok(TypeRef::Primitive(Primitive::Text)) => true,
                _ => false,
            },
            None => false,
        };
        if !is_string {
            return Err(unimplemented("restriction"));
        }
        if self.enumerations.len() > 0 {
            Ok(TypeDef {
                name: String::from_str(struct_name),
                nested: context.is_in_sub_module,
                body: TypeBody::Enumeration(self.enumeration_values()),
            })
        } else {
            let content = FieldDef {
                name: String::from_str("content"),
                wire_name: None,
                type_ref: TypeRef::Primitive(Primitive::Text),
                cardinality: Cardinality::Scalar,
                role: Role::Text,
            };
            let fields = vec![content];
            assert(fields_view(fields@) =~= seq![content_field()]);
            Ok(TypeDef {
                name: String::from_str(struct_name),
                nested: context.is_in_sub_module,
                body: TypeBody::Record(fields),
            })
        }
    }

    /// What a field restricted this way refers to: the base type.
    pub fn get_type_implementation(&self, context: &XsdContext) -> (r: Result<TypeRef, XsdError>)
        ensures
            ref_result(r) == restriction_type_spec(context@, *self),
    {
        match &self.base {
            Some(b) => context.lookup(b.as_str()),
            None => Err(unimplemented("restriction")),
        }
    }
}

impl List {
    /// The list type named `struct_name` (see [`list_def_spec`]).
    pub fn implement_childs(&self, context: &XsdContext, struct_name: &str) -> (r: Result<TypeDef, XsdError>)
        ensures
            def_result(r) == list_def_spec(context@, *self, struct_name@),
    {
        match context.lookup(self.item_type.as_str()) {
            Ok(t) => Ok(TypeDef {
                name: String::from_str(struct_name),
                nested: context.is_in_sub_module,
                body: TypeBody::List(t),
            }),
            Err(e) => Err(e),
        }
    }
}

impl SimpleType {
    /// The type that this simple type defines under its own name.
    pub fn implement(&self, context: &XsdContext) -> (r: Result<TypeDef, XsdError>)
        ensures
            def_result(r) == simple_def_spec(context@, *self, self.name@),
    {
        self.implement_named(context, self.name.as_str())
    }

    /// The type that this simple type defines under the XSD name `raw_name`.
    pub fn implement_named(&self, context: &XsdContext, raw_name: &str) -> (r: Result<TypeDef, XsdError>)
        ensures
            def_result(r) == simple_def_spec(context@, *self, raw_name@),
    {
        let name = type_name_of(raw_name);
        match &self.list {
            Some(l) => l.implement_childs(context, name.as_str()),
            None => match &self.restriction {
                Some(r) => r.implement_childs(context, name.as_str()),
                None => Err(unimplemented("simpleType")),
            },
        }
    }

    /// What a field of this type refers to (see [`simple_type_ref_spec`]).
    pub fn get_type_implementation(&self, context: &XsdContext, struct_name: &Option<String>) -> (r: Result<TypeRef, XsdError>)
        ensures
            ref_result(r) == simple_type_ref_spec(context@, *self, opt_string_view(*struct_name)),
    {
        match (&self.restriction, &self.list) {
            (Some(r), None) => r.get_type_implementation(context),
            (None, Some(_)) => match struct_name {
                Some(n) => Ok(TypeRef::User(n.clone())),
                None => Err(unimplemented("list")),
            },
            _ => Err(unimplemented("simpleType")),
        }
    }
}

} // verus!
