use vstd::prelude::*;
use vstd::string::*;
use crate::ast::{Choice, Element, MaxOccurences, Sequence};
use crate::context::{ContextView, TypeRef, TypeRefView, XsdContext};
use crate::error::{XsdError, XsdErrorView};
use crate::naming::{field_name_of, mangle_field_name, type_name_of, upper_camel_case_of};
use crate::output::{
    Cardinality, FieldDef, FieldView, Role, TypeBody, TypeBodyView, TypeDef, TypeDefView, collect, fields_result,
    fields_view, lemma_collect_empty, lemma_collect_prefix_err, lemma_collect_step,
    append_types, types_result, types_view,
};
use crate::attribute::{field_names, wire_name_of};
use crate::simple::{simple_def_spec, simple_type_ref_spec};

verus! {

/// Whether an upper bound allows more than one occurrence.
pub open spec fn allows_many(max: Option<MaxOccurences>) -> bool {
    match max {
        Some(MaxOccurences::Unbounded) => true,
        Some(MaxOccurences::Number { value }) => value > 1,
        None => false,
    }
}

/// The representation that occurrence bounds call for: a collection where
/// more than one may occur, optional where none may, else one value.
pub open spec fn occurs_cardinality(min: Option<u64>, max: Option<MaxOccurences>) -> Cardinality {
    if allows_many(max) {
        Cardinality::Collection
    } else if min == Some(0u64) {
        Cardinality::Optional
    } else {
        Cardinality::Scalar
    }
}

/// The representation that occurrence bounds call for.
pub fn field_cardinality(min: Option<u64>, max: Option<MaxOccurences>) -> (r: Cardinality)
    ensures
        r == occurs_cardinality(min, max),
{
    let many = match max {
        Some(MaxOccurences::Unbounded) => true,
        Some(MaxOccurences::Number { value }) => value > 1,
        None => false,
    };
    if many {
        Cardinality::Collection
    } else if min == Some(0u64) {
        Cardinality::Optional
    } else {
        Cardinality::Scalar
    }
}

/// An element's cardinality, where an enclosing choice may make it a
/// collection (`multiple`) or optional (`optional`).
pub open spec fn element_cardinality(e: Element, multiple: bool, optional: bool) -> Cardinality {
    let own = occurs_cardinality(e.min_occurences, e.max_occurences);
    if multiple || own == Cardinality::Collection {
        Cardinality::Collection
    } else if optional || own == Cardinality::Optional {
        Cardinality::Optional
    } else {
        Cardinality::Scalar
    }
}

/// The type an element refers to: by `type`, or its inline simple type,
/// named after the element.
pub open spec fn element_type_spec(ctx: ContextView, e: Element) -> Result<TypeRefView, XsdErrorView> {
    match (e.kind, e.simple_type) {
        (Some(k), None) => ctx.lookup_spec(k@),
        (None, Some(st)) => simple_type_ref_spec(ctx, st, Some(upper_camel_case_of(e.name@))),
        _ => Err(XsdErrorView::UnimplementedConstruct("element"@)),
    }
}

/// The field an element contributes; in a repeated choice its name gets
/// the suffix `_list`.
pub open spec fn element_field_spec(ctx: ContextView, e: Element, multiple: bool, optional: bool) -> Result<FieldView, XsdErrorView> {
    match element_type_spec(ctx, e) {
        Ok(t) => Ok(FieldView {
            name: if multiple { field_name_of(e.name@) + "_list"@ } else { field_name_of(e.name@) },
            wire_name: if multiple { Some(e.name@) } else { wire_name_of(e.name@) },
            type_ref: t,
            cardinality: element_cardinality(e, multiple, optional),
            role: Role::Element,
        }),
        Err(err) => Err(err),
    }
}

pub open spec fn element_fields_fn(ctx: ContextView, multiple: bool, optional: bool) -> spec_fn(Element) -> Result<Seq<FieldView>, XsdErrorView> {
    |e: Element| match element_field_spec(ctx, e, multiple, optional) {
        Ok(f) => Ok(seq![f]),
        Err(err) => Err(err),
    }
}

/// The types an element contributes: its inline simple type, nested, under
/// its own name or else the element's.
pub open spec fn element_sub_types_spec(ctx: ContextView, e: Element) -> Result<Seq<TypeDefView>, XsdErrorView> {
    match e.simple_type {
        None => Ok(Seq::empty()),
        Some(st) => match simple_def_spec(
            ctx.with_nested(true),
            st,
            if st.name@.len() == 0 { e.name@ } else { st.name@ },
        ) {
            Ok(d) => Ok(seq![d]),
            Err(err) => Err(err),
        },
    }
}

pub open spec fn element_sub_types_fn(ctx: ContextView) -> spec_fn(Element) -> Result<Seq<TypeDefView>, XsdErrorView> {
    |e: Element| element_sub_types_spec(ctx, e)
}

/// The fields a list of elements contributes, in order.
pub open spec fn elements_fields_spec(ctx: ContextView, s: Seq<Element>, multiple: bool, optional: bool) -> Result<Seq<FieldView>, XsdErrorView> {
    collect(s, element_fields_fn(ctx, multiple, optional))
}

/// The types a list of elements contributes, in order.
pub open spec fn elements_sub_types_spec(ctx: ContextView, s: Seq<Element>) -> Result<Seq<TypeDefView>, XsdErrorView> {
    collect(s, element_sub_types_fn(ctx))
}

/// Whether a choice's bounds let it occur more than once.
pub open spec fn choice_multiple(c: Choice) -> bool {
    (c.min_occurences matches Some(m) && m > 1) || allows_many(c.max_occurences)
}

fn element_list_fields(context: &XsdContext, elements: &Vec<Element>, multiple: bool, optional: bool) -> (r: Result<Vec<FieldDef>, XsdError>)
    ensures
        fields_result(r) == elements_fields_spec(context@, elements@, multiple, optional),
{
    let ghost f = element_fields_fn(context@, multiple, optional);
    let mut out: Vec<FieldDef> = Vec::new();
    let mut i: usize = 0;
    proof {
        lemma_collect_empty(elements@, f);
        assert(fields_view(out@) =~= Seq::<FieldView>::empty());
    }
    while i < elements.len()
        invariant
            i <= elements@.len(),
            f == element_fields_fn(context@, multiple, optional),
            collect(elements@.take(i as int), f) == Ok::<Seq<FieldView>, XsdErrorView>(fields_view(out@)),
        decreases elements@.len() - i,
    {
        proof {
            lemma_collect_step(elements@, f, i as int);
        }
        match elements[i].get_field_implementation(context, multiple, optional) {
            Ok(field) => {
                let ghost before = out@;
                out.push(field);
                assert(fields_view(out@) =~= fields_view(before) + seq![field@]);
            },
            Err(e) => {
                proof {
                    lemma_collect_prefix_err(elements@, f, i + 1);
                }
                return Err(e);
            },
        }
        i = i + 1;
    }
    assert(elements@.take(i as int) =~= elements@);
    Ok(out)
}

fn element_list_sub_types(context: &XsdContext, elements: &Vec<Element>) -> (r: Result<Vec<TypeDef>, XsdError>)
    ensures
        types_result(r) == elements_sub_types_spec(context@, elements@),
{
    let ghost f = element_sub_types_fn(context@);
    let mut out: Vec<TypeDef> = Vec::new();
    let mut i: usize = 0;
    proof {
        lemma_collect_empty(elements@, f);
        assert(types_view(out@) =~= Seq::<TypeDefView>::empty());
    }
    while i < elements.len()
        invariant
            i <= elements@.len(),
            f == element_sub_types_fn(context@),
            collect(elements@.take(i as int), f) == Ok::<Seq<TypeDefView>, XsdErrorView>(types_view(out@)),
        decreases elements@.len() - i,
    {
        proof {
            lemma_collect_step(elements@, f, i as int);
        }
        match elements[i].get_subtypes_implementation(context) {
            Ok(defs) => {
                append_types(&mut out, defs);
            },
            Err(e) => {
                proof {
                    lemma_collect_prefix_err(elements@, f, i + 1);
                }
                return Err(e);
            },
        }
        i = i + 1;
    }
    assert(elements@.take(i as int) =~= elements@);
    Ok(out)
}

impl Element {
    /// The field this element contributes (see [`element_field_spec`]).
    pub fn get_field_implementation(&self, context: &XsdContext, multiple: bool, optional: bool) -> (r: Result<FieldDef, XsdError>)
        ensures
            r matches Ok(f) ==> element_field_spec(context@, *self, multiple, optional) == Ok::<FieldView, XsdErrorView>(f@),
            r matches Err(e) ==> element_field_spec(context@, *self, multiple, optional) == Err::<FieldView, XsdErrorView>(e@),
    {
        let rust_type = match (&self.kind, &self.simple_type) {
            (Some(kind), None) => context.lookup(kind.as_str()),
            (None, Some(simple_type)) => {
                let struct_name = Some(type_name_of(self.name.as_str()));
                simple_type.get_type_implementation(context, &struct_name)
            },
            _ => Err(XsdError::UnimplementedConstruct(String::from_str("element"))),
        };
        let type_ref = match rust_type {
            Ok(t) => t,
            Err(e) => return Err(e),
        };
        let own = field_cardinality(self.min_occurences, self.max_occurences);
        let cardinality = if multiple || own == Cardinality::Collection {
            Cardinality::Collection
        } else if optional || own == Cardinality::Optional {
            Cardinality::Optional
        } else {
            Cardinality::Scalar
        };
        let (name, wire_name) = if multiple {
            let name = mangle_field_name(self.name.as_str());
            (name.concat("_list"), Some(self.name.clone()))
        } else {
            field_names(self.name.as_str())
        };
        Ok(FieldDef { name, wire_name, type_ref, cardinality, role: Role::Element })
    }

    /// The types this element contributes (see [`element_sub_types_spec`]).
    pub fn get_subtypes_implementation(&self, context: &XsdContext) -> (r: Result<Vec<TypeDef>, XsdError>)
        ensures
            types_result(r) == element_sub_types_spec(context@, *self),
    {
        let mut nested = context.duplicate();
        nested.set_is_in_sub_module(true);
        match &self.simple_type {
            None => {
                let r: Vec<TypeDef> = Vec::new();
                assert(types_view(r@) =~= Seq::<TypeDefView>::empty());
                Ok(r)
            },
            Some(simple_type) => {
                let d = if simple_type.name.unicode_len() == 0 {
                    simple_type.implement_named(&nested, self.name.as_str())
                } else {
                    simple_type.implement(&nested)
                };
                match d {
                    Ok(d) => {
                        let r = vec![d];
                        assert(types_view(r@) =~= element_sub_types_spec(context@, *self)->Ok_0);
                        Ok(r)
                    },
                    Err(e) => Err(e),
                }
            },
        }
    }
}

impl Sequence {
    /// The fields of the sequence's elements, each by its own bounds.
    pub fn get_field_implementation(&self, context: &XsdContext) -> (r: Result<Vec<FieldDef>, XsdError>)
        ensures
            fields_result(r) == elements_fields_spec(context@, self.elements@, false, false),
    {
        element_list_fields(context, &self.elements, false, false)
    }

    /// The types the sequence's elements contribute.
    pub fn get_sub_types_implementation(&self, context: &XsdContext) -> (r: Result<Vec<TypeDef>, XsdError>)
        ensures
            types_result(r) == elements_sub_types_spec(context@, self.elements@),
    {
        element_list_sub_types(context, &self.elements)
    }
}

impl Choice {
    /// Whether this choice may occur more than once.
    pub fn is_multiple(&self) -> (r: bool)
        ensures
            r == choice_multiple(*self),
    {
        let min_many = match self.min_occurences {
            Some(m) => m > 1,
            None => false,
        };
        let max_many = match self.max_occurences {
            Some(MaxOccurences::Unbounded) => true,
            Some(MaxOccurences::Number { value }) => value > 1,
            None => false,
        };
        min_many || max_many
    }

    /// The fields of a choice: one per alternative element, a collection of
    /// its own where the choice repeats, else optional.
    pub fn get_field_implementation(&self, context: &XsdContext) -> (r: Result<Vec<FieldDef>, XsdError>)
        ensures
            fields_result(r) == elements_fields_spec(context@, self.elements@, choice_multiple(*self), !choice_multiple(*self)),
    {
        let multiple = self.is_multiple();
        element_list_fields(context, &self.elements, multiple, !multiple)
    }

    /// The types the choice's elements contribute.
    pub fn get_sub_types_implementation(&self, context: &XsdContext) -> (r: Result<Vec<TypeDef>, XsdError>)
        ensures
            types_result(r) == elements_sub_types_spec(context@, self.elements@),
    {
        element_list_sub_types(context, &self.elements)
    }
}

} // verus!

verus! {

/// An element whose type resolves gives a collection where its upper bound
/// exceeds one, an optional value where it is one with a lower bound of
/// zero, and a single value otherwise.
pub proof fn lemma_element_cardinality(ctx: ContextView, e: Element)
    requires
        element_type_spec(ctx, e) is Ok,
    ensures
        element_field_spec(ctx, e, false, false) matches Ok(f) && (if allows_many(e.max_occurences) {
            f.cardinality == Cardinality::Collection
        } else if e.min_occurences == Some(0u64) {
            f.cardinality == Cardinality::Optional
        } else {
            f.cardinality == Cardinality::Scalar
        }),
{
}


/// The field of a top-level element's record: the value of its type, as
/// text content where that is a primitive, flattened where it is a record.
pub open spec fn content_field_of(t: TypeRefView) -> FieldView {
    FieldView {
        name: "content"@,
        wire_name: None,
        type_ref: t,
        cardinality: Cardinality::Scalar,
        role: match t {
            TypeRefView::Primitive(_) => Role::Text,
            TypeRefView::User(_) => Role::Flatten,
        },
    }
}

/// The types an element defines as a declaration of its own: a record
/// named after it that holds its content, then its inline simple type.
pub open spec fn element_types_spec(ctx: ContextView, e: Element) -> Result<Seq<TypeDefView>, XsdErrorView> {
    match element_type_spec(ctx, e) {
        Err(err) => Err(err),
        Ok(t) => match element_sub_types_spec(ctx, e) {
            Err(err) => Err(err),
            Ok(s) => Ok(seq![TypeDefView {
                name: upper_camel_case_of(e.name@),
                nested: ctx.nested,
                body: TypeBodyView::Record(seq![content_field_of(t)]),
            }] + s),
        },
    }
}

pub open spec fn element_types_fn(ctx: ContextView) -> spec_fn(Element) -> Result<Seq<TypeDefView>, XsdErrorView> {
    |e: Element| element_types_spec(ctx, e)
}

/// The records a list of elements defines, in order.
pub fn element_list_types(context: &XsdContext, elements: &Vec<Element>) -> (r: Result<Vec<TypeDef>, XsdError>)
    ensures
        types_result(r) == collect(elements@, element_types_fn(context@)),
{
    let ghost f = element_types_fn(context@);
    let mut out: Vec<TypeDef> = Vec::new();
    let mut i: usize = 0;
    proof {
        lemma_collect_empty(elements@, f);
        assert(types_view(out@) =~= Seq::<TypeDefView>::empty());
    }
    while i < elements.len()
        invariant
            i <= elements@.len(),
            f == element_types_fn(context@),
            collect(elements@.take(i as int), f) == Ok::<Seq<TypeDefView>, XsdErrorView>(types_view(out@)),
        decreases elements@.len() - i,
    {
        proof {
            lemma_collect_step(elements@, f, i as int);
        }
        match elements[i].implement(context) {
            Ok(defs) => append_types(&mut out, defs),
            Err(e) => {
                proof {
                    lemma_collect_prefix_err(elements@, f, i + 1);
                }
                return Err(e);
            },
        }
        i = i + 1;
    }
    assert(elements@.take(i as int) =~= elements@);
    Ok(out)
}

impl Element {
    /// The types this element defines as a declaration of its own (see
    /// [`element_types_spec`]).
    pub fn implement(&self, context: &XsdContext) -> (r: Result<Vec<TypeDef>, XsdError>)
        ensures
            types_result(r) == element_types_spec(context@, *self),
    {
        let type_ref = match (&self.kind, &self.simple_type) {
            (Some(kind), None) => context.lookup(kind.as_str()),
            (None, Some(simple_type)) => {
                let struct_name = Some(type_name_of(self.name.as_str()));
                simple_type.get_type_implementation(context, &struct_name)
            },
            _ => Err(XsdError::UnimplementedConstruct(String::from_str("element"))),
        };
        let type_ref = match type_ref {
            Ok(t) => t,
            Err(e) => return Err(e),
        };
        let sub_types = match self.get_subtypes_implementation(context) {
            Ok(s) => s,
            Err(e) => return Err(e),
        };
        let role = match &type_ref {
            TypeRef::Primitive(_) => Role::Text,
            TypeRef::User(_) => Role::Flatten,
        };
        let ghost tv = type_ref@;
        let content = FieldDef {
            name: String::from_str("content"),
            wire_name: None,
            type_ref,
            cardinality: Cardinality::Scalar,
            role,
        };
        let fields = vec![content];
        assert(fields_view(fields@) =~= seq![content_field_of(tv)]);
        let record = TypeDef {
            name: type_name_of(self.name.as_str()),
            nested: context.is_in_sub_module,
            body: TypeBody::Record(fields),
        };
        let ghost rv = record@;
        let mut out = vec![record];
        assert(types_view(out@) =~= seq![rv]);
        append_types(&mut out, sub_types);
        Ok(out)
    }
}

impl Choice {
    /// The records of the choice's alternative elements, each a declaration
    /// of its own.
    pub fn implement(&self, context: &XsdContext) -> (r: Result<Vec<TypeDef>, XsdError>)
        ensures
            types_result(r) == collect(self.elements@, element_types_fn(context@)),
    {
        element_list_types(context, &self.elements)
    }
}

} // verus!
