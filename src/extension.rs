use vstd::prelude::*;
use vstd::string::*;
use crate::ast::{Attribute, Choice, ComplexContent, Extension, Group, Sequence};
use crate::context::{ContextView, TypeRef, TypeRefView, XsdContext};
use crate::error::{XsdError, XsdErrorView};
use crate::mapping::Primitive;
use crate::naming::{type_name_of, upper_camel_case_of};
use crate::output::{
    Cardinality, FieldDef, FieldView, Role, TypeBody, TypeBodyView, TypeDef, TypeDefView, collect,
    fields_result, fields_view, lemma_collect_empty, lemma_collect_prefix_err, lemma_collect_step,
    append_fields, append_types, types_result, types_view,
};
use crate::attribute::{attribute_fields_spec, attribute_sub_types_spec};
use crate::element::{choice_multiple, elements_fields_spec, elements_sub_types_spec};
use crate::simple::ref_result;

verus! {

pub open spec fn attribute_fields_fn(ctx: ContextView) -> spec_fn(Attribute) -> Result<Seq<FieldView>, XsdErrorView> {
    |a: Attribute| attribute_fields_spec(ctx, a)
}

pub open spec fn attribute_sub_types_fn(ctx: ContextView) -> spec_fn(Attribute) -> Result<Seq<TypeDefView>, XsdErrorView> {
    |a: Attribute| attribute_sub_types_spec(ctx, a)
}

pub open spec fn sequence_fields_fn(ctx: ContextView) -> spec_fn(Sequence) -> Result<Seq<FieldView>, XsdErrorView> {
    |s: Sequence| elements_fields_spec(ctx, s.elements@, false, false)
}

pub open spec fn sequence_sub_types_fn(ctx: ContextView) -> spec_fn(Sequence) -> Result<Seq<TypeDefView>, XsdErrorView> {
    |s: Sequence| elements_sub_types_spec(ctx, s.elements@)
}

pub open spec fn choice_fields_fn(ctx: ContextView) -> spec_fn(Choice) -> Result<Seq<FieldView>, XsdErrorView> {
    |c: Choice| elements_fields_spec(ctx, c.elements@, choice_multiple(c), !choice_multiple(c))
}

/// The field that holds an extension's base value.
pub open spec fn base_field(t: TypeRefView, role: Role) -> FieldView {
    FieldView { name: "base"@, wire_name: None, type_ref: t, cardinality: Cardinality::Scalar, role }
}

/// How a base value is embedded: a primitive as text content, a user type by
/// flattening its fields into the record.
pub open spec fn subtype_mode(t: TypeRefView) -> Role {
    match t {
        TypeRefView::Primitive(_) => Role::Text,
        TypeRefView::User(_) => Role::Flatten,
    }
}

/// The type a group reference resolves to.
pub open spec fn group_type_spec(ctx: ContextView, g: Group) -> Result<TypeRefView, XsdErrorView> {
    match g.reference {
        Some(r) => ctx.reference_spec(r@),
        None => Err(XsdErrorView::UnimplementedConstruct("group"@)),
    }
}

/// The record a named group defines: the fields of its sequence.
pub open spec fn group_def_spec(ctx: ContextView, g: Group) -> Result<Option<TypeDefView>, XsdErrorView> {
    match g.name {
        None => Ok(None),
        Some(n) => {
            let fields = match g.sequence {
                Some(s) => elements_fields_spec(ctx, s.elements@, false, false),
                None => Ok(Seq::empty()),
            };
            match fields {
                Ok(f) => Ok(Some(TypeDefView {
                    name: upper_camel_case_of(n@),
                    nested: ctx.nested,
                    body: TypeBodyView::Record(f),
                })),
                Err(e) => Err(e),
            }
        },
    }
}

/// The fields of an extension in a simple-content position: the base value
/// (text content where it is a string) and the attributes.
pub open spec fn extension_fields_spec(ctx: ContextView, x: Extension) -> Result<Seq<FieldView>, XsdErrorView> {
    match ctx.lookup_spec(x.base@) {
        Err(e) => Err(e),
        Ok(t) => match collect(x.attributes@, attribute_fields_fn(ctx)) {
            Err(e) => Err(e),
            Ok(attrs) => Ok(seq![base_field(
                t,
                if t == TypeRefView::Primitive(Primitive::Text) { Role::Text } else { Role::Element },
            )] + attrs),
        },
    }
}

/// The fields of an extension in a complex-content position: the base value
/// (as text content, or flattened), then the fields of its sequences, its
/// attributes, its choices, and its group, flattened.
pub open spec fn extension_content_fields_spec(ctx: ContextView, x: Extension) -> Result<Seq<FieldView>, XsdErrorView> {
    match ctx.lookup_spec(x.base@) {
        Err(e) => Err(e),
        Ok(t) => match collect(x.sequences@, sequence_fields_fn(ctx)) {
            Err(e) => Err(e),
            Ok(seqs) => match collect(x.attributes@, attribute_fields_fn(ctx)) {
                Err(e) => Err(e),
                Ok(attrs) => match collect(x.choices@, choice_fields_fn(ctx)) {
                    Err(e) => Err(e),
                    Ok(choices) => match x.group {
                        None => Ok(seq![base_field(t, subtype_mode(t))] + seqs + attrs + choices),
                        Some(g) => match group_type_spec(ctx, g) {
                            Err(e) => Err(e),
                            Ok(gt) => Ok(seq![base_field(t, subtype_mode(t))] + seqs + attrs + choices
                                + seq![FieldView {
                                    name: "extension"@,
                                    wire_name: None,
                                    type_ref: gt,
                                    cardinality: Cardinality::Scalar,
                                    role: Role::Flatten,
                                }]),
                        },
                    },
                },
            },
        },
    }
}

/// The types an extension contributes: those of its attributes, then those
/// of its sequences.
pub open spec fn extension_sub_types_spec(ctx: ContextView, x: Extension) -> Result<Seq<TypeDefView>, XsdErrorView> {
    match collect(x.attributes@, attribute_sub_types_fn(ctx)) {
        Err(e) => Err(e),
        Ok(a) => match collect(x.sequences@, sequence_sub_types_fn(ctx)) {
            Err(e) => Err(e),
            Ok(s) => Ok(a + s),
        },
    }
}

/// The fields of a list of attributes, in order.
pub fn attribute_list_fields(context: &XsdContext, attributes: &Vec<Attribute>) -> (r: Result<Vec<FieldDef>, XsdError>)
    ensures
        fields_result(r) == collect(attributes@, attribute_fields_fn(context@)),
{
    let ghost f = attribute_fields_fn(context@);
    let mut out: Vec<FieldDef> = Vec::new();
    let mut i: usize = 0;
    proof {
        lemma_collect_empty(attributes@, f);
        assert(fields_view(out@) =~= Seq::<FieldView>::empty());
    }
    while i < attributes.len()
        invariant
            i <= attributes@.len(),
            f == attribute_fields_fn(context@),
            collect(attributes@.take(i as int), f) == Ok::<Seq<FieldView>, XsdErrorView>(fields_view(out@)),
        decreases attributes@.len() - i,
    {
        proof {
            lemma_collect_step(attributes@, f, i as int);
        }
        match attributes[i].implement(context) {
            Ok(fields) => append_fields(&mut out, fields),
            Err(e) => {
                proof {
                    lemma_collect_prefix_err(attributes@, f, i + 1);
                }
                return Err(e);
            },
        }
        i = i + 1;
    }
    assert(attributes@.take(i as int) =~= attributes@);
    Ok(out)
}

pub fn attribute_list_sub_types(context: &XsdContext, attributes: &Vec<Attribute>) -> (r: Result<Vec<TypeDef>, XsdError>)
    ensures
        types_result(r) == collect(attributes@, attribute_sub_types_fn(context@)),
{
    let ghost f = attribute_sub_types_fn(context@);
    let mut out: Vec<TypeDef> = Vec::new();
    let mut i: usize = 0;
    proof {
        lemma_collect_empty(attributes@, f);
        assert(types_view(out@) =~= Seq::<TypeDefView>::empty());
    }
    while i < attributes.len()
        invariant
            i <= attributes@.len(),
            f == attribute_sub_types_fn(context@),
            collect(attributes@.take(i as int), f) == Ok::<Seq<TypeDefView>, XsdErrorView>(types_view(out@)),
        decreases attributes@.len() - i,
    {
        proof {
            lemma_collect_step(attributes@, f, i as int);
        }
        match attributes[i].get_sub_type_implementation(context) {
            Ok(defs) => append_types(&mut out, defs),
            Err(e) => {
                proof {
                    lemma_collect_prefix_err(attributes@, f, i + 1);
                }
                return Err(e);
            },
        }
        i = i + 1;
    }
    assert(attributes@.take(i as int) =~= attributes@);
    Ok(out)
}

fn sequence_list_fields(context: &XsdContext, sequences: &Vec<Sequence>) -> (r: Result<Vec<FieldDef>, XsdError>)
    ensures
        fields_result(r) == collect(sequences@, sequence_fields_fn(context@)),
{
    let ghost f = sequence_fields_fn(context@);
    let mut out: Vec<FieldDef> = Vec::new();
    let mut i: usize = 0;
    proof {
        lemma_collect_empty(sequences@, f);
        assert(fields_view(out@) =~= Seq::<FieldView>::empty());
    }
    while i < sequences.len()
        invariant
            i <= sequences@.len(),
            f == sequence_fields_fn(context@),
            collect(sequences@.take(i as int), f) == Ok::<Seq<FieldView>, XsdErrorView>(fields_view(out@)),
        decreases sequences@.len() - i,
    {
        proof {
            lemma_collect_step(sequences@, f, i as int);
        }
        match sequences[i].get_field_implementation(context) {
            Ok(fields) => append_fields(&mut out, fields),
            Err(e) => {
                proof {
                    lemma_collect_prefix_err(sequences@, f, i + 1);
                }
                return Err(e);
            },
        }
        i = i + 1;
    }
    assert(sequences@.take(i as int) =~= sequences@);
    Ok(out)
}

fn sequence_list_sub_types(context: &XsdContext, sequences: &Vec<Sequence>) -> (r: Result<Vec<TypeDef>, XsdError>)
    ensures
        types_result(r) == collect(sequences@, sequence_sub_types_fn(context@)),
{
    let ghost f = sequence_sub_types_fn(context@);
    let mut out: Vec<TypeDef> = Vec::new();
    let mut i: usize = 0;
    proof {
        lemma_collect_empty(sequences@, f);
        assert(types_view(out@) =~= Seq::<TypeDefView>::empty());
    }
    while i < sequences.len()
        invariant
            i <= sequences@.len(),
            f == sequence_sub_types_fn(context@),
            collect(sequences@.take(i as int), f) == Ok::<Seq<TypeDefView>, XsdErrorView>(types_view(out@)),
        decreases sequences@.len() - i,
    {
        proof {
            lemma_collect_step(sequences@, f, i as int);
        }
        match sequences[i].get_sub_types_implementation(context) {
            Ok(defs) => append_types(&mut out, defs),
            Err(e) => {
                proof {
                    lemma_collect_prefix_err(sequences@, f, i + 1);
                }
                return Err(e);
            },
        }
        i = i + 1;
    }
    assert(sequences@.take(i as int) =~= sequences@);
    Ok(out)
}

fn choice_list_fields(context: &XsdContext, choices: &Vec<Choice>) -> (r: Result<Vec<FieldDef>, XsdError>)
    ensures
        fields_result(r) == collect(choices@, choice_fields_fn(context@)),
{
    let ghost f = choice_fields_fn(context@);
    let mut out: Vec<FieldDef> = Vec::new();
    let mut i: usize = 0;
    proof {
        lemma_collect_empty(choices@, f);
        assert(fields_view(out@) =~= Seq::<FieldView>::empty());
    }
    while i < choices.len()
        invariant
            i <= choices@.len(),
            f == choice_fields_fn(context@),
            collect(choices@.take(i as int), f) == Ok::<Seq<FieldView>, XsdErrorView>(fields_view(out@)),
        decreases choices@.len() - i,
    {
        proof {
            lemma_collect_step(choices@, f, i as int);
        }
        match choices[i].get_field_implementation(context) {
            Ok(fields) => append_fields(&mut out, fields),
            Err(e) => {
                proof {
                    lemma_collect_prefix_err(choices@, f, i + 1);
                }
                return Err(e);
            },
        }
        i = i + 1;
    }
    assert(choices@.take(i as int) =~= choices@);
    Ok(out)
}

fn base_field_def(t: TypeRef, role: Role) -> (r: FieldDef)
    ensures
        r@ == base_field(t@, role),
{
    FieldDef { name: String::from_str("base"), wire_name: None, type_ref: t, cardinality: Cardinality::Scalar, role }
}

impl Extension {
    /// The fields in a simple-content position (see [`extension_fields_spec`]).
    pub fn implement(&self, context: &XsdContext) -> (r: Result<Vec<FieldDef>, XsdError>)
        ensures
            fields_result(r) == extension_fields_spec(context@, *self),
    {
        let rust_type = match context.lookup(self.base.as_str()) {
            Ok(t) => t,
            Err(e) => return Err(e),
        };
        let attributes = match attribute_list_fields(context, &self.attributes) {
            Ok(a) => a,
            Err(e) => return Err(e),
        };
        let role = match &rust_type {
            TypeRef::Primitive(Primitive::Text) => Role::Text,
            _ => Role::Element,
        };
        let ghost t = rust_type@;
        let mut out = vec![base_field_def(rust_type, role)];
        assert(fields_view(out@) =~= seq![base_field(t, role)]);
        append_fields(&mut out, attributes);
        Ok(out)
    }

    /// The fields in a complex-content position (see
    /// [`extension_content_fields_spec`]).
    pub fn get_field_implementation(&self, context: &XsdContext) -> (r: Result<Vec<FieldDef>, XsdError>)
        ensures
            fields_result(r) == extension_content_fields_spec(context@, *self),
    {
        let rust_type = match context.lookup(self.base.as_str()) {
            Ok(t) => t,
            Err(e) => return Err(e),
        };
        let sequences = match sequence_list_fields(context, &self.sequences) {
            Ok(s) => s,
            Err(e) => return Err(e),
        };
        let attributes = match attribute_list_fields(context, &self.attributes) {
            Ok(a) => a,
            Err(e) => return Err(e),
        };
        let choices = match choice_list_fields(context, &self.choices) {
            Ok(c) => c,
            Err(e) => return Err(e),
        };
        let group_content = match &self.group {
            None => None,
            Some(group) => match group.get_type_implementation(context) {
                Ok(t) => Some(FieldDef {
                    name: String::from_str("extension"),
                    wire_name: None,
                    type_ref: t,
                    cardinality: Cardinality::Scalar,
                    role: Role::Flatten,
                }),
                Err(e) => return Err(e),
            },
        };
        let mode = match &rust_type {
            TypeRef::Primitive(_) => Role::Text,
            TypeRef::User(_) => Role::Flatten,
        };
        let ghost t = rust_type@;
        let mut out = vec![base_field_def(rust_type, mode)];
        assert(fields_view(out@) =~= seq![base_field(t, mode)]);
        append_fields(&mut out, sequences);
        append_fields(&mut out, attributes);
        append_fields(&mut out, choices);
        match group_content {
            Some(g) => {
                let ghost before = out@;
                out.push(g);
                assert(fields_view(out@) =~= fields_view(before) + seq![g@]);
            },
            None => {},
        }
        Ok(out)
    }

    /// The types this extension contributes (see [`extension_sub_types_spec`]).
    pub fn get_sub_type_implementation(&self, context: &XsdContext) -> (r: Result<Vec<TypeDef>, XsdError>)
        ensures
            types_result(r) == extension_sub_types_spec(context@, *self),
    {
        let mut out = match attribute_list_sub_types(context, &self.attributes) {
            Ok(a) => a,
            Err(e) => return Err(e),
        };
        match sequence_list_sub_types(context, &self.sequences) {
            Ok(s) => append_types(&mut out, s),
            Err(e) => return Err(e),
        }
        Ok(out)
    }
}

impl ComplexContent {
    /// The fields of the extension this content holds.
    pub fn get_field_implementation(&self, context: &XsdContext) -> (r: Result<Vec<FieldDef>, XsdError>)
        ensures
            fields_result(r) == (match self.extension {
                Some(x) => extension_content_fields_spec(context@, x),
                None => Err(XsdErrorView::UnimplementedConstruct("complexContent"@)),
            }),
    {
        match &self.extension {
            Some(x) => x.get_field_implementation(context),
            None => Err(XsdError::UnimplementedConstruct(String::from_str("complexContent"))),
        }
    }

    /// The types of the extension this content holds.
    pub fn get_sub_type_implementation(&self, context: &XsdContext) -> (r: Result<Vec<TypeDef>, XsdError>)
        ensures
            types_result(r) == (match self.extension {
                Some(x) => extension_sub_types_spec(context@, x),
                None => Err(XsdErrorView::UnimplementedConstruct("complexContent"@)),
            }),
    {
        match &self.extension {
            Some(x) => x.get_sub_type_implementation(context),
            None => Err(XsdError::UnimplementedConstruct(String::from_str("complexContent"))),
        }
    }
}

impl Group {
    /// The record this group defines, if it is named (see [`group_def_spec`]).
    pub fn implement(&self, context: &XsdContext) -> (r: Result<Option<TypeDef>, XsdError>)
        ensures
            (match r {
                Ok(Some(d)) => group_def_spec(context@, *self) == Ok::<Option<TypeDefView>, XsdErrorView>(Some(d@)),
                Ok(None) => group_def_spec(context@, *self) == Ok::<Option<TypeDefView>, XsdErrorView>(None),
                Err(e) => group_def_spec(context@, *self) == Err::<Option<TypeDefView>, XsdErrorView>(e@),
            }),
    {
        let raw_name = match &self.name {
            None => return Ok(None),
            Some(n) => n,
        };
        let fields = match &self.sequence {
            Some(sequence) => match sequence.get_field_implementation(context) {
                Ok(f) => f,
                Err(e) => return Err(e),
            },
            None => {
                let f: Vec<FieldDef> = Vec::new();
                assert(fields_view(f@) =~= Seq::<FieldView>::empty());
                f
            },
        };
        Ok(Some(TypeDef {
            name: type_name_of(raw_name.as_str()),
            nested: context.is_in_sub_module,
            body: TypeBody::Record(fields),
        }))
    }

    /// The type that a group reference resolves to.
    pub fn get_type_implementation(&self, context: &XsdContext) -> (r: Result<TypeRef, XsdError>)
        ensures
            ref_result(r) == group_type_spec(context@, *self),
    {
        match &self.reference {
            Some(reference) => context.resolve_reference(reference.as_str()),
            None => Err(XsdError::UnimplementedConstruct(String::from_str("group"))),
        }
    }
}

} // verus!
