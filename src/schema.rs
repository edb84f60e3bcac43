use vstd::prelude::*;
use vstd::string::*;
use crate::ast::{
    Attribute, AttributeGroup, Choice, ComplexContent, Element, Extension, Group, Import, Sequence,
    SimpleType,
};
use crate::context::{ContextView, XsdContext, find_entry, lemma_find_entry_push};
use crate::error::{XsdError, XsdErrorView};
use crate::naming::{qname_local, split_qname, type_name_of, upper_camel_case_of};
use crate::output::{
    FieldDef, FieldView, TypeBody, TypeBodyView, TypeDef, TypeDefView, append_fields, append_types,
    collect, fields_result, fields_view, lemma_collect_empty, lemma_collect_prefix_err,
    lemma_collect_step, opt_string_view, strings_view, types_result, types_view,
};
use crate::element::{
    choice_multiple, element_list_types, element_types_fn, elements_fields_spec, elements_sub_types_spec,
};
use crate::extension::{
    attribute_fields_fn, attribute_list_fields, attribute_sub_types_fn, attribute_list_sub_types,
    extension_content_fields_spec, extension_fields_spec, extension_sub_types_spec, group_def_spec,
};
use crate::simple::simple_def_spec;

verus! {

/// An `xs:complexType`: a record over a content model and attributes.
#[derive(Debug, PartialEq)]
pub struct ComplexType {
    pub name: String,
    pub sequence: Option<Sequence>,
    pub choice: Option<Choice>,
    pub complex_content: Option<ComplexContent>,
    /// The extension of an `xs:simpleContent`.
    pub simple_content: Option<Extension>,
    pub attributes: Vec<Attribute>,
    /// References to top-level attribute groups, whose attributes the
    /// record holds too.
    pub attribute_groups: Vec<AttributeGroup>,
}

/// An `xs:schema` document: the prefix it binds to the XML Schema namespace
/// and its top-level declarations, in document order.
#[derive(Debug, PartialEq)]
pub struct Schema {
    pub xsd_prefix: Option<String>,
    pub elements: Vec<Element>,
    pub simple_types: Vec<SimpleType>,
    pub complex_types: Vec<ComplexType>,
    pub groups: Vec<Group>,
    pub attribute_groups: Vec<AttributeGroup>,
    pub imports: Vec<Import>,
}

/// What a compilation emits: the type definitions, and for each generated
/// name the schema name it came from.
#[derive(Debug, PartialEq)]
pub struct Compiled {
    pub types: Vec<TypeDef>,
    pub names: Vec<(String, String)>,
}

/// Both results in order, or the first failure.
pub open spec fn then_concat<U>(a: Result<Seq<U>, XsdErrorView>, b: Result<Seq<U>, XsdErrorView>) -> Result<Seq<U>, XsdErrorView> {
    match a {
        Err(e) => Err(e),
        Ok(x) => match b {
            Err(e) => Err(e),
            Ok(y) => Ok(x + y),
        },
    }
}

/// The first top-level attribute group declared under a name.
pub open spec fn find_attribute_group(decls: Seq<AttributeGroup>, name: Seq<char>) -> Option<AttributeGroup>
    decreases decls.len(),
{
    if decls.len() == 0 {
        None
    } else if decls[0].name matches Some(n) && n@ == name {
        Some(decls[0])
    } else {
        find_attribute_group(decls.skip(1), name)
    }
}

/// The fields an attribute-group reference brings: those of the declared
/// group's attributes; a reference to no declaration is unresolved.
pub open spec fn group_ref_fields_spec(ctx: ContextView, decls: Seq<AttributeGroup>, r: AttributeGroup) -> Result<Seq<FieldView>, XsdErrorView> {
    match find_attribute_group(decls, qname_local(r.reference@)) {
        None => Err(XsdErrorView::UnresolvedReference(r.reference@)),
        Some(d) => collect(d.attributes@, attribute_fields_fn(ctx)),
    }
}

/// The types an attribute-group reference brings.
pub open spec fn group_ref_sub_types_spec(ctx: ContextView, decls: Seq<AttributeGroup>, r: AttributeGroup) -> Result<Seq<TypeDefView>, XsdErrorView> {
    match find_attribute_group(decls, qname_local(r.reference@)) {
        None => Err(XsdErrorView::UnresolvedReference(r.reference@)),
        Some(d) => collect(d.attributes@, attribute_sub_types_fn(ctx)),
    }
}

pub open spec fn group_ref_fields_fn(ctx: ContextView, decls: Seq<AttributeGroup>) -> spec_fn(AttributeGroup) -> Result<Seq<FieldView>, XsdErrorView> {
    |r: AttributeGroup| group_ref_fields_spec(ctx, decls, r)
}

pub open spec fn group_ref_sub_types_fn(ctx: ContextView, decls: Seq<AttributeGroup>) -> spec_fn(AttributeGroup) -> Result<Seq<TypeDefView>, XsdErrorView> {
    |r: AttributeGroup| group_ref_sub_types_spec(ctx, decls, r)
}

/// The fields of a complex type: those of its sequence, its choice, its
/// complex content, its simple content, its attributes and its
/// attribute-group references, in that order.
pub open spec fn complex_fields_spec(ctx: ContextView, decls: Seq<AttributeGroup>, c: ComplexType) -> Result<Seq<FieldView>, XsdErrorView> {
    let from_sequence = match c.sequence {
        Some(s) => elements_fields_spec(ctx, s.elements@, false, false),
        None => Ok(Seq::empty()),
    };
    let from_choice = match c.choice {
        Some(ch) => elements_fields_spec(ctx, ch.elements@, choice_multiple(ch), !choice_multiple(ch)),
        None => Ok(Seq::empty()),
    };
    let from_complex = match c.complex_content {
        Some(cc) => match cc.extension {
            Some(x) => extension_content_fields_spec(ctx, x),
            None => Err(XsdErrorView::UnimplementedConstruct("complexContent"@)),
        },
        None => Ok(Seq::empty()),
    };
    let from_simple = match c.simple_content {
        Some(x) => extension_fields_spec(ctx, x),
        None => Ok(Seq::empty()),
    };
    then_concat(
        then_concat(
            then_concat(then_concat(then_concat(from_sequence, from_choice), from_complex), from_simple),
            collect(c.attributes@, attribute_fields_fn(ctx)),
        ),
        collect(c.attribute_groups@, group_ref_fields_fn(ctx, decls)),
    )
}

/// The types a complex type's parts contribute, in the same order.
pub open spec fn complex_sub_types_spec(ctx: ContextView, decls: Seq<AttributeGroup>, c: ComplexType) -> Result<Seq<TypeDefView>, XsdErrorView> {
    let from_sequence = match c.sequence {
        Some(s) => elements_sub_types_spec(ctx, s.elements@),
        None => Ok(Seq::empty()),
    };
    let from_choice = match c.choice {
        Some(ch) => elements_sub_types_spec(ctx, ch.elements@),
        None => Ok(Seq::empty()),
    };
    let from_complex = match c.complex_content {
        Some(cc) => match cc.extension {
            Some(x) => extension_sub_types_spec(ctx, x),
            None => Err(XsdErrorView::UnimplementedConstruct("complexContent"@)),
        },
        None => Ok(Seq::empty()),
    };
    let from_simple = match c.simple_content {
        Some(x) => extension_sub_types_spec(ctx, x),
        None => Ok(Seq::empty()),
    };
    then_concat(
        then_concat(
            then_concat(then_concat(then_concat(from_sequence, from_choice), from_complex), from_simple),
            collect(c.attributes@, attribute_sub_types_fn(ctx)),
        ),
        collect(c.attribute_groups@, group_ref_sub_types_fn(ctx, decls)),
    )
}

/// The types a complex type defines: its record, then what its parts add.
pub open spec fn complex_types_spec(ctx: ContextView, decls: Seq<AttributeGroup>, c: ComplexType) -> Result<Seq<TypeDefView>, XsdErrorView> {
    match complex_fields_spec(ctx, decls, c) {
        Err(e) => Err(e),
        Ok(f) => match complex_sub_types_spec(ctx, decls, c) {
            Err(e) => Err(e),
            Ok(s) => Ok(seq![TypeDefView {
                name: upper_camel_case_of(c.name@),
                nested: ctx.nested,
                body: TypeBodyView::Record(f),
            }] + s),
        },
    }
}

pub open spec fn complex_types_fn(ctx: ContextView, decls: Seq<AttributeGroup>) -> spec_fn(ComplexType) -> Result<Seq<TypeDefView>, XsdErrorView> {
    |c: ComplexType| complex_types_spec(ctx, decls, c)
}

pub open spec fn simple_types_fn(ctx: ContextView) -> spec_fn(SimpleType) -> Result<Seq<TypeDefView>, XsdErrorView> {
    |st: SimpleType| match simple_def_spec(ctx, st, st.name@) {
        Ok(d) => Ok(seq![d]),
        Err(e) => Err(e),
    }
}

pub open spec fn group_types_fn(ctx: ContextView) -> spec_fn(Group) -> Result<Seq<TypeDefView>, XsdErrorView> {
    |g: Group| match group_def_spec(ctx, g) {
        Ok(Some(d)) => Ok(seq![d]),
        Ok(None) => Ok(Seq::empty()),
        Err(e) => Err(e),
    }
}

/// Registering one top-level name, under its upper camel case.
pub open spec fn register_one(c: ContextView, n: Seq<char>) -> Result<ContextView, XsdErrorView> {
    let r = upper_camel_case_of(n);
    match find_entry(c.entries, n) {
        Some(x) => if x == r {
            Ok(c)
        } else {
            Err(XsdErrorView::ConflictingRegistration(n))
        },
        None => Ok(ContextView { prefix: c.prefix, entries: c.entries.push((n, r)), nested: c.nested }),
    }
}

/// Registering names in order; the first failure is the result.
pub open spec fn register_all(c: ContextView, names: Seq<Seq<char>>) -> Result<ContextView, XsdErrorView>
    decreases names.len(),
{
    if names.len() == 0 {
        Ok(c)
    } else {
        match register_all(c, names.drop_last()) {
            Err(e) => Err(e),
            Ok(c2) => register_one(c2, names.last()),
        }
    }
}

/// The names of the named groups, in order.
pub open spec fn group_names(g: Seq<Group>) -> Seq<Seq<char>>
    decreases g.len(),
{
    if g.len() == 0 {
        Seq::empty()
    } else {
        group_names(g.drop_last()) + match g.last().name {
            Some(n) => seq![n@],
            None => Seq::empty(),
        }
    }
}

/// The top-level names a schema declares: complex types, simple types,
/// named groups.
pub open spec fn declared_names(s: Schema) -> Seq<Seq<char>> {
    s.complex_types@.map_values(|c: ComplexType| c.name@) + s.simple_types@.map_values(|t: SimpleType| t.name@)
        + group_names(s.groups@)
}

/// The context a schema starts from: its prefix and no registrations.
pub open spec fn initial_context(s: Schema) -> ContextView {
    ContextView { prefix: opt_string_view(s.xsd_prefix), entries: Seq::empty(), nested: false }
}

/// Whether one of the definitions has the given name.
pub open spec fn has_name(d: Seq<TypeDefView>, n: Seq<char>) -> bool {
    exists|i: int| 0 <= i < d.len() && d[i].name == n
}

/// The definitions in order, each name kept only at its first definition.
pub open spec fn first_of_each_name(s: Seq<TypeDefView>) -> Seq<TypeDefView>
    decreases s.len(),
{
    if s.len() == 0 {
        Seq::empty()
    } else {
        let d = first_of_each_name(s.drop_last());
        if has_name(d, s.last().name) {
            d
        } else {
            d.push(s.last())
        }
    }
}

/// Compiling a schema: every top-level type name is registered first, so
/// that references may point forward; then the simple types, the complex
/// types, the elements and the groups are generated in order, and a name
/// defined twice keeps its first definition. Any failure fails the whole.
pub open spec fn compile_spec(s: Schema) -> Result<(Seq<TypeDefView>, Seq<(Seq<char>, Seq<char>)>), XsdErrorView> {
    match register_all(initial_context(s), declared_names(s)) {
        Err(e) => Err(e),
        Ok(c) => match then_concat(
            then_concat(
                then_concat(collect(s.simple_types@, simple_types_fn(c)), collect(s.complex_types@, complex_types_fn(c, s.attribute_groups@))),
                collect(s.elements@, element_types_fn(c)),
            ),
            collect(s.groups@, group_types_fn(c)),
        ) {
            Err(e) => Err(e),
            Ok(t) => Ok((first_of_each_name(t), c.entries.map_values(|e: (Seq<char>, Seq<char>)| (e.1, e.0)))),
        },
    }
}

/// No two definitions that a compilation emits have the same name.
pub proof fn lemma_emitted_names_unique(s: Seq<TypeDefView>)
    ensures
        forall|i: int, j: int| 0 <= i < j < first_of_each_name(s).len()
            ==> first_of_each_name(s)[i].name != first_of_each_name(s)[j].name,
    decreases s.len(),
{
    if s.len() > 0 {
        lemma_emitted_names_unique(s.drop_last());
        let d = first_of_each_name(s.drop_last());
        if !has_name(d, s.last().name) {
            let e = d.push(s.last());
            assert forall|i: int, j: int| 0 <= i < j < e.len() implies e[i].name != e[j].name by {
                if j == e.len() - 1 {
                    assert(e[i] == d[i]);
                }
            }
        }
    }
}

fn has_type_named(defs: &Vec<TypeDef>, name: &String) -> (r: bool)
    ensures
        r == has_name(types_view(defs@), name@),
{
    let ghost d = types_view(defs@);
    let mut i: usize = 0;
    while i < defs.len()
        invariant
            i <= defs@.len(),
            d == types_view(defs@),
            forall|j: int| 0 <= j < i ==> d[j].name != name@,
        decreases defs@.len() - i,
    {
        if crate::naming::chars_eq(defs[i].name.as_str(), name.as_str()) {
            assert(d[i as int].name == name@);
            return true;
        }
        i = i + 1;
    }
    false
}

/// Keeps each name's first definition (see [`first_of_each_name`]).
fn keep_first_of_each_name(types: Vec<TypeDef>) -> (r: Vec<TypeDef>)
    ensures
        types_view(r@) == first_of_each_name(types_view(types@)),
{
    let ghost all = types_view(types@);
    let mut rest = types;
    let mut out: Vec<TypeDef> = Vec::new();
    let ghost mut k: int = 0;
    assert(all.take(0) =~= Seq::<TypeDefView>::empty());
    assert(types_view(out@) =~= Seq::<TypeDefView>::empty());
    while rest.len() > 0
        invariant
            0 <= k <= all.len(),
            types_view(rest@) == all.skip(k),
            types_view(out@) == first_of_each_name(all.take(k)),
        decreases rest@.len(),
    {
        let ghost before = rest@;
        let t = rest.remove(0);
        assert(types_view(rest@) =~= types_view(before).skip(1));
        assert(all.skip(k).skip(1) =~= all.skip(k + 1));
        assert(types_view(before)[0] == t@);
        assert(all.skip(k)[0] == all[k]);
        assert(all.take(k + 1).drop_last() =~= all.take(k));
        assert(all.take(k + 1).last() == all[k]);
        if !has_type_named(&out, &t.name) {
            let ghost prev = out@;
            out.push(t);
            assert(types_view(out@) =~= types_view(prev).push(t@));
        }
        proof {
            k = k + 1;
        }
    }
    assert(all.skip(k).len() == 0);
    assert(all.take(k) =~= all);
    out
}

/// The view of a compilation's outcome.
pub open spec fn compiled_result(r: Result<Compiled, XsdError>) -> Result<(Seq<TypeDefView>, Seq<(Seq<char>, Seq<char>)>), XsdErrorView> {
    match r {
        Ok(c) => Ok((types_view(c.types@), c.names@.map_values(|p: (String, String)| (p.0@, p.1@)))),
        Err(e) => Err(e@),
    }
}

proof fn lemma_register_prefix_err(c: ContextView, names: Seq<Seq<char>>, k: int)
    requires
        0 <= k <= names.len(),
        register_all(c, names.take(k)) is Err,
    ensures
        register_all(c, names) == register_all(c, names.take(k)),
    decreases names.len() - k,
{
    if k < names.len() {
        assert(names.take(k + 1).drop_last() =~= names.take(k));
        lemma_register_prefix_err(c, names, k + 1);
    } else {
        assert(names.take(k) =~= names);
    }
}

fn register_names(context: &mut XsdContext, names: &Vec<String>) -> (r: Result<(), XsdError>)
    ensures
        match register_all(old(context)@, strings_view(names@)) {
            Ok(c) => r is Ok && final(context)@ == c,
            Err(e) => r matches Err(x) && x@ == e,
        },
{
    let ghost c0 = context@;
    let ghost nv = strings_view(names@);
    let mut i: usize = 0;
    assert(nv.take(0) =~= Seq::<Seq<char>>::empty());
    while i < names.len()
        invariant
            i <= names@.len(),
            nv == strings_view(names@),
            c0 == old(context)@,
            register_all(c0, nv.take(i as int)) == Ok::<ContextView, XsdErrorView>(context@),
        decreases names@.len() - i,
    {
        assert(nv.take(i + 1).drop_last() =~= nv.take(i as int));
        assert(nv.take(i + 1).last() == names@[i as int]@);
        let rust_name = type_name_of(names[i].as_str());
        match context.register(names[i].clone(), rust_name) {
            Ok(()) => {},
            Err(e) => {
                proof {
                    lemma_register_prefix_err(c0, nv, i + 1);
                }
                return Err(e);
            },
        }
        i = i + 1;
    }
    assert(nv.take(i as int) =~= nv);
    Ok(())
}

/// The first top-level attribute group declared under a name.
fn find_attribute_group_decl<'a>(decls: &'a Vec<AttributeGroup>, name: &str) -> (r: Option<&'a AttributeGroup>)
    ensures
        r matches Some(g) ==> find_attribute_group(decls@, name@) == Some(*g),
        r is None ==> find_attribute_group(decls@, name@) is None,
{
    let mut i: usize = 0;
    assert(decls@.skip(0) =~= decls@);
    while i < decls.len()
        invariant
            i <= decls@.len(),
            find_attribute_group(decls@, name@) == find_attribute_group(decls@.skip(i as int), name@),
        decreases decls@.len() - i,
    {
        assert(decls@.skip(i as int)[0] == decls@[i as int]);
        let found = match &decls[i].name {
            Some(n) => crate::naming::chars_eq(n.as_str(), name),
            None => false,
        };
        if found {
            return Some(&decls[i]);
        }
        assert(decls@.skip(i as int).skip(1) =~= decls@.skip(i + 1));
        i = i + 1;
    }
    assert(decls@.skip(i as int).len() == 0);
    None
}

impl AttributeGroup {
    /// The fields this reference brings (see [`group_ref_fields_spec`]).
    pub fn get_field_implementation(&self, context: &XsdContext, attribute_groups: &Vec<AttributeGroup>) -> (r: Result<Vec<FieldDef>, XsdError>)
        ensures
            fields_result(r) == group_ref_fields_spec(context@, attribute_groups@, *self),
    {
        let (_, local) = split_qname(self.reference.as_str());
        match find_attribute_group_decl(attribute_groups, local.as_str()) {
            Some(d) => attribute_list_fields(context, &d.attributes),
            None => Err(XsdError::UnresolvedReference(self.reference.clone())),
        }
    }

    /// The types this reference brings (see [`group_ref_sub_types_spec`]).
    pub fn get_sub_types_implementation(&self, context: &XsdContext, attribute_groups: &Vec<AttributeGroup>) -> (r: Result<Vec<TypeDef>, XsdError>)
        ensures
            types_result(r) == group_ref_sub_types_spec(context@, attribute_groups@, *self),
    {
        let (_, local) = split_qname(self.reference.as_str());
        match find_attribute_group_decl(attribute_groups, local.as_str()) {
            Some(d) => attribute_list_sub_types(context, &d.attributes),
            None => Err(XsdError::UnresolvedReference(self.reference.clone())),
        }
    }
}

fn group_ref_list_fields(context: &XsdContext, decls: &Vec<AttributeGroup>, items: &Vec<AttributeGroup>) -> (r: Result<Vec<FieldDef>, XsdError>)
    ensures
        fields_result(r) == collect(items@, group_ref_fields_fn(context@, decls@)),
{
    let ghost f = group_ref_fields_fn(context@, decls@);
    let mut out: Vec<FieldDef> = Vec::new();
    let mut i: usize = 0;
    proof {
        lemma_collect_empty(items@, f);
        assert(fields_view(out@) =~= Seq::<FieldView>::empty());
    }
    while i < items.len()
        invariant
            i <= items@.len(),
            f == group_ref_fields_fn(context@, decls@),
            collect(items@.take(i as int), f) == Ok::<Seq<FieldView>, XsdErrorView>(fields_view(out@)),
        decreases items@.len() - i,
    {
        proof {
            lemma_collect_step(items@, f, i as int);
        }
        match items[i].get_field_implementation(context, decls) {
            Ok(fields) => append_fields(&mut out, fields),
            Err(e) => {
                proof {
                    lemma_collect_prefix_err(items@, f, i + 1);
                }
                return Err(e);
            },
        }
        i = i + 1;
    }
    assert(items@.take(i as int) =~= items@);
    Ok(out)
}

fn group_ref_list_sub_types(context: &XsdContext, decls: &Vec<AttributeGroup>, items: &Vec<AttributeGroup>) -> (r: Result<Vec<TypeDef>, XsdError>)
    ensures
        types_result(r) == collect(items@, group_ref_sub_types_fn(context@, decls@)),
{
    let ghost f = group_ref_sub_types_fn(context@, decls@);
    let mut out: Vec<TypeDef> = Vec::new();
    let mut i: usize = 0;
    proof {
        lemma_collect_empty(items@, f);
        assert(types_view(out@) =~= Seq::<TypeDefView>::empty());
    }
    while i < items.len()
        invariant
            i <= items@.len(),
            f == group_ref_sub_types_fn(context@, decls@),
            collect(items@.take(i as int), f) == Ok::<Seq<TypeDefView>, XsdErrorView>(types_view(out@)),
        decreases items@.len() - i,
    {
        proof {
            lemma_collect_step(items@, f, i as int);
        }
        match items[i].get_sub_types_implementation(context, decls) {
            Ok(defs) => append_types(&mut out, defs),
            Err(e) => {
                proof {
                    lemma_collect_prefix_err(items@, f, i + 1);
                }
                return Err(e);
            },
        }
        i = i + 1;
    }
    assert(items@.take(i as int) =~= items@);
    Ok(out)
}

impl ComplexType {
    /// The fields of this type's record (see [`complex_fields_spec`]).
    pub fn get_field_implementation(&self, context: &XsdContext, attribute_groups: &Vec<AttributeGroup>) -> (r: Result<Vec<FieldDef>, XsdError>)
        ensures
            fields_result(r) == complex_fields_spec(context@, attribute_groups@, *self),
    {
        let mut out: Vec<FieldDef> = Vec::new();
        assert(fields_view(out@) =~= Seq::<FieldView>::empty());
        match &self.sequence {
            Some(s) => match s.get_field_implementation(context) {
                Ok(f) => append_fields(&mut out, f),
                Err(e) => return Err(e),
            },
            None => {},
        }
        assert(fields_view(out@) =~= Seq::<FieldView>::empty() + fields_view(out@));
        match &self.choice {
            Some(ch) => match ch.get_field_implementation(context) {
                Ok(f) => append_fields(&mut out, f),
                Err(e) => return Err(e),
            },
            None => {
                assert(fields_view(out@) =~= fields_view(out@) + Seq::<FieldView>::empty());
            },
        }
        match &self.complex_content {
            Some(cc) => match cc.get_field_implementation(context) {
                Ok(f) => append_fields(&mut out, f),
                Err(e) => return Err(e),
            },
            None => {
                assert(fields_view(out@) =~= fields_view(out@) + Seq::<FieldView>::empty());
            },
        }
        match &self.simple_content {
            Some(x) => match x.implement(context) {
                Ok(f) => append_fields(&mut out, f),
                Err(e) => return Err(e),
            },
            None => {
                assert(fields_view(out@) =~= fields_view(out@) + Seq::<FieldView>::empty());
            },
        }
        match attribute_list_fields(context, &self.attributes) {
            Ok(f) => append_fields(&mut out, f),
            Err(e) => return Err(e),
        }
        match group_ref_list_fields(context, attribute_groups, &self.attribute_groups) {
            Ok(f) => append_fields(&mut out, f),
            Err(e) => return Err(e),
        }
        Ok(out)
    }

    /// The types this type's parts contribute (see [`complex_sub_types_spec`]).
    pub fn get_sub_types_implementation(&self, context: &XsdContext, attribute_groups: &Vec<AttributeGroup>) -> (r: Result<Vec<TypeDef>, XsdError>)
        ensures
            types_result(r) == complex_sub_types_spec(context@, attribute_groups@, *self),
    {
        let mut out: Vec<TypeDef> = Vec::new();
        assert(types_view(out@) =~= Seq::<TypeDefView>::empty());
        match &self.sequence {
            Some(s) => match s.get_sub_types_implementation(context) {
                Ok(t) => append_types(&mut out, t),
                Err(e) => return Err(e),
            },
            None => {},
        }
        assert(types_view(out@) =~= Seq::<TypeDefView>::empty() + types_view(out@));
        match &self.choice {
            Some(ch) => match ch.get_sub_types_implementation(context) {
                Ok(t) => append_types(&mut out, t),
                Err(e) => return Err(e),
            },
            None => {
                assert(types_view(out@) =~= types_view(out@) + Seq::<TypeDefView>::empty());
            },
        }
        match &self.complex_content {
            Some(cc) => match cc.get_sub_type_implementation(context) {
                Ok(t) => append_types(&mut out, t),
                Err(e) => return Err(e),
            },
            None => {
                assert(types_view(out@) =~= types_view(out@) + Seq::<TypeDefView>::empty());
            },
        }
        match &self.simple_content {
            Some(x) => match x.get_sub_type_implementation(context) {
                Ok(t) => append_types(&mut out, t),
                Err(e) => return Err(e),
            },
            None => {
                assert(types_view(out@) =~= types_view(out@) + Seq::<TypeDefView>::empty());
            },
        }
        match attribute_list_sub_types(context, &self.attributes) {
            Ok(t) => append_types(&mut out, t),
            Err(e) => return Err(e),
        }
        match group_ref_list_sub_types(context, attribute_groups, &self.attribute_groups) {
            Ok(t) => append_types(&mut out, t),
            Err(e) => return Err(e),
        }
        Ok(out)
    }

    /// The types this complex type defines (see [`complex_types_spec`]).
    pub fn implement(&self, context: &XsdContext, attribute_groups: &Vec<AttributeGroup>) -> (r: Result<Vec<TypeDef>, XsdError>)
        ensures
            types_result(r) == complex_types_spec(context@, attribute_groups@, *self),
    {
        let fields = match self.get_field_implementation(context, attribute_groups) {
            Ok(f) => f,
            Err(e) => return Err(e),
        };
        let sub_types = match self.get_sub_types_implementation(context, attribute_groups) {
            Ok(s) => s,
            Err(e) => return Err(e),
        };
        let record = TypeDef {
            name: type_name_of(self.name.as_str()),
            nested: context.is_in_sub_module,
            body: TypeBody::Record(fields),
        };
        let ghost rv = record@;
        let mut out = vec![record];
        assert(types_view(out@) =~= seq![rv]);
        append_types(&mut out, sub_types);
        Ok(out)
    }
}


fn collect_names(schema: &Schema) -> (r: Vec<String>)
    ensures
        strings_view(r@) == declared_names(*schema),
{
    let mut out: Vec<String> = Vec::new();
    let mut i: usize = 0;
    while i < schema.complex_types.len()
        invariant
            i <= schema.complex_types@.len(),
            strings_view(out@) == schema.complex_types@.take(i as int).map_values(|c: ComplexType| c.name@),
        decreases schema.complex_types@.len() - i,
    {
        let ghost before = out@;
        out.push(schema.complex_types[i].name.clone());
        assert(strings_view(out@) =~= strings_view(before).push(schema.complex_types@[i as int].name@));
        assert(schema.complex_types@.take(i + 1).map_values(|c: ComplexType| c.name@)
            =~= schema.complex_types@.take(i as int).map_values(|c: ComplexType| c.name@).push(schema.complex_types@[i as int].name@));
        i = i + 1;
    }
    assert(schema.complex_types@.take(i as int) =~= schema.complex_types@);
    let ghost first = strings_view(out@);
    let mut i: usize = 0;
    assert(strings_view(out@) =~= first + schema.simple_types@.take(0).map_values(|t: SimpleType| t.name@));
    while i < schema.simple_types.len()
        invariant
            i <= schema.simple_types@.len(),
            strings_view(out@) == first + schema.simple_types@.take(i as int).map_values(|t: SimpleType| t.name@),
        decreases schema.simple_types@.len() - i,
    {
        let ghost before = out@;
        out.push(schema.simple_types[i].name.clone());
        assert(strings_view(out@) =~= strings_view(before).push(schema.simple_types@[i as int].name@));
        assert(first + schema.simple_types@.take(i + 1).map_values(|t: SimpleType| t.name@)
            =~= (first + schema.simple_types@.take(i as int).map_values(|t: SimpleType| t.name@)).push(schema.simple_types@[i as int].name@));
        i = i + 1;
    }
    assert(schema.simple_types@.take(i as int) =~= schema.simple_types@);
    let ghost second = strings_view(out@);
    let mut i: usize = 0;
    assert(schema.groups@.take(0) =~= Seq::<Group>::empty());
    assert(strings_view(out@) =~= second + group_names(schema.groups@.take(0)));
    while i < schema.groups.len()
        invariant
            i <= schema.groups@.len(),
            strings_view(out@) == second + group_names(schema.groups@.take(i as int)),
        decreases schema.groups@.len() - i,
    {
        let ghost before = out@;
        assert(schema.groups@.take(i + 1).drop_last() =~= schema.groups@.take(i as int));
        assert(schema.groups@.take(i + 1).last() == schema.groups@[i as int]);
        match &schema.groups[i].name {
            Some(n) => {
                out.push(n.clone());
                assert(strings_view(out@) =~= strings_view(before).push(n@));
                assert(second + group_names(schema.groups@.take(i + 1))
                    =~= (second + group_names(schema.groups@.take(i as int))).push(n@));
            },
            None => {
                assert(second + group_names(schema.groups@.take(i + 1))
                    =~= second + group_names(schema.groups@.take(i as int)));
            },
        }
        i = i + 1;
    }
    assert(schema.groups@.take(i as int) =~= schema.groups@);
    assert(strings_view(out@) =~= declared_names(*schema));
    out
}

fn simple_type_list(context: &XsdContext, items: &Vec<SimpleType>) -> (r: Result<Vec<TypeDef>, XsdError>)
    ensures
        types_result(r) == collect(items@, simple_types_fn(context@)),
{
    let ghost f = simple_types_fn(context@);
    let mut out: Vec<TypeDef> = Vec::new();
    let mut i: usize = 0;
    proof {
        lemma_collect_empty(items@, f);
        assert(types_view(out@) =~= Seq::<TypeDefView>::empty());
    }
    while i < items.len()
        invariant
            i <= items@.len(),
            f == simple_types_fn(context@),
            collect(items@.take(i as int), f) == Ok::<Seq<TypeDefView>, XsdErrorView>(types_view(out@)),
        decreases items@.len() - i,
    {
        proof {
            lemma_collect_step(items@, f, i as int);
        }
        match items[i].implement(context) {
            Ok(d) => {
                let ghost before = out@;
                out.push(d);
                assert(types_view(out@) =~= types_view(before) + seq![d@]);
            },
            Err(e) => {
                proof {
                    lemma_collect_prefix_err(items@, f, i + 1);
                }
                return Err(e);
            },
        }
        i = i + 1;
    }
    assert(items@.take(i as int) =~= items@);
    Ok(out)
}

fn complex_type_list(context: &XsdContext, decls: &Vec<AttributeGroup>, items: &Vec<ComplexType>) -> (r: Result<Vec<TypeDef>, XsdError>)
    ensures
        types_result(r) == collect(items@, complex_types_fn(context@, decls@)),
{
    let ghost f = complex_types_fn(context@, decls@);
    let mut out: Vec<TypeDef> = Vec::new();
    let mut i: usize = 0;
    proof {
        lemma_collect_empty(items@, f);
        assert(types_view(out@) =~= Seq::<TypeDefView>::empty());
    }
    while i < items.len()
        invariant
            i <= items@.len(),
            f == complex_types_fn(context@, decls@),
            collect(items@.take(i as int), f) == Ok::<Seq<TypeDefView>, XsdErrorView>(types_view(out@)),
        decreases items@.len() - i,
    {
        proof {
            lemma_collect_step(items@, f, i as int);
        }
        match items[i].implement(context, decls) {
            Ok(defs) => append_types(&mut out, defs),
            Err(e) => {
                proof {
                    lemma_collect_prefix_err(items@, f, i + 1);
                }
                return Err(e);
            },
        }
        i = i + 1;
    }
    assert(items@.take(i as int) =~= items@);
    Ok(out)
}

fn group_list(context: &XsdContext, items: &Vec<Group>) -> (r: Result<Vec<TypeDef>, XsdError>)
    ensures
        types_result(r) == collect(items@, group_types_fn(context@)),
{
    let ghost f = group_types_fn(context@);
    let mut out: Vec<TypeDef> = Vec::new();
    let mut i: usize = 0;
    proof {
        lemma_collect_empty(items@, f);
        assert(types_view(out@) =~= Seq::<TypeDefView>::empty());
    }
    while i < items.len()
        invariant
            i <= items@.len(),
            f == group_types_fn(context@),
            collect(items@.take(i as int), f) == Ok::<Seq<TypeDefView>, XsdErrorView>(types_view(out@)),
        decreases items@.len() - i,
    {
        proof {
            lemma_collect_step(items@, f, i as int);
        }
        match items[i].implement(context) {
            Ok(Some(d)) => {
                let ghost before = out@;
                out.push(d);
                assert(types_view(out@) =~= types_view(before) + seq![d@]);
            },
            Ok(None) => {
                assert(types_view(out@) =~= types_view(out@) + Seq::<TypeDefView>::empty());
            },
            Err(e) => {
                proof {
                    lemma_collect_prefix_err(items@, f, i + 1);
                }
                return Err(e);
            },
        }
        i = i + 1;
    }
    assert(items@.take(i as int) =~= items@);
    Ok(out)
}

impl Schema {
    /// Compiles the schema (see [`compile_spec`]).
    pub fn compile(&self) -> (r: Result<Compiled, XsdError>)
        ensures
            compiled_result(r) == compile_spec(*self),
    {
        let prefix = crate::output::copy_opt_string(&self.xsd_prefix);
        let mut context = XsdContext::new(prefix);
        assert(context@ == initial_context(*self));
        let names = collect_names(self);
        match register_names(&mut context, &names) {
            Ok(()) => {},
            Err(e) => return Err(e),
        }
        let mut types = match simple_type_list(&context, &self.simple_types) {
            Ok(t) => t,
            Err(e) => return Err(e),
        };
        match complex_type_list(&context, &self.attribute_groups, &self.complex_types) {
            Ok(t) => append_types(&mut types, t),
            Err(e) => return Err(e),
        }
        match element_list_types(&context, &self.elements) {
            Ok(t) => append_types(&mut types, t),
            Err(e) => return Err(e),
        }
        match group_list(&context, &self.groups) {
            Ok(t) => append_types(&mut types, t),
            Err(e) => return Err(e),
        }
        let types = keep_first_of_each_name(types);
        let ghost entries = context@.entries;
        let mut table: Vec<(String, String)> = Vec::new();
        let mut i: usize = 0;
        while i < context.user_types.len()
            invariant
                i <= context.user_types@.len(),
                entries == context@.entries,
                table@.len() == i,
                forall|j: int| 0 <= j < i ==> table@[j].0@ == entries[j].1 && table@[j].1@ == entries[j].0,
            decreases context.user_types@.len() - i,
        {
            let e = &context.user_types[i];
            table.push((e.1.clone(), e.0.clone()));
            i = i + 1;
        }
        let ghost tv = table@.map_values(|p: (String, String)| (p.0@, p.1@));
        assert(tv =~= entries.map_values(|e: (Seq<char>, Seq<char>)| (e.1, e.0)));
        Ok(Compiled { types, names: table })
    }
}


/// Every entry registers a name under its upper camel case.
pub open spec fn camel_entries(e: Seq<(Seq<char>, Seq<char>)>) -> bool {
    forall|i: int| 0 <= i < e.len() ==> e[i].1 == upper_camel_case_of(e[i].0)
}

proof fn lemma_find_entry_camel(e: Seq<(Seq<char>, Seq<char>)>, n: Seq<char>)
    requires
        camel_entries(e),
    ensures
        find_entry(e, n) matches Some(x) ==> x == upper_camel_case_of(n),
    decreases e.len(),
{
    if e.len() > 0 && e[0].0 != n {
        assert(camel_entries(e.skip(1))) by {
            assert forall|i: int| 0 <= i < e.skip(1).len() implies e.skip(1)[i].1 == upper_camel_case_of(e.skip(1)[i].0) by {
                assert(e.skip(1)[i] == e[i + 1]);
            }
        }
        lemma_find_entry_camel(e.skip(1), n);
    }
}

proof fn lemma_register_all_camel(c: ContextView, names: Seq<Seq<char>>)
    requires
        camel_entries(c.entries),
    ensures
        register_all(c, names) matches Ok(c2) && camel_entries(c2.entries)
            && forall|k: int| 0 <= k < names.len() ==> find_entry(c2.entries, #[trigger] names[k]) == Some(upper_camel_case_of(names[k])),
    decreases names.len(),
{
    if names.len() > 0 {
        let front = names.drop_last();
        lemma_register_all_camel(c, front);
        let c1 = register_all(c, front)->Ok_0;
        let n = names.last();
        lemma_find_entry_camel(c1.entries, n);
        let p = (n, upper_camel_case_of(n));
        if find_entry(c1.entries, n) is None {
            assert forall|m: Seq<char>| true implies find_entry(c1.entries.push(p), m) == (match find_entry(c1.entries, m) {
                Some(x) => Some(x),
                None => if p.0 == m { Some(p.1) } else { None },
            }) by {
                lemma_find_entry_push(c1.entries, p, m);
            }
        }
        let c2 = register_all(c, names)->Ok_0;
        assert forall|k: int| 0 <= k < names.len() implies find_entry(c2.entries, #[trigger] names[k]) == Some(upper_camel_case_of(names[k])) by {
            if k < names.len() - 1 {
                assert(front[k] == names[k]);
            }
        }
    }
}

/// Registering a schema's top-level names cannot fail, and afterwards each
/// declared name resolves to its upper camel case, wherever in the schema it
/// is referenced: forward references are legal.
pub proof fn lemma_declared_names_resolve(s: Schema)
    ensures
        register_all(initial_context(s), declared_names(s)) matches Ok(c)
            && forall|k: int| 0 <= k < declared_names(s).len() ==> find_entry(c.entries, #[trigger] declared_names(s)[k])
                == Some(upper_camel_case_of(declared_names(s)[k])),
{
    lemma_register_all_camel(initial_context(s), declared_names(s));
}

} // verus!
