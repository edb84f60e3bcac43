use vstd::prelude::*;
use crate::context::{TypeRef, TypeRefView};
use crate::error::{XsdError, XsdErrorView};

verus! {

/// How many values a generated field holds.
#[derive(Clone, Copy, Debug, PartialEq, Eq, Structural)]
pub enum Cardinality {
    /// Exactly one value.
    Scalar,
    /// One value or none.
    Optional,
    /// An ordered collection of values.
    Collection,
}

/// Where a field's value stands in the XML form of a record.
#[derive(Clone, Copy, Debug, PartialEq, Eq, Structural)]
pub enum Role {
    /// An attribute of the record's element.
    Attribute,
    /// A child element.
    Element,
    /// The element's text content.
    Text,
    /// The fields of another record, embedded at the same level.
    Flatten,
}

/// One field of a generated record, with its serialization metadata.
#[derive(Debug, PartialEq)]
pub struct FieldDef {
    pub name: String,
    /// The name on the wire, where it differs from the field's name.
    pub wire_name: Option<String>,
    pub type_ref: TypeRef,
    pub cardinality: Cardinality,
    pub role: Role,
}

/// The mathematical counterpart of [`FieldDef`].
pub struct FieldView {
    pub name: Seq<char>,
    pub wire_name: Option<Seq<char>>,
    pub type_ref: TypeRefView,
    pub cardinality: Cardinality,
    pub role: Role,
}

impl View for FieldDef {
    type V = FieldView;

    open spec fn view(&self) -> FieldView {
        FieldView {
            name: self.name@,
            wire_name: match self.wire_name {
                Some(w) => Some(w@),
                None => None,
            },
            type_ref: self.type_ref@,
            cardinality: self.cardinality,
            role: self.role,
        }
    }
}

/// What a generated type definition holds.
#[derive(Debug, PartialEq)]
pub enum TypeBody {
    /// A record of fields.
    Record(Vec<FieldDef>),
    /// A closed set of string literals, beside a default value that is none
    /// of them.
    Enumeration(Vec<String>),
    /// A whitespace-separated list of values of one type.
    List(TypeRef),
}

/// A generated type definition.
#[derive(Debug, PartialEq)]
pub struct TypeDef {
    pub name: String,
    /// Whether it belongs to the scope of an enclosing declaration rather
    /// than to the top level.
    pub nested: bool,
    pub body: TypeBody,
}

/// The mathematical counterpart of [`TypeBody`].
pub enum TypeBodyView {
    Record(Seq<FieldView>),
    Enumeration(Seq<Seq<char>>),
    List(TypeRefView),
}

/// The mathematical counterpart of [`TypeDef`].
pub struct TypeDefView {
    pub name: Seq<char>,
    pub nested: bool,
    pub body: TypeBodyView,
}

pub open spec fn strings_view(v: Seq<String>) -> Seq<Seq<char>> {
    v.map_values(|s: String| s@)
}

pub open spec fn fields_view(v: Seq<FieldDef>) -> Seq<FieldView> {
    v.map_values(|f: FieldDef| f@)
}

impl View for TypeDef {
    type V = TypeDefView;

    open spec fn view(&self) -> TypeDefView {
        TypeDefView {
            name: self.name@,
            nested: self.nested,
            body: match self.body {
                TypeBody::Record(f) => TypeBodyView::Record(fields_view(f@)),
                TypeBody::Enumeration(v) => TypeBodyView::Enumeration(strings_view(v@)),
                TypeBody::List(t) => TypeBodyView::List(t@),
            },
        }
    }
}

pub open spec fn types_view(v: Seq<TypeDef>) -> Seq<TypeDefView> {
    v.map_values(|t: TypeDef| t@)
}

/// The view of a result that carries fields.
pub open spec fn fields_result(r: Result<Vec<FieldDef>, XsdError>) -> Result<Seq<FieldView>, XsdErrorView> {
    match r {
        Ok(v) => Ok(fields_view(v@)),
        Err(e) => Err(e@),
    }
}

/// The view of a result that carries type definitions.
pub open spec fn types_result(r: Result<Vec<TypeDef>, XsdError>) -> Result<Seq<TypeDefView>, XsdErrorView> {
    match r {
        Ok(v) => Ok(types_view(v@)),
        Err(e) => Err(e@),
    }
}

/// Applies `f` to each item in order and concatenates what it gives; the
/// first failure is the result.
pub open spec fn collect<T, U>(s: Seq<T>, f: spec_fn(T) -> Result<Seq<U>, XsdErrorView>) -> Result<Seq<U>, XsdErrorView>
    decreases s.len(),
{
    if s.len() == 0 {
        Ok(Seq::empty())
    } else {
        match collect(s.drop_last(), f) {
            Ok(a) => match f(s.last()) {
                Ok(b) => Ok(a + b),
                Err(e) => Err(e),
            },
            Err(e) => Err(e),
        }
    }
}

/// Appends generated fields.
pub fn append_fields(dst: &mut Vec<FieldDef>, src: Vec<FieldDef>)
    ensures
        fields_view(final(dst)@) == fields_view(old(dst)@) + fields_view(src@),
{
    let ghost s0 = src@;
    let mut src = src;
    dst.append(&mut src);
    assert(fields_view(dst@) =~= fields_view(old(dst)@) + fields_view(s0));
}

/// Appends generated type definitions.
pub fn append_types(dst: &mut Vec<TypeDef>, src: Vec<TypeDef>)
    ensures
        types_view(final(dst)@) == types_view(old(dst)@) + types_view(src@),
{
    let ghost s0 = src@;
    let mut src = src;
    dst.append(&mut src);
    assert(types_view(dst@) =~= types_view(old(dst)@) + types_view(s0));
}

} // verus!

verus! {

/// The view of an optional string.
pub open spec fn opt_string_view(o: Option<String>) -> Option<Seq<char>> {
    match o {
        Some(s) => Some(s@),
        None => None,
    }
}

/// A copy of an optional string.
pub fn copy_opt_string(o: &Option<String>) -> (r: Option<String>)
    ensures
        opt_string_view(r) == opt_string_view(*o),
{
    match o {
        Some(s) => Some(s.clone()),
        None => None,
    }
}

} // verus!

verus! {

/// Once a prefix of the items fails, the whole collection fails the same way.
pub proof fn lemma_collect_prefix_err<T, U>(s: Seq<T>, f: spec_fn(T) -> Result<Seq<U>, XsdErrorView>, k: int)
    requires
        0 <= k <= s.len(),
        collect(s.take(k), f) is Err,
    ensures
        collect(s, f) == collect(s.take(k), f),
    decreases s.len() - k,
{
    if k < s.len() {
        assert(s.take(k + 1).drop_last() =~= s.take(k));
        lemma_collect_prefix_err(s, f, k + 1);
    } else {
        assert(s.take(k) =~= s);
    }
}

/// One more item extends the collection of a prefix.
pub proof fn lemma_collect_step<T, U>(s: Seq<T>, f: spec_fn(T) -> Result<Seq<U>, XsdErrorView>, k: int)
    requires
        0 <= k < s.len(),
    ensures
        collect(s.take(k + 1), f) == (match collect(s.take(k), f) {
            Ok(a) => match f(s[k]) {
                Ok(b) => Ok(a + b),
                Err(e) => Err(e),
            },
            Err(e) => Err(e),
        }),
{
    assert(s.take(k + 1).drop_last() =~= s.take(k));
    assert(s.take(k + 1).last() == s[k]);
}

/// The collection of no items is empty.
pub proof fn lemma_collect_empty<T, U>(s: Seq<T>, f: spec_fn(T) -> Result<Seq<U>, XsdErrorView>)
    ensures
        collect(s.take(0), f) == Ok::<Seq<U>, XsdErrorView>(Seq::empty()),
{
    assert(s.take(0) =~= Seq::<T>::empty());
}

} // verus!
