use vstd::prelude::*;
use vstd::string::*;
use crate::error::{XsdError, XsdErrorView};
use crate::mapping::{Primitive, builtin_spec, builtin_type, rust_name_spec};
use crate::naming::{chars_eq, split_qname, qname_prefix, qname_local};

verus! {

/// What a type reference resolves to: a built-in primitive or a generated
/// user type, by its generated name.
#[derive(Debug, PartialEq)]
pub enum TypeRef {
    Primitive(Primitive),
    User(String),
}

/// The mathematical counterpart of [`TypeRef`].
pub enum TypeRefView {
    Primitive(Primitive),
    User(Seq<char>),
}

impl View for TypeRef {
    type V = TypeRefView;

    open spec fn view(&self) -> TypeRefView {
        match self {
            TypeRef::Primitive(p) => TypeRefView::Primitive(*p),
            TypeRef::User(s) => TypeRefView::User(s@),
        }
    }
}

impl TypeRef {
    /// The target type's name, as generated code writes it.
    pub fn target_name(&self) -> (r: String)
        ensures
            r@ == type_ref_name(self@),
    {
        match self {
            TypeRef::Primitive(p) => String::from_str(p.rust_name()),
            TypeRef::User(s) => s.clone(),
        }
    }
}

/// The name that generated code writes for a resolved type.
pub open spec fn type_ref_name(t: TypeRefView) -> Seq<char> {
    match t {
        TypeRefView::Primitive(p) => rust_name_spec(p),
        TypeRefView::User(s) => s,
    }
}

/// The representation registered for a name: the first entry that has it.
pub open spec fn find_entry(e: Seq<(Seq<char>, Seq<char>)>, name: Seq<char>) -> Option<Seq<char>>
    decreases e.len(),
{
    if e.len() == 0 {
        None
    } else if e[0].0 == name {
        Some(e[0].1)
    } else {
        find_entry(e.skip(1), name)
    }
}

pub proof fn lemma_find_entry_push(e: Seq<(Seq<char>, Seq<char>)>, p: (Seq<char>, Seq<char>), n: Seq<char>)
    ensures
        find_entry(e.push(p), n) == (match find_entry(e, n) {
            Some(x) => Some(x),
            None => if p.0 == n { Some(p.1) } else { None },
        }),
    decreases e.len(),
{
    let q = e.push(p);
    if e.len() > 0 {
        assert(q[0] == e[0]);
        assert(q.skip(1) =~= e.skip(1).push(p));
        lemma_find_entry_push(e.skip(1), p, n);
    } else {
        assert(q[0] == p);
        assert(q.skip(1) =~= Seq::<(Seq<char>, Seq<char>)>::empty());
        assert(find_entry(q.skip(1), n) is None);
    }
}

/// The resolution facts of one compilation: the prefix that the schema binds
/// to the XML Schema namespace, the user types registered so far, and whether
/// a nested type is being generated.
pub struct XsdContext {
    pub xsd_prefix: Option<String>,
    pub user_types: Vec<(String, String)>,
    pub is_in_sub_module: bool,
}

/// The XML Schema namespace.
pub const XSD_NAMESPACE: &'static str = "http://www.w3.org/2001/XMLSchema";

/// The view of namespace bindings, as (prefix, URI) pairs.
pub open spec fn bindings_view(b: Seq<(Option<String>, String)>) -> Seq<(Option<Seq<char>>, Seq<char>)> {
    b.map_values(|p: (Option<String>, String)| (match p.0 {
        Some(s) => Some(s@),
        None => None,
    }, p.1@))
}

/// The prefix of the first binding of the XML Schema namespace, if any.
pub open spec fn xsd_binding(b: Seq<(Option<Seq<char>>, Seq<char>)>) -> Option<Option<Seq<char>>>
    decreases b.len(),
{
    if b.len() == 0 {
        None
    } else if b[0].1 == XSD_NAMESPACE@ {
        Some(b[0].0)
    } else {
        xsd_binding(b.skip(1))
    }
}

/// The mathematical counterpart of [`XsdContext`].
pub struct ContextView {
    /// The prefix bound to the XML Schema namespace.
    pub prefix: Option<Seq<char>>,
    /// The registered user types, as pairs of XSD name and generated name.
    pub entries: Seq<(Seq<char>, Seq<char>)>,
    /// Whether a nested type is being generated.
    pub nested: bool,
}

impl ContextView {
    /// What the target of a `ref` resolves to.
    pub open spec fn reference_spec(&self, r: Seq<char>) -> Result<TypeRefView, XsdErrorView> {
        match self.lookup_spec(r) {
            Ok(t) => Ok(t),
            Err(_) => Err(XsdErrorView::UnresolvedReference(r)),
        }
    }

    /// The same context, with the nested-generation flag set to `v`.
    pub open spec fn with_nested(self, v: bool) -> ContextView {
        ContextView { prefix: self.prefix, entries: self.entries, nested: v }
    }

    /// What a qualified name resolves to: with the XML Schema prefix, an entry
    /// of the built-in table; otherwise a registered user type; else nothing.
    pub open spec fn lookup_spec(&self, q: Seq<char>) -> Result<TypeRefView, XsdErrorView> {
        let local = qname_local(q);
        if same_prefix(qname_prefix(q), self.prefix) {
            match builtin_spec(local) {
                Some(p) => Ok(TypeRefView::Primitive(p)),
                None => Err(XsdErrorView::UnknownType(q)),
            }
        } else {
            match find_entry(self.entries, local) {
                Some(r) => Ok(TypeRefView::User(r)),
                None => Err(XsdErrorView::UnknownType(q)),
            }
        }
    }
}

impl View for XsdContext {
    type V = ContextView;

    open spec fn view(&self) -> ContextView {
        ContextView { prefix: self.prefix_view(), entries: self.entries(), nested: self.is_in_sub_module }
    }
}

/// Whether a name's prefix is the one bound to the XML Schema namespace.
pub open spec fn same_prefix(p: Option<Seq<char>>, x: Option<Seq<char>>) -> bool {
    match (p, x) {
        (Some(a), Some(b)) => a == b,
        (None, None) => true,
        _ => false,
    }
}

impl XsdContext {
    /// The registered user types, as pairs of XSD name and generated name.
    pub open spec fn entries(&self) -> Seq<(Seq<char>, Seq<char>)> {
        self.user_types@.map_values(|e: (String, String)| (e.0@, e.1@))
    }

    pub open spec fn prefix_view(&self) -> Option<Seq<char>> {
        match self.xsd_prefix {
            Some(p) => Some(p@),
            None => None,
        }
    }

    /// Resolves the target of a `ref`: as a type name, except that a failure
    /// is an unresolved reference.
    pub fn resolve_reference(&self, r: &str) -> (res: Result<TypeRef, XsdError>)
        ensures
            res matches Ok(t) ==> self@.reference_spec(r@) == Ok::<TypeRefView, XsdErrorView>(t@),
            res matches Err(e) ==> self@.reference_spec(r@) == Err::<TypeRefView, XsdErrorView>(e@),
    {
        match self.lookup(r) {
            Ok(t) => Ok(t),
            Err(_) => Err(XsdError::UnresolvedReference(String::from_str(r))),
        }
    }

    /// A fresh context seeded from a schema's namespace bindings, as
    /// (prefix, URI) pairs in document order (`None`: the default namespace).
    /// The first binding of the XML Schema namespace gives the prefix; a
    /// schema that binds it nowhere is not a schema document.
    pub fn from_namespaces(bindings: &Vec<(Option<String>, String)>) -> (r: Result<XsdContext, XsdError>)
        ensures
            match xsd_binding(bindings_view(bindings@)) {
                Some(p) => r matches Ok(c) && c@ == (ContextView { prefix: p, entries: Seq::empty(), nested: false }),
                None => r matches Err(e) && e@ == XsdErrorView::SchemaParseError(XSD_NAMESPACE@),
            },
    {
        let ghost bv = bindings_view(bindings@);
        let mut i: usize = 0;
        assert(bv.skip(0) =~= bv);
        while i < bindings.len()
            invariant
                i <= bindings@.len(),
                bv == bindings_view(bindings@),
                xsd_binding(bv) == xsd_binding(bv.skip(i as int)),
            decreases bindings@.len() - i,
        {
            let b = &bindings[i];
            assert(bv.skip(i as int)[0] == bv[i as int]);
            if crate::naming::chars_eq(b.1.as_str(), XSD_NAMESPACE) {
                let prefix = match &b.0 {
                    Some(p) => Some(p.clone()),
                    None => None,
                };
                return Ok(XsdContext::new(prefix));
            }
            assert(bv.skip(i as int).skip(1) =~= bv.skip(i + 1));
            i = i + 1;
        }
        assert(bv.skip(i as int).len() == 0);
        Err(XsdError::SchemaParseError(String::from_str(XSD_NAMESPACE)))
    }

    /// A fresh context for a schema that binds `xsd_prefix` to the XML
    /// Schema namespace (`None`: it is the default namespace).
    pub fn new(xsd_prefix: Option<String>) -> (r: XsdContext)
        ensures
            r.xsd_prefix == xsd_prefix,
            r.entries() == Seq::<(Seq<char>, Seq<char>)>::empty(),
            !r.is_in_sub_module,
    {
        let r = XsdContext { xsd_prefix, user_types: Vec::new(), is_in_sub_module: false };
        assert(r.entries() =~= Seq::<(Seq<char>, Seq<char>)>::empty());
        r
    }

    /// A copy of this context.
    pub fn duplicate(&self) -> (r: XsdContext)
        ensures
            r@ == self@,
    {
        let xsd_prefix = match &self.xsd_prefix {
            Some(p) => Some(p.clone()),
            None => None,
        };
        let mut user_types: Vec<(String, String)> = Vec::new();
        let mut i: usize = 0;
        while i < self.user_types.len()
            invariant
                i <= self.user_types@.len(),
                user_types@.len() == i,
                forall|j: int| 0 <= j < i ==> user_types@[j].0@ == self.user_types@[j].0@
                    && user_types@[j].1@ == self.user_types@[j].1@,
            decreases self.user_types@.len() - i,
        {
            let e = &self.user_types[i];
            user_types.push((e.0.clone(), e.1.clone()));
            i = i + 1;
        }
        let r = XsdContext { xsd_prefix, user_types, is_in_sub_module: self.is_in_sub_module };
        assert(r.entries() =~= self.entries());
        r
    }

    /// Marks whether a nested type is being generated.
    pub fn set_is_in_sub_module(&mut self, value: bool)
        ensures
            final(self)@ == old(self)@.with_nested(value),
            final(self).xsd_prefix == old(self).xsd_prefix,
            final(self).user_types == old(self).user_types,
    {
        self.is_in_sub_module = value;
    }

    /// The generated name registered for an XSD name, if any.
    pub fn find(&self, name: &str) -> (r: Option<String>)
        ensures
            r matches Some(s) ==> find_entry(self.entries(), name@) == Some(s@),
            r is None ==> find_entry(self.entries(), name@) is None,
    {
        let ghost e = self.entries();
        assert(e.skip(0) =~= e);
        let mut i: usize = 0;
        while i < self.user_types.len()
            invariant
                i <= self.user_types@.len(),
                e == self.entries(),
                find_entry(e, name@) == find_entry(e.skip(i as int), name@),
            decreases self.user_types@.len() - i,
        {
            let entry = &self.user_types[i];
            assert(e.skip(i as int)[0] == e[i as int]);
            if chars_eq(entry.0.as_str(), name) {
                return Some(entry.1.clone());
            }
            assert(e.skip(i as int).skip(1) =~= e.skip(i + 1));
            i = i + 1;
        }
        assert(e.skip(i as int).len() == 0);
        None
    }

    /// Registers a user type under an XSD name. Registering a name again with
    /// the same generated name changes nothing; with another one it fails.
    pub fn register(&mut self, name: String, rust_name: String) -> (r: Result<(), XsdError>)
        ensures
            final(self).xsd_prefix == old(self).xsd_prefix,
            final(self).is_in_sub_module == old(self).is_in_sub_module,
            match find_entry(old(self).entries(), name@) {
                Some(x) => if x == rust_name@ {
                    r is Ok && final(self).entries() == old(self).entries()
                } else {
                    r matches Err(e) && e@ == XsdErrorView::ConflictingRegistration(name@)
                        && final(self).entries() == old(self).entries()
                },
                None => r is Ok && final(self).entries() == old(self).entries().push((name@, rust_name@)),
            },
            forall|n: Seq<char>| n != name@ ==> find_entry(final(self).entries(), n)
                == find_entry(old(self).entries(), n),
            r is Ok ==> find_entry(final(self).entries(), name@) == Some(rust_name@),
    {
        match self.find(name.as_str()) {
            Some(existing) => {
                if chars_eq(existing.as_str(), rust_name.as_str()) {
                    Ok(())
                } else {
                    Err(XsdError::ConflictingRegistration(name))
                }
            },
            None => {
                let ghost before = self.entries();
                self.user_types.push((name, rust_name));
                proof {
                    assert(self.entries() =~= before.push((name@, rust_name@)));
                    assert forall|n: Seq<char>| true implies find_entry(self.entries(), n) == (match find_entry(before, n) {
                        Some(x) => Some(x),
                        None => if name@ == n { Some(rust_name@) } else { None },
                    }) by {
                        lemma_find_entry_push(before, (name@, rust_name@), n);
                    }
                }
                Ok(())
            },
        }
    }

    /// Resolves a qualified type name (see [`ContextView::lookup_spec`]).
    pub fn lookup(&self, q: &str) -> (r: Result<TypeRef, XsdError>)
        ensures
            r matches Ok(t) ==> self@.lookup_spec(q@) == Ok::<TypeRefView, XsdErrorView>(t@),
            r matches Err(e) ==> self@.lookup_spec(q@) == Err::<TypeRefView, XsdErrorView>(e@),
    {
        let (prefix, local) = split_qname(q);
        let same = match (&prefix, &self.xsd_prefix) {
            (Some(a), Some(b)) => chars_eq(a.as_str(), b.as_str()),
            (None, None) => true,
            _ => false,
        };
        if same {
            match builtin_type(local.as_str()) {
                Some(p) => Ok(TypeRef::Primitive(p)),
                None => Err(XsdError::UnknownType(String::from_str(q))),
            }
        } else {
            match self.find(local.as_str()) {
                Some(r) => Ok(TypeRef::User(r)),
                None => Err(XsdError::UnknownType(String::from_str(q))),
            }
        }
    }
}

} // verus!

verus! {

/// Under the XML Schema prefix, a name of the built-in table resolves to its
/// fixed primitive and any other name fails with `UnknownType`; under another
/// prefix, a name that no registration knows fails the same way.
pub proof fn lemma_lookup_builtin(ctx: ContextView, q: Seq<char>)
    ensures
        same_prefix(qname_prefix(q), ctx.prefix) ==> ctx.lookup_spec(q) == (match builtin_spec(qname_local(q)) {
            Some(p) => Ok(TypeRefView::Primitive(p)),
            None => Err(XsdErrorView::UnknownType(q)),
        }),
        !same_prefix(qname_prefix(q), ctx.prefix) && find_entry(ctx.entries, qname_local(q)) is None
            ==> ctx.lookup_spec(q) == Err::<TypeRefView, XsdErrorView>(XsdErrorView::UnknownType(q)),
{
}

} // verus!
