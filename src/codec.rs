use vstd::prelude::*;
use crate::error::{XsdError, XsdErrorView};
use crate::output::strings_view;

verus! {

// ----- enumerations -----

/// Position of the first literal equal to `s`, or the number of literals.
pub open spec fn first_index(values: Seq<Seq<char>>, s: Seq<char>) -> nat
    decreases values.len(),
{
    if values.len() == 0 {
        0
    } else if values[0] == s {
        0
    } else {
        1 + first_index(values.skip(1), s)
    }
}

/// Reading a string as a value of an enumeration over `values`: the variant
/// of the first equal literal, counted from 1 (0 is the default value, which
/// no string gives); any other string is invalid.
pub open spec fn parse_literal_spec(values: Seq<Seq<char>>, s: Seq<char>) -> Result<nat, XsdErrorView> {
    if first_index(values, s) < values.len() {
        Ok(first_index(values, s) + 1)
    } else {
        Err(XsdErrorView::InvalidValue(s))
    }
}

/// The literal of a variant (counted from 1).
pub open spec fn literal_spec(values: Seq<Seq<char>>, variant: nat) -> Seq<char> {
    values[variant - 1]
}

/// The literals are pairwise distinct.
pub open spec fn distinct(values: Seq<Seq<char>>) -> bool {
    forall|i: int, j: int| 0 <= i < values.len() && 0 <= j < values.len() && i != j ==> values[i] != values[j]
}

proof fn lemma_first_index(values: Seq<Seq<char>>, s: Seq<char>, i: int)
    requires
        0 <= i <= values.len(),
        forall|j: int| 0 <= j < i ==> values[j] != s,
        i == values.len() || values[i] == s,
    ensures
        first_index(values, s) == i,
    decreases i,
{
    if i > 0 {
        let t = values.skip(1);
        assert forall|j: int| 0 <= j < i - 1 implies t[j] != s by {
            assert(t[j] == values[j + 1]);
        }
        lemma_first_index(t, s, i - 1);
    }
}

proof fn lemma_first_index_found(values: Seq<Seq<char>>, s: Seq<char>)
    ensures
        first_index(values, s) <= values.len(),
        first_index(values, s) < values.len() ==> values[first_index(values, s) as int] == s,
    decreases values.len(),
{
    if values.len() > 0 && values[0] != s {
        lemma_first_index_found(values.skip(1), s);
    }
}

/// Reads a string as a value of an enumeration over `values` (see
/// [`parse_literal_spec`]).
pub fn parse_literal(values: &Vec<String>, s: &str) -> (r: Result<usize, XsdError>)
    ensures
        r matches Ok(k) ==> parse_literal_spec(strings_view(values@), s@) == Ok::<nat, XsdErrorView>(k as nat),
        r matches Err(e) ==> parse_literal_spec(strings_view(values@), s@) == Err::<nat, XsdErrorView>(e@),
{
    let ghost v = strings_view(values@);
    let mut i: usize = 0;
    while i < values.len()
        invariant
            i <= values@.len(),
            v == strings_view(values@),
            forall|j: int| 0 <= j < i ==> v[j] != s@,
        decreases values@.len() - i,
    {
        if crate::naming::chars_eq(values[i].as_str(), s) {
            proof {
                lemma_first_index(v, s@, i as int);
            }
            return Ok(i + 1);
        }
        i = i + 1;
    }
    proof {
        lemma_first_index(v, s@, i as int);
    }
    Err(XsdError::InvalidValue(String::from_str(s)))
}

/// The literal of a variant (counted from 1). The default value has none:
/// writing it out is a programming error, which `requires` excludes.
pub fn literal_of(values: &Vec<String>, variant: usize) -> (r: String)
    requires
        1 <= variant <= values@.len(),
    ensures
        r@ == literal_spec(strings_view(values@), variant as nat),
{
    values[variant - 1].clone()
}

/// Writing out a value that was read from a string gives that string back.
pub proof fn lemma_literal_read_then_write(values: Seq<Seq<char>>, s: Seq<char>)
    ensures
        parse_literal_spec(values, s) matches Ok(k) ==> 1 <= k <= values.len() && literal_spec(values, k) == s,
{
    lemma_first_index_found(values, s);
}

/// Over distinct literals, reading the literal of a variant gives that
/// variant back.
pub proof fn lemma_literal_write_then_read(values: Seq<Seq<char>>, variant: nat)
    requires
        distinct(values),
        1 <= variant <= values.len(),
    ensures
        parse_literal_spec(values, literal_spec(values, variant)) == Ok::<nat, XsdErrorView>(variant),
{
    let i = variant - 1;
    assert forall|j: int| 0 <= j < i implies values[j] != values[i as int] by {}
    lemma_first_index(values, values[i as int], i as int);
}

// ----- repeated choices -----

/// The view of a list of child elements, as (name, content) pairs.
pub open spec fn children_view(c: Seq<(String, String)>) -> Seq<(Seq<char>, Seq<char>)> {
    c.map_values(|p: (String, String)| (p.0@, p.1@))
}

/// The view of one list of contents per element name.
pub open spec fn lists_view(l: Seq<Vec<String>>) -> Seq<Seq<Seq<char>>> {
    l.map_values(|v: Vec<String>| strings_view(v@))
}

/// The contents of the children named `n`, in document order.
pub open spec fn pick(children: Seq<(Seq<char>, Seq<char>)>, n: Seq<char>) -> Seq<Seq<char>>
    decreases children.len(),
{
    if children.len() == 0 {
        Seq::empty()
    } else {
        let rest = pick(children.drop_last(), n);
        if children.last().0 == n {
            rest.push(children.last().1)
        } else {
            rest
        }
    }
}

/// Reading the children of a repeated choice: one list per declared name,
/// each in document order; the interleaving between names is not kept.
pub open spec fn decode_spec(names: Seq<Seq<char>>, children: Seq<(Seq<char>, Seq<char>)>) -> Seq<Seq<Seq<char>>> {
    Seq::new(names.len(), |k: int| pick(children, names[k]))
}

/// The children that one list writes: each content under the name.
pub open spec fn block(n: Seq<char>, contents: Seq<Seq<char>>) -> Seq<(Seq<char>, Seq<char>)> {
    contents.map_values(|p: Seq<char>| (n, p))
}

/// Writing the first `m` lists: all of each name's children, name after
/// name, in declaration order.
pub open spec fn encode_spec(names: Seq<Seq<char>>, lists: Seq<Seq<Seq<char>>>, m: int) -> Seq<(Seq<char>, Seq<char>)>
    decreases m,
{
    if m <= 0 {
        Seq::empty()
    } else {
        encode_spec(names, lists, m - 1) + block(names[m - 1], lists[m - 1])
    }
}

proof fn lemma_pick_concat(a: Seq<(Seq<char>, Seq<char>)>, b: Seq<(Seq<char>, Seq<char>)>, n: Seq<char>)
    ensures
        pick(a + b, n) == pick(a, n) + pick(b, n),
    decreases b.len(),
{
    if b.len() == 0 {
        assert(a + b =~= a);
        assert(pick(a, n) + pick(b, n) =~= pick(a, n));
    } else {
        assert((a + b).drop_last() =~= a + b.drop_last());
        assert((a + b).last() == b.last());
        lemma_pick_concat(a, b.drop_last(), n);
        if b.last().0 == n {
            assert(pick(a, n) + pick(b.drop_last(), n).push(b.last().1)
                =~= (pick(a, n) + pick(b.drop_last(), n)).push(b.last().1));
        }
    }
}

proof fn lemma_pick_block(n: Seq<char>, contents: Seq<Seq<char>>, m: Seq<char>)
    ensures
        pick(block(n, contents), m) == (if n == m { contents } else { Seq::<Seq<char>>::empty() }),
    decreases contents.len(),
{
    let b = block(n, contents);
    if contents.len() > 0 {
        assert(b.drop_last() =~= block(n, contents.drop_last()));
        lemma_pick_block(n, contents.drop_last(), m);
        if n == m {
            assert(contents.drop_last().push(contents.last()) =~= contents);
        }
    } else {
        assert(b.len() == 0);
    }
}

proof fn lemma_pick_encode(names: Seq<Seq<char>>, lists: Seq<Seq<Seq<char>>>, m: int, j: int)
    requires
        distinct(names),
        lists.len() == names.len(),
        0 <= m <= names.len(),
        0 <= j < names.len(),
    ensures
        pick(encode_spec(names, lists, m), names[j]) == (if j < m { lists[j] } else { Seq::<Seq<char>>::empty() }),
    decreases m,
{
    if m > 0 {
        lemma_pick_encode(names, lists, m - 1, j);
        lemma_pick_concat(encode_spec(names, lists, m - 1), block(names[m - 1], lists[m - 1]), names[j]);
        lemma_pick_block(names[m - 1], lists[m - 1], names[j]);
        if j == m - 1 {
            assert(Seq::<Seq<char>>::empty() + lists[j] =~= lists[j]);
        } else {
            assert(names[m - 1] != names[j]);
            if j < m - 1 {
                assert(lists[j] + Seq::<Seq<char>>::empty() =~= lists[j]);
            } else {
                assert(Seq::<Seq<char>>::empty() + Seq::<Seq<char>>::empty() =~= Seq::<Seq<char>>::empty());
            }
        }
    }
}

/// Writing the lists of a repeated choice over distinct element names and
/// reading the result back gives the same lists.
pub proof fn lemma_choice_round_trip(names: Seq<Seq<char>>, lists: Seq<Seq<Seq<char>>>)
    requires
        distinct(names),
        lists.len() == names.len(),
    ensures
        decode_spec(names, encode_spec(names, lists, names.len() as int)) == lists,
{
    let d = decode_spec(names, encode_spec(names, lists, names.len() as int));
    assert forall|k: int| 0 <= k < names.len() implies d[k] == lists[k] by {
        lemma_pick_encode(names, lists, names.len() as int, k);
    }
    assert(d =~= lists);
}

/// Reads the children of a repeated choice into one list per declared name
/// (see [`decode_spec`]); children of other names are left out.
pub fn decode_choice(names: &Vec<String>, children: &Vec<(String, String)>) -> (r: Vec<Vec<String>>)
    ensures
        lists_view(r@) == decode_spec(strings_view(names@), children_view(children@)),
{
    let ghost cv = children_view(children@);
    let mut out: Vec<Vec<String>> = Vec::new();
    let mut k: usize = 0;
    while k < names.len()
        invariant
            k <= names@.len(),
            cv == children_view(children@),
            out@.len() == k,
            forall|j: int| 0 <= j < k ==> strings_view(out@[j]@) == pick(cv, names@[j]@),
        decreases names@.len() - k,
    {
        let mut list: Vec<String> = Vec::new();
        let mut i: usize = 0;
        assert(cv.take(0) =~= Seq::<(Seq<char>, Seq<char>)>::empty());
        assert(strings_view(list@) =~= Seq::<Seq<char>>::empty());
        while i < children.len()
            invariant
                i <= children@.len(),
                k < names@.len(),
                cv == children_view(children@),
                strings_view(list@) == pick(cv.take(i as int), names@[k as int]@),
            decreases children@.len() - i,
        {
            assert(cv.take(i + 1).drop_last() =~= cv.take(i as int));
            let child = &children[i];
            if crate::naming::chars_eq(child.0.as_str(), names[k].as_str()) {
                let ghost before = list@;
                list.push(child.1.clone());
                assert(strings_view(list@) =~= strings_view(before).push(child.1@));
            }
            i = i + 1;
        }
        assert(cv.take(i as int) =~= cv);
        out.push(list);
        k = k + 1;
    }
    assert(lists_view(out@) =~= decode_spec(strings_view(names@), cv));
    out
}

/// Writes the lists of a repeated choice as children (see [`encode_spec`]).
pub fn encode_choice(names: &Vec<String>, lists: &Vec<Vec<String>>) -> (r: Vec<(String, String)>)
    requires
        lists@.len() == names@.len(),
    ensures
        children_view(r@) == encode_spec(strings_view(names@), lists_view(lists@), names@.len() as int),
{
    let ghost nv = strings_view(names@);
    let ghost lv = lists_view(lists@);
    let mut out: Vec<(String, String)> = Vec::new();
    let mut k: usize = 0;
    assert(children_view(out@) =~= Seq::<(Seq<char>, Seq<char>)>::empty());
    while k < names.len()
        invariant
            k <= names@.len(),
            lists@.len() == names@.len(),
            nv == strings_view(names@),
            lv == lists_view(lists@),
            children_view(out@) == encode_spec(nv, lv, k as int),
        decreases names@.len() - k,
    {
        let list = &lists[k];
        let ghost base = children_view(out@);
        assert(lv[k as int] == strings_view(list@));
        let mut i: usize = 0;
        assert(lv[k as int].take(0) =~= Seq::<Seq<char>>::empty());
        assert(base + block(nv[k as int], lv[k as int].take(0)) =~= base);
        while i < list.len()
            invariant
                i <= list@.len(),
                k < names@.len(),
                list == lists@[k as int],
                lv[k as int] == strings_view(list@),
                nv == strings_view(names@),
                lv == lists_view(lists@),
                children_view(out@) == base + block(nv[k as int], lv[k as int].take(i as int)),
            decreases list@.len() - i,
        {
            let ghost before = children_view(out@);
            out.push((names[k].clone(), list[i].clone()));
            assert(lv[k as int].take(i + 1) =~= lv[k as int].take(i as int).push(list@[i as int]@));
            assert(children_view(out@) =~= before.push((nv[k as int], list@[i as int]@)));
            assert(base + block(nv[k as int], lv[k as int].take(i + 1))
                =~= (base + block(nv[k as int], lv[k as int].take(i as int))).push((nv[k as int], list@[i as int]@)));
            i = i + 1;
        }
        assert(lv[k as int].take(i as int) =~= lv[k as int]);
        k = k + 1;
    }
    out
}

} // verus!
