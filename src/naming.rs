use vstd::prelude::*;
use vstd::string::*;

verus! {

/// What heck's snake case conversion makes of a name.
pub uninterp spec fn snake_case_of(s: Seq<char>) -> Seq<char>;

/// What heck's upper camel case conversion makes of a name.
pub uninterp spec fn upper_camel_case_of(s: Seq<char>) -> Seq<char>;

/// Relies on `heck::ToSnakeCase::to_snake_case` for `str`: the result depends
/// on the characters alone, and an empty name stays empty.
#[verifier::external_body]
fn snake_case(s: &str) -> (r: String)
    ensures
        r@ == snake_case_of(s@),
        s@.len() == 0 ==> r@.len() == 0,
{
    heck::ToSnakeCase::to_snake_case(s)
}

/// Relies on `heck::ToUpperCamelCase::to_upper_camel_case` for `str`: the
/// result depends on the characters alone, and an empty name stays empty.
#[verifier::external_body]
fn upper_camel_case(s: &str) -> (r: String)
    ensures
        r@ == upper_camel_case_of(s@),
        s@.len() == 0 ==> r@.len() == 0,
{
    heck::ToUpperCamelCase::to_upper_camel_case(s)
}

/// The field name that an XSD name gets: its snake case, with `type`
/// remapped to `kind`, which generated code cannot use as a field.
pub open spec fn field_name_of(raw: Seq<char>) -> Seq<char> {
    let n = snake_case_of(raw);
    if n == "type"@ {
        "kind"@
    } else {
        n
    }
}

/// Two texts are equal, character by character.
pub fn chars_eq(a: &str, b: &str) -> (r: bool)
    ensures
        r == (a@ == b@),
{
    let n = a.unicode_len();
    if n != b.unicode_len() {
        return false;
    }
    let mut i: usize = 0;
    while i < n
        invariant
            n == a@.len(),
            n == b@.len(),
            i <= n,
            forall|j: int| 0 <= j < i ==> a@[j] == b@[j],
        decreases n - i,
    {
        if a.get_char(i) != b.get_char(i) {
            return false;
        }
        i = i + 1;
    }
    assert(a@ =~= b@);
    true
}

/// The field name for an XSD name (see [`field_name_of`]).
pub fn mangle_field_name(raw: &str) -> (r: String)
    ensures
        r@ == field_name_of(raw@),
{
    let n = snake_case(raw);
    if chars_eq(n.as_str(), "type") {
        String::from_str("kind")
    } else {
        n
    }
}

/// The type name for an XSD name: its upper camel case.
pub fn type_name_of(raw: &str) -> (r: String)
    ensures
        r@ == upper_camel_case_of(raw@),
{
    upper_camel_case(raw)
}

/// Index of the first `:` in a qualified name, or its length if there is none.
pub open spec fn colon_index(s: Seq<char>) -> nat
    decreases s.len(),
{
    if s.len() == 0 {
        0
    } else if s[0] == ':' {
        0
    } else {
        1 + colon_index(s.skip(1))
    }
}

/// The prefix of a qualified name (`xs` of `xs:string`), if it has one.
pub open spec fn qname_prefix(s: Seq<char>) -> Option<Seq<char>> {
    if colon_index(s) < s.len() {
        Some(s.take(colon_index(s) as int))
    } else {
        None
    }
}

/// The local part of a qualified name (`string` of `xs:string`).
pub open spec fn qname_local(s: Seq<char>) -> Seq<char> {
    if colon_index(s) < s.len() {
        s.skip(colon_index(s) as int + 1)
    } else {
        s
    }
}

proof fn lemma_colon_index(s: Seq<char>, i: int)
    requires
        0 <= i <= s.len(),
        forall|j: int| 0 <= j < i ==> s[j] != ':',
        i == s.len() || s[i] == ':',
    ensures
        colon_index(s) == i,
    decreases i,
{
    if i > 0 {
        let t = s.skip(1);
        assert forall|j: int| 0 <= j < i - 1 implies t[j] != ':' by {
            assert(t[j] == s[j + 1]);
        }
        lemma_colon_index(t, i - 1);
    }
}

/// Splits a qualified name at its first `:` into prefix and local part.
pub fn split_qname(q: &str) -> (r: (Option<String>, String))
    ensures
        r.0 matches Some(p) ==> qname_prefix(q@) == Some(p@),
        r.0 is None ==> qname_prefix(q@) is None,
        r.1@ == qname_local(q@),
{
    let n = q.unicode_len();
    let mut i: usize = 0;
    while i < n
        invariant
            n == q@.len(),
            i <= n,
            forall|j: int| 0 <= j < i ==> q@[j] != ':',
        decreases n - i,
    {
        if q.get_char(i) == ':' {
            proof {
                lemma_colon_index(q@, i as int);
            }
            let p = String::from_str(q.substring_char(0, i));
            let l = String::from_str(q.substring_char(i + 1, n));
            return (Some(p), l);
        }
        i = i + 1;
    }
    proof {
        lemma_colon_index(q@, n as int);
    }
    (None, String::from_str(q))
}

} // verus!
