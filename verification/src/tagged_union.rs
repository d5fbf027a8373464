//! Source generation for tagged reference unions.
//!
//! A tagged reference union carries "a reference to exactly one of N known
//! shapes" through one boundary slot. This module holds the description of
//! such a union — its name and its elements — and renders the native sum
//! type that replaces it in a memory-safe setting: an enum with one
//! reference-carrying variant per shape.

use vstd::prelude::*;
use vstd::string::StringExecFns;

verus! {

/// One shape of a tagged union: the variant's name, the payload type it
/// references, and its position, which is its tag value.
pub struct TaggedEnumElement {
    pub name: String,
    pub inner_ty: String,
    pub i: usize,
}

impl TaggedEnumElement {
    pub fn new(name: &str, inner_ty: &str, i: usize) -> (e: Self)
        ensures
            e.name@ == name@,
            e.inner_ty@ == inner_ty@,
            e.i == i,
    {
        Self { name: name.to_owned(), inner_ty: inner_ty.to_owned(), i }
    }
}

/// The source line of one variant: `Name(&'a Type),`.
pub open spec fn spec_variant_line(e: TaggedEnumElement) -> Seq<char> {
    e.name@ + "(&'a "@ + e.inner_ty@ + "),\n"@
}

/// The source lines of the first `n` variants, in order.
pub open spec fn spec_variant_lines(elems: Seq<TaggedEnumElement>, n: int) -> Seq<char>
    decreases n,
{
    if n <= 0 {
        Seq::empty()
    } else {
        spec_variant_lines(elems, n - 1) + spec_variant_line(elems[n - 1])
    }
}

/// The source of the whole enum declaration.
pub open spec fn spec_enum_source(
    vis: Seq<char>,
    name: Seq<char>,
    elems: Seq<TaggedEnumElement>,
) -> Seq<char> {
    vis + " enum "@ + name + "<'a> {\n"@ + spec_variant_lines(elems, elems.len() as int) + "}\n"@
}

/// The description of a tagged union: the enum's name and its elements.
pub struct TaggedEnum {
    pub name: String,
    pub elements: Vec<TaggedEnumElement>,
}

impl TaggedEnum {
    pub fn new(name: String, elements: Vec<TaggedEnumElement>) -> (t: Self)
        ensures
            t.name@ == name@,
            t.elements@ == elements@,
    {
        Self { name, elements }
    }

    /// Render the native sum type this union becomes: an enum with one
    /// reference-carrying variant per element, under the given visibility.
    pub fn to_source(&self, vis: &str) -> (r: String)
        ensures
            r@ == spec_enum_source(vis@, self.name@, self.elements@),
    {
        let mut source = vis.to_owned();
        source.append(" enum ");
        source.append(self.name.as_str());
        source.append("<'a> {\n");
        let n = self.elements.len();
        let mut k: usize = 0;
        while k < n
            invariant
                0 <= k <= n == self.elements@.len(),
                source@ == vis@ + " enum "@ + self.name@ + "<'a> {\n"@ + spec_variant_lines(
                    self.elements@,
                    k as int,
                ),
            decreases n - k,
        {
            let e = &self.elements[k];
            source.append(e.name.as_str());
            source.append("(&'a ");
            source.append(e.inner_ty.as_str());
            source.append("),\n");
            k = k + 1;
        }
        source.append("}\n");
        source
    }
}

} // verus!
