//! String comparisons and the semantic tokens the decoder dispatches on.
use vstd::prelude::*;

verus! {

/// The semantics the decoder acts upon; every other token is ignored.
#[derive(Debug, Clone, Copy, PartialEq, Eq, Structural)]
pub enum Semantic {
    Vertex,
    Normal,
    Other,
}

pub open spec fn semantic_spec(s: Seq<char>) -> Semantic {
    if s == "VERTEX"@ {
        Semantic::Vertex
    } else if s == "NORMAL"@ {
        Semantic::Normal
    } else {
        Semantic::Other
    }
}

/// Character-wise equality of two strings.
pub fn str_eq(a: &str, b: &str) -> (r: bool)
    ensures
        r == (a@ == b@),
{
    let n = a.unicode_len();
    if n != b.unicode_len() {
        return false;
    }
    let mut i: usize = 0;
    while i < n
        invariant
            n == a@.len(),
            n == b@.len(),
            i <= n,
            forall|j: int| 0 <= j < i ==> a@[j] == b@[j],
        decreases n - i,
    {
        if a.get_char(i) != b.get_char(i) {
            return false;
        }
        i += 1;
    }
    assert(a@ =~= b@);
    true
}

/// Classifies a semantic token of a polylist input.
pub fn semantic_of(s: &str) -> (r: Semantic)
    ensures
        r == semantic_spec(s@),
{
    if str_eq(s, "VERTEX") {
        Semantic::Vertex
    } else if str_eq(s, "NORMAL") {
        Semantic::Normal
    } else {
        Semantic::Other
    }
}

} // verus!
