//! Lookups by id and by semantic inside one mesh.
use vstd::prelude::*;
use crate::document::{Mesh, Source, UnsharedInput};
use crate::text::str_eq;

verus! {

/// The first `Some` that `f` gives on `s[0]`, ..., `s[n - 1]`, in that order.
pub open spec fn first_some<A, B>(s: Seq<A>, f: spec_fn(A) -> Option<B>, n: int) -> Option<B>
    decreases n,
{
    if n <= 0 {
        None
    } else {
        match first_some(s, f, n - 1) {
            Some(b) => Some(b),
            None => f(s[n - 1]),
        }
    }
}

/// Once a prefix has produced a hit, longer prefixes produce the same hit.
pub proof fn lemma_first_some_stable<A, B>(s: Seq<A>, f: spec_fn(A) -> Option<B>, m: int, n: int)
    requires
        0 <= m <= n,
        first_some(s, f, m) is Some,
    ensures
        first_some(s, f, n) == first_some(s, f, m),
    decreases n - m,
{
    if m < n {
        lemma_first_some_stable(s, f, m, n - 1);
    }
}

/// Where `f` gives `None` on every element of a prefix, the prefix has no hit.
pub proof fn lemma_first_some_none<A, B>(s: Seq<A>, f: spec_fn(A) -> Option<B>, n: int)
    requires
        0 <= n <= s.len(),
        forall|j: int| 0 <= j < n ==> (#[trigger] f(s[j])) is None,
    ensures
        first_some(s, f, n) is None,
    decreases n,
{
    if n > 0 {
        lemma_first_some_none(s, f, n - 1);
    }
}

pub open spec fn source_with_id<T>(id: Seq<char>) -> spec_fn(Source<T>) -> Option<Source<T>> {
    |s: Source<T>| if s.id@ == id { Some(s) } else { None }
}

/// The first source of `mesh` whose id is `id`.
pub open spec fn source_spec<T>(mesh: Mesh<T>, id: Seq<char>) -> Option<Source<T>> {
    first_some(mesh.sources@, source_with_id(id), mesh.sources@.len() as int)
}

pub open spec fn position_source() -> spec_fn(UnsharedInput) -> Option<Seq<char>> {
    |i: UnsharedInput| if i.semantic@ == "POSITION"@ { Some(i.source@) } else { None }
}

/// The source id of the first `POSITION` input of the mesh's `<vertices>` block.
pub open spec fn position_source_spec<T>(mesh: Mesh<T>) -> Option<Seq<char>> {
    first_some(
        mesh.vertices.inputs@,
        position_source(),
        mesh.vertices.inputs@.len() as int,
    )
}

/// Finds the first source of `mesh` with the given id.
pub fn find_source<'a, T>(mesh: &'a Mesh<T>, id: &str) -> (r: Option<&'a Source<T>>)
    ensures
        source_spec(*mesh, id@) == match r {
            Some(s) => Some(*s),
            None => None,
        },
{
    let n = mesh.sources.len();
    let mut i: usize = 0;
    while i < n
        invariant
            n == mesh.sources@.len(),
            i <= n,
            first_some(mesh.sources@, source_with_id(id@), i as int) is None,
        decreases n - i,
    {
        let s = &mesh.sources[i];
        if str_eq(s.id.as_str(), id) {
            proof {
                lemma_first_some_stable(mesh.sources@, source_with_id(id@), i + 1, n as int);
            }
            return Some(s);
        }
        i += 1;
    }
    None
}

/// Finds the source id of the first `POSITION` input of the mesh's `<vertices>`.
pub fn find_position_source<'a, T>(mesh: &'a Mesh<T>) -> (r: Option<&'a String>)
    ensures
        position_source_spec(*mesh) == match r {
            Some(s) => Some(s@),
            None => None,
        },
{
    let inputs = &mesh.vertices.inputs;
    let n = inputs.len();
    let mut i: usize = 0;
    while i < n
        invariant
            inputs == &mesh.vertices.inputs,
            n == inputs@.len(),
            i <= n,
            first_some(inputs@, position_source(), i as int) is None,
        decreases n - i,
    {
        let input = &inputs[i];
        if str_eq(input.semantic.as_str(), "POSITION") {
            proof {
                lemma_first_some_stable(inputs@, position_source(), i + 1, n as int);
            }
            return Some(&input.source);
        }
        i += 1;
    }
    None
}

} // verus!
