//! Finding the first polylist of the document's geometry libraries, and
//! decoding it.
use vstd::prelude::*;
use crate::document::{Document, GeometricElement, Geometry, Library, LoadError, Mesh, MeshData, MeshView, Polylist, Primitive};
use crate::lookup::{first_some, lemma_first_some_none, lemma_first_some_stable};
use crate::polylist::{decode_spec, process_polylist};

verus! {

pub open spec fn polylist_of() -> spec_fn(Primitive) -> Option<Polylist> {
    |p: Primitive| match p {
        Primitive::Polylist(pl) => Some(pl),
        Primitive::Other => None,
    }
}

/// The first polylist among the mesh's primitives.
pub open spec fn mesh_polylist<T>(m: Mesh<T>) -> Option<Polylist> {
    first_some(m.primitives@, polylist_of(), m.primitives@.len() as int)
}

pub open spec fn geometry_hit<T>() -> spec_fn(Geometry<T>) -> Option<(Mesh<T>, Polylist)> {
    |g: Geometry<T>| match g.element {
        GeometricElement::Mesh(m) => match mesh_polylist(m) {
            Some(pl) => Some((m, pl)),
            None => None,
        },
        GeometricElement::Other => None,
    }
}

pub open spec fn library_hit<T>() -> spec_fn(Library<T>) -> Option<(Mesh<T>, Polylist)> {
    |l: Library<T>| match l {
        Library::Geometries(gs) => first_some(gs@, geometry_hit(), gs@.len() as int),
        Library::Other => None,
    }
}

/// The first mesh and polylist, scanning libraries, then geometries, then
/// primitives in document order.
pub open spec fn locate_spec<T>(doc: Document<T>) -> Option<(Mesh<T>, Polylist)> {
    first_some(doc.libraries@, library_hit(), doc.libraries@.len() as int)
}

/// What loading a document yields.
pub open spec fn load_spec<T>(doc: Document<T>) -> Result<MeshView<T>, LoadError> {
    match locate_spec(doc) {
        None => Err(LoadError::NotFound),
        Some((m, pl)) => decode_spec(m, pl),
    }
}

fn mesh_first_polylist<'a, T>(mesh: &'a Mesh<T>) -> (r: Option<&'a Polylist>)
    ensures
        mesh_polylist(*mesh) == match r {
            Some(p) => Some(*p),
            None => None,
        },
{
    let n = mesh.primitives.len();
    let mut i: usize = 0;
    while i < n
        invariant
            n == mesh.primitives@.len(),
            i <= n,
            first_some(mesh.primitives@, polylist_of(), i as int) is None,
        decreases n - i,
    {
        if let Primitive::Polylist(pl) = &mesh.primitives[i] {
            proof {
                lemma_first_some_stable(mesh.primitives@, polylist_of(), i + 1, n as int);
            }
            return Some(pl);
        }
        i += 1;
    }
    None
}

fn geometry_polylist<'a, T>(g: &'a Geometry<T>) -> (r: Option<(&'a Mesh<T>, &'a Polylist)>)
    ensures
        (geometry_hit())(*g) == match r {
            Some((m, p)) => Some((*m, *p)),
            None => None,
        },
{
    match &g.element {
        GeometricElement::Mesh(m) => match mesh_first_polylist(m) {
            Some(pl) => Some((m, pl)),
            None => None,
        },
        GeometricElement::Other => None,
    }
}

fn library_polylist<'a, T>(l: &'a Library<T>) -> (r: Option<(&'a Mesh<T>, &'a Polylist)>)
    ensures
        (library_hit())(*l) == match r {
            Some((m, p)) => Some((*m, *p)),
            None => None,
        },
{
    match l {
        Library::Geometries(gs) => {
            assert((library_hit())(*l) == first_some(gs@, geometry_hit(), gs@.len() as int));
            let n = gs.len();
            let mut i: usize = 0;
            while i < n
                invariant
                    (library_hit())(*l) == first_some(gs@, geometry_hit(), gs@.len() as int),
                    n == gs@.len(),
                    i <= n,
                    first_some(gs@, geometry_hit(), i as int) is None,
                decreases n - i,
            {
                if let Some((m, p)) = geometry_polylist(&gs[i]) {
                    proof {
                        assert(first_some(gs@, geometry_hit(), i + 1) == Some((*m, *p)));
                        lemma_first_some_stable(gs@, geometry_hit(), i + 1, n as int);
                    }
                    return Some((m, p));
                }
                i += 1;
            }
            None
        },
        Library::Other => None,
    }
}

/// Finds the first polylist of a mesh of a geometry library; later ones are
/// not looked at.
pub fn find_polylist<'a, T>(doc: &'a Document<T>) -> (r: Option<(&'a Mesh<T>, &'a Polylist)>)
    ensures
        locate_spec(*doc) == match r {
            Some((m, p)) => Some((*m, *p)),
            None => None,
        },
{
    let n = doc.libraries.len();
    let mut i: usize = 0;
    while i < n
        invariant
            n == doc.libraries@.len(),
            i <= n,
            first_some(doc.libraries@, library_hit(), i as int) is None,
        decreases n - i,
    {
        if let Some(hit) = library_polylist(&doc.libraries[i]) {
            proof {
                lemma_first_some_stable(doc.libraries@, library_hit(), i + 1, n as int);
            }
            return Some(hit);
        }
        i += 1;
    }
    None
}

/// Decodes the first polylist of the document into vertex records and an
/// index buffer.
pub fn load_mesh<T: Copy>(doc: &Document<T>) -> (r: Result<MeshData<T>, LoadError>)
    ensures
        match r {
            Ok(m) => load_spec(*doc) == Ok::<MeshView<T>, LoadError>(m@),
            Err(e) => load_spec(*doc) == Err::<MeshView<T>, LoadError>(e),
        },
{
    match find_polylist(doc) {
        Some((mesh, polylist)) => process_polylist(mesh, polylist),
        None => Err(LoadError::NotFound),
    }
}

/// A document without any geometry library yields [`LoadError::NotFound`].
pub proof fn lemma_no_geometry_library<T>(doc: Document<T>)
    requires
        forall|j: int| 0 <= j < doc.libraries@.len() ==> doc.libraries@[j] is Other,
    ensures
        load_spec(doc) == Err::<MeshView<T>, LoadError>(LoadError::NotFound),
{
    assert forall|j: int| 0 <= j < doc.libraries@.len() implies (#[trigger] (library_hit())(doc.libraries@[j])) is None by {}
    lemma_first_some_none(doc.libraries@, library_hit(), doc.libraries@.len() as int);
}

} // verus!
